//! One entry of the secret store.
use vstd::prelude::*;

verus! {

/// An entry: its identifier, which is its path in the store without the
/// file extension, and when it was last modified.
#[derive(Debug, Clone)]
pub struct PasswordInfo {
    pub pass_id: String,
    /// Seconds since the Unix epoch, where the file system tells.
    pub modified: Option<u64>,
}

/// The identifiers of a list of entries.
pub open spec fn ids_of(passwords: Seq<PasswordInfo>) -> Seq<Seq<char>> {
    Seq::new(passwords.len(), |i: int| passwords[i].pass_id@)
}

/// The minutes since the Unix epoch that a count of seconds stands for on
/// a 32-bit clock: the seconds, cut to 32 bits and read as a signed number,
/// divided by sixty towards zero.
pub open spec fn spec_minutes(seconds: u64) -> int {
    let clock = seconds as i32;
    if clock >= 0 {
        clock as int / 60
    } else {
        -((-(clock as int)) / 60)
    }
}

/// A time given in minutes since the Unix epoch, written out in English by
/// the Gregorian calendar with a medium date and a short time, as
/// `icu::datetime::TypedDateTimeFormatter::format_to_string` writes it.
pub uninterp spec fn formatted_minutes(minutes: int) -> Seq<char>;

/// What is shown for an entry whose time of modification is not known.
pub open spec fn unknown_time() -> Seq<char> {
    "Unknown"@
}

/// Writes out a time with `icu`: the minutes become a date and time through
/// `DateTime::from_minutes_since_local_unix_epoch`, which a
/// `TypedDateTimeFormatter` for English and the Gregorian calendar, made
/// with a medium date and a short time, formats to a string.
///
/// Trusted: the text is a function of the minutes alone, named
/// [`formatted_minutes`].
#[verifier::external_body]
fn format_minutes(minutes: i32) -> (text: String)
    ensures
        text@ == formatted_minutes(minutes as int),
{
    let options = icu::datetime::options::length::Bag::from_date_time_style(
        icu::datetime::options::length::Date::Medium,
        icu::datetime::options::length::Time::Short,
    );
    let locale: icu::locid::Locale = "en".parse().expect("a well-formed locale");
    let formatter = icu::datetime::TypedDateTimeFormatter::<icu::calendar::Gregorian>::try_new(
        &locale.into(),
        options.into(),
    ).expect("failed to create TypedDateTimeFormatter instance.");
    let datetime = icu::calendar::DateTime::from_minutes_since_local_unix_epoch(minutes);
    formatter.format_to_string(&datetime.to_calendar(icu::calendar::Gregorian))
}

impl PasswordInfo {
    pub fn new(pass_id: String, modified: Option<u64>) -> (info: Self)
        ensures
            info.pass_id == pass_id,
            info.modified == modified,
    {
        PasswordInfo { pass_id, modified }
    }

    /// When the entry was last modified, in minutes since the Unix epoch on
    /// a 32-bit clock.
    pub fn modified_minutes(&self) -> (minutes: Option<i32>)
        ensures
            minutes == match self.modified {
                Some(seconds) => Some(spec_minutes(seconds) as i32),
                None => None,
            },
            self.modified matches Some(seconds) ==> i32::MIN <= spec_minutes(seconds) <= i32::MAX,
    {
        match self.modified {
            Some(seconds) => {
                let clock = #[verifier::truncate] (seconds as i32);
                Some(clock / 60)
            },
            None => None,
        }
    }

    /// When the entry was last modified, written out for the table, or
    /// `Unknown` where the time is not known.
    pub fn last_modified(&self) -> (text: String)
        ensures
            text@ == match self.modified {
                Some(seconds) => formatted_minutes(spec_minutes(seconds)),
                None => unknown_time(),
            },
    {
        match self.modified_minutes() {
            Some(minutes) => format_minutes(minutes),
            None => "Unknown".to_owned(),
        }
    }

    /// A copy of the identifier.
    pub fn pass_id(&self) -> (pass_id: String)
        ensures
            pass_id == self.pass_id,
    {
        self.pass_id.clone()
    }
}

} // verus!
