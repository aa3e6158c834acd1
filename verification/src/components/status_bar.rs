//! The status line.
use vstd::prelude::*;

verus! {

#[derive(Debug, Clone)]
pub struct StatusBar {
    text: String,
}

/// The text an idle status line shows.
pub open spec fn ready() -> Seq<char> {
    "Ready"@
}

impl View for StatusBar {
    type V = Seq<char>;

    closed spec fn view(&self) -> Seq<char> {
        self.text@
    }
}

impl StatusBar {
    pub fn new() -> (bar: Self)
        ensures
            bar@ == ready(),
    {
        StatusBar { text: "Ready".to_owned() }
    }

    pub fn set_status(&mut self, message: String)
        ensures
            final(self)@ == message@,
    {
        self.text = message;
    }

    pub fn reset_status(&mut self)
        ensures
            final(self)@ == ready(),
    {
        self.text = "Ready".to_owned();
    }

    /// The text shown.
    pub fn text(&self) -> (text: &String)
        ensures
            text@ == self@,
    {
        &self.text
    }
}

} // verus!
