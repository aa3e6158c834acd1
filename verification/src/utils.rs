//! A registry of running operations, one record for each kind of
//! operation, that keeps an operation from being started again on the same
//! entry while it still runs.
use vstd::prelude::*;

use futures::channel::oneshot::{Receiver, Sender};

use crate::dedup::{completion_of, Completion};
use crate::text::strings_equal;

verus! {

/// The record of the operation of one kind that was started last.
struct Record {
    id: String,
    pass_id: String,
    completion_receiver: Receiver<u8>,
}

/// The operations that were started last, by kind.
pub struct Operations {
    records: Vec<Record>,
}

/// What a record says: the kind of operation and the entry it works on.
pub struct RecordView {
    pub id: Seq<char>,
    pub pass_id: Seq<char>,
}

/// The entry of the first of the records that is of the kind `id`.
pub open spec fn lookup(records: Seq<RecordView>, id: Seq<char>) -> Option<Seq<char>>
    decreases records.len(),
{
    if records.len() == 0 {
        None
    } else if records[0].id == id {
        Some(records[0].pass_id)
    } else {
        lookup(records.drop_first(), id)
    }
}

/// Whether an operation of the kind `id` may start on the entry, given
/// what the completion signal of the recorded operation of that kind says.
/// It may unless an operation of that kind is recorded for the same entry
/// and still runs.
pub open spec fn may_start(
    recorded: Option<Seq<char>>,
    pass_id: Seq<char>,
    signal: Completion,
) -> bool {
    recorded != Some(pass_id) || signal != Completion::Pending
}

impl Record {
    spec fn view(&self) -> RecordView {
        RecordView { id: self.id@, pass_id: self.pass_id@ }
    }
}

impl View for Operations {
    type V = Map<Seq<char>, Seq<char>>;

    /// For each kind of operation that has a record, the entry that the
    /// recorded operation works on.
    closed spec fn view(&self) -> Map<Seq<char>, Seq<char>> {
        Map::new(
            |id: Seq<char>| lookup(self.list(), id) is Some,
            |id: Seq<char>| lookup(self.list(), id)->0,
        )
    }
}

/// The entry recorded for a kind of operation, if there is one.
pub open spec fn recorded_in(records: Map<Seq<char>, Seq<char>>, id: Seq<char>) -> Option<
    Seq<char>,
> {
    if records.dom().contains(id) {
        Some(records[id])
    } else {
        None
    }
}

impl Operations {
    /// The records in the order in which their kinds were first seen.
    closed spec fn list(&self) -> Seq<RecordView> {
        Seq::new(self.records@.len(), |i: int| self.records@[i].view())
    }

    /// The entry that the recorded operation of the kind `id` works on.
    pub open spec fn recorded(&self, id: Seq<char>) -> Option<Seq<char>> {
        recorded_in(self@, id)
    }

    /// A registry without records.
    pub fn new() -> (operations: Self)
        ensures
            operations@ == Map::<Seq<char>, Seq<char>>::empty(),
    {
        let operations = Operations { records: Vec::new() };
        assert(operations.list() =~= Seq::<RecordView>::empty());
        assert(operations@ =~= Map::<Seq<char>, Seq<char>>::empty());
        operations
    }

    /// The position of the first record of the kind `id`.
    fn find(&self, id: &str) -> (found: Option<usize>)
        ensures
            match found {
                Some(i) => {
                    &&& i < self.list().len()
                    &&& self.list()[i as int].id == id@
                    &&& forall|j: int| 0 <= j < i ==> self.list()[j].id != id@
                    &&& lookup(self.list(), id@) == Some(self.list()[i as int].pass_id)
                    &&& self.recorded(id@) == Some(self.list()[i as int].pass_id)
                },
                None => {
                    &&& forall|j: int| 0 <= j < self.list().len() ==> self.list()[j].id != id@
                    &&& lookup(self.list(), id@) is None
                    &&& self.recorded(id@) is None
                },
            },
    {
        let mut i: usize = 0;
        while i < self.records.len()
            invariant
                i <= self.records.len(),
                forall|j: int| 0 <= j < i ==> self.list()[j].id != id@,
            decreases self.records.len() - i,
        {
            if strings_equal(self.records[i].id.as_str(), id) {
                proof {
                    lemma_lookup_at(self.list(), id@, i as int);
                }
                return Some(i);
            }
            i = i + 1;
        }
        proof {
            lemma_lookup_none(self.list(), id@);
        }
        None
    }

    /// Asks the completion signal of the recorded operation of the kind
    /// `id` how far that operation has got, where it works on the entry
    /// `pass_id`. The records stay as they are. Where no operation of that
    /// kind is recorded for the entry, nothing is asked and the answer is
    /// pending.
    pub fn poll(&mut self, id: &str, pass_id: &str) -> (signal: Completion)
        ensures
            final(self)@ == old(self)@,
            old(self).recorded(id@) != Some(pass_id@) ==> signal == Completion::Pending,
    {
        match self.find(id) {
            Some(i) => {
                if strings_equal(self.records[i].pass_id.as_str(), pass_id) {
                    let polled = self.records[i].completion_receiver.try_recv();
                    assert(self.list() =~= old(self).list());
                    completion_of(polled)
                } else {
                    Completion::Pending
                }
            },
            None => Completion::Pending,
        }
    }

    /// Answers a request, given what the completion signal of the recorded
    /// operation of the kind `id` says. An operation may start unless one of
    /// its kind is recorded for the same entry and its signal is pending. An
    /// operation that may start is recorded in place of what was recorded
    /// for its kind, and the sending half of a fresh completion signal is
    /// handed out; one that may not leaves the records as they are.
    pub fn settle(&mut self, id: &str, pass_id: String, signal: Completion) -> (permit: Option<
        Sender<u8>,
    >)
        ensures
            (permit is Some) == may_start(old(self).recorded(id@), pass_id@, signal),
            permit is Some ==> final(self)@ == old(self)@.insert(id@, pass_id@),
            permit is None ==> final(self)@ == old(self)@,
    {
        if !self.decide(id, pass_id.as_str(), signal) {
            return None;
        }
        let (sender, receiver) = futures::channel::oneshot::channel::<u8>();
        let ghost entry = pass_id@;
        match self.find(id) {
            Some(i) => {
                self.records[i].pass_id = pass_id;
                self.records[i].completion_receiver = receiver;
                proof {
                    assert(self.list() =~= old(self).list().update(
                        i as int,
                        RecordView { id: id@, pass_id: entry },
                    ));
                    assert forall|other: Seq<char>|
                        (other != id@ ==> #[trigger] lookup(self.list(), other) == lookup(
                            old(self).list(),
                            other,
                        )) && lookup(self.list(), id@) == Some(entry) by {
                        lemma_lookup_update(old(self).list(), i as int, entry, other);
                    }
                    assert(self@ =~= old(self)@.insert(id@, entry));
                }
            },
            None => {
                let ghost record = RecordView { id: id@, pass_id: entry };
                self.records.push(Record { id: id.to_owned(), pass_id, completion_receiver: receiver });
                proof {
                    assert(self.list() =~= old(self).list().push(record));
                    assert forall|other: Seq<char>|
                        (other != id@ ==> #[trigger] lookup(self.list(), other) == lookup(
                            old(self).list(),
                            other,
                        )) && lookup(self.list(), id@) == Some(entry) by {
                        lemma_lookup_push(old(self).list(), record, other);
                    }
                    assert(self@ =~= old(self)@.insert(id@, entry));
                }
            },
        }
        Some(sender)
    }

    /// Decides a request against the records, given what the completion
    /// signal of the recorded operation of that kind says.
    pub fn decide(&self, id: &str, pass_id: &str, signal: Completion) -> (permitted: bool)
        ensures
            permitted == may_start(self.recorded(id@), pass_id@, signal),
    {
        match self.find(id) {
            Some(i) => {
                if strings_equal(self.records[i].pass_id.as_str(), pass_id) {
                    match signal {
                        Completion::Pending => false,
                        _ => true,
                    }
                } else {
                    true
                }
            },
            None => true,
        }
    }
}

/// The first record of a kind is the one that `lookup` finds.
proof fn lemma_lookup_at(records: Seq<RecordView>, id: Seq<char>, i: int)
    requires
        0 <= i < records.len(),
        records[i].id == id,
        forall|j: int| 0 <= j < i ==> records[j].id != id,
    ensures
        lookup(records, id) == Some(records[i].pass_id),
    decreases i,
{
    if i > 0 {
        lemma_lookup_at(records.drop_first(), id, i - 1);
    }
}

/// Where no record is of a kind, `lookup` finds none.
proof fn lemma_lookup_none(records: Seq<RecordView>, id: Seq<char>)
    requires
        forall|j: int| 0 <= j < records.len() ==> records[j].id != id,
    ensures
        lookup(records, id) is None,
    decreases records.len(),
{
    if records.len() > 0 {
        assert forall|j: int| 0 <= j < records.drop_first().len() implies records.drop_first()[j].id
            != id by {
            assert(records.drop_first()[j] == records[j + 1]);
        }
        lemma_lookup_none(records.drop_first(), id);
    }
}

/// Replacing the entry of the first record of a kind changes what is
/// recorded for that kind alone.
proof fn lemma_lookup_update(records: Seq<RecordView>, i: int, pass_id: Seq<char>, other: Seq<char>)
    requires
        0 <= i < records.len(),
        forall|j: int| 0 <= j < i ==> records[j].id != records[i].id,
    ensures
        lookup(records.update(i, RecordView { id: records[i].id, pass_id }), records[i].id) == Some(
            pass_id,
        ),
        other != records[i].id ==> lookup(
            records.update(i, RecordView { id: records[i].id, pass_id }),
            other,
        ) == lookup(records, other),
    decreases i,
{
    let updated = records.update(i, RecordView { id: records[i].id, pass_id });
    if i > 0 {
        lemma_lookup_update(records.drop_first(), i - 1, pass_id, other);
        assert(updated.drop_first() =~= records.drop_first().update(
            i - 1,
            RecordView { id: records[i].id, pass_id },
        ));
    } else {
        assert(updated.drop_first() =~= records.drop_first());
    }
}

/// A new record behind the others changes what is recorded for its kind
/// alone, where no record was of that kind.
proof fn lemma_lookup_push(records: Seq<RecordView>, record: RecordView, other: Seq<char>)
    requires
        lookup(records, record.id) is None,
    ensures
        lookup(records.push(record), record.id) == Some(record.pass_id),
        other != record.id ==> lookup(records.push(record), other) == lookup(records, other),
    decreases records.len(),
{
    let longer = records.push(record);
    if records.len() > 0 {
        lemma_lookup_push(records.drop_first(), record, other);
        assert(longer.drop_first() =~= records.drop_first().push(record));
        assert(longer[0] == records[0]);
    } else {
        assert(longer.drop_first() =~= Seq::<RecordView>::empty());
        assert(longer[0] == record);
        assert(lookup(longer.drop_first(), other) is None);
        assert(lookup(records, other) is None);
    }
}

/// Asks whether an operation of the kind `id` may start on the entry
/// `pass_id`. It may not while an operation of that kind on the same entry
/// still runs. If it may, it is recorded in place of what was recorded for
/// its kind, and the sending half of a fresh completion signal is handed
/// out: whoever runs the operation sends one value through it, or lets go
/// of it, when the operation has ended.
///
/// The answer is that of [`Operations::settle`] for what the completion
/// signal of the recorded operation says at this moment. It does not depend
/// on the signal unless an operation of that kind is recorded for the same
/// entry.
pub fn run_once(ops_map: &mut Operations, id: &str, pass_id: String) -> (permit: Option<Sender<u8>>)
    ensures
        exists|signal: Completion| (permit is Some) == #[trigger] may_start(
            old(ops_map).recorded(id@),
            pass_id@,
            signal,
        ),
        old(ops_map).recorded(id@) != Some(pass_id@) ==> permit is Some,
        permit is Some ==> final(ops_map)@ == old(ops_map)@.insert(id@, pass_id@),
        permit is None ==> final(ops_map)@ == old(ops_map)@,
{
    let signal = ops_map.poll(id, pass_id.as_str());
    let permit = ops_map.settle(id, pass_id, signal);
    assert((permit is Some) == may_start(old(ops_map).recorded(id@), pass_id@, signal));
    permit
}

/// An operation is not started twice on one entry while it runs, and is
/// started again once it has ended; operations of other kinds, and on other
/// entries, are never held up.
pub proof fn lemma_run_once_per_entry(
    recorded: Option<Seq<char>>,
    pass_id: Seq<char>,
    other: Seq<char>,
    signal: Completion,
)
    requires
        other != pass_id,
    ensures
        !may_start(Some(pass_id), pass_id, Completion::Pending),
        may_start(Some(pass_id), pass_id, Completion::Done),
        may_start(Some(pass_id), pass_id, Completion::Dropped),
        may_start(Some(pass_id), other, signal),
        may_start(None, pass_id, signal),
{
}

} // verus!
