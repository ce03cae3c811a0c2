//! The notifications shown in the corner of the page: pushed with a fresh id,
//! removed by that id once their time is up.
use vstd::prelude::*;
use crate::pipeline_error::{is_message_of, FetchError};

verus! {

/// How severe a notification is.
#[derive(Clone, Copy, Debug, PartialEq, Eq, Structural)]
pub enum NotificationLevel {
    Error,
    Warning,
    Info,
}

/// One shown notification.
#[derive(Clone, Debug)]
pub struct NotificationEntry {
    pub id: u128,
    pub message: String,
    pub level: NotificationLevel,
}

/// The shown notifications, oldest first.
pub struct NotificationList {
    entries: Vec<NotificationEntry>,
}

impl View for NotificationList {
    type V = Seq<NotificationEntry>;

    closed spec fn view(&self) -> Self::V {
        self.entries@
    }
}

/// Whether an entry does not carry the id `id`.
pub open spec fn other_id(id: u128) -> spec_fn(NotificationEntry) -> bool {
    |e: NotificationEntry| e.id != id
}

/// A fresh notification id: a random version 4 UUID of `uuid`, as a number.
///
/// Trusted: nothing is claimed of the id; it is random.
#[verifier::external_body]
fn fresh_id() -> (r: u128) {
    uuid::Uuid::new_v4().as_u128()
}

impl NotificationList {
    /// No notifications.
    pub fn new() -> (r: Self)
        ensures
            r@ == Seq::<NotificationEntry>::empty(),
    {
        NotificationList { entries: Vec::new() }
    }

    /// Shows `entry` after the others.
    pub fn push(&mut self, entry: NotificationEntry)
        ensures
            final(self)@ == old(self)@.push(entry),
    {
        self.entries.push(entry);
    }

    /// Removes the notifications with id `id`, keeping the others in order.
    pub fn expire(&mut self, id: u128)
        ensures
            final(self)@ == old(self)@.filter(other_id(id)),
    {
        let ghost initial = self.entries@;
        let mut kept: Vec<NotificationEntry> = Vec::new();
        let mut rest = Vec::new();
        std::mem::swap(&mut rest, &mut self.entries);
        proof {
            assert(initial.take(0) =~= Seq::<NotificationEntry>::empty());
            reveal_with_fuel(Seq::<_>::filter, 1);
        }
        while rest.len() > 0
            invariant
                rest@.len() <= initial.len(),
                rest@ == initial.skip(initial.len() - rest@.len()),
                kept@ == initial.take(initial.len() - rest@.len()).filter(other_id(id)),
            decreases rest@.len(),
        {
            let ghost done = initial.len() - rest@.len();
            let entry = rest.remove(0);
            proof {
                assert(initial[done] == entry);
                assert(initial.take(done + 1).drop_last() =~= initial.take(done));
                assert(initial.take(done + 1).last() == entry);
                assert(rest@ =~= initial.skip(done + 1));
                reveal_with_fuel(Seq::<_>::filter, 1);
            }
            if entry.id != id {
                kept.push(entry);
            }
        }
        proof {
            assert(initial.take(initial.len() as int) =~= initial);
        }
        self.entries = kept;
    }

    /// Shows `message` at `level` under a fresh id, and returns the id by
    /// which it expires once its time is up.
    pub fn notify(&mut self, level: NotificationLevel, message: String) -> (id: u128)
        ensures
            final(self)@ == old(self)@.push(NotificationEntry { id, message, level }),
    {
        let id = fresh_id();
        self.entries.push(NotificationEntry { id, message, level });
        id
    }

    /// Shows the message of a failed request as an error; a successful one
    /// shows nothing. The answer is the id of the shown notification.
    pub fn notify_failure<T>(&mut self, result: &Result<T, FetchError>) -> (r: Option<u128>)
        ensures
            match result {
                Ok(_) => r is None && final(self)@ == old(self)@,
                Err(e) => r matches Some(id) && final(self)@.len() == old(self)@.len() + 1
                    && final(self)@.drop_last() == old(self)@ && final(self)@.last().id == id
                    && final(self)@.last().level == NotificationLevel::Error && is_message_of(
                    *e,
                    final(self)@.last().message@,
                ),
            },
    {
        match result {
            Ok(_) => None,
            Err(e) => {
                let message = e.message();
                let id = self.notify(NotificationLevel::Error, message);
                assert(self@.drop_last() =~= old(self)@);
                Some(id)
            },
        }
    }

    /// The shown notifications, oldest first.
    pub fn entries(&self) -> (r: &Vec<NotificationEntry>)
        ensures
            r@ == self@,
    {
        &self.entries
    }
}

/// Filtering out an id no entry carries leaves the entries as they are.
proof fn lemma_filter_absent_id(shown: Seq<NotificationEntry>, id: u128)
    requires
        forall|i: int| 0 <= i < shown.len() ==> (#[trigger] shown[i]).id != id,
    ensures
        shown.filter(other_id(id)) == shown,
    decreases shown.len(),
{
    reveal_with_fuel(Seq::<_>::filter, 1);
    if shown.len() > 0 {
        let rest = shown.drop_last();
        assert forall|i: int| 0 <= i < rest.len() implies (#[trigger] rest[i]).id != id by {
            assert(rest[i] == shown[i]);
        }
        lemma_filter_absent_id(rest, id);
        assert(shown.last().id != id);
        assert(rest.push(shown.last()) =~= shown);
    } else {
        assert(shown.filter(other_id(id)) =~= shown);
    }
}

/// A notification pushed with a fresh id and expired later leaves the other
/// notifications exactly as they were before the push.
pub proof fn lemma_expire_undoes_push(shown: Seq<NotificationEntry>, entry: NotificationEntry)
    requires
        forall|i: int| 0 <= i < shown.len() ==> (#[trigger] shown[i]).id != entry.id,
    ensures
        shown.push(entry).filter(other_id(entry.id)) == shown,
{
    reveal_with_fuel(Seq::<_>::filter, 1);
    assert(shown.push(entry).drop_last() =~= shown);
    lemma_filter_absent_id(shown, entry.id);
}

/// The background and border colors a notification of `level` is shown in.
pub fn level_colors(level: NotificationLevel) -> (r: (&'static str, &'static str))
    ensures
        level == NotificationLevel::Error ==> r.0@ == "#dc2626"@ && r.1@ == "#ef4444"@,
        level == NotificationLevel::Warning ==> r.0@ == "#ca8a04"@ && r.1@ == "#eab308"@,
        level == NotificationLevel::Info ==> r.0@ == "#2563eb"@ && r.1@ == "#3b82f6"@,
{
    match level {
        NotificationLevel::Error => ("#dc2626", "#ef4444"),
        NotificationLevel::Warning => ("#ca8a04", "#eab308"),
        NotificationLevel::Info => ("#2563eb", "#3b82f6"),
    }
}

} // verus!
