//! Device parameter changes that wait to be uploaded.
//!
//! Every edit of a device's parameters records the newest change for that
//! device. An upload task takes one change at a time, waits a moment, and
//! sends it only if no newer change of the same device came in meanwhile;
//! otherwise the newer one is sent later.
use std::collections::HashMap;
use vstd::prelude::*;

verus! {

broadcast use vstd::std_specs::hash::group_hash_axioms;

/// The pending changes, at most one per device (the newest).
pub struct UnsavedChanges<C> {
    changes: HashMap<u128, C>,
}

impl<C> View for UnsavedChanges<C> {
    type V = Map<u128, C>;

    closed spec fn view(&self) -> Self::V {
        self.changes@
    }
}

impl<C> UnsavedChanges<C> {
    /// No pending changes.
    pub fn new() -> (r: Self)
        ensures
            r@ == Map::<u128, C>::empty(),
    {
        UnsavedChanges { changes: HashMap::new() }
    }

    /// Whether a change of `device` waits to be sent.
    pub fn has_pending(&self, device: u128) -> (r: bool)
        ensures
            r == self@.contains_key(device),
    {
        self.changes.contains_key(&device)
    }

    /// Whether no change waits.
    pub fn is_empty(&self) -> (r: bool)
        ensures
            r == (self@.dom() == Set::<u128>::empty()),
    {
        let r = self.changes.is_empty();
        proof {
            if r {
                assert(self@.dom() =~= Set::<u128>::empty());
            }
        }
        r
    }

    /// Records the newest change of `device`, replacing an older one.
    pub fn record(&mut self, device: u128, change: C)
        ensures
            final(self)@ == old(self)@.insert(device, change),
    {
        self.changes.insert(device, change);
    }

    /// Takes one pending change out (the order in which the map lists its
    /// devices decides which), or `None` if none waits.
    pub fn take_next(&mut self) -> (r: Option<(u128, C)>)
        ensures
            match r {
                Some((device, change)) => old(self)@.contains_key(device) && old(self)@[device]
                    == change && final(self)@ == old(self)@.remove(device),
                None => old(self)@.dom() == Set::<u128>::empty() && final(self)@ == old(self)@,
            },
    {
        let mut first: Option<u128> = None;
        for k in listed: self.changes.keys()
            invariant
                first is None <==> listed.index() == 0,
                listed.seq().unref().to_set() == self@.dom(),
                listed.seq().len() == self@.dom().len(),
                match first {
                    Some(d) => self@.contains_key(d),
                    None => true,
                },
        {
            assert(listed.seq().unref()[listed.index() as int] == *k);
            assert(listed.seq().unref().to_set().contains(*k));
            first = Some(*k);
        }
        proof {
            if first is None {
                assert(self@.dom().len() == 0);
                assert(self@.dom() =~= Set::<u128>::empty());
            }
        }
        match first {
            None => None,
            Some(device) => match self.changes.remove(&device) {
                Some(change) => Some((device, change)),
                None => None,
            },
        }
    }

    /// Whether a change of `device`, taken out before the debounce pause, is
    /// still to be sent after it: only if no newer change of the device came
    /// in meanwhile.
    pub fn should_send_after_debounce(&self, device: u128) -> (r: bool)
        ensures
            r == !self@.contains_key(device),
    {
        !self.has_pending(device)
    }
}

/// Whether the upload task is started: the pending changes could be read,
/// some wait, and the task is not running already.
pub fn should_dispatch(readable: bool, is_empty: bool, running: bool) -> (r: bool)
    ensures
        r == (readable && !is_empty && !running),
{
    readable && !is_empty && !running
}

/// The pending changes after `records` were recorded, in order, starting
/// from `pending`.
pub open spec fn after_records<C>(pending: Map<u128, C>, records: Seq<(u128, C)>) -> Map<u128, C>
    decreases records.len(),
{
    if records.len() == 0 {
        pending
    } else {
        after_records(pending, records.drop_last()).insert(records.last().0, records.last().1)
    }
}

/// The pending changes after the first `k` of the changes `taken` were taken
/// out, starting from `pending`.
pub open spec fn after_takes<C>(pending: Map<u128, C>, taken: Seq<(u128, C)>, k: nat) -> Map<u128, C>
    decreases k,
{
    if k == 0 {
        pending
    } else {
        after_takes(pending, taken, (k - 1) as nat).remove(taken[k - 1].0)
    }
}

/// Whether `taken` is what the upload loop takes out of `pending`, one
/// change after the other, while no change comes in, until none is left.
pub open spec fn drained<C>(pending: Map<u128, C>, taken: Seq<(u128, C)>) -> bool {
    &&& forall|k: int|
        0 <= k < taken.len() ==> #[trigger] after_takes(pending, taken, k as nat).contains_key(
            taken[k].0,
        ) && after_takes(pending, taken, k as nat)[taken[k].0] == taken[k].1
    &&& after_takes(pending, taken, taken.len()).dom() == Set::<u128>::empty()
}

/// The position of the last of `records` for `device`, or -1 if there is
/// none.
pub open spec fn last_record_of<C>(records: Seq<(u128, C)>, device: u128) -> int
    decreases records.len(),
{
    if records.len() == 0 {
        -1
    } else if records.last().0 == device {
        records.len() - 1
    } else {
        last_record_of(records.drop_last(), device)
    }
}

/// A device has a change pending after some records exactly when it had one
/// before or one of the records is for it; its pending change is then the
/// last one recorded for it.
proof fn lemma_after_records<C>(pending: Map<u128, C>, records: Seq<(u128, C)>, device: u128)
    ensures
        last_record_of(records, device) < 0 <==> forall|i: int|
            0 <= i < records.len() ==> #[trigger] records[i].0 != device,
        last_record_of(records, device) >= 0 ==> {
            let l = last_record_of(records, device);
            &&& l < records.len()
            &&& records[l].0 == device
            &&& forall|j: int| l < j < records.len() ==> #[trigger] records[j].0 != device
            &&& after_records(pending, records).contains_key(device)
            &&& after_records(pending, records)[device] == records[l].1
        },
        last_record_of(records, device) < 0 ==> (after_records(pending, records).contains_key(
            device,
        ) == pending.contains_key(device)),
    decreases records.len(),
{
    if records.len() > 0 {
        let rest = records.drop_last();
        lemma_after_records(pending, rest, device);
        assert forall|i: int| 0 <= i < rest.len() implies rest[i] == records[i] by {}
    }
}

/// A change taken out for the upload is sent after the pause exactly when
/// no change of the same device was recorded during the pause; otherwise
/// the newest change recorded for it waits to be taken in its place.
pub proof fn lemma_sent_unless_replaced<C>(pending: Map<u128, C>, device: u128, records: Seq<(u128, C)>)
    requires
        pending.contains_key(device),
    ensures
        !after_records(pending.remove(device), records).contains_key(device) <==> forall|i: int|
            0 <= i < records.len() ==> #[trigger] records[i].0 != device,
        last_record_of(records, device) >= 0 ==> after_records(pending.remove(device), records)[device]
            == records[last_record_of(records, device)].1,
{
    lemma_after_records(pending.remove(device), records, device);
}

/// What is taken out of the pending changes was pending, unchanged, before.
proof fn lemma_after_takes_within<C>(pending: Map<u128, C>, taken: Seq<(u128, C)>, k: nat, device: u128)
    requires
        k <= taken.len(),
    ensures
        after_takes(pending, taken, k).contains_key(device) ==> pending.contains_key(device)
            && after_takes(pending, taken, k)[device] == pending[device],
        forall|i: int|
            0 <= i < k && #[trigger] taken[i].0 == device ==> !after_takes(
                pending,
                taken,
                k,
            ).contains_key(device),
    decreases k,
{
    if k > 0 {
        lemma_after_takes_within(pending, taken, (k - 1) as nat, device);
    }
}

/// A device still pending after `k` takes and gone after `n` takes is taken
/// out by one of the takes in between.
proof fn lemma_taken_between<C>(pending: Map<u128, C>, taken: Seq<(u128, C)>, k: nat, n: nat, device: u128)
    requires
        k <= n <= taken.len(),
        after_takes(pending, taken, k).contains_key(device),
        !after_takes(pending, taken, n).contains_key(device),
    ensures
        exists|i: int| k <= i < n && #[trigger] taken[i].0 == device,
    decreases n - k,
{
    if n > k {
        if after_takes(pending, taken, (n - 1) as nat).contains_key(device) {
            assert(taken[n - 1].0 == device);
        } else {
            lemma_taken_between(pending, taken, k, (n - 1) as nat, device);
        }
    }
}

/// Once changes stop coming in, the upload loop sends the newest change of
/// every device exactly once: each pending device is taken out once, with
/// its newest change, no device twice, and each taken change is sent after
/// its pause, as no newer change of its device is pending then.
pub proof fn lemma_quiet_uploads_send_newest_once<C>(pending: Map<u128, C>, taken: Seq<(u128, C)>)
    requires
        drained(pending, taken),
    ensures
        forall|i: int|
            0 <= i < taken.len() ==> pending.contains_key(#[trigger] taken[i].0) && pending[taken[i].0]
                == taken[i].1,
        forall|i: int, j: int| 0 <= i < j < taken.len() ==> #[trigger] taken[i].0 != #[trigger] taken[j].0,
        forall|device: u128|
            #[trigger] pending.contains_key(device) ==> exists|i: int|
                0 <= i < taken.len() && #[trigger] taken[i].0 == device,
        forall|i: int|
            0 <= i < taken.len() ==> !#[trigger] after_takes(pending, taken, (i + 1) as nat).contains_key(
                taken[i].0,
            ),
{
    assert forall|i: int| 0 <= i < taken.len() implies pending.contains_key(#[trigger] taken[i].0)
        && pending[taken[i].0] == taken[i].1 by {
        assert(after_takes(pending, taken, i as nat).contains_key(taken[i].0));
        lemma_after_takes_within(pending, taken, i as nat, taken[i].0);
    }
    assert forall|i: int, j: int| 0 <= i < j < taken.len() implies #[trigger] taken[i].0
        != #[trigger] taken[j].0 by {
        assert(after_takes(pending, taken, j as nat).contains_key(taken[j].0));
        lemma_after_takes_within(pending, taken, j as nat, taken[i].0);
    }
    assert forall|device: u128| #[trigger] pending.contains_key(device) implies exists|i: int|
        0 <= i < taken.len() && #[trigger] taken[i].0 == device by {
        assert(!after_takes(pending, taken, taken.len()).dom().contains(device));
        lemma_taken_between(pending, taken, 0, taken.len(), device);
    }
    assert forall|i: int| 0 <= i < taken.len() implies !#[trigger] after_takes(
        pending,
        taken,
        (i + 1) as nat,
    ).contains_key(taken[i].0) by {
        assert(after_takes(pending, taken, (i + 1) as nat) == after_takes(pending, taken, i as nat).remove(
            taken[i].0,
        ));
    }
}

} // verus!
