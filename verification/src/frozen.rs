//! The latch of a frozen signal: it reads through to its source until it is
//! written for the first time; from then on it keeps reading the value the
//! source had just before that write, while every write still goes on to
//! the source.
//!
//! The reactive signal (`app/`) keeps the source and this latch; a read asks
//! [`FrozenSignal::read`], a write goes through [`FrozenSignal::set`].
use vstd::prelude::*;

verus! {

/// The latch of a frozen signal over values of `T`.
#[derive(Debug)]
pub struct FrozenSignal<T> {
    latch: Option<T>,
}

/// What a frozen signal reads, given its latch and the current source value.
pub open spec fn frozen_read<T>(latch: Option<T>, source: T) -> T {
    match latch {
        Some(old) => old,
        None => source,
    }
}

impl<T> FrozenSignal<T> {
    /// The value held since the first write, if there was one.
    pub closed spec fn spec_latch(self) -> Option<T> {
        self.latch
    }

    /// A latch that has not been written yet.
    pub fn new() -> (r: Self)
        ensures
            r.spec_latch() is None,
    {
        FrozenSignal { latch: None }
    }

    /// Whether the signal has been written and is frozen.
    pub fn frozen(&self) -> (r: bool)
        ensures
            r == (self.spec_latch() is Some),
    {
        self.latch.is_some()
    }

    /// The value the signal reads, given the current value of its source.
    pub fn read<'a>(&'a self, source: &'a T) -> (r: &'a T)
        ensures
            *r == frozen_read(self.spec_latch(), *source),
    {
        match &self.latch {
            Some(old) => old,
            None => source,
        }
    }

    /// Writes `new_val` to the source; the first write freezes the value the
    /// signal read just before it.
    pub fn set(&mut self, source: &mut T, new_val: T)
        ensures
            *final(source) == new_val,
            final(self).spec_latch() == Some(frozen_read(old(self).spec_latch(), *old(source))),
    {
        if self.latch.is_some() {
            *source = new_val;
            return ;
        }
        let mut old_value = new_val;
        std::mem::swap(source, &mut old_value);
        self.latch = Some(old_value);
    }
}

/// Before its first write a frozen signal reads its source; once written it
/// reads the value its source had before that write, whatever the source
/// holds later and however often it is written again.
pub proof fn lemma_frozen_after_first_write<T>(
    latch: Option<T>,
    before_first_write: T,
    later_source: T,
    later_write: T,
)
    ensures
        frozen_read(None::<T>, later_source) == later_source,
        frozen_read(Some(frozen_read(None::<T>, before_first_write)), later_source)
            == before_first_write,
        latch is Some ==> frozen_read(Some(frozen_read(latch, later_write)), later_source)
            == frozen_read(latch, later_source),
{
}

} // verus!
