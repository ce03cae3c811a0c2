//! A mask loaded once from the server and stored back on every write: what
//! it reads, and which store each write dispatches.
use vstd::prelude::*;
use crate::pipeline_error::{
    dispatch_of, stored_read, write_stored, LeptosPipelineError, StoreDispatch,
};

verus! {

/// What a stored mask reads, by reference.
#[derive(Debug)]
pub enum StoredRead<'a, M> {
    /// The mask.
    Value(&'a M),
    /// The error that stands in place of the mask.
    Failed(&'a LeptosPipelineError),
    /// The loader has not resolved and nothing was written yet.
    NotAvailableYet(&'static str),
}

/// The result a read stands for.
pub open spec fn read_result<M>(r: StoredRead<M>) -> Result<M, LeptosPipelineError> {
    match r {
        StoredRead::Value(m) => Ok(*m),
        StoredRead::Failed(e) => Err(*e),
        StoredRead::NotAvailableYet(s) => Err(LeptosPipelineError::NotAvailableYet(s)),
    }
}

/// The state of a stored mask: what was loaded or last written, and the
/// name of the mask for the reads before that.
pub struct StoredSignal<M> {
    loaded: Option<Result<M, LeptosPipelineError>>,
    subject: &'static str,
}

impl<M> StoredSignal<M> {
    /// What was loaded or last written, if anything.
    pub closed spec fn spec_loaded(self) -> Option<Result<M, LeptosPipelineError>> {
        self.loaded
    }

    /// The name of the mask.
    pub closed spec fn spec_subject(self) -> &'static str {
        self.subject
    }

    /// What the mask reads now.
    pub open spec fn spec_read(self) -> Result<M, LeptosPipelineError> {
        stored_read(self.spec_loaded(), self.spec_subject())
    }

    /// A mask named `subject` whose loader has not resolved yet.
    pub fn new(subject: &'static str) -> (r: Self)
        ensures
            r.spec_loaded() is None,
            r.spec_subject() == subject,
    {
        StoredSignal { loaded: None, subject }
    }

    /// The loader resolved with `loaded`.
    pub fn resolve(&mut self, loaded: Result<M, LeptosPipelineError>)
        ensures
            final(self).spec_loaded() == Some(loaded),
            final(self).spec_subject() == old(self).spec_subject(),
    {
        self.loaded = Some(loaded);
    }

    /// What the mask reads: the loaded or last written value, or, before
    /// either, that it is not available yet.
    pub fn get(&self) -> (r: StoredRead<'_, M>)
        ensures
            read_result(r) == self.spec_read(),
    {
        match &self.loaded {
            None => StoredRead::NotAvailableYet(self.subject),
            Some(Ok(m)) => StoredRead::Value(m),
            Some(Err(e)) => StoredRead::Failed(e),
        }
    }

    /// Writes a value: it is what the mask reads at once, and the answer is
    /// the one store the write dispatches.
    pub fn set(&mut self, value: Result<M, LeptosPipelineError>) -> (r: StoreDispatch)
        ensures
            final(self).spec_loaded() == Some(value),
            final(self).spec_subject() == old(self).spec_subject(),
            final(self).spec_read() == value,
            r == dispatch_of(value),
    {
        write_stored(&mut self.loaded, value)
    }
}

/// Right after `set(v)`, without waiting for anything, the mask reads `v`,
/// whatever it read before, and the write dispatched exactly one store: of
/// the mask it now reads, of no mask for an empty one, or none for another
/// error.
pub proof fn lemma_set_then_get<M>(
    before: StoredSignal<M>,
    after: StoredSignal<M>,
    value: Result<M, LeptosPipelineError>,
    dispatch: StoreDispatch,
)
    requires
        after.spec_loaded() == Some(value),
        after.spec_subject() == before.spec_subject(),
        dispatch == dispatch_of(value),
    ensures
        after.spec_read() == value,
        dispatch == StoreDispatch::Mask <==> value is Ok,
        dispatch == StoreDispatch::NoMask <==> value == Err::<M, LeptosPipelineError>(
            LeptosPipelineError::Pipeline(crate::pipeline_error::PipelineError::Empty),
        ),
{
}

} // verus!
