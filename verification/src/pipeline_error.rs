//! Errors of values that are loaded from and stored to the server, and how a
//! server-persisted mask recovers from them.
use std::sync::Arc;
use vstd::prelude::*;
use vstd::string::*;
use crate::text::{append_decimal, decimal};

verus! {

/// Errors of a request to the server.
#[derive(Debug, Clone)]
pub enum FetchError {
    /// The server answered with a status other than success, and the body
    /// of the answer (or the status text where the body could not be read).
    StatusCode(u16, String),
    /// The answer could not be decoded.
    Deserialize(Arc<serde_json::Error>),
    /// Any other failure, by its message.
    Other(String),
}

/// The outcome of a mask pipeline, as far as the frontend reads it: the mask
/// is empty, or the pipeline failed otherwise (by its message).
#[derive(Debug, Clone)]
pub enum PipelineError {
    Empty,
    Other(String),
}

/// Errors that can occur while a value is loaded from or stored to a server.
#[derive(Debug, Clone)]
pub enum LeptosPipelineError {
    /// The value has not been loaded yet; the reason says which value.
    NotAvailableYet(&'static str),
    /// The value could not be fetched.
    MissingInfo(FetchError),
    /// The pipeline failed, e.g. because the mask is empty.
    Pipeline(PipelineError),
}

/// The error a failed answer of the server becomes: the body of the answer
/// where it could be read, else the status text.
pub fn status_code_error(status: u16, body: Option<String>, status_text: String) -> (r: FetchError)
    ensures
        r == (match body {
            Some(b) => FetchError::StatusCode(status, b),
            None => FetchError::StatusCode(status, status_text),
        }),
{
    match body {
        Some(b) => FetchError::StatusCode(status, b),
        None => FetchError::StatusCode(status, status_text),
    }
}

/// What a fetch error means for a loaded value: a missing resource (404)
/// is an empty value, everything else is missing information.
pub open spec fn pipeline_error_of_fetch(value: FetchError) -> LeptosPipelineError {
    match value {
        FetchError::StatusCode(status, _) => if status == 404 {
            LeptosPipelineError::Pipeline(PipelineError::Empty)
        } else {
            LeptosPipelineError::MissingInfo(value)
        },
        _ => LeptosPipelineError::MissingInfo(value),
    }
}

impl From<FetchError> for LeptosPipelineError {
    fn from(value: FetchError) -> (r: Self) {
        match value {
            FetchError::StatusCode(status, text) => {
                if status == 404 {
                    LeptosPipelineError::Pipeline(PipelineError::Empty)
                } else {
                    LeptosPipelineError::MissingInfo(FetchError::StatusCode(status, text))
                }
            },
            e => LeptosPipelineError::MissingInfo(e),
        }
    }
}

impl vstd::std_specs::convert::FromSpecImpl<FetchError> for LeptosPipelineError {
    open spec fn obeys_from_spec() -> bool {
        true
    }

    open spec fn from_spec(v: FetchError) -> Self {
        pipeline_error_of_fetch(v)
    }
}

/// A fetch error becomes an empty mask exactly when the server answered 404;
/// every other error, whatever its status or body, is kept as missing
/// information.
pub proof fn lemma_only_not_found_is_empty(e: FetchError)
    ensures
        pipeline_error_of_fetch(e) == LeptosPipelineError::Pipeline(PipelineError::Empty) <==> (
        e matches FetchError::StatusCode(status, _) && status == 404),
        !(e matches FetchError::StatusCode(status, _) && status == 404) ==> pipeline_error_of_fetch(e)
            == LeptosPipelineError::MissingInfo(e),
        forall|status: u16, body: String|
            status != 404 ==> #[trigger] pipeline_error_of_fetch(FetchError::StatusCode(status, body))
                == LeptosPipelineError::MissingInfo(FetchError::StatusCode(status, body)),
        forall|body: String|
            #[trigger] pipeline_error_of_fetch(FetchError::StatusCode(404, body))
                == LeptosPipelineError::Pipeline(PipelineError::Empty),
{
}

impl From<PipelineError> for LeptosPipelineError {
    fn from(value: PipelineError) -> (r: Self) {
        LeptosPipelineError::Pipeline(value)
    }
}

impl vstd::std_specs::convert::FromSpecImpl<PipelineError> for LeptosPipelineError {
    open spec fn obeys_from_spec() -> bool {
        true
    }

    open spec fn from_spec(v: PipelineError) -> Self {
        LeptosPipelineError::Pipeline(v)
    }
}

impl PipelineError {
    /// An empty mask is no error but the absence of a mask.
    pub fn allow_empty<T>(self) -> (r: Result<Option<T>, PipelineError>)
        ensures
            r == (match self {
                PipelineError::Empty => Ok(None::<T>),
                _ => Err(self),
            }),
    {
        match self {
            PipelineError::Empty => Ok(None),
            other => Err(other),
        }
    }
}

/// How a pipeline error recovers when an empty value is acceptable.
pub open spec fn allow_empty_spec<T>(e: LeptosPipelineError) -> Result<Option<T>, LeptosPipelineError> {
    match e {
        LeptosPipelineError::Pipeline(PipelineError::Empty) => Ok(None),
        _ => Err(e),
    }
}

/// How a pipeline error recovers through `recoverer`: only pipeline errors are
/// handed to it; `r` is a result the recoverer may give.
pub open spec fn recovered_by<T, F: Fn(PipelineError) -> Result<Option<T>, PipelineError>>(
    e: LeptosPipelineError,
    recoverer: F,
    r: Result<Option<T>, LeptosPipelineError>,
) -> bool {
    match e {
        LeptosPipelineError::Pipeline(p) => exists|res: Result<Option<T>, PipelineError>|
            call_ensures(recoverer, (p,), res) && r == match res {
                Ok(x) => Ok(x),
                Err(q) => Err(LeptosPipelineError::Pipeline(q)),
            },
        _ => r == Err::<Option<T>, LeptosPipelineError>(e),
    }
}

/// Recovery of results and errors of server-persisted values.
pub trait RecoverPipelineError<T>: Sized {
    /// The value this holds, if it is no error.
    spec fn ok_value(self) -> Option<T>;

    /// The error this holds, if it is one.
    spec fn err_value(self) -> Option<LeptosPipelineError>;

    /// A value becomes `Some` value; an empty pipeline becomes `None`; all
    /// other errors stay errors.
    fn allow_empty(self) -> (r: Result<Option<T>, LeptosPipelineError>)
        ensures
            match self.err_value() {
                None => r == Ok::<Option<T>, LeptosPipelineError>(self.ok_value()),
                Some(e) => r == allow_empty_spec::<T>(e),
            },
    ;

    /// A value becomes `Some` value; a pipeline error is handed to
    /// `recoverer`; all other errors stay errors.
    fn recover_pipeline_error<F: Fn(PipelineError) -> Result<Option<T>, PipelineError>>(
        self,
        recoverer: F,
    ) -> (r: Result<Option<T>, LeptosPipelineError>)
        requires
            forall|p: PipelineError| call_requires(recoverer, (p,)),
        ensures
            match self.err_value() {
                None => r == Ok::<Option<T>, LeptosPipelineError>(self.ok_value()),
                Some(e) => recovered_by(e, recoverer, r),
            },
    ;
}

impl<T> RecoverPipelineError<T> for LeptosPipelineError {
    open spec fn ok_value(self) -> Option<T> {
        None
    }

    open spec fn err_value(self) -> Option<LeptosPipelineError> {
        Some(self)
    }

    fn allow_empty(self) -> (r: Result<Option<T>, LeptosPipelineError>) {
        match self {
            LeptosPipelineError::NotAvailableYet(x) => Err(LeptosPipelineError::NotAvailableYet(x)),
            LeptosPipelineError::MissingInfo(x) => Err(LeptosPipelineError::MissingInfo(x)),
            LeptosPipelineError::Pipeline(x) => match x.allow_empty() {
                Ok(v) => Ok(v),
                Err(p) => Err(LeptosPipelineError::Pipeline(p)),
            },
        }
    }

    fn recover_pipeline_error<F: Fn(PipelineError) -> Result<Option<T>, PipelineError>>(
        self,
        recoverer: F,
    ) -> (r: Result<Option<T>, LeptosPipelineError>) {
        match self {
            LeptosPipelineError::NotAvailableYet(x) => Err(LeptosPipelineError::NotAvailableYet(x)),
            LeptosPipelineError::MissingInfo(x) => Err(LeptosPipelineError::MissingInfo(x)),
            LeptosPipelineError::Pipeline(x) => {
                let ghost p = x;
                let res = recoverer(x);
                match res {
                    Ok(v) => Ok(v),
                    Err(q) => Err(LeptosPipelineError::Pipeline(q)),
                }
            },
        }
    }
}

impl<T> RecoverPipelineError<T> for Result<T, LeptosPipelineError> {
    open spec fn ok_value(self) -> Option<T> {
        match self {
            Ok(x) => Some(x),
            Err(_) => None,
        }
    }

    open spec fn err_value(self) -> Option<LeptosPipelineError> {
        match self {
            Ok(_) => None,
            Err(e) => Some(e),
        }
    }

    fn allow_empty(self) -> (r: Result<Option<T>, LeptosPipelineError>) {
        match self {
            Ok(x) => Ok(Some(x)),
            Err(e) => e.allow_empty(),
        }
    }

    fn recover_pipeline_error<F: Fn(PipelineError) -> Result<Option<T>, PipelineError>>(
        self,
        recoverer: F,
    ) -> (r: Result<Option<T>, LeptosPipelineError>) {
        match self {
            Ok(x) => Ok(Some(x)),
            Err(e) => e.recover_pipeline_error(recoverer),
        }
    }
}

/// What a stored value reads: the loaded or last written value, or, while
/// the loader has not resolved yet, that the value named `subject` is not
/// available yet.
pub open spec fn stored_read<M>(loaded: Option<Result<M, LeptosPipelineError>>, subject: &'static str) -> Result<
    M,
    LeptosPipelineError,
> {
    match loaded {
        Some(v) => v,
        None => Err(LeptosPipelineError::NotAvailableYet(subject)),
    }
}

/// Reads a stored value.
pub fn read_stored<M>(loaded: Option<Result<M, LeptosPipelineError>>, subject: &'static str) -> (r:
    Result<M, LeptosPipelineError>)
    ensures
        r == stored_read(loaded, subject),
{
    match loaded {
        Some(v) => v,
        None => Err(LeptosPipelineError::NotAvailableYet(subject)),
    }
}

/// The one store request a write of a stored mask leads to.
#[derive(Clone, Copy, Debug, PartialEq, Eq, Structural)]
pub enum StoreDispatch {
    /// Store the written mask (which the value now reads).
    Mask,
    /// Store that there is no mask.
    NoMask,
    /// Store nothing: the written value is an error other than an empty mask.
    Nothing,
}

/// The store request for a written value, after [`sent_on_write`].
pub open spec fn dispatch_of<M>(value: Result<M, LeptosPipelineError>) -> StoreDispatch {
    match sent_on_write(value) {
        Ok(Some(_)) => StoreDispatch::Mask,
        Ok(None) => StoreDispatch::NoMask,
        Err(_) => StoreDispatch::Nothing,
    }
}

/// Writes a stored value: it replaces what was loaded at once; the answer is
/// the one store request the write dispatches.
pub fn write_stored<M>(loaded: &mut Option<Result<M, LeptosPipelineError>>, value: Result<M, LeptosPipelineError>) -> (r: StoreDispatch)
    ensures
        *final(loaded) == Some(value),
        r == dispatch_of(value),
{
    let r = match &value {
        Ok(_) => StoreDispatch::Mask,
        Err(LeptosPipelineError::Pipeline(PipelineError::Empty)) => StoreDispatch::NoMask,
        Err(_) => StoreDispatch::Nothing,
    };
    *loaded = Some(value);
    r
}

/// What a load of a mask gives: the loader's error as it is; a mask that was
/// decoded and holds at least one range; else an empty pipeline. `decoded`
/// is the decoded mask with the number of its ranges, or `None` where the
/// bytes could not be decoded.
pub fn loaded_mask<M>(fetched: Result<Option<(M, usize)>, LeptosPipelineError>) -> (r: Result<
    M,
    LeptosPipelineError,
>)
    ensures
        r == (match fetched {
            Err(e) => Err(e),
            Ok(Some((m, len))) => if len > 0 {
                Ok(m)
            } else {
                Err(LeptosPipelineError::Pipeline(PipelineError::Empty))
            },
            Ok(None) => Err(LeptosPipelineError::Pipeline(PipelineError::Empty)),
        }),
{
    match fetched {
        Err(e) => Err(e),
        Ok(Some((m, len))) => {
            if len > 0 {
                Ok(m)
            } else {
                Err(LeptosPipelineError::Pipeline(PipelineError::Empty))
            }
        },
        Ok(None) => Err(LeptosPipelineError::Pipeline(PipelineError::Empty)),
    }
}

/// What a write of a stored mask sends to the server: the mask itself, or
/// `None` (no mask) for an empty pipeline. Other errors are not stored.
pub open spec fn sent_on_write<M>(value: Result<M, LeptosPipelineError>) -> Result<Option<M>, LeptosPipelineError> {
    match value {
        Ok(m) => Ok(Some(m)),
        Err(e) => allow_empty_spec::<M>(e),
    }
}

/// What a write of a stored mask sends to the server.
pub fn store_payload<M>(value: Result<M, LeptosPipelineError>) -> (r: Result<Option<M>, LeptosPipelineError>)
    ensures
        r == sent_on_write(value),
{
    match value {
        Ok(m) => Ok(Some(m)),
        Err(e) => e.allow_empty(),
    }
}

/// A read of a stored value right after a write gives back what was
/// written, whatever was loaded before, and the write dispatches exactly one
/// store: of the mask that the value now reads, of no mask for an empty
/// one, or none for any other error. Before anything is loaded or written,
/// the value reads as not available yet.
pub proof fn lemma_stored_read_after_write<M>(
    before: Option<Result<M, LeptosPipelineError>>,
    after: Option<Result<M, LeptosPipelineError>>,
    value: Result<M, LeptosPipelineError>,
    dispatch: StoreDispatch,
    subject: &'static str,
)
    requires
        after == Some(value),
        dispatch == dispatch_of(value),
    ensures
        stored_read(after, subject) == value,
        dispatch == StoreDispatch::Mask ==> (stored_read(after, subject) matches Ok(m)
            && sent_on_write(value) == Ok::<Option<M>, LeptosPipelineError>(Some(m))),
        dispatch == StoreDispatch::NoMask ==> sent_on_write(value) == Ok::<
            Option<M>,
            LeptosPipelineError,
        >(None),
        dispatch == StoreDispatch::Nothing ==> sent_on_write(value) is Err,
        stored_read(None::<Result<M, LeptosPipelineError>>, subject) == Err::<M, LeptosPipelineError>(
            LeptosPipelineError::NotAvailableYet(subject),
        ),
{
}

/// The message `Display` of `serde_json::Error` writes for an error.
pub uninterp spec fn json_error_message(e: serde_json::Error) -> Seq<char>;

/// The message of a JSON error, with `Display` of `serde_json::Error`.
///
/// Trusted: the text is a function of the error, named
/// [`json_error_message`].
#[verifier::external_body]
pub(crate) fn json_error_text(e: &serde_json::Error) -> (r: String)
    ensures
        r@ == json_error_message(*e),
{
    e.to_string()
}

/// Whether `text` is the message of `e`: `Http`, the status and the body of
/// a failed answer; `Invalid data: ` and then the decoder's message; any other
/// failure's own message.
pub open spec fn is_message_of(e: FetchError, text: Seq<char>) -> bool {
    match e {
        FetchError::StatusCode(status, body) => text == "Http "@ + decimal(status as nat) + ": "@
            + body@,
        FetchError::Deserialize(e) => text == "Invalid data: "@ + json_error_message(*e),
        FetchError::Other(m) => text == m@,
    }
}

impl FetchError {
    /// The message of the error, as notifications show it.
    pub fn message(&self) -> (r: String)
        ensures
            is_message_of(*self, r@),
    {
        match self {
            FetchError::StatusCode(status, body) => {
                let mut m = String::from_str("Http ");
                append_decimal(&mut m, *status as u32);
                m.append(": ");
                m.append(body.as_str());
                m
            },
            FetchError::Deserialize(e) => {
                let mut m = String::from_str("Invalid data: ");
                let text = json_error_text(&**e);
                m.append(text.as_str());
                m
            },
            FetchError::Other(m) => m.clone(),
        }
    }
}

} // verus!
