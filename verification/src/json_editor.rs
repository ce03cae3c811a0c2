//! The JSON editor of a device's parameters: the text being edited, the text
//! last saved, and what the editor shows when the stored parameters change
//! under it.
use vstd::prelude::*;
use vstd::string::*;
use crate::pipeline_error::{json_error_message, json_error_text};
use crate::text::{clean_json_error, occurs_at, text_equals};

verus! {

/// What `serde_json::from_str` reads from a text: a JSON value, or the
/// error at which reading stopped.
pub uninterp spec fn parsed_json(text: Seq<char>) -> Result<serde_json::Value, serde_json::Error>;

/// Reads a text as a JSON value with `serde_json::from_str`.
///
/// Trusted: the result is a function of the text alone, named
/// [`parsed_json`].
#[verifier::external_body]
fn parse_json(text: &str) -> (r: Result<serde_json::Value, serde_json::Error>)
    ensures
        r == parsed_json(text@),
{
    serde_json::from_str::<serde_json::Value>(text)
}

/// The text `serde_json::to_string_pretty` writes for a JSON value.
pub uninterp spec fn pretty_json_text(value: serde_json::Value) -> Seq<char>;

/// Writes a JSON value indented, with `serde_json::to_string_pretty`.
///
/// Trusted: writing a `Value` into a string cannot fail, as its maps have
/// string keys and its `Serialize` never fails; the text is a function of
/// the value, named [`pretty_json_text`].
#[verifier::external_body]
fn pretty_json(value: &serde_json::Value) -> (r: Result<String, serde_json::Error>)
    ensures
        r is Ok,
        r->Ok_0@ == pretty_json_text(*value),
{
    serde_json::to_string_pretty(value)
}

/// What saving the text `edited` leads to: its JSON value, written again
/// indented, or the message of the error at which reading it stopped.
pub open spec fn save_outcome(edited: Seq<char>) -> Result<Seq<char>, Seq<char>> {
    match parsed_json(edited) {
        Ok(value) => Ok(pretty_json_text(value)),
        Err(e) => Err(json_error_message(e)),
    }
}

/// The state of the JSON editor.
#[derive(Debug, Clone)]
pub struct JsonEditor {
    /// The text in the text area.
    pub edited: String,
    /// The stored text as of the last save, reset or reload.
    pub last_saved: String,
    /// The message of the last failed save, shortened.
    pub error: Option<String>,
}

/// Whether the editor must point out that the stored text changed since it
/// last saw it.
pub open spec fn external_update(e: JsonEditor, stored: Seq<char>) -> bool {
    stored != e.last_saved@
}

/// The shortened message of a JSON error: up to its first " at ".
pub open spec fn shortened(message: Seq<char>, short: Seq<char>) -> bool {
    &&& short.len() <= message.len()
    &&& short == message.take(short.len() as int)
    &&& forall|j: int| 0 <= j < short.len() ==> !occurs_at(message, " at "@, j)
    &&& short.len() < message.len() ==> occurs_at(message, " at "@, short.len() as int)
}

/// Whether saving took the editor from `before` to `after` with answer `r`,
/// once the edited text was read: a text read as JSON, written again
/// indented as `Ok(text)`, is stored and becomes both the edited and the last
/// saved text, and the error goes; a failure `Err(message)` stores nothing
/// and shows the shortened message.
pub open spec fn saved_as(
    before: JsonEditor,
    after: JsonEditor,
    outcome: Result<Seq<char>, Seq<char>>,
    r: Option<String>,
) -> bool {
    match outcome {
        Ok(text) => {
            &&& r matches Some(stored) && stored@ == text
            &&& after.edited@ == text
            &&& after.last_saved@ == text
            &&& after.error is None
        },
        Err(message) => {
            &&& r is None
            &&& after.edited@ == before.edited@
            &&& after.last_saved@ == before.last_saved@
            &&& after.error matches Some(short) && shortened(message, short@)
        },
    }
}

/// The texts of an outcome given as strings.
pub open spec fn outcome_texts(outcome: Result<String, String>) -> Result<Seq<char>, Seq<char>> {
    match outcome {
        Ok(text) => Ok(text@),
        Err(message) => Err(message@),
    }
}

impl JsonEditor {
    /// An editor opened on the stored text.
    pub fn new(stored: &str) -> (r: Self)
        ensures
            r.edited@ == stored@,
            r.last_saved@ == stored@,
            r.error is None,
    {
        JsonEditor { edited: stored.to_string(), last_saved: stored.to_string(), error: None }
    }

    /// Whether the stored text changed since the editor last saw it.
    pub fn has_external_update(&self, stored: &str) -> (r: bool)
        ensures
            r == external_update(*self, stored@),
    {
        !text_equals(stored, self.last_saved.as_str())
    }

    /// Applies the outcome of reading the edited text; the answer is the
    /// text to store, if any.
    pub fn saved(&mut self, outcome: Result<String, String>) -> (r: Option<String>)
        ensures
            saved_as(*old(self), *final(self), outcome_texts(outcome), r),
    {
        match outcome {
            Ok(text) => {
                self.edited = text.clone();
                self.last_saved = text.clone();
                self.error = None;
                Some(text)
            },
            Err(message) => {
                let short = clean_json_error(message.as_str());
                self.error = Some(short.to_string());
                None
            },
        }
    }

    /// Saves the edited text: a JSON text is stored as `serde_json` writes
    /// its value indented, anything else is refused with the shortened parse
    /// error. The answer is the text to store, if any.
    pub fn save(&mut self) -> (r: Option<String>)
        ensures
            saved_as(*old(self), *final(self), save_outcome(old(self).edited@), r),
    {
        let outcome = match parse_json(self.edited.as_str()) {
            Ok(value) => match pretty_json(&value) {
                Ok(text) => Ok(text),
                Err(e) => Err(json_error_text(&e)),
            },
            Err(e) => Err(json_error_text(&e)),
        };
        self.saved(outcome)
    }

    /// Ignores a change of the stored text: the edited text stays.
    pub fn reset(&mut self, stored: &str)
        ensures
            final(self).edited@ == old(self).edited@,
            final(self).last_saved@ == stored@,
            final(self).error == old(self).error,
    {
        self.last_saved = stored.to_string();
    }

    /// Takes over a change of the stored text: it replaces the edited text.
    pub fn adopt(&mut self, stored: &str)
        ensures
            final(self).edited@ == stored@,
            final(self).last_saved@ == stored@,
            final(self).error == old(self).error,
    {
        self.edited = stored.to_string();
        self.last_saved = stored.to_string();
    }
}

/// After a save that stored a text, the editor shows that text, no error and
/// no external update of it.
pub proof fn lemma_saved_text_is_no_external_update(
    before: JsonEditor,
    after: JsonEditor,
    text: Seq<char>,
    r: Option<String>,
)
    requires
        saved_as(before, after, Ok(text), r),
    ensures
        r matches Some(stored) && !external_update(after, stored@),
        after.edited@ == text,
        after.error is None,
{
}

/// A failed save changes neither the edited text nor what counts as an
/// external update.
pub proof fn lemma_failed_save_keeps_text(
    before: JsonEditor,
    after: JsonEditor,
    message: Seq<char>,
    r: Option<String>,
    stored: Seq<char>,
)
    requires
        saved_as(before, after, Err(message), r),
    ensures
        r is None,
        after.edited@ == before.edited@,
        external_update(after, stored) == external_update(before, stored),
{
}

} // verus!
