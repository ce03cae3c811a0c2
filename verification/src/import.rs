//! The protocol of a recipe import.
//!
//! The page sends the length of the recipe file as eight little-endian bytes,
//! then the file, and reads the server's replies: success, an error, or
//! conflicts with existing recipes and variables. On conflicts the user
//! chooses to replace or to duplicate (the choice is sent as a JSON string)
//! or cancels the import.
use vstd::prelude::*;

verus! {

/// A reply of the server during an import; `C` describes conflicts.
#[derive(Debug, Clone)]
pub enum ImportServerMessage<C> {
    Success,
    Error(String),
    Conflicts(C),
}

/// How the user resolves conflicts.
#[derive(Clone, Copy, Debug, PartialEq, Eq, Structural)]
pub enum ConflictResolution {
    Replace,
    Duplicate,
}

/// What the import does with a reply.
#[derive(Debug)]
pub enum ImportStep<C> {
    /// The import is over: `Ok(true)` on success, the server's message on
    /// error.
    Finished(Result<bool, String>),
    /// Show the conflicts and wait for the user's choice.
    AskUser(C),
}

/// Success and errors end the import; conflicts are shown to the user.
pub fn on_server_message<C>(msg: ImportServerMessage<C>) -> (r: ImportStep<C>)
    ensures
        match msg {
            ImportServerMessage::Success => r matches ImportStep::Finished(Ok(b)) && b,
            ImportServerMessage::Error(text) => r matches ImportStep::Finished(Err(t)) && t == text,
            ImportServerMessage::Conflicts(c) => r matches ImportStep::AskUser(d) && d == c,
        },
{
    match msg {
        ImportServerMessage::Success => ImportStep::Finished(Ok(true)),
        ImportServerMessage::Error(text) => ImportStep::Finished(Err(text)),
        ImportServerMessage::Conflicts(c) => ImportStep::AskUser(c),
    }
}

/// The name of a resolution as the server expects it.
pub fn resolution_name(resolution: ConflictResolution) -> (r: &'static str)
    ensures
        resolution == ConflictResolution::Replace ==> r@ == "Replace"@,
        resolution == ConflictResolution::Duplicate ==> r@ == "Duplicate"@,
{
    match resolution {
        ConflictResolution::Replace => "Replace",
        ConflictResolution::Duplicate => "Duplicate",
    }
}

/// Whether a character is written as itself inside a JSON string.
pub open spec fn json_plain_char(c: char) -> bool {
    c != '"' && c != '\\' && (c as u32) >= 0x20
}

/// Writes `s` as a JSON string with `serde_json::to_string`.
///
/// Trusted: serializing a `str` into a buffer never fails, and `serde_json`
/// escapes only the quote, the backslash and the characters below U+0020;
/// so a text without those becomes itself between two quotes. What an
/// escaped text becomes is not stated.
#[verifier::external_body]
fn json_string(s: &str) -> (r: Result<String, serde_json::Error>)
    ensures
        r is Ok,
        (forall|i: int| 0 <= i < s@.len() ==> json_plain_char(#[trigger] s@[i])) ==> r->Ok_0@
            == seq!['"'] + s@ + seq!['"'],
{
    serde_json::to_string(s)
}

/// What the import does with the user's choice on conflicts.
#[derive(Debug, Clone)]
pub enum ResolutionStep {
    /// The user cancelled: the import is over without success (`Ok(false)`).
    Abort,
    /// Send this text to the server and read its next reply.
    Send(String),
}

/// A cancelled choice aborts the import; a resolution is sent as its name in
/// a JSON string.
pub fn on_resolution(choice: Option<ConflictResolution>) -> (r: ResolutionStep)
    ensures
        match choice {
            None => r is Abort,
            Some(c) => r matches ResolutionStep::Send(text) && text@ == (if c
                == ConflictResolution::Replace {
                "\"Replace\""@
            } else {
                "\"Duplicate\""@
            }),
        },
{
    match choice {
        None => ResolutionStep::Abort,
        Some(c) => {
            let name = resolution_name(c);
            proof {
                reveal_strlit("Replace");
                reveal_strlit("Duplicate");
                reveal_strlit("\"Replace\"");
                reveal_strlit("\"Duplicate\"");
            }
            let text = json_string(name);
            match text {
                Ok(t) => {
                    proof {
                        if c == ConflictResolution::Replace {
                            assert(t@ =~= "\"Replace\""@);
                        } else {
                            assert(t@ =~= "\"Duplicate\""@);
                        }
                    }
                    ResolutionStep::Send(t)
                },
                Err(_) => ResolutionStep::Abort,
            }
        },
    }
}

/// Why a reply of the server could not be read.
#[derive(Clone, Copy, Debug, PartialEq, Eq, Structural)]
pub enum ReceiveError {
    /// The socket closed before a reply came.
    ConnectionClosed,
    /// The reply was not text.
    NotText,
    /// The socket failed.
    Socket,
}

/// What the socket gave when a reply was awaited.
#[derive(Clone, Copy, Debug, PartialEq, Eq, Structural)]
pub enum ReceivedFrame {
    Text,
    Binary,
    Closed,
    Failed,
}

/// Only text replies are read; anything else ends the import with an error.
pub fn check_frame(frame: ReceivedFrame) -> (r: Result<(), ReceiveError>)
    ensures
        r == (match frame {
            ReceivedFrame::Text => Ok(()),
            ReceivedFrame::Binary => Err(ReceiveError::NotText),
            ReceivedFrame::Closed => Err(ReceiveError::ConnectionClosed),
            ReceivedFrame::Failed => Err(ReceiveError::Socket),
        }),
{
    match frame {
        ReceivedFrame::Text => Ok(()),
        ReceivedFrame::Binary => Err(ReceiveError::NotText),
        ReceivedFrame::Closed => Err(ReceiveError::ConnectionClosed),
        ReceivedFrame::Failed => Err(ReceiveError::Socket),
    }
}

/// The byte `i` (from the least significant) of `n`.
pub open spec fn le_byte(n: u64, i: int) -> u8 {
    ((n >> (8 * i) as u64) & 0xff) as u8
}

/// The length of the recipe file as eight little-endian bytes.
pub fn length_prefix(size: u64) -> (r: Vec<u8>)
    ensures
        r@.len() == 8,
        forall|i: int| 0 <= i < 8 ==> #[trigger] r@[i] == le_byte(size, i),
{
    let mut bytes: Vec<u8> = Vec::new();
    let mut i: u64 = 0;
    while i < 8
        invariant
            0 <= i <= 8,
            bytes@.len() == i,
            forall|j: int| 0 <= j < i ==> #[trigger] bytes@[j] == le_byte(size, j),
        decreases 8 - i,
    {
        let b = ((size >> (8 * i)) & 0xff) as u8;
        bytes.push(b);
        i = i + 1;
    }
    bytes
}

/// Whether a list of conflicts is shown: only when it is not empty.
pub fn has_conflicts(count: usize) -> (r: bool)
    ensures
        r == (count > 0),
{
    count > 0
}

} // verus!
