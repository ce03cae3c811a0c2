//! Keeping the recipes in step with the server: the change notifications of
//! the recipe stream, the retries of loading the recipes, and the uploads of
//! changed device parameters.
use vstd::prelude::*;
use vstd::string::*;
use crate::device::{format_device_id, uuid_text};
use crate::text::text_equals;

verus! {

/// What the recipe change stream delivered.
#[derive(Debug)]
pub enum StreamEvent {
    /// A text message: the id of the client whose change was saved.
    Text(String),
    /// A binary message, which the stream never sends on purpose.
    Bytes,
    /// The socket failed.
    Error,
    /// The socket closed.
    Ended,
}

/// What the listener does with an event of the recipe change stream.
#[derive(Debug, Clone, Copy, PartialEq, Eq, Structural)]
pub enum StreamStep {
    /// Load the recipes again, as another client changed them.
    Refresh,
    /// Nothing: the change is this client's own.
    OwnChange,
    /// Warn about the binary message and go on.
    UnexpectedBinary,
    /// Load the recipes until that succeeds, then connect again.
    Reconnect,
}

/// The reaction of the listener to an event, for the client `own_id`.
pub open spec fn stream_step(own_id: u128, event: StreamEvent) -> StreamStep {
    match event {
        StreamEvent::Text(client) => if client@ == uuid_text(own_id) {
            StreamStep::OwnChange
        } else {
            StreamStep::Refresh
        },
        StreamEvent::Bytes => StreamStep::UnexpectedBinary,
        StreamEvent::Error | StreamEvent::Ended => StreamStep::Reconnect,
    }
}

/// Reacts to an event of the recipe change stream: changes of other clients
/// reload the recipes, the client's own changes do not, and a failed or
/// closed socket is connected again.
pub fn on_stream_event(own_id: u128, event: &StreamEvent) -> (r: StreamStep)
    ensures
        r == stream_step(own_id, *event),
{
    match event {
        StreamEvent::Text(client) => {
            let own = format_device_id(own_id);
            if text_equals(client.as_str(), own.as_str()) {
                StreamStep::OwnChange
            } else {
                StreamStep::Refresh
            }
        },
        StreamEvent::Bytes => StreamStep::UnexpectedBinary,
        StreamEvent::Error | StreamEvent::Ended => StreamStep::Reconnect,
    }
}

/// The pause before loading the recipes again after a failure, in
/// milliseconds.
pub const RELOAD_DELAY_MS: u32 = 1000;

/// What a load of the recipes leads to.
#[derive(Debug)]
pub enum LoadStep<R> {
    /// The recipes are there; the error overlay goes.
    Loaded(R),
    /// The error overlay shows the message; the load is tried again after
    /// the pause.
    Retry { error: String, delay_ms: u32 },
}

/// Loading the recipes is repeated until it succeeds; each failure shows its
/// message and waits for the pause.
pub fn on_recipes_load<R>(result: Result<R, String>) -> (r: LoadStep<R>)
    ensures
        match result {
            Ok(recipes) => r matches LoadStep::Loaded(x) && x == recipes,
            Err(message) => r matches LoadStep::Retry { error, delay_ms } && error == message
                && delay_ms == RELOAD_DELAY_MS,
        },
{
    match result {
        Ok(recipes) => LoadStep::Loaded(recipes),
        Err(message) => LoadStep::Retry { error: message, delay_ms: RELOAD_DELAY_MS },
    }
}

/// The address the changed parameters of a device are uploaded to, keyed by
/// this client so that its own change notification can be told apart.
pub fn params_url(recipe_id: &str, device_id: u128, client_id: u128) -> (r: String)
    ensures
        r@ == "/api/recipe/"@ + recipe_id@ + "/device/"@ + uuid_text(device_id) + "/params?key="@
            + uuid_text(client_id),
{
    let mut url = String::from_str("/api/recipe/");
    url.append(recipe_id);
    url.append("/device/");
    let device = format_device_id(device_id);
    url.append(device.as_str());
    url.append("/params?key=");
    let client = format_device_id(client_id);
    url.append(client.as_str());
    url
}

/// A change notification names the client that saved it: the client's own
/// uploads never make it reload, every other client's do, and only a failed
/// or closed socket makes it reconnect.
pub proof fn lemma_own_changes_are_not_reloaded(own_id: u128, other: String, event: StreamEvent)
    requires
        other@ != uuid_text(own_id),
    ensures
        forall|s: String| s@ == uuid_text(own_id) ==> #[trigger] stream_step(own_id, StreamEvent::Text(s))
            == StreamStep::OwnChange,
        stream_step(own_id, StreamEvent::Text(other)) == StreamStep::Refresh,
        (stream_step(own_id, event) == StreamStep::Reconnect) <==> (event is Error || event is Ended),
{
}

} // verus!
