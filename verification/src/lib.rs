//! Verified core of the Pilatus Leptos frontend.
//!
//! The reactive user interface lives in `app/`; this library holds the
//! decisions it takes: the state machine of the suspensible image websocket,
//! the error recovery of server-persisted values, the kinds of primitive
//! parameter values, the variable store, the debounced parameter uploads and
//! the small text rules used along the way.

mod externs;

pub mod device;
pub mod frozen;
pub mod images;
pub mod leaf;
pub mod log;
pub mod import;
pub mod json_editor;
pub mod name;
pub mod notifications;
pub mod pages;
pub mod pending;
pub mod pipeline_error;
pub mod primitive_json;
pub mod primitive_value;
pub mod recipe_stream;
pub mod recipes;
pub mod stored;
pub mod text;
pub mod variables;
pub mod ws_suspend;

