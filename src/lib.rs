//! State machine of a small terminal editor that builds a flat JSON object
//! of string keys and string values, one key-value pair at a time.
use vstd::prelude::*;

pub mod app;
pub mod dispatch;
pub mod json;
pub mod laws;
pub mod pairs;
mod text;

pub use app::{App, CurrentScreen, CurrentlyEditing, Session};
pub use json::JsonError;
pub use dispatch::{Flow, KeyCode, KeyInput, KeyPhase};

verus! {

} // verus!
