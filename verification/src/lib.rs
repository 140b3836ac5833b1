//! Core pipeline of a terminal chat-completion client: building the ordered
//! message list, encoding the request body, decoding batch and streaming
//! responses, and driving the bounded retry loop as a state machine.
//!
//! All I/O (HTTP, the editor, stdin) lives outside this crate; the library
//! computes every decision of the pipeline and is verified.

use vstd::prelude::*;

pub mod common;
pub mod decode;
pub mod encode;
pub mod errors;
pub mod input;
pub mod json;
pub mod messages;
pub mod orchestrator;
pub mod stream;

verus! {

} // verus!
