//! Callbacks through which a conversation reports what happens in it.
use vstd::prelude::*;

use crate::message::TokenUsage;

verus! {

/// Receives events of a running conversation; every method does nothing
/// unless an implementation overrides it.
pub trait RuntimeObserver {
    /// Streamed assistant text.
    fn on_text_delta(&mut self, text: &str) {
    }

    /// A tool call is about to run.
    fn on_tool_call_start(&mut self, id: &str, name: &str, input: &str) {
    }

    /// A tool call finished.
    fn on_tool_result(&mut self, name: &str, output: &str, is_error: bool) {
    }

    /// A message from the runtime itself.
    fn on_system_message(&mut self, msg: &str) {
    }

    /// The turn ended, with its outcome.
    fn on_turn_finished(&mut self, result: &Result<(), String>) {
    }

    /// Token usage of a model call.
    fn on_usage(&mut self, usage: &TokenUsage) {
    }
}

} // verus!
