//! Command logic for a desktop shell whose front-end runs in webview windows.
//!
//! Two commands are offered. [`greet`] turns a name into a greeting.
//! [`eval_js`] has a script run in a window that is named by its label; the
//! windows and the diagnostic log belong to the host, so the command is a
//! small machine that tells the host what to do and is told what came of it.

pub mod calls;
pub mod error;
pub mod evaluator;
pub mod greeter;

pub use error::ScriptEvalError;
pub use evaluator::{eval_js, EvalAction, EvalEvent, EvalPhase, EvalState};
pub use greeter::greet;
