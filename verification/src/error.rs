//! The two ways in which evaluating a script can fail, and the line that the
//! diagnostic log gets for each.

use vstd::prelude::*;
use vstd::string::StringExecFns;

verus! {

/// Why a script was not evaluated. Neither failure reaches the caller of the
/// command: each ends as one line in the diagnostic log.
#[derive(Debug, PartialEq, Eq)]
pub enum ScriptEvalError {
    /// The registry holds no window with the label that was asked for.
    WindowNotFound,
    /// The window was found, and running the script in it failed with this
    /// message.
    ExecutionFailed(String),
}

/// A `ScriptEvalError` as contracts see it.
pub enum ScriptEvalErrorView {
    WindowNotFound,
    ExecutionFailed(Seq<char>),
}

impl View for ScriptEvalError {
    type V = ScriptEvalErrorView;

    open spec fn view(&self) -> ScriptEvalErrorView {
        match self {
            ScriptEvalError::WindowNotFound => ScriptEvalErrorView::WindowNotFound,
            ScriptEvalError::ExecutionFailed(message) => ScriptEvalErrorView::ExecutionFailed(
                message@,
            ),
        }
    }
}

/// The diagnostic line for `error` on the window labelled `win_label`.
pub open spec fn diagnostic_text(win_label: Seq<char>, error: ScriptEvalErrorView) -> Seq<char> {
    match error {
        ScriptEvalErrorView::WindowNotFound => "command eval_js: Webview "@ + win_label
            + " not found"@,
        ScriptEvalErrorView::ExecutionFailed(message) => "command eval_js: Webview "@ + win_label
            + " error: "@ + message,
    }
}

/// `needle` stands somewhere in `text`, unbroken.
pub open spec fn mentions(text: Seq<char>, needle: Seq<char>) -> bool {
    exists|at: int|
        0 <= at && at + needle.len() <= text.len() && #[trigger] text.subrange(
            at,
            at + needle.len(),
        ) == needle
}

impl ScriptEvalError {
    /// The line to write to the diagnostic log for this failure on the window
    /// labelled `win_label`.
    pub fn diagnostic(&self, win_label: &str) -> (line: String)
        ensures
            line@ == diagnostic_text(win_label@, self@),
    {
        let mut line = String::from_str("command eval_js: Webview ");
        line.append(win_label);
        match self {
            ScriptEvalError::WindowNotFound => {
                line.append(" not found");
            },
            ScriptEvalError::ExecutionFailed(message) => {
                line.append(" error: ");
                line.append(message.as_str());
            },
        }
        line
    }
}

/// Every diagnostic line names the window it is about.
pub proof fn law_diagnostic_names_window(win_label: Seq<char>, error: ScriptEvalErrorView)
    ensures
        mentions(diagnostic_text(win_label, error), win_label),
{
    let text = diagnostic_text(win_label, error);
    let at = "command eval_js: Webview "@.len() as int;
    assert(text.subrange(at, at + win_label.len()) == win_label);
}

/// The diagnostic line for a failed execution carries the failure's message
/// whole, at its end.
pub proof fn law_diagnostic_carries_message(win_label: Seq<char>, message: Seq<char>)
    ensures
        mentions(
            diagnostic_text(win_label, ScriptEvalErrorView::ExecutionFailed(message)),
            message,
        ),
        message.is_suffix_of(
            diagnostic_text(win_label, ScriptEvalErrorView::ExecutionFailed(message)),
        ),
{
    let text = diagnostic_text(win_label, ScriptEvalErrorView::ExecutionFailed(message));
    let at = text.len() - message.len();
    assert(text.subrange(at, at + message.len()) == message);
}

} // verus!
