//! Evaluating a script in a named window, as a machine that the host drives.
//!
//! The library touches neither windows nor the log. A call starts with
//! [`eval_js`], which hands out the first request. The host does what a
//! request asks, reports what came of it as an event, and gets the next
//! request from [`EvalState::step`], until the request is a `Log` or a
//! `Finish`.

use vstd::prelude::*;
use crate::error::{diagnostic_text, ScriptEvalError, ScriptEvalErrorView};

verus! {

/// How far a call has come.
#[derive(Debug, Clone, Copy, PartialEq, Eq, Structural)]
pub enum EvalPhase {
    /// The host has been asked for the window and has not answered yet.
    AwaitingWindow,
    /// The host has been asked to run the script and has not answered yet.
    AwaitingScript,
    /// The call is over.
    Finished,
}

/// What the host is asked to do next.
#[derive(Debug, PartialEq, Eq)]
pub enum EvalAction {
    /// Look for the window with this label in the registry.
    Lookup(String),
    /// Run this script in the window that was found.
    Execute(String),
    /// Write this line to the diagnostic log. Nothing follows it.
    Log(String),
    /// Nothing is left to do.
    Finish,
}

/// What the host reports back.
#[derive(Debug, PartialEq, Eq)]
pub enum EvalEvent {
    /// The registry holds the window.
    WindowFound,
    /// The registry holds no window with that label.
    WindowMissing,
    /// The window took the script without complaint.
    ScriptSucceeded,
    /// Running the script failed, with this message.
    ScriptFailed(String),
}

/// One call of the command on its way.
#[derive(Debug, PartialEq, Eq)]
pub struct EvalState {
    win_label: String,
    code: String,
    phase: EvalPhase,
}

/// An `EvalAction` as contracts see it.
pub enum EvalActionView {
    Lookup(Seq<char>),
    Execute(Seq<char>),
    Log(Seq<char>),
    Finish,
}

/// An `EvalEvent` as contracts see it.
pub enum EvalEventView {
    WindowFound,
    WindowMissing,
    ScriptSucceeded,
    ScriptFailed(Seq<char>),
}

/// An `EvalState` as contracts see it.
pub struct EvalStateView {
    pub win_label: Seq<char>,
    pub code: Seq<char>,
    pub phase: EvalPhase,
}

impl View for EvalAction {
    type V = EvalActionView;

    open spec fn view(&self) -> EvalActionView {
        match self {
            EvalAction::Lookup(win_label) => EvalActionView::Lookup(win_label@),
            EvalAction::Execute(code) => EvalActionView::Execute(code@),
            EvalAction::Log(line) => EvalActionView::Log(line@),
            EvalAction::Finish => EvalActionView::Finish,
        }
    }
}

impl View for EvalEvent {
    type V = EvalEventView;

    open spec fn view(&self) -> EvalEventView {
        match self {
            EvalEvent::WindowFound => EvalEventView::WindowFound,
            EvalEvent::WindowMissing => EvalEventView::WindowMissing,
            EvalEvent::ScriptSucceeded => EvalEventView::ScriptSucceeded,
            EvalEvent::ScriptFailed(message) => EvalEventView::ScriptFailed(message@),
        }
    }
}

impl View for EvalState {
    type V = EvalStateView;

    closed spec fn view(&self) -> EvalStateView {
        EvalStateView { win_label: self.win_label@, code: self.code@, phase: self.phase }
    }
}

/// The state and the first request of a call for `code` in the window
/// labelled `win_label`.
pub open spec fn start(win_label: Seq<char>, code: Seq<char>) -> (EvalStateView, EvalActionView) {
    (
        EvalStateView { win_label, code, phase: EvalPhase::AwaitingWindow },
        EvalActionView::Lookup(win_label),
    )
}

/// `state` with the call over.
pub open spec fn finished(state: EvalStateView) -> EvalStateView {
    EvalStateView { phase: EvalPhase::Finished, ..state }
}

/// The state and the request that follow when the host reports `event` in
/// `state`.
///
/// A window that was found is asked to run the script. A window that is
/// missing, and a script that failed, each end the call with one line for the
/// log. A script that succeeded ends it with nothing more to do, and so does
/// an event that does not answer the request that is open.
pub open spec fn next(state: EvalStateView, event: EvalEventView) -> (
    EvalStateView,
    EvalActionView,
) {
    match (state.phase, event) {
        (EvalPhase::AwaitingWindow, EvalEventView::WindowFound) => (
            EvalStateView { phase: EvalPhase::AwaitingScript, ..state },
            EvalActionView::Execute(state.code),
        ),
        (EvalPhase::AwaitingWindow, EvalEventView::WindowMissing) => (
            finished(state),
            EvalActionView::Log(
                diagnostic_text(state.win_label, ScriptEvalErrorView::WindowNotFound),
            ),
        ),
        (EvalPhase::AwaitingScript, EvalEventView::ScriptFailed(message)) => (
            finished(state),
            EvalActionView::Log(
                diagnostic_text(state.win_label, ScriptEvalErrorView::ExecutionFailed(message)),
            ),
        ),
        _ => (finished(state), EvalActionView::Finish),
    }
}

/// Starts a call: evaluate `code` in the window labelled `win_label`.
///
/// Nothing has happened yet when this returns. The request that comes back
/// asks the host to look the window up.
pub fn eval_js(win_label: &str, code: &str) -> (begun: (EvalState, EvalAction))
    ensures
        (begun.0@, begun.1@) == start(win_label@, code@),
{
    let state = EvalState {
        win_label: win_label.to_owned(),
        code: code.to_owned(),
        phase: EvalPhase::AwaitingWindow,
    };
    (state, EvalAction::Lookup(win_label.to_owned()))
}

impl EvalState {
    /// How far the call has come.
    pub fn phase(&self) -> (phase: EvalPhase)
        ensures
            phase == self@.phase,
    {
        self.phase
    }

    /// Takes the host's report and says what to do next.
    ///
    /// A report that does not answer the request that is open ends the call
    /// with nothing logged, and a call that is over stays over.
    pub fn step(self, event: EvalEvent) -> (after: (EvalState, EvalAction))
        ensures
            (after.0@, after.1@) == next(self@, event@),
    {
        let EvalState { win_label, code, phase } = self;
        match (phase, event) {
            (EvalPhase::AwaitingWindow, EvalEvent::WindowFound) => {
                let script = code.clone();
                (
                    EvalState { win_label, code, phase: EvalPhase::AwaitingScript },
                    EvalAction::Execute(script),
                )
            },
            (EvalPhase::AwaitingWindow, EvalEvent::WindowMissing) => {
                let line = ScriptEvalError::WindowNotFound.diagnostic(win_label.as_str());
                (
                    EvalState { win_label, code, phase: EvalPhase::Finished },
                    EvalAction::Log(line),
                )
            },
            (EvalPhase::AwaitingScript, EvalEvent::ScriptFailed(message)) => {
                let line = ScriptEvalError::ExecutionFailed(message).diagnostic(
                    win_label.as_str(),
                );
                (
                    EvalState { win_label, code, phase: EvalPhase::Finished },
                    EvalAction::Log(line),
                )
            },
            _ => (EvalState { win_label, code, phase: EvalPhase::Finished }, EvalAction::Finish),
        }
    }
}

} // verus!
