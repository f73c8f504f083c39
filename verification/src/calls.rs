//! Whole calls: what one call asks of its host from start to end, and what
//! holds of every call.
//!
//! The host is taken as it answers: a function from a request to the event
//! that it reports for it. A registry that does not change between two calls
//! is one such function, used twice.

use vstd::prelude::*;
use crate::error::{diagnostic_text, mentions, ScriptEvalErrorView};
use crate::error::{law_diagnostic_carries_message, law_diagnostic_names_window};
use crate::evaluator::{next, start};
use crate::evaluator::{EvalActionView, EvalEventView, EvalPhase, EvalStateView};

verus! {

/// A host, by the event that it reports for each request.
pub type Host = spec_fn(EvalActionView) -> EvalEventView;

/// No event is asked for after this request.
pub open spec fn ends_call(action: EvalActionView) -> bool {
    action is Log || action is Finish
}

/// How many more reports a call can take before it must be over.
pub open spec fn reports_left(state: EvalStateView, action: EvalActionView) -> nat {
    let pending: nat = if ends_call(action) { 0 } else { 1 };
    match state.phase {
        EvalPhase::AwaitingWindow => 2 + pending,
        EvalPhase::AwaitingScript => 1 + pending,
        EvalPhase::Finished => pending,
    }
}

/// What the host is asked to do from `action` on, in order, when it answers
/// as `host` does. `Finish` asks for nothing and is left out.
pub open spec fn requests_from(state: EvalStateView, action: EvalActionView, host: Host) -> Seq<
    EvalActionView,
>
    decreases reports_left(state, action),
{
    if action is Finish {
        Seq::empty()
    } else if action is Log {
        seq![action]
    } else {
        let after = next(state, host(action));
        seq![action] + requests_from(after.0, after.1, host)
    }
}

/// What one call for `code` in the window labelled `win_label` asks of
/// `host`, from its start to its end.
pub open spec fn requests(win_label: Seq<char>, code: Seq<char>, host: Host) -> Seq<
    EvalActionView,
> {
    let begun = start(win_label, code);
    requests_from(begun.0, begun.1, host)
}

/// The scripts that `asked` has the host run, in order.
pub open spec fn scripts_run(asked: Seq<EvalActionView>) -> Seq<Seq<char>>
    decreases asked.len(),
{
    if asked.len() == 0 {
        Seq::empty()
    } else {
        let earlier = scripts_run(asked.drop_last());
        match asked.last() {
            EvalActionView::Execute(code) => earlier.push(code),
            _ => earlier,
        }
    }
}

/// The lines that `asked` has the host write to the diagnostic log, in
/// order.
pub open spec fn lines_logged(asked: Seq<EvalActionView>) -> Seq<Seq<char>>
    decreases asked.len(),
{
    if asked.len() == 0 {
        Seq::empty()
    } else {
        let earlier = lines_logged(asked.drop_last());
        match asked.last() {
            EvalActionView::Log(line) => earlier.push(line),
            _ => earlier,
        }
    }
}

/// The scripts run by two runs of requests, one after the other, are those
/// of the first followed by those of the second.
pub proof fn lemma_scripts_run_concat(first: Seq<EvalActionView>, second: Seq<EvalActionView>)
    ensures
        scripts_run(first + second) == scripts_run(first) + scripts_run(second),
    decreases second.len(),
{
    if second.len() == 0 {
        assert(first + second == first);
    } else {
        assert((first + second).drop_last() == first + second.drop_last());
        lemma_scripts_run_concat(first, second.drop_last());
    }
}

/// The lines logged by two runs of requests, one after the other, are those
/// of the first followed by those of the second.
pub proof fn lemma_lines_logged_concat(first: Seq<EvalActionView>, second: Seq<EvalActionView>)
    ensures
        lines_logged(first + second) == lines_logged(first) + lines_logged(second),
    decreases second.len(),
{
    if second.len() == 0 {
        assert(first + second == first);
    } else {
        assert((first + second).drop_last() == first + second.drop_last());
        lemma_lines_logged_concat(first, second.drop_last());
    }
}

/// Every report brings a call nearer to its end and leaves its label and its
/// script as they were; a call that is over stays over.
pub proof fn law_step_advances(state: EvalStateView, action: EvalActionView, event: EvalEventView)
    ensures
        next(state, event).0.win_label == state.win_label,
        next(state, event).0.code == state.code,
        state.phase == EvalPhase::Finished ==> next(state, event) == (
            state,
            EvalActionView::Finish,
        ),
        !ends_call(action) ==> reports_left(next(state, event).0, next(state, event).1)
            < reports_left(state, action),
        next(state, event).0.phase == EvalPhase::Finished <==> ends_call(next(state, event).1),
{
}

/// What a call asks of its host, for every host: first the lookup; then,
/// if the window was found, the script; then, if the window was missing or
/// the script failed, the one line for the log.
pub proof fn law_call_shape(win_label: Seq<char>, code: Seq<char>, host: Host)
    ensures
        requests(win_label, code, host) == match host(EvalActionView::Lookup(win_label)) {
            EvalEventView::WindowFound => match host(EvalActionView::Execute(code)) {
                EvalEventView::ScriptFailed(message) => seq![
                    EvalActionView::Lookup(win_label),
                    EvalActionView::Execute(code),
                    EvalActionView::Log(
                        diagnostic_text(win_label, ScriptEvalErrorView::ExecutionFailed(message)),
                    ),
                ],
                _ => seq![EvalActionView::Lookup(win_label), EvalActionView::Execute(code)],
            },
            EvalEventView::WindowMissing => seq![
                EvalActionView::Lookup(win_label),
                EvalActionView::Log(
                    diagnostic_text(win_label, ScriptEvalErrorView::WindowNotFound),
                ),
            ],
            _ => seq![EvalActionView::Lookup(win_label)],
        },
{
    reveal_with_fuel(requests_from, 4);
}

/// A call for a window that the registry does not hold runs no script and
/// puts exactly one line in the log, which names the label that was asked
/// for.
pub proof fn law_missing_window_is_logged_once(
    win_label: Seq<char>,
    code: Seq<char>,
    host: Host,
)
    requires
        host(EvalActionView::Lookup(win_label)) == EvalEventView::WindowMissing,
    ensures
        requests(win_label, code, host) == seq![
            EvalActionView::Lookup(win_label),
            EvalActionView::Log(diagnostic_text(win_label, ScriptEvalErrorView::WindowNotFound)),
        ],
        scripts_run(requests(win_label, code, host)) == Seq::<Seq<char>>::empty(),
        lines_logged(requests(win_label, code, host)) == seq![
            diagnostic_text(win_label, ScriptEvalErrorView::WindowNotFound),
        ],
        mentions(diagnostic_text(win_label, ScriptEvalErrorView::WindowNotFound), win_label),
{
    law_call_shape(win_label, code, host);
    law_diagnostic_names_window(win_label, ScriptEvalErrorView::WindowNotFound);
    reveal_with_fuel(scripts_run, 3);
    reveal_with_fuel(lines_logged, 3);
}

/// A call for a window that is there and takes the script has the script run
/// exactly once, as it was given, and logs nothing.
pub proof fn law_success_runs_once_and_logs_nothing(
    win_label: Seq<char>,
    code: Seq<char>,
    host: Host,
)
    requires
        host(EvalActionView::Lookup(win_label)) == EvalEventView::WindowFound,
        host(EvalActionView::Execute(code)) == EvalEventView::ScriptSucceeded,
    ensures
        requests(win_label, code, host) == seq![
            EvalActionView::Lookup(win_label),
            EvalActionView::Execute(code),
        ],
        scripts_run(requests(win_label, code, host)) == seq![code],
        lines_logged(requests(win_label, code, host)) == Seq::<Seq<char>>::empty(),
{
    law_call_shape(win_label, code, host);
    reveal_with_fuel(scripts_run, 3);
    reveal_with_fuel(lines_logged, 3);
}

/// A call for a window that is there and fails to run the script has the
/// script run exactly once and puts exactly one line in the log, which holds
/// the window's label and the failure's message.
pub proof fn law_failure_is_logged_once(
    win_label: Seq<char>,
    code: Seq<char>,
    message: Seq<char>,
    host: Host,
)
    requires
        host(EvalActionView::Lookup(win_label)) == EvalEventView::WindowFound,
        host(EvalActionView::Execute(code)) == EvalEventView::ScriptFailed(message),
    ensures
        requests(win_label, code, host) == seq![
            EvalActionView::Lookup(win_label),
            EvalActionView::Execute(code),
            EvalActionView::Log(
                diagnostic_text(win_label, ScriptEvalErrorView::ExecutionFailed(message)),
            ),
        ],
        scripts_run(requests(win_label, code, host)) == seq![code],
        lines_logged(requests(win_label, code, host)) == seq![
            diagnostic_text(win_label, ScriptEvalErrorView::ExecutionFailed(message)),
        ],
        mentions(
            diagnostic_text(win_label, ScriptEvalErrorView::ExecutionFailed(message)),
            win_label,
        ),
        mentions(
            diagnostic_text(win_label, ScriptEvalErrorView::ExecutionFailed(message)),
            message,
        ),
{
    law_call_shape(win_label, code, host);
    law_diagnostic_names_window(win_label, ScriptEvalErrorView::ExecutionFailed(message));
    law_diagnostic_carries_message(win_label, message);
    reveal_with_fuel(scripts_run, 4);
    reveal_with_fuel(lines_logged, 4);
}

/// A call keeps nothing for the next one. Two calls with the same arguments
/// to a host that answers both alike ask the same of it twice over: where
/// the window is there, the script runs once for each call.
pub proof fn law_repeated_call_runs_again(win_label: Seq<char>, code: Seq<char>, host: Host)
    ensures
        ({
            let once = requests(win_label, code, host);
            &&& scripts_run(once + once) == scripts_run(once) + scripts_run(once)
            &&& lines_logged(once + once) == lines_logged(once) + lines_logged(once)
            &&& host(EvalActionView::Lookup(win_label)) == EvalEventView::WindowFound
                ==> scripts_run(once + once) == seq![code, code]
        }),
{
    let once = requests(win_label, code, host);
    lemma_scripts_run_concat(once, once);
    lemma_lines_logged_concat(once, once);
    if host(EvalActionView::Lookup(win_label)) == EvalEventView::WindowFound {
        law_call_shape(win_label, code, host);
        reveal_with_fuel(scripts_run, 4);
        assert(scripts_run(once) == seq![code]);
        assert(seq![code] + seq![code] == seq![code, code]);
    }
}

} // verus!
