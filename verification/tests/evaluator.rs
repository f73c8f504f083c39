use webview_commands::{eval_js, EvalAction, EvalEvent, EvalPhase, ScriptEvalError};

/// A window of the stand-in host: its label, and the failure that running a
/// script in it reports, if any.
struct Window {
    label: String,
    failure: Option<String>,
}

/// A stand-in host that keeps count of what it was asked to do.
struct Host {
    windows: Vec<Window>,
    lookups: Vec<String>,
    executed: Vec<(String, String)>,
    log: Vec<String>,
}

fn host_with(windows: Vec<Window>) -> Host {
    Host { windows, lookups: Vec::new(), executed: Vec::new(), log: Vec::new() }
}

fn working(label: &str) -> Window {
    Window { label: label.to_string(), failure: None }
}

fn failing(label: &str, message: &str) -> Window {
    Window { label: label.to_string(), failure: Some(message.to_string()) }
}

/// Runs one call against `host`, doing what each request asks.
fn call(host: &mut Host, win_label: &str, code: &str) {
    let (mut state, mut action) = eval_js(win_label, code);
    let mut found: Option<usize> = None;
    loop {
        let event = match action {
            EvalAction::Lookup(label) => {
                host.lookups.push(label.clone());
                found = host.windows.iter().position(|w| w.label == label);
                if found.is_some() {
                    EvalEvent::WindowFound
                } else {
                    EvalEvent::WindowMissing
                }
            }
            EvalAction::Execute(script) => {
                let window = &host.windows[found.expect("no script without a window")];
                host.executed.push((window.label.clone(), script));
                match &window.failure {
                    None => EvalEvent::ScriptSucceeded,
                    Some(message) => EvalEvent::ScriptFailed(message.clone()),
                }
            }
            EvalAction::Log(line) => {
                host.log.push(line);
                break;
            }
            EvalAction::Finish => break,
        };
        (state, action) = state.step(event);
    }
    assert_eq!(state.phase(), EvalPhase::Finished);
}

#[test]
fn missing_window_is_logged_once() {
    let mut host = host_with(vec![working("main")]);
    call(&mut host, "missing-window", "1+1");
    assert_eq!(host.lookups, vec!["missing-window".to_string()]);
    assert!(host.executed.is_empty());
    assert_eq!(host.log.len(), 1);
    assert!(host.log[0].contains("missing-window"));
    assert_eq!(host.log[0], "command eval_js: Webview missing-window not found");
}

#[test]
fn missing_window_in_an_empty_registry() {
    let mut host = host_with(Vec::new());
    call(&mut host, "main", "document.title");
    assert!(host.executed.is_empty());
    assert_eq!(host.log, vec!["command eval_js: Webview main not found".to_string()]);
}

#[test]
fn found_window_runs_the_script_once() {
    let mut host = host_with(vec![working("main")]);
    call(&mut host, "main", "document.title");
    assert_eq!(host.lookups, vec!["main".to_string()]);
    assert_eq!(host.executed, vec![("main".to_string(), "document.title".to_string())]);
    assert!(host.log.is_empty());
}

#[test]
fn script_goes_to_the_window_that_was_named() {
    let mut host = host_with(vec![working("settings"), working("main"), working("about")]);
    call(&mut host, "main", "window.close()");
    assert_eq!(host.executed, vec![("main".to_string(), "window.close()".to_string())]);
    assert!(host.log.is_empty());
}

#[test]
fn failed_script_is_logged_once() {
    let mut host = host_with(vec![failing("main", "webview is gone")]);
    call(&mut host, "main", "document.title");
    assert_eq!(host.executed, vec![("main".to_string(), "document.title".to_string())]);
    assert_eq!(host.log.len(), 1);
    assert!(host.log[0].contains("main"));
    assert!(host.log[0].contains("webview is gone"));
    assert_eq!(host.log[0], "command eval_js: Webview main error: webview is gone");
}

#[test]
fn repeated_call_runs_the_script_again() {
    let mut host = host_with(vec![working("main")]);
    call(&mut host, "main", "document.title");
    call(&mut host, "main", "document.title");
    assert_eq!(host.lookups, vec!["main".to_string(), "main".to_string()]);
    assert_eq!(
        host.executed,
        vec![
            ("main".to_string(), "document.title".to_string()),
            ("main".to_string(), "document.title".to_string()),
        ]
    );
    assert!(host.log.is_empty());
}

#[test]
fn repeated_failure_is_logged_again() {
    let mut host = host_with(vec![failing("main", "boom")]);
    call(&mut host, "main", "x");
    call(&mut host, "main", "x");
    assert_eq!(host.executed.len(), 2);
    assert_eq!(
        host.log,
        vec![
            "command eval_js: Webview main error: boom".to_string(),
            "command eval_js: Webview main error: boom".to_string(),
        ]
    );
}

#[test]
fn repeated_miss_is_logged_again() {
    let mut host = host_with(Vec::new());
    call(&mut host, "gone", "x");
    call(&mut host, "gone", "x");
    assert!(host.executed.is_empty());
    assert_eq!(host.log.len(), 2);
    assert_eq!(host.log[0], host.log[1]);
}

#[test]
fn a_call_starts_with_the_lookup() {
    let (state, action) = eval_js("main", "document.title");
    assert_eq!(state.phase(), EvalPhase::AwaitingWindow);
    assert_eq!(action, EvalAction::Lookup("main".to_string()));
}

#[test]
fn a_found_window_is_asked_to_run_the_script() {
    let (state, _) = eval_js("main", "document.title");
    let (state, action) = state.step(EvalEvent::WindowFound);
    assert_eq!(state.phase(), EvalPhase::AwaitingScript);
    assert_eq!(action, EvalAction::Execute("document.title".to_string()));
}

#[test]
fn a_missing_window_ends_the_call_with_a_line() {
    let (state, _) = eval_js("side", "1+1");
    let (state, action) = state.step(EvalEvent::WindowMissing);
    assert_eq!(state.phase(), EvalPhase::Finished);
    assert_eq!(
        action,
        EvalAction::Log("command eval_js: Webview side not found".to_string())
    );
}

#[test]
fn a_script_that_succeeded_ends_the_call_quietly() {
    let (state, _) = eval_js("main", "1+1");
    let (state, _) = state.step(EvalEvent::WindowFound);
    let (state, action) = state.step(EvalEvent::ScriptSucceeded);
    assert_eq!(state.phase(), EvalPhase::Finished);
    assert_eq!(action, EvalAction::Finish);
}

#[test]
fn a_script_that_failed_ends_the_call_with_a_line() {
    let (state, _) = eval_js("main", "1+1");
    let (state, _) = state.step(EvalEvent::WindowFound);
    let (state, action) = state.step(EvalEvent::ScriptFailed("no such frame".to_string()));
    assert_eq!(state.phase(), EvalPhase::Finished);
    assert_eq!(
        action,
        EvalAction::Log("command eval_js: Webview main error: no such frame".to_string())
    );
}

#[test]
fn a_report_about_a_script_before_the_lookup_ends_the_call() {
    let (state, _) = eval_js("main", "1+1");
    let (state, action) = state.step(EvalEvent::ScriptSucceeded);
    assert_eq!(state.phase(), EvalPhase::Finished);
    assert_eq!(action, EvalAction::Finish);

    let (state, _) = eval_js("main", "1+1");
    let (state, action) = state.step(EvalEvent::ScriptFailed("early".to_string()));
    assert_eq!(state.phase(), EvalPhase::Finished);
    assert_eq!(action, EvalAction::Finish);
}

#[test]
fn a_report_about_the_window_after_the_lookup_ends_the_call() {
    let (state, _) = eval_js("main", "1+1");
    let (state, _) = state.step(EvalEvent::WindowFound);
    let (state, action) = state.step(EvalEvent::WindowFound);
    assert_eq!(state.phase(), EvalPhase::Finished);
    assert_eq!(action, EvalAction::Finish);

    let (state, _) = eval_js("main", "1+1");
    let (state, _) = state.step(EvalEvent::WindowFound);
    let (state, action) = state.step(EvalEvent::WindowMissing);
    assert_eq!(state.phase(), EvalPhase::Finished);
    assert_eq!(action, EvalAction::Finish);
}

#[test]
fn a_finished_call_stays_finished() {
    let (state, _) = eval_js("main", "1+1");
    let (state, _) = state.step(EvalEvent::WindowMissing);
    let (state, action) = state.step(EvalEvent::WindowFound);
    assert_eq!(state.phase(), EvalPhase::Finished);
    assert_eq!(action, EvalAction::Finish);
    let (state, action) = state.step(EvalEvent::ScriptFailed("late".to_string()));
    assert_eq!(state.phase(), EvalPhase::Finished);
    assert_eq!(action, EvalAction::Finish);
    let (state, action) = state.step(EvalEvent::WindowMissing);
    assert_eq!(state.phase(), EvalPhase::Finished);
    assert_eq!(action, EvalAction::Finish);
}

#[test]
fn empty_label_and_empty_script_are_taken_as_they_are() {
    let (state, action) = eval_js("", "");
    assert_eq!(action, EvalAction::Lookup(String::new()));
    let (_, action) = state.step(EvalEvent::WindowFound);
    assert_eq!(action, EvalAction::Execute(String::new()));

    let (state, _) = eval_js("", "");
    let (_, action) = state.step(EvalEvent::WindowMissing);
    assert_eq!(action, EvalAction::Log("command eval_js: Webview  not found".to_string()));
}

#[test]
fn label_and_script_pass_through_unchanged() {
    let label = "fenêtre-2\t{}";
    let code = "alert('héllo\\n');\n// 日本語 {0}";
    let (state, action) = eval_js(label, code);
    assert_eq!(action, EvalAction::Lookup(label.to_string()));
    let (state, action) = state.step(EvalEvent::WindowFound);
    assert_eq!(action, EvalAction::Execute(code.to_string()));
    let (_, action) = state.step(EvalEvent::ScriptFailed("échec {}".to_string()));
    assert_eq!(
        action,
        EvalAction::Log("command eval_js: Webview fenêtre-2\t{} error: échec {}".to_string())
    );
}

#[test]
fn diagnostic_for_a_window_that_is_not_there() {
    assert_eq!(
        ScriptEvalError::WindowNotFound.diagnostic("missing-window"),
        "command eval_js: Webview missing-window not found"
    );
}

#[test]
fn diagnostic_for_a_failed_execution() {
    let error = ScriptEvalError::ExecutionFailed("failed to send message".to_string());
    assert_eq!(
        error.diagnostic("main"),
        "command eval_js: Webview main error: failed to send message"
    );
}

#[test]
fn diagnostic_with_an_empty_message() {
    let error = ScriptEvalError::ExecutionFailed(String::new());
    assert_eq!(error.diagnostic("main"), "command eval_js: Webview main error: ");
}
