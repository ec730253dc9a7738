use sytter::error::AppError;
use sytter::section::{Section, SectionValue};
use sytter::shell::ShellOutcome;
use sytter::sytter::{
    sytter_condition_table_deserialize, sytter_deserialize, sytter_executor_table_deserialize,
    sytter_failure_table_deserialize, sytter_trigger_table_deserialize, Condition, DispatchAction,
    DispatchEvent, DispatchState, Executor, Failure, SytterDeserializedRaw, ThreadedSytter, Trigger,
};

fn section(fields: Vec<(&str, SectionValue)>) -> Section {
    Section { entries: fields.into_iter().map(|(k, v)| (k.to_string(), v)).collect() }
}

fn text(s: &str) -> SectionValue {
    SectionValue::Text(s.to_string())
}

fn shell(script: &str) -> Section {
    section(vec![("kind", text("shell")), ("script", text(script))])
}

fn raw(triggers: Vec<Section>, conditions: Vec<Section>, executors: Vec<Section>, failures: Vec<Section>) -> SytterDeserializedRaw {
    SytterDeserializedRaw {
        name: "rule".to_string(),
        description: "a rule".to_string(),
        triggers,
        conditions,
        executors,
        failures,
    }
}

fn cron_once() -> Section {
    section(vec![("kind", text("cron")), ("cron", text("0 0 0 1 1 * 2099"))])
}

fn finished(code: i32, stdout: &str) -> ShellOutcome {
    ShellOutcome::Finished { code: Some(code), stdout: stdout.as_bytes().to_vec(), stderr: vec![] }
}

fn worker(conditions: &[&str], executors: &[&str], failures: &[&str]) -> ThreadedSytter {
    let rule = sytter_deserialize(raw(
        vec![cron_once()],
        conditions.iter().map(|s| shell(s)).collect(),
        executors.iter().map(|s| shell(s)).collect(),
        failures.iter().map(|s| shell(s)).collect(),
    ))
    .unwrap();
    let (triggers, w) = rule.start().unwrap();
    assert_eq!(triggers.len(), 1);
    w
}

fn run_condition(w: &ThreadedSytter, code: i32) -> Result<bool, AppError> {
    match &w.conditions[0] {
        Condition::Shell(c) => c.check_condition(&finished(code, "")),
    }
}

fn run_executor(w: &ThreadedSytter, code: i32, out: &str) -> Result<(), AppError> {
    match &w.executors[0] {
        Executor::Shell(e) => e.execute(&finished(code, out)),
    }
}

fn run_failure(w: &ThreadedSytter, code: i32) -> Result<(), AppError> {
    match &w.failures[0] {
        Failure::Shell(f) => f.execute(&finished(code, "")),
    }
}

#[test]
fn condition_true_runs_executor() {
    let w = worker(&["exit 0"], &["echo ok"], &["echo failed"]);
    let (s, a) = w.trigger_execute_on_message(DispatchState::AwaitingSignal, DispatchEvent::Signal);
    assert_eq!(s, DispatchState::CheckingCondition);
    assert!(matches!(a, DispatchAction::RunCondition));
    let (s, a) = w.trigger_execute_on_message(s, DispatchEvent::ConditionChecked(run_condition(&w, 0)));
    assert_eq!(s, DispatchState::Executing);
    assert!(matches!(a, DispatchAction::RunExecutor));
    match &w.executors[0] {
        Executor::Shell(e) => assert_eq!(e.script, "echo ok"),
    }
    let executed = run_executor(&w, 0, "ok\n");
    assert_eq!(executed, Ok(()));
    let (s, a) = w.trigger_execute_on_message(s, DispatchEvent::Executed(executed));
    assert_eq!(s, DispatchState::AwaitingSignal);
    assert!(matches!(a, DispatchAction::Completed(Ok(()))));
}

#[test]
fn condition_false_runs_nothing() {
    let w = worker(&["exit 1"], &["echo ok"], &["echo failed"]);
    let (s, _) = w.trigger_execute_on_message(DispatchState::AwaitingSignal, DispatchEvent::Signal);
    let checked = run_condition(&w, 1);
    assert_eq!(checked, Ok(false));
    let (s, a) = w.trigger_execute_on_message(s, DispatchEvent::ConditionChecked(checked));
    assert_eq!(s, DispatchState::AwaitingSignal);
    assert!(matches!(a, DispatchAction::Completed(Ok(()))));
}

#[test]
fn executor_error_runs_failure_once() {
    let w = worker(&["exit 0"], &["exit 7"], &["echo failed"]);
    let (s, _) = w.trigger_execute_on_message(DispatchState::AwaitingSignal, DispatchEvent::Signal);
    let (s, _) = w.trigger_execute_on_message(s, DispatchEvent::ConditionChecked(run_condition(&w, 0)));
    let executed = run_executor(&w, 7, "");
    let (s, a) = w.trigger_execute_on_message(s, DispatchEvent::Executed(executed));
    assert_eq!(s, DispatchState::HandlingFailure);
    match a {
        DispatchAction::RunFailure(e) => {
            assert_eq!(e, AppError::ShellExecError(String::new(), String::new()))
        }
        other => panic!("unexpected {:?}", other),
    }
    let (s, a) = w.trigger_execute_on_message(s, DispatchEvent::FailureHandled(run_failure(&w, 0)));
    assert_eq!(s, DispatchState::AwaitingSignal);
    assert!(matches!(a, DispatchAction::Completed(Ok(()))));
}

#[test]
fn missing_executor_is_reported_and_loop_continues() {
    let w = worker(&["exit 0"], &[], &["echo failed"]);
    let (s, _) = w.trigger_execute_on_message(DispatchState::AwaitingSignal, DispatchEvent::Signal);
    let (s, a) = w.trigger_execute_on_message(s, DispatchEvent::ConditionChecked(run_condition(&w, 0)));
    assert_eq!(s, DispatchState::AwaitingSignal);
    match a {
        DispatchAction::Completed(Err(e)) => assert_eq!(e, AppError::NoExecutors("rule".to_string())),
        other => panic!("unexpected {:?}", other),
    }
    let (s, a) = w.trigger_execute_on_message(s, DispatchEvent::Signal);
    assert_eq!(s, DispatchState::CheckingCondition);
    assert!(matches!(a, DispatchAction::RunCondition));

    let without_failure = worker(&["exit 0"], &[], &[]);
    let (s, _) = without_failure.trigger_execute_on_message(DispatchState::AwaitingSignal, DispatchEvent::Signal);
    let (s, a) = without_failure.trigger_execute_on_message(s, DispatchEvent::ConditionChecked(Ok(true)));
    assert_eq!(s, DispatchState::AwaitingSignal);
    assert!(matches!(a, DispatchAction::Completed(Err(AppError::NoExecutors(_)))));
}

#[test]
fn missing_condition_and_condition_error() {
    let w = worker(&[], &["echo ok"], &["echo failed"]);
    let (s, a) = w.trigger_execute_on_message(DispatchState::AwaitingSignal, DispatchEvent::Signal);
    assert_eq!(s, DispatchState::AwaitingSignal);
    assert!(matches!(a, DispatchAction::Completed(Err(AppError::NoConditions))));

    let w = worker(&["exit 0"], &["echo ok"], &["echo failed"]);
    let (s, _) = w.trigger_execute_on_message(DispatchState::AwaitingSignal, DispatchEvent::Signal);
    let (s, a) = w.trigger_execute_on_message(
        s,
        DispatchEvent::ConditionChecked(Err(AppError::ShellChildTerminatedError)),
    );
    assert_eq!(s, DispatchState::HandlingFailure);
    assert!(matches!(a, DispatchAction::RunFailure(AppError::ShellChildTerminatedError)));
    let (s, a) = w.trigger_execute_on_message(
        s,
        DispatchEvent::FailureHandled(Err(AppError::ShellChildTerminatedError)),
    );
    assert_eq!(s, DispatchState::AwaitingSignal);
    assert!(matches!(a, DispatchAction::Completed(Err(AppError::ShellChildTerminatedError))));
}

#[test]
fn signals_wait_for_the_running_evaluation() {
    let w = worker(&["exit 0"], &["echo ok"], &["echo failed"]);
    let (s, _) = w.trigger_execute_on_message(DispatchState::AwaitingSignal, DispatchEvent::Signal);
    let (s2, a) = w.trigger_execute_on_message(s, DispatchEvent::Signal);
    assert_eq!(s2, DispatchState::CheckingCondition);
    assert!(matches!(a, DispatchAction::Ignored));
    let (s3, a) = w.trigger_execute_on_message(DispatchState::Executing, DispatchEvent::Signal);
    assert_eq!(s3, DispatchState::Executing);
    assert!(matches!(a, DispatchAction::Ignored));
    let (s4, a) = w.trigger_execute_on_message(DispatchState::AwaitingSignal, DispatchEvent::Executed(Ok(())));
    assert_eq!(s4, DispatchState::AwaitingSignal);
    assert!(matches!(a, DispatchAction::Ignored));
}

#[test]
fn rule_without_triggers_does_not_start() {
    let rule = sytter_deserialize(raw(vec![], vec![shell("exit 0")], vec![], vec![])).unwrap();
    assert_eq!(rule.start().unwrap_err(), AppError::NoTriggers("rule".to_string()));
}

#[test]
fn sections_by_kind() {
    assert!(matches!(sytter_trigger_table_deserialize(&cron_once()), Ok(Trigger::Cron(_))));
    assert!(matches!(
        sytter_trigger_table_deserialize(&section(vec![("kind", text("power")), ("events", SectionValue::List(vec![text("Wake")]))])),
        Ok(Trigger::Power(_))
    ));
    assert!(matches!(
        sytter_trigger_table_deserialize(&section(vec![("kind", text("device-connection")), ("events", SectionValue::List(vec![text("Add")]))])),
        Ok(Trigger::DeviceConnection(_))
    ));
    assert_eq!(
        sytter_trigger_table_deserialize(&section(vec![("kind", text("gps"))])).unwrap_err(),
        AppError::SytterDeserializeRawError("Kind 'gps' not supported".to_string())
    );
    assert_eq!(
        sytter_trigger_table_deserialize(&section(vec![])).unwrap_err(),
        AppError::SytterDeserializeRawError("Field 'kind' missing from Trigger.".to_string())
    );
    assert_eq!(
        sytter_condition_table_deserialize(&section(vec![("script", text("x"))])).unwrap_err(),
        AppError::SytterDeserializeRawError("Field 'kind' missing from Condition.".to_string())
    );
    assert_eq!(
        sytter_executor_table_deserialize(&section(vec![("kind", text("python"))])).unwrap_err(),
        AppError::SytterDeserializeRawError("Kind 'python' not supported".to_string())
    );
    assert!(sytter_failure_table_deserialize(&shell("true")).is_ok());
}

#[test]
fn first_bad_section_decides_the_error() {
    let bad_trigger = section(vec![("kind", text("power"))]);
    let bad_condition = section(vec![("kind", text("shell"))]);
    let err = sytter_deserialize(raw(vec![cron_once(), bad_trigger], vec![bad_condition], vec![], vec![]))
        .unwrap_err();
    assert_eq!(err, AppError::PowerEventsMissingError);
    let err = sytter_deserialize(raw(
        vec![cron_once()],
        vec![shell("true"), section(vec![("kind", text("shell"))])],
        vec![section(vec![])],
        vec![],
    ))
    .unwrap_err();
    assert_eq!(
        err,
        AppError::SytterDeserializeRawError("Field 'script' missing from Condition.".to_string())
    );
    let ok = sytter_deserialize(raw(vec![cron_once()], vec![shell("a")], vec![shell("b")], vec![shell("c")])).unwrap();
    assert_eq!(ok.name, "rule");
    assert_eq!(ok.description, "a rule");
    assert_eq!((ok.triggers.len(), ok.conditions.len(), ok.executors.len(), ok.failures.len()), (1, 1, 1, 1));
}
