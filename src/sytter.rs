//! A rule ("sytter"): its triggers, condition, executor and failure handler,
//! how it is read from its sections, and the decisions of its dispatch loop.
use vstd::prelude::*;
use vstd::string::*;

use crate::device::{device_connection_toml_deserialize, device_events_of, DeviceConnectionTrigger};
use crate::error::AppError;
use crate::power::{power_events_of, power_trigger_toml_deserialize, PowerTrigger};
use crate::section::{text_of_value, Section};
use crate::shell::{
    is_shell_parse, shell_condition_toml_deserialize, shell_executor_toml_deserialize,
    shell_failure_toml_deserialize, ShellCondition, ShellExecutor, ShellFailure, ShellFields,
};
use crate::timer::{
    cron_parsed_as, cron_rejected_as, cron_section_ok, cron_trigger_toml_deserialize, CronTrigger,
};

verus! {

/// A source of signals for a rule.
#[derive(Debug)]
pub enum Trigger {
    Cron(CronTrigger),
    Power(PowerTrigger),
    DeviceConnection(DeviceConnectionTrigger),
}

/// A predicate evaluated on each signal.
#[derive(Clone, Debug)]
pub enum Condition {
    Shell(ShellCondition),
}

/// The action run when the condition holds.
#[derive(Clone, Debug)]
pub enum Executor {
    Shell(ShellExecutor),
}

/// The action run when the condition or the executor fails.
#[derive(Clone, Debug)]
pub enum Failure {
    Shell(ShellFailure),
}

/// A rule as its document gives it: a name, a description and four lists of
/// sections.
#[derive(Debug)]
pub struct SytterDeserializedRaw {
    pub name: String,
    pub description: String,
    pub triggers: Vec<Section>,
    pub conditions: Vec<Section>,
    pub executors: Vec<Section>,
    pub failures: Vec<Section>,
}

/// A rule, its sections read.
#[derive(Debug)]
pub struct Sytter {
    pub name: String,
    pub description: String,
    pub triggers: Vec<Trigger>,
    pub conditions: Vec<Condition>,
    pub executors: Vec<Executor>,
    pub failures: Vec<Failure>,
}

/// The message of a section without a `kind` field.
pub open spec fn missing_kind_message(component: Seq<char>) -> Seq<char> {
    "Field 'kind' missing from "@ + component + "."@
}

/// The message of a section whose kind is not one of its slot's kinds.
pub open spec fn unsupported_kind_message(kind: Seq<char>) -> Seq<char> {
    "Kind '"@ + kind + "' not supported"@
}

/// The error names a section without a `kind` field.
pub open spec fn is_missing_kind(e: AppError, component: Seq<char>) -> bool {
    e matches AppError::SytterDeserializeRawError(m) && m@ == missing_kind_message(component)
}

/// The error names an unsupported kind.
pub open spec fn is_unsupported_kind(e: AppError, kind: Seq<char>) -> bool {
    e matches AppError::SytterDeserializeRawError(m) && m@ == unsupported_kind_message(kind)
}

/// A trigger section reads without error.
pub open spec fn trigger_section_ok(s: Section) -> bool {
    match text_of_value(s.spec_field("kind"@)) {
        None => false,
        Some(k) => if k == "cron"@ {
            cron_section_ok(s)
        } else if k == "device-connection"@ {
            device_events_of(s.spec_field("events"@)) is Ok
        } else if k == "power"@ {
            power_events_of(s.spec_field("events"@)) is Ok
        } else {
            false
        },
    }
}

/// `r` is what reading trigger section `s` gives.
pub open spec fn is_trigger_parse(s: Section, r: Result<Trigger, AppError>) -> bool {
    &&& r is Ok <==> trigger_section_ok(s)
    &&& match text_of_value(s.spec_field("kind"@)) {
        None => r matches Err(e) && is_missing_kind(e, "Trigger"@),
        Some(k) => if k == "cron"@ {
            match r {
                Ok(Trigger::Cron(t)) => cron_parsed_as(s, t),
                Ok(_) => false,
                Err(e) => cron_rejected_as(s, e),
            }
        } else if k == "device-connection"@ {
            match r {
                Ok(Trigger::DeviceConnection(t)) => device_events_of(s.spec_field("events"@))
                    == Ok::<Seq<crate::device::DeviceConnectionEvent>, AppError>(t.events@),
                Ok(_) => false,
                Err(e) => device_events_of(s.spec_field("events"@)) == Err::<
                    Seq<crate::device::DeviceConnectionEvent>,
                    AppError,
                >(e),
            }
        } else if k == "power"@ {
            match r {
                Ok(Trigger::Power(t)) => power_events_of(s.spec_field("events"@)) == Ok::<
                    Seq<crate::power::PowerEvent>,
                    AppError,
                >(t.events@),
                Ok(_) => false,
                Err(e) => power_events_of(s.spec_field("events"@)) == Err::<
                    Seq<crate::power::PowerEvent>,
                    AppError,
                >(e),
            }
        } else {
            r matches Err(e) && is_unsupported_kind(e, k)
        },
    }
}

/// The error for a kind that `kind` does not support.
fn unsupported_kind(kind: &String) -> (r: AppError)
    ensures
        is_unsupported_kind(r, kind@),
{
    let mut m = String::from_str("Kind '");
    m.append(kind.as_str());
    m.append("' not supported");
    AppError::SytterDeserializeRawError(m)
}

/// The error for a section of `component` without a kind.
fn missing_kind(component: &str) -> (r: AppError)
    ensures
        is_missing_kind(r, component@),
{
    let mut m = String::from_str("Field 'kind' missing from ");
    m.append(component);
    m.append(".");
    AppError::SytterDeserializeRawError(m)
}

/// Reads a trigger section by its `kind`: `cron`, `device-connection` or `power`.
pub fn sytter_trigger_table_deserialize(section: &Section) -> (r: Result<Trigger, AppError>)
    ensures
        is_trigger_parse(*section, r),
{
    let kind = match section.get_str("kind") {
        Some(k) => k,
        None => {
            return Err(missing_kind("Trigger"));
        },
    };
    if kind == String::from_str("cron") {
        match cron_trigger_toml_deserialize(section) {
            Ok(t) => Ok(Trigger::Cron(t)),
            Err(e) => Err(e),
        }
    } else if kind == String::from_str("device-connection") {
        match device_connection_toml_deserialize(section) {
            Ok(t) => Ok(Trigger::DeviceConnection(t)),
            Err(e) => Err(e),
        }
    } else if kind == String::from_str("power") {
        match power_trigger_toml_deserialize(section) {
            Ok(t) => Ok(Trigger::Power(t)),
            Err(e) => Err(e),
        }
    } else {
        Err(unsupported_kind(&kind))
    }
}

/// A shell section for `component` reads without error: its kind is `shell`
/// and it holds a script.
pub open spec fn component_section_ok(s: Section) -> bool {
    &&& text_of_value(s.spec_field("kind"@)) == Some("shell"@)
    &&& text_of_value(s.spec_field("script"@)) is Some
}

/// `r` is what reading condition section `s` gives.
pub open spec fn is_condition_parse(s: Section, r: Result<Condition, AppError>) -> bool {
    &&& r is Ok <==> component_section_ok(s)
    &&& match text_of_value(s.spec_field("kind"@)) {
        None => r matches Err(e) && is_missing_kind(e, "Condition"@),
        Some(k) => if k == "shell"@ {
            is_shell_parse(
                s,
                "Condition"@,
                match r {
                    Ok(Condition::Shell(c)) => Ok(
                        ShellFields {
                            id: c.id,
                            expected_exit_codes: c.expected_exit_codes,
                            script: c.script,
                            shell: c.shell,
                        },
                    ),
                    Err(e) => Err(e),
                },
            )
        } else {
            r matches Err(e) && is_unsupported_kind(e, k)
        },
    }
}

/// Reads a condition section by its `kind`; `shell` is the one kind.
pub fn sytter_condition_table_deserialize(section: &Section) -> (r: Result<Condition, AppError>)
    ensures
        is_condition_parse(*section, r),
{
    let kind = match section.get_str("kind") {
        Some(k) => k,
        None => {
            return Err(missing_kind("Condition"));
        },
    };
    if kind == String::from_str("shell") {
        match shell_condition_toml_deserialize(section) {
            Ok(c) => Ok(Condition::Shell(c)),
            Err(e) => Err(e),
        }
    } else {
        Err(unsupported_kind(&kind))
    }
}

/// `r` is what reading executor section `s` gives.
pub open spec fn is_executor_parse(s: Section, r: Result<Executor, AppError>) -> bool {
    &&& r is Ok <==> component_section_ok(s)
    &&& match text_of_value(s.spec_field("kind"@)) {
        None => r matches Err(e) && is_missing_kind(e, "Executor"@),
        Some(k) => if k == "shell"@ {
            is_shell_parse(
                s,
                "Executor"@,
                match r {
                    Ok(Executor::Shell(c)) => Ok(
                        ShellFields {
                            id: c.id,
                            expected_exit_codes: c.expected_exit_codes,
                            script: c.script,
                            shell: c.shell,
                        },
                    ),
                    Err(e) => Err(e),
                },
            )
        } else {
            r matches Err(e) && is_unsupported_kind(e, k)
        },
    }
}

/// Reads a executor section by its `kind`; `shell` is the one kind.
pub fn sytter_executor_table_deserialize(section: &Section) -> (r: Result<Executor, AppError>)
    ensures
        is_executor_parse(*section, r),
{
    let kind = match section.get_str("kind") {
        Some(k) => k,
        None => {
            return Err(missing_kind("Executor"));
        },
    };
    if kind == String::from_str("shell") {
        match shell_executor_toml_deserialize(section) {
            Ok(c) => Ok(Executor::Shell(c)),
            Err(e) => Err(e),
        }
    } else {
        Err(unsupported_kind(&kind))
    }
}

/// `r` is what reading failure section `s` gives.
pub open spec fn is_failure_parse(s: Section, r: Result<Failure, AppError>) -> bool {
    &&& r is Ok <==> component_section_ok(s)
    &&& match text_of_value(s.spec_field("kind"@)) {
        None => r matches Err(e) && is_missing_kind(e, "Failure"@),
        Some(k) => if k == "shell"@ {
            is_shell_parse(
                s,
                "Failure"@,
                match r {
                    Ok(Failure::Shell(c)) => Ok(
                        ShellFields {
                            id: c.id,
                            expected_exit_codes: c.expected_exit_codes,
                            script: c.script,
                            shell: c.shell,
                        },
                    ),
                    Err(e) => Err(e),
                },
            )
        } else {
            r matches Err(e) && is_unsupported_kind(e, k)
        },
    }
}

/// Reads a failure section by its `kind`; `shell` is the one kind.
pub fn sytter_failure_table_deserialize(section: &Section) -> (r: Result<Failure, AppError>)
    ensures
        is_failure_parse(*section, r),
{
    let kind = match section.get_str("kind") {
        Some(k) => k,
        None => {
            return Err(missing_kind("Failure"));
        },
    };
    if kind == String::from_str("shell") {
        match shell_failure_toml_deserialize(section) {
            Ok(c) => Ok(Failure::Shell(c)),
            Err(e) => Err(e),
        }
    } else {
        Err(unsupported_kind(&kind))
    }
}

/// Every section of `secs` reads without error.
pub open spec fn all_sections_ok(secs: Seq<Section>, ok: spec_fn(Section) -> bool) -> bool {
    forall|i: int| 0 <= i < secs.len() ==> #[trigger] ok(secs[i])
}

/// `e` is the error of the first section of `secs` that does not read.
pub open spec fn is_first_section_error<T>(
    secs: Seq<Section>,
    ok: spec_fn(Section) -> bool,
    parsed: spec_fn(Section, Result<T, AppError>) -> bool,
    e: AppError,
) -> bool {
    exists|i: int|
        0 <= i < secs.len() && (forall|j: int| 0 <= j < i ==> #[trigger] ok(secs[j]))
            && #[trigger] parsed(secs[i], Err(e))
}

/// `v` is what the sections read as, one for one.
pub open spec fn is_section_list<T>(
    secs: Seq<Section>,
    parsed: spec_fn(Section, Result<T, AppError>) -> bool,
    v: Seq<T>,
) -> bool {
    &&& v.len() == secs.len()
    &&& forall|i: int| 0 <= i < secs.len() ==> #[trigger] parsed(secs[i], Ok(v[i]))
}

/// Reads sections in order with `parse`, stopping at the first that does not
/// read; `parsed` says what reading one gives, and `ok` when it succeeds.
fn read_sections<T, F: Fn(&Section) -> Result<T, AppError>>(
    sections: &Vec<Section>,
    parse: F,
    Ghost(ok): Ghost<spec_fn(Section) -> bool>,
    Ghost(parsed): Ghost<spec_fn(Section, Result<T, AppError>) -> bool>,
) -> (r: Result<Vec<T>, AppError>)
    requires
        forall|s: &Section| #[trigger] parse.requires((s,)),
        forall|s: &Section, x: Result<T, AppError>| #[trigger]
            parse.ensures((s,), x) ==> parsed(*s, x),
        forall|s: Section, x: Result<T, AppError>| #[trigger] parsed(s, x) ==> (x is Ok <==> ok(s)),
    ensures
        r is Ok <==> all_sections_ok(sections@, ok),
        r matches Ok(v) ==> is_section_list(sections@, parsed, v@),
        r matches Err(e) ==> is_first_section_error(sections@, ok, parsed, e),
{
    let mut v: Vec<T> = Vec::new();
    let mut i: usize = 0;
    while i < sections.len()
        invariant
            i <= sections.len(),
            forall|s: &Section| #[trigger] parse.requires((s,)),
            forall|s: &Section, x: Result<T, AppError>| #[trigger]
                parse.ensures((s,), x) ==> parsed(*s, x),
            forall|s: Section, x: Result<T, AppError>| #[trigger]
                parsed(s, x) ==> (x is Ok <==> ok(s)),
            all_sections_ok(sections@.take(i as int), ok),
            is_section_list(sections@.take(i as int), parsed, v@),
        decreases sections.len() - i,
    {
        let res = parse(&sections[i]);
        assert(parsed(sections@[i as int], res));
        match res {
            Ok(t) => {
                let ghost before = v@;
                v.push(t);
                proof {
                    let secs = sections@.take(i + 1);
                    assert forall|j: int| 0 <= j < secs.len() implies #[trigger] parsed(
                        secs[j],
                        Ok(v@[j]),
                    ) by {
                        if j < i {
                            assert(secs[j] == sections@.take(i as int)[j]);
                            assert(v@[j] == before[j]);
                        }
                    }
                    assert forall|j: int| 0 <= j < secs.len() implies #[trigger] ok(secs[j]) by {
                        if j < i {
                            assert(secs[j] == sections@.take(i as int)[j]);
                        } else {
                            assert(parsed(secs[j], Ok(v@[j])));
                        }
                    }
                }
            },
            Err(e) => {
                proof {
                    let secs = sections@;
                    assert forall|j: int| 0 <= j < i implies #[trigger] ok(secs[j]) by {
                        assert(secs[j] == sections@.take(i as int)[j]);
                    }
                    assert(parsed(secs[i as int], Err(e)));
                    assert(!ok(secs[i as int]));
                }
                return Err(e);
            },
        }
        i = i + 1;
    }
    assert(sections@.take(i as int) =~= sections@);
    Ok(v)
}

/// Whether a trigger section reads without error.
pub open spec fn trigger_ok() -> spec_fn(Section) -> bool {
    |s: Section| trigger_section_ok(s)
}

/// What reading a trigger section gives.
pub open spec fn trigger_parsed() -> spec_fn(Section, Result<Trigger, AppError>) -> bool {
    |s: Section, r: Result<Trigger, AppError>| is_trigger_parse(s, r)
}

/// Every trigger section reads without error.
pub open spec fn all_triggers_ok(secs: Seq<Section>) -> bool {
    all_sections_ok(secs, trigger_ok())
}

/// `e` is the error of the first trigger section that does not read.
pub open spec fn is_first_trigger_error(secs: Seq<Section>, e: AppError) -> bool {
    is_first_section_error(secs, trigger_ok(), trigger_parsed(), e)
}

/// `v` is what the trigger sections read as, one for one.
pub open spec fn is_trigger_list(secs: Seq<Section>, v: Seq<Trigger>) -> bool {
    is_section_list(secs, trigger_parsed(), v)
}

/// Whether a condition section reads without error.
pub open spec fn condition_ok() -> spec_fn(Section) -> bool {
    |s: Section| component_section_ok(s)
}

/// What reading a condition section gives.
pub open spec fn condition_parsed() -> spec_fn(Section, Result<Condition, AppError>) -> bool {
    |s: Section, r: Result<Condition, AppError>| is_condition_parse(s, r)
}

/// Every condition section reads without error.
pub open spec fn all_conditions_ok(secs: Seq<Section>) -> bool {
    all_sections_ok(secs, condition_ok())
}

/// `e` is the error of the first condition section that does not read.
pub open spec fn is_first_condition_error(secs: Seq<Section>, e: AppError) -> bool {
    is_first_section_error(secs, condition_ok(), condition_parsed(), e)
}

/// `v` is what the condition sections read as, one for one.
pub open spec fn is_condition_list(secs: Seq<Section>, v: Seq<Condition>) -> bool {
    is_section_list(secs, condition_parsed(), v)
}

/// Whether a executor section reads without error.
pub open spec fn executor_ok() -> spec_fn(Section) -> bool {
    |s: Section| component_section_ok(s)
}

/// What reading a executor section gives.
pub open spec fn executor_parsed() -> spec_fn(Section, Result<Executor, AppError>) -> bool {
    |s: Section, r: Result<Executor, AppError>| is_executor_parse(s, r)
}

/// Every executor section reads without error.
pub open spec fn all_executors_ok(secs: Seq<Section>) -> bool {
    all_sections_ok(secs, executor_ok())
}

/// `e` is the error of the first executor section that does not read.
pub open spec fn is_first_executor_error(secs: Seq<Section>, e: AppError) -> bool {
    is_first_section_error(secs, executor_ok(), executor_parsed(), e)
}

/// `v` is what the executor sections read as, one for one.
pub open spec fn is_executor_list(secs: Seq<Section>, v: Seq<Executor>) -> bool {
    is_section_list(secs, executor_parsed(), v)
}

/// Whether a failure section reads without error.
pub open spec fn failure_ok() -> spec_fn(Section) -> bool {
    |s: Section| component_section_ok(s)
}

/// What reading a failure section gives.
pub open spec fn failure_parsed() -> spec_fn(Section, Result<Failure, AppError>) -> bool {
    |s: Section, r: Result<Failure, AppError>| is_failure_parse(s, r)
}

/// Every failure section reads without error.
pub open spec fn all_failures_ok(secs: Seq<Section>) -> bool {
    all_sections_ok(secs, failure_ok())
}

/// `e` is the error of the first failure section that does not read.
pub open spec fn is_first_failure_error(secs: Seq<Section>, e: AppError) -> bool {
    is_first_section_error(secs, failure_ok(), failure_parsed(), e)
}

/// `v` is what the failure sections read as, one for one.
pub open spec fn is_failure_list(secs: Seq<Section>, v: Seq<Failure>) -> bool {
    is_section_list(secs, failure_parsed(), v)
}

/// Reads every section of a rule. It fails with the error of the first
/// section that does not read, taking triggers, then conditions, then
/// executors, then failure handlers, each list in order.
pub fn sytter_deserialize(sd: SytterDeserializedRaw) -> (r: Result<Sytter, AppError>)
    ensures
        r is Ok <==> (all_triggers_ok(sd.triggers@) && all_conditions_ok(sd.conditions@)
            && all_executors_ok(sd.executors@) && all_failures_ok(sd.failures@)),
        r matches Ok(s) ==> {
            &&& s.name == sd.name
            &&& s.description == sd.description
            &&& is_trigger_list(sd.triggers@, s.triggers@)
            &&& is_condition_list(sd.conditions@, s.conditions@)
            &&& is_executor_list(sd.executors@, s.executors@)
            &&& is_failure_list(sd.failures@, s.failures@)
        },
        r matches Err(e) ==> {
            ||| is_first_trigger_error(sd.triggers@, e)
            ||| all_triggers_ok(sd.triggers@) && is_first_condition_error(sd.conditions@, e)
            ||| all_triggers_ok(sd.triggers@) && all_conditions_ok(sd.conditions@)
                && is_first_executor_error(sd.executors@, e)
            ||| all_triggers_ok(sd.triggers@) && all_conditions_ok(sd.conditions@)
                && all_executors_ok(sd.executors@) && is_first_failure_error(sd.failures@, e)
        },
{
    let triggers = match read_sections(
        &sd.triggers,
        sytter_trigger_table_deserialize,
        Ghost(trigger_ok()),
        Ghost(trigger_parsed()),
    ) {
        Ok(v) => v,
        Err(e) => {
            return Err(e);
        },
    };
    let conditions = match read_sections(
        &sd.conditions,
        sytter_condition_table_deserialize,
        Ghost(condition_ok()),
        Ghost(condition_parsed()),
    ) {
        Ok(v) => v,
        Err(e) => {
            return Err(e);
        },
    };
    let executors = match read_sections(
        &sd.executors,
        sytter_executor_table_deserialize,
        Ghost(executor_ok()),
        Ghost(executor_parsed()),
    ) {
        Ok(v) => v,
        Err(e) => {
            return Err(e);
        },
    };
    let failures = match read_sections(
        &sd.failures,
        sytter_failure_table_deserialize,
        Ghost(failure_ok()),
        Ghost(failure_parsed()),
    ) {
        Ok(v) => v,
        Err(e) => {
            return Err(e);
        },
    };
    Ok(
        Sytter {
            name: sd.name,
            description: sd.description,
            triggers,
            conditions,
            executors,
            failures,
        },
    )
}

/// The part of a rule that a dispatch worker needs: everything but the
/// triggers, which their own workers own.
#[derive(Clone, Debug)]
pub struct ThreadedSytter {
    pub name: String,
    pub description: String,
    pub conditions: Vec<Condition>,
    pub executors: Vec<Executor>,
    pub failures: Vec<Failure>,
}

impl Sytter {
    /// Splits a rule into its triggers, one worker each, and what the
    /// workers share. A rule without triggers has nothing to do: `NoTriggers`.
    pub fn start(self) -> (r: Result<(Vec<Trigger>, ThreadedSytter), AppError>)
        ensures
            r is Err <==> self.triggers@.len() == 0,
            r matches Err(e) ==> e == AppError::NoTriggers(self.name),
            r matches Ok((t, w)) ==> {
                &&& t@ == self.triggers@
                &&& w.name == self.name
                &&& w.description == self.description
                &&& w.conditions@ == self.conditions@
                &&& w.executors@ == self.executors@
                &&& w.failures@ == self.failures@
            },
    {
        if self.triggers.len() == 0 {
            Err(AppError::NoTriggers(self.name))
        } else {
            Ok(
                (
                    self.triggers,
                    ThreadedSytter {
                        name: self.name,
                        description: self.description,
                        conditions: self.conditions,
                        executors: self.executors,
                        failures: self.failures,
                    },
                ),
            )
        }
    }
}

/// Where a dispatch worker stands in the evaluation of a signal.
#[derive(Clone, Copy, Debug, PartialEq, Eq, Structural)]
pub enum DispatchState {
    /// No evaluation is under way; the worker waits for the next signal.
    AwaitingSignal,
    /// The first condition is being checked.
    CheckingCondition,
    /// The first executor is running.
    Executing,
    /// The first failure handler is running.
    HandlingFailure,
}

/// What happened, as reported to the dispatch worker.
#[derive(Debug)]
pub enum DispatchEvent {
    /// The trigger sent a signal.
    Signal,
    /// The condition was checked.
    ConditionChecked(Result<bool, AppError>),
    /// The executor ran.
    Executed(Result<(), AppError>),
    /// The failure handler ran.
    FailureHandled(Result<(), AppError>),
}

/// What the dispatch worker is to do next.
#[derive(Debug)]
pub enum DispatchAction {
    /// Check the first condition.
    RunCondition,
    /// Run the first executor.
    RunExecutor,
    /// Run the first failure handler with this error.
    RunFailure(AppError),
    /// The evaluation of the signal is over, with this result (an error is
    /// logged); the worker goes back to waiting for a signal.
    Completed(Result<(), AppError>),
    /// The event does not belong to the current state; nothing changes.
    Ignored,
}

impl ThreadedSytter {
    /// After an error: run the failure handler, or complete with `NoFailures`.
    pub open spec fn spec_fail(&self, e: AppError) -> (DispatchState, DispatchAction) {
        if self.failures@.len() == 0 {
            (DispatchState::AwaitingSignal, DispatchAction::Completed(Err(AppError::NoFailures)))
        } else {
            (DispatchState::HandlingFailure, DispatchAction::RunFailure(e))
        }
    }

    /// One step of the evaluation of signals.
    pub open spec fn spec_step(&self, state: DispatchState, event: DispatchEvent) -> (
        DispatchState,
        DispatchAction,
    ) {
        match (state, event) {
            (DispatchState::AwaitingSignal, DispatchEvent::Signal) => if self.conditions@.len()
                == 0 {
                (
                    DispatchState::AwaitingSignal,
                    DispatchAction::Completed(Err(AppError::NoConditions)),
                )
            } else {
                (DispatchState::CheckingCondition, DispatchAction::RunCondition)
            },
            (DispatchState::CheckingCondition, DispatchEvent::ConditionChecked(Ok(true))) => if self.executors@.len()
                == 0 {
                (
                    DispatchState::AwaitingSignal,
                    DispatchAction::Completed(Err(AppError::NoExecutors(self.name))),
                )
            } else {
                (DispatchState::Executing, DispatchAction::RunExecutor)
            },
            (DispatchState::CheckingCondition, DispatchEvent::ConditionChecked(Ok(false))) => (
                DispatchState::AwaitingSignal,
                DispatchAction::Completed(Ok(())),
            ),
            (DispatchState::CheckingCondition, DispatchEvent::ConditionChecked(Err(e))) => self.spec_fail(e),
            (DispatchState::Executing, DispatchEvent::Executed(Ok(()))) => (
                DispatchState::AwaitingSignal,
                DispatchAction::Completed(Ok(())),
            ),
            (DispatchState::Executing, DispatchEvent::Executed(Err(e))) => self.spec_fail(e),
            (DispatchState::HandlingFailure, DispatchEvent::FailureHandled(r)) => (
                DispatchState::AwaitingSignal,
                DispatchAction::Completed(r),
            ),
            (s, _) => (s, DispatchAction::Ignored),
        }
    }

    fn fail(&self, e: AppError) -> (r: (DispatchState, DispatchAction))
        ensures
            r == self.spec_fail(e),
    {
        if self.failures.len() == 0 {
            (DispatchState::AwaitingSignal, DispatchAction::Completed(Err(AppError::NoFailures)))
        } else {
            (DispatchState::HandlingFailure, DispatchAction::RunFailure(e))
        }
    }

    /// The dispatch loop's decision: given where the evaluation stands and
    /// what just happened, where it stands next and what to do. A signal
    /// checks the first condition (`NoConditions` without one); a condition
    /// that holds runs the first executor (without one, the evaluation
    /// completes with `NoExecutors`); a false condition completes the
    /// evaluation; an error of the condition check or of the executor runs
    /// the first failure handler with that error (`NoFailures` without one);
    /// the handler's result completes it.
    pub fn trigger_execute_on_message(&self, state: DispatchState, event: DispatchEvent) -> (r: (
        DispatchState,
        DispatchAction,
    ))
        ensures
            r == self.spec_step(state, event),
    {
        match (state, event) {
            (DispatchState::AwaitingSignal, DispatchEvent::Signal) => {
                if self.conditions.len() == 0 {
                    (
                        DispatchState::AwaitingSignal,
                        DispatchAction::Completed(Err(AppError::NoConditions)),
                    )
                } else {
                    (DispatchState::CheckingCondition, DispatchAction::RunCondition)
                }
            },
            (DispatchState::CheckingCondition, DispatchEvent::ConditionChecked(Ok(holds))) => {
                if !holds {
                    (DispatchState::AwaitingSignal, DispatchAction::Completed(Ok(())))
                } else if self.executors.len() == 0 {
                    (
                        DispatchState::AwaitingSignal,
                        DispatchAction::Completed(Err(AppError::NoExecutors(self.name.clone()))),
                    )
                } else {
                    (DispatchState::Executing, DispatchAction::RunExecutor)
                }
            },
            (DispatchState::CheckingCondition, DispatchEvent::ConditionChecked(Err(e))) => self.fail(e),
            (DispatchState::Executing, DispatchEvent::Executed(Ok(()))) => {
                (DispatchState::AwaitingSignal, DispatchAction::Completed(Ok(())))
            },
            (DispatchState::Executing, DispatchEvent::Executed(Err(e))) => self.fail(e),
            (DispatchState::HandlingFailure, DispatchEvent::FailureHandled(r)) => {
                (DispatchState::AwaitingSignal, DispatchAction::Completed(r))
            },
            (s, _) => (s, DispatchAction::Ignored),
        }
    }
}

/// The event that answers an action, where the condition, the executor and
/// the failure handler give `c`, `e` and `f`.
pub open spec fn respond(
    a: DispatchAction,
    c: Result<bool, AppError>,
    e: Result<(), AppError>,
    f: Result<(), AppError>,
) -> DispatchEvent {
    match a {
        DispatchAction::RunCondition => DispatchEvent::ConditionChecked(c),
        DispatchAction::RunExecutor => DispatchEvent::Executed(e),
        DispatchAction::RunFailure(_) => DispatchEvent::FailureHandled(f),
        _ => DispatchEvent::Signal,
    }
}

/// The actions taken for one signal, from an idle worker, up to and
/// including the one that completes the evaluation.
pub open spec fn evaluation(
    rule: ThreadedSytter,
    c: Result<bool, AppError>,
    e: Result<(), AppError>,
    f: Result<(), AppError>,
) -> Seq<DispatchAction> {
    let (s1, a1) = rule.spec_step(DispatchState::AwaitingSignal, DispatchEvent::Signal);
    if a1 is Completed {
        seq![a1]
    } else {
        let (s2, a2) = rule.spec_step(s1, respond(a1, c, e, f));
        if a2 is Completed {
            seq![a1, a2]
        } else {
            let (s3, a3) = rule.spec_step(s2, respond(a2, c, e, f));
            if a3 is Completed {
                seq![a1, a2, a3]
            } else {
                let (s4, a4) = rule.spec_step(s3, respond(a3, c, e, f));
                seq![a1, a2, a3, a4]
            }
        }
    }
}

/// The failure handler may be run with `err` for this signal: the condition
/// check failed with it, or the condition held and the executor failed with it.
pub open spec fn failure_cause(
    rule: ThreadedSytter,
    c: Result<bool, AppError>,
    e: Result<(), AppError>,
    err: AppError,
) -> bool {
    ||| c == Err::<bool, AppError>(err)
    ||| c == Ok::<bool, AppError>(true) && rule.executors@.len() > 0 && e == Err::<(), AppError>(err)
}

/// The actions `t` of one signal's evaluation, where the condition and the
/// executor give `c` and `e`, keep the dispatch rules: exactly one
/// completion, at the end; the executor at most once, and exactly when there
/// is a condition, it held and there is an executor; where the condition
/// held and there is no executor, the evaluation completes with
/// `NoExecutors`; the failure handler at most once, only with the error of
/// the condition check or of the executor, and after the executor where
/// both run.
pub open spec fn is_exclusive_evaluation(
    rule: ThreadedSytter,
    c: Result<bool, AppError>,
    e: Result<(), AppError>,
    t: Seq<DispatchAction>,
) -> bool {
    &&& t.len() >= 1
    &&& t.last() is Completed
    &&& forall|i: int| 0 <= i < t.len() - 1 ==> !(#[trigger] t[i] is Completed)
    &&& forall|i: int, j: int|
        0 <= i < j < t.len() ==> !(#[trigger] t[i] is RunExecutor && #[trigger] t[j] is RunExecutor)
    &&& forall|i: int, j: int|
        0 <= i < j < t.len() ==> !(#[trigger] t[i] is RunFailure && #[trigger] t[j] is RunFailure)
    &&& (exists|i: int| 0 <= i < t.len() && #[trigger] t[i] is RunExecutor) <==> (
    rule.conditions@.len() > 0 && c == Ok::<bool, AppError>(true) && rule.executors@.len() > 0)
    &&& (rule.conditions@.len() > 0 && c == Ok::<bool, AppError>(true) && rule.executors@.len() == 0)
        ==> t == seq![
        DispatchAction::RunCondition,
        DispatchAction::Completed(Err(AppError::NoExecutors(rule.name))),
    ]
    &&& forall|i: int|
        0 <= i < t.len() && #[trigger] t[i] is RunFailure ==> rule.conditions@.len() > 0
            && failure_cause(rule, c, e, t[i]->RunFailure_0)
    &&& forall|i: int, j: int|
        0 <= i < t.len() && 0 <= j < t.len() && #[trigger] t[i] is RunExecutor
            && #[trigger] t[j] is RunFailure ==> i < j
}

/// For one signal, whatever the condition, the executor and the failure
/// handler give, the evaluation keeps the dispatch rules: a signal leads to
/// nothing, to the executor once, or to the failure handler once (after an
/// executor only where the executor failed).
pub proof fn lemma_signal_exclusivity(
    rule: ThreadedSytter,
    c: Result<bool, AppError>,
    e: Result<(), AppError>,
    f: Result<(), AppError>,
)
    ensures
        is_exclusive_evaluation(rule, c, e, evaluation(rule, c, e, f)),
{
}

/// A signal starts an evaluation only while none is under way; an
/// evaluation under way ignores signals; the worker goes back to awaiting
/// signals only by completing the evaluation; every completion, with an
/// error or without, leaves it awaiting signals, and there the next signal
/// starts a new evaluation. So the evaluation of one signal ends before
/// that of the next begins, and an error never stops the loop.
pub proof fn lemma_one_evaluation_at_a_time(
    rule: ThreadedSytter,
    state: DispatchState,
    event: DispatchEvent,
)
    ensures
        rule.spec_step(state, event).1 is RunCondition ==> state == DispatchState::AwaitingSignal
            && event is Signal,
        (event is Signal && state != DispatchState::AwaitingSignal) ==> rule.spec_step(
            state,
            event,
        ) == (state, DispatchAction::Ignored),
        (state != DispatchState::AwaitingSignal && rule.spec_step(state, event).0
            == DispatchState::AwaitingSignal) ==> rule.spec_step(state, event).1 is Completed,
        rule.spec_step(state, event).1 is Completed ==> rule.spec_step(state, event).0
            == DispatchState::AwaitingSignal,
        rule.conditions@.len() > 0 ==> rule.spec_step(
            DispatchState::AwaitingSignal,
            DispatchEvent::Signal,
        ) == (DispatchState::CheckingCondition, DispatchAction::RunCondition),
{
}

/// The dispatch loop fed `events` from `state`: the state it ends in, and
/// the actions it took, one per event.
pub open spec fn run(rule: ThreadedSytter, state: DispatchState, events: Seq<DispatchEvent>) -> (
    DispatchState,
    Seq<DispatchAction>,
)
    decreases events.len(),
{
    if events.len() == 0 {
        (state, Seq::empty())
    } else {
        let (s, acts) = run(rule, state, events.drop_last());
        let (next, a) = rule.spec_step(s, events.last());
        (next, acts.push(a))
    }
}

/// Some action strictly between positions `i` and `j` completes an evaluation.
pub open spec fn completed_between(acts: Seq<DispatchAction>, i: int, j: int) -> bool {
    exists|k: int| i < k < j && #[trigger] acts[k] is Completed
}

/// Between the starts of any two evaluations, the first one completes.
pub open spec fn evaluations_in_turn(acts: Seq<DispatchAction>) -> bool {
    forall|i: int, j: int|
        0 <= i < j < acts.len() && #[trigger] acts[i] is RunCondition && #[trigger] acts[j] is RunCondition
            ==> completed_between(acts, i, j)
}

/// While the worker awaits signals, every evaluation it started has completed.
pub open spec fn all_started_completed(acts: Seq<DispatchAction>) -> bool {
    forall|r: int|
        0 <= r < acts.len() && #[trigger] acts[r] is RunCondition ==> completed_between(
            acts,
            r,
            acts.len() as int,
        )
}

proof fn lemma_run_in_turn(rule: ThreadedSytter, events: Seq<DispatchEvent>)
    ensures
        evaluations_in_turn(run(rule, DispatchState::AwaitingSignal, events).1),
        run(rule, DispatchState::AwaitingSignal, events).0 == DispatchState::AwaitingSignal
            ==> all_started_completed(run(rule, DispatchState::AwaitingSignal, events).1),
        run(rule, DispatchState::AwaitingSignal, events).1.len() == events.len(),
    decreases events.len(),
{
    if events.len() > 0 {
        let prev = events.drop_last();
        lemma_run_in_turn(rule, prev);
        let (s, acts) = run(rule, DispatchState::AwaitingSignal, prev);
        let ev = events.last();
        let (next, a) = rule.spec_step(s, ev);
        let all = acts.push(a);
        assert(run(rule, DispatchState::AwaitingSignal, events) == (next, all));
        lemma_one_evaluation_at_a_time(rule, s, ev);
        let n = acts.len() as int;
        assert forall|i: int, j: int|
            0 <= i < j < all.len() && #[trigger] all[i] is RunCondition
                && #[trigger] all[j] is RunCondition implies completed_between(all, i, j) by {
            assert(all[i] == acts[i]);
            if j < n {
                assert(all[j] == acts[j]);
                let k = choose|k: int| i < k < j && #[trigger] acts[k] is Completed;
                assert(all[k] == acts[k]);
            } else {
                assert(s == DispatchState::AwaitingSignal);
                let k = choose|k: int| i < k < n && #[trigger] acts[k] is Completed;
                assert(all[k] == acts[k]);
            }
        }
        if next == DispatchState::AwaitingSignal {
            assert forall|r: int| 0 <= r < all.len() && #[trigger] all[r] is RunCondition implies completed_between(
                all,
                r,
                all.len() as int,
            ) by {
                if a is Completed {
                    assert(all[n] is Completed);
                } else {
                    assert(s == DispatchState::AwaitingSignal);
                    assert(r < n);
                    assert(all[r] == acts[r]);
                    let k = choose|k: int| r < k < n && #[trigger] acts[k] is Completed;
                    assert(all[k] == acts[k]);
                }
            }
        }
    }
}

/// Over any sequence of events fed to a worker that starts idle, the
/// evaluations never overlap: between the starts of any two evaluations the
/// first one completes; and whenever the worker is back to awaiting
/// signals, every evaluation it started has completed.
pub proof fn lemma_evaluations_in_turn(rule: ThreadedSytter, events: Seq<DispatchEvent>)
    ensures
        evaluations_in_turn(run(rule, DispatchState::AwaitingSignal, events).1),
        run(rule, DispatchState::AwaitingSignal, events).0 == DispatchState::AwaitingSignal
            ==> all_started_completed(run(rule, DispatchState::AwaitingSignal, events).1),
{
    lemma_run_in_turn(rule, events);
}

} // verus!
