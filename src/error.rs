//! The errors that the library reports.
use vstd::prelude::*;

verus! {

/// Declares std's UTF-8 error, which a failed output conversion carries.
#[verifier::external_type_specification]
#[verifier::external_body]
pub struct ExUtf8Error(core::str::Utf8Error);

/// Why a decision of the library, or a step that it drives, did not succeed.
#[derive(Debug, PartialEq, Eq)]
pub enum AppError {
    /// A device trigger section holds no `events` field.
    DeviceConnectionEventsMissingError,
    /// A device trigger's `events` field is not a list.
    DeviceConnectionEventsParseError,
    /// An entry of a device trigger's `events` list names no device event.
    DeviceConnectionEventParseError,
    /// A native registration reported a status other than success.
    ListenerRegistrationFailed,
    /// A native callback arrived with an identifier that is not registered.
    CallbackNotFound(u64),
    /// Every callback identifier has been handed out.
    CallbackIdentifiersExhausted,
    /// An entry of a power trigger's `events` list names no power event,
    /// or the field is not a list.
    PowerEventParseError,
    /// A power trigger section holds no `events` field.
    PowerEventsMissingError,
    /// A script was ended by a signal and left no exit code.
    ShellChildTerminatedError,
    /// A script exited with a code other than zero; its stdout and stderr.
    ShellExecError(String, String),
    /// The interpreter could not be started; the reason.
    ShellSpawnError(String),
    /// A script's output is not UTF-8.
    ShellUtf8ConversionError(core::str::Utf8Error),
    /// A rule section is malformed; what is wrong with it.
    SytterDeserializeRawError(String),
    /// A cron expression could not be parsed; the expression.
    ScheduleParseError(String),
    /// A rule has no trigger; the rule's name.
    NoTriggers(String),
    /// A rule has no condition.
    NoConditions,
    /// A rule whose condition held has no executor; the rule's name.
    NoExecutors(String),
    /// A rule that met an error has no failure handler.
    NoFailures,
}

} // verus!
