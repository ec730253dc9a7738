//! The timer trigger: a cron expression, parsed when the rule is loaded.
use vstd::prelude::*;
use vstd::string::*;

use crate::error::AppError;
use crate::section::{text_of_value, Section};

verus! {

/// Declares cron's parsed schedule, which a timer trigger keeps.
#[verifier::external_type_specification]
#[verifier::external_body]
pub struct ExSchedule(cron::Schedule);

/// Declares cron's parse error.
#[verifier::external_type_specification]
#[verifier::external_body]
pub struct ExCronError(cron::error::Error);

/// Whether cron's parser accepts an expression.
pub uninterp spec fn cron_accepts(expr: Seq<char>) -> bool;

/// Relies on cron's `Schedule::from_str`: whether it accepts an expression
/// depends on the expression alone.
#[verifier::external_body]
fn parse_schedule(expr: &str) -> (r: Result<cron::Schedule, cron::error::Error>)
    ensures
        r is Ok <==> cron_accepts(expr@),
{
    <cron::Schedule as core::str::FromStr>::from_str(expr)
}

/// A trigger that fires on a cron schedule.
#[derive(Debug)]
pub struct CronTrigger {
    pub cron: String,
    pub schedule: cron::Schedule,
}

/// The message of a section that lacks its expression.
pub open spec fn missing_cron_message() -> Seq<char> {
    "Field 'cron' missing from Trigger."@
}

impl CronTrigger {
    /// The trigger for `cron`, given what parsing it gave: the schedule, or a
    /// `ScheduleParseError` that carries the expression.
    pub fn from_parsed(cron: String, parsed: Result<cron::Schedule, cron::error::Error>) -> (r: Result<
        CronTrigger,
        AppError,
    >)
        ensures
            r is Ok <==> parsed is Ok,
            r matches Ok(t) ==> t.cron@ == cron@,
            parsed matches Ok(s) ==> (r matches Ok(t) && t.schedule == s),
            r matches Err(e) ==> e == AppError::ScheduleParseError(cron),
    {
        match parsed {
            Ok(schedule) => Ok(CronTrigger { cron, schedule }),
            Err(_) => Err(AppError::ScheduleParseError(cron)),
        }
    }

    /// The trigger for a cron expression; fails where cron rejects it.
    pub fn parse(cron: String) -> (r: Result<CronTrigger, AppError>)
        ensures
            r is Ok <==> cron_accepts(cron@),
            r matches Ok(t) ==> t.cron@ == cron@,
            r matches Err(e) ==> e == AppError::ScheduleParseError(cron),
    {
        let parsed = parse_schedule(cron.as_str());
        CronTrigger::from_parsed(cron, parsed)
    }
}

/// The section holds a cron expression that cron accepts.
pub open spec fn cron_section_ok(section: Section) -> bool {
    text_of_value(section.spec_field("cron"@)) matches Some(c) && cron_accepts(c)
}

/// `t` is the trigger for the section's expression.
pub open spec fn cron_parsed_as(section: Section, t: CronTrigger) -> bool {
    text_of_value(section.spec_field("cron"@)) == Some(t.cron@)
}

/// `e` is the error for the section: a missing expression, or one that cron
/// rejects.
pub open spec fn cron_rejected_as(section: Section, e: AppError) -> bool {
    match text_of_value(section.spec_field("cron"@)) {
        None => e matches AppError::SytterDeserializeRawError(m) && m@ == missing_cron_message(),
        Some(c) => e matches AppError::ScheduleParseError(x) && x@ == c,
    }
}

/// Reads a cron trigger section: its `cron` field must hold an expression
/// that cron accepts.
pub fn cron_trigger_toml_deserialize(section: &Section) -> (r: Result<CronTrigger, AppError>)
    ensures
        r is Ok <==> cron_section_ok(*section),
        r matches Ok(t) ==> cron_parsed_as(*section, t),
        r matches Err(e) ==> cron_rejected_as(*section, e),
{
    match section.get_str("cron") {
        Some(c) => CronTrigger::parse(c),
        None => Err(
            AppError::SytterDeserializeRawError(
                String::from_str("Field 'cron' missing from Trigger."),
            ),
        ),
    }
}

} // verus!
