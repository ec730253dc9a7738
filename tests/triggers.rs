use sytter::device::{
    device_connection_event_deserialize, device_connection_toml_deserialize, DeviceConnectionEvent,
};
use sytter::error::AppError;
use sytter::power::{power_event_deserialize, power_trigger_toml_deserialize, PowerEvent, PowerTrigger};
use sytter::section::{i32_des, vec_i32_des, Section, SectionValue};
use sytter::state::State;
use sytter::timer::{cron_trigger_toml_deserialize, CronTrigger};

fn section(fields: Vec<(&str, SectionValue)>) -> Section {
    Section { entries: fields.into_iter().map(|(k, v)| (k.to_string(), v)).collect() }
}

fn text(s: &str) -> SectionValue {
    SectionValue::Text(s.to_string())
}

fn list(names: &[&str]) -> SectionValue {
    SectionValue::List(names.iter().map(|n| text(n)).collect())
}

#[test]
fn power_event_names() {
    assert_eq!(power_event_deserialize("Sleep".to_string()), Ok(PowerEvent::Sleep));
    assert_eq!(power_event_deserialize("Boot".to_string()), Ok(PowerEvent::Boot));
    assert_eq!(power_event_deserialize("Unknown".to_string()), Ok(PowerEvent::Unknown));
    assert_eq!(power_event_deserialize("sleep".to_string()), Err(AppError::PowerEventParseError));
    assert_eq!(PowerEvent::Wake.name(), "Wake");
    assert_eq!(PowerEvent::Shutdown.name(), "Shutdown");
}

#[test]
fn device_event_names() {
    assert_eq!(device_connection_event_deserialize("Add".to_string()), Ok(DeviceConnectionEvent::Add));
    assert_eq!(device_connection_event_deserialize("Remove".to_string()), Ok(DeviceConnectionEvent::Remove));
    assert_eq!(
        device_connection_event_deserialize("Plug".to_string()),
        Err(AppError::DeviceConnectionEventParseError)
    );
}

#[test]
fn power_trigger_sections() {
    let t = power_trigger_toml_deserialize(&section(vec![("events", list(&["Sleep", "Wake"]))])).unwrap();
    assert_eq!(t.events, vec![PowerEvent::Sleep, PowerEvent::Wake]);
    assert_eq!(
        power_trigger_toml_deserialize(&section(vec![])).unwrap_err(),
        AppError::PowerEventsMissingError
    );
    assert_eq!(
        power_trigger_toml_deserialize(&section(vec![("events", text("Sleep"))])).unwrap_err(),
        AppError::PowerEventParseError
    );
    assert_eq!(
        power_trigger_toml_deserialize(&section(vec![("events", list(&["Sleep", "Nap"]))])).unwrap_err(),
        AppError::PowerEventParseError
    );
    assert_eq!(
        power_trigger_toml_deserialize(&section(vec![(
            "events",
            SectionValue::List(vec![SectionValue::Integer(1)])
        )]))
        .unwrap_err(),
        AppError::PowerEventParseError
    );
}

#[test]
fn device_trigger_sections() {
    let t = device_connection_toml_deserialize(&section(vec![("events", list(&["Remove"]))])).unwrap();
    assert_eq!(t.events, vec![DeviceConnectionEvent::Remove]);
    assert_eq!(
        device_connection_toml_deserialize(&section(vec![("kind", text("x"))])).unwrap_err(),
        AppError::DeviceConnectionEventsMissingError
    );
    assert_eq!(
        device_connection_toml_deserialize(&section(vec![("events", SectionValue::Other)])).unwrap_err(),
        AppError::DeviceConnectionEventsParseError
    );
    assert_eq!(
        device_connection_toml_deserialize(&section(vec![("events", list(&["Add", "Sleep"]))])).unwrap_err(),
        AppError::DeviceConnectionEventParseError
    );
    assert!(t.on_device_event(DeviceConnectionEvent::Remove));
    assert!(!t.on_device_event(DeviceConnectionEvent::Add));
}

#[test]
fn power_trigger_records_listed_events_only() {
    let t = PowerTrigger { events: vec![PowerEvent::Sleep] };
    let mut s = State::new();
    assert!(!t.on_power_event(&mut s, PowerEvent::Wake));
    assert!(s.get_variables().is_empty());
    assert!(t.on_power_event(&mut s, PowerEvent::Sleep));
    assert_eq!(s.get_variable(&"sytter_power_event".to_string()), Some("Sleep".to_string()));
    assert!(t.on_power_event(&mut s, PowerEvent::Sleep));
    assert_eq!(s.get_variables().len(), 1);
}

#[test]
fn cron_sections() {
    let t = cron_trigger_toml_deserialize(&section(vec![("cron", text("0 * * * * *"))])).unwrap();
    assert_eq!(t.cron, "0 * * * * *");
    assert_eq!(
        cron_trigger_toml_deserialize(&section(vec![("cron", text("not a schedule"))])).unwrap_err(),
        AppError::ScheduleParseError("not a schedule".to_string())
    );
    assert_eq!(
        cron_trigger_toml_deserialize(&section(vec![])).unwrap_err(),
        AppError::SytterDeserializeRawError("Field 'cron' missing from Trigger.".to_string())
    );
    assert!(CronTrigger::parse("*/5 * * * * *".to_string()).is_ok());
}

#[test]
fn cron_trigger_from_parse_result() {
    let good = "0 30 9 * * *".parse::<cron::Schedule>();
    assert_eq!(CronTrigger::from_parsed("0 30 9 * * *".to_string(), good).unwrap().cron, "0 30 9 * * *");
    let bad = "61 * * * * *".parse::<cron::Schedule>();
    assert_eq!(
        CronTrigger::from_parsed("61 * * * * *".to_string(), bad).unwrap_err(),
        AppError::ScheduleParseError("61 * * * * *".to_string())
    );
}

#[test]
fn integer_fields() {
    assert_eq!(i32_des(&SectionValue::Integer(-3)), Some(-3));
    assert_eq!(i32_des(&text("3")), None);
    assert_eq!(vec_i32_des(None), vec![0]);
    assert_eq!(vec_i32_des(Some(&SectionValue::List(vec![]))), vec![]);
    assert_eq!(vec_i32_des(Some(&SectionValue::Integer(5))), vec![0]);
    assert_eq!(
        vec_i32_des(Some(&SectionValue::List(vec![SectionValue::Integer(1), SectionValue::Integer(2)]))),
        vec![1, 2]
    );
}

#[test]
fn first_field_wins() {
    let s = section(vec![("events", list(&["Wake"])), ("events", list(&["Sleep"]))]);
    assert_eq!(s.position("events"), Some(0));
    assert_eq!(s.position("kind"), None);
    assert_eq!(power_trigger_toml_deserialize(&s).unwrap().events, vec![PowerEvent::Wake]);
    assert_eq!(section(vec![("a", text("x"))]).get_str("a"), Some("x".to_string()));
    assert_eq!(section(vec![("a", SectionValue::Integer(1))]).get_str("a"), None);
}
