//! Device attach/detach events and the trigger that reacts to them.
use vstd::prelude::*;
use vstd::string::*;

use crate::error::AppError;
use crate::section::{Section, SectionValue};

verus! {

/// A device was attached or detached.
#[derive(Clone, Copy, Debug, PartialEq, Eq, Structural)]
pub enum DeviceConnectionEvent {
    Add,
    Remove,
}

/// The device event with this exact name.
pub open spec fn device_event_named(s: Seq<char>) -> Option<DeviceConnectionEvent> {
    if s == "Add"@ {
        Some(DeviceConnectionEvent::Add)
    } else if s == "Remove"@ {
        Some(DeviceConnectionEvent::Remove)
    } else {
        None
    }
}

/// The device event that `s` names; names are matched exactly.
pub fn device_connection_event_deserialize(s: String) -> (r: Result<DeviceConnectionEvent, AppError>)
    ensures
        r == match device_event_named(s@) {
            Some(e) => Ok::<DeviceConnectionEvent, AppError>(e),
            None => Err(AppError::DeviceConnectionEventParseError),
        },
{
    if s == String::from_str("Add") {
        Ok(DeviceConnectionEvent::Add)
    } else if s == String::from_str("Remove") {
        Ok(DeviceConnectionEvent::Remove)
    } else {
        Err(AppError::DeviceConnectionEventParseError)
    }
}

/// A trigger that fires on the device events it lists.
#[derive(Clone, Debug)]
pub struct DeviceConnectionTrigger {
    pub events: Vec<DeviceConnectionEvent>,
}

/// Every item is text that names a device event.
pub open spec fn all_device_names(items: Seq<SectionValue>) -> bool {
    forall|i: int|
        0 <= i < items.len() ==> (#[trigger] items[i] matches SectionValue::Text(s)
            && device_event_named(s@) is Some)
}

/// The device events that a section's `events` field lists.
pub open spec fn device_events_of(v: Option<SectionValue>) -> Result<Seq<DeviceConnectionEvent>, AppError> {
    match v {
        None => Err(AppError::DeviceConnectionEventsMissingError),
        Some(SectionValue::List(items)) => if all_device_names(items@) {
            Ok(items@.map_values(|x: SectionValue| device_event_named(x->Text_0@)->0))
        } else {
            Err(AppError::DeviceConnectionEventParseError)
        },
        Some(_) => Err(AppError::DeviceConnectionEventsParseError),
    }
}

/// The device events of a list of section values.
fn device_events_from_list(items: &Vec<SectionValue>) -> (r: Result<Vec<DeviceConnectionEvent>, AppError>)
    ensures
        r matches Ok(v) ==> all_device_names(items@) && v@ == items@.map_values(
            |x: SectionValue| device_event_named(x->Text_0@)->0,
        ),
        r is Err ==> !all_device_names(items@) && r == Err::<Vec<DeviceConnectionEvent>, AppError>(
            AppError::DeviceConnectionEventParseError,
        ),
{
    let mut events: Vec<DeviceConnectionEvent> = Vec::new();
    let mut i: usize = 0;
    while i < items.len()
        invariant
            i <= items.len(),
            all_device_names(items@.take(i as int)),
            events@ == items@.take(i as int).map_values(
                |x: SectionValue| device_event_named(x->Text_0@)->0,
            ),
        decreases items.len() - i,
    {
        let e = match &items[i] {
            SectionValue::Text(s) => device_connection_event_deserialize(s.clone()),
            _ => Err(AppError::DeviceConnectionEventParseError),
        };
        match e {
            Ok(e) => {
                events.push(e);
                proof {
                    assert(items@.take(i + 1).map_values(
                        |x: SectionValue| device_event_named(x->Text_0@)->0,
                    ) =~= items@.take(i as int).map_values(
                        |x: SectionValue| device_event_named(x->Text_0@)->0,
                    ).push(e));
                    assert forall|j: int| 0 <= j < i + 1 implies (#[trigger] items@.take(
                        i + 1,
                    )[j] matches SectionValue::Text(s) && device_event_named(s@) is Some) by {
                        if j < i {
                            assert(items@.take(i as int)[j] == items@.take(i + 1)[j]);
                        }
                    }
                }
            },
            Err(_) => {
                assert(!all_device_names(items@)) by {
                    assert(!(items@[i as int] matches SectionValue::Text(s) && device_event_named(
                        s@,
                    ) is Some));
                }
                return Err(AppError::DeviceConnectionEventParseError);
            },
        }
        i = i + 1;
    }
    assert(items@.take(i as int) =~= items@);
    Ok(events)
}

/// Reads a device trigger section: its `events` field must list device events.
pub fn device_connection_toml_deserialize(section: &Section) -> (r: Result<DeviceConnectionTrigger, AppError>)
    ensures
        match device_events_of(section.spec_field("events"@)) {
            Ok(es) => r matches Ok(t) && t.events@ == es,
            Err(e) => r matches Err(f) && f == e,
        },
{
    match section.position("events") {
        None => Err(AppError::DeviceConnectionEventsMissingError),
        Some(i) => match &section.entries[i].1 {
            SectionValue::List(items) => match device_events_from_list(items) {
                Ok(events) => Ok(DeviceConnectionTrigger { events }),
                Err(e) => Err(e),
            },
            _ => Err(AppError::DeviceConnectionEventsParseError),
        },
    }
}

impl DeviceConnectionTrigger {
    /// Whether a device event is one that this trigger lists, and so is to
    /// signal the rule.
    pub fn on_device_event(&self, event: DeviceConnectionEvent) -> (r: bool)
        ensures
            r == self.events@.contains(event),
    {
        let mut i: usize = 0;
        while i < self.events.len()
            invariant
                i <= self.events.len(),
                forall|j: int| 0 <= j < i ==> self.events@[j] != event,
            decreases self.events.len() - i,
        {
            if self.events[i] == event {
                assert(self.events@[i as int] == event);
                return true;
            }
            i = i + 1;
        }
        false
    }
}

} // verus!
