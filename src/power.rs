//! Power-state events and the trigger that reacts to them.
use vstd::prelude::*;
use vstd::string::*;

use crate::error::AppError;
use crate::section::{Section, SectionValue};
use crate::state::{upsert, State, SytterVariable};

verus! {

/// A change of the machine's power state.
#[derive(Clone, Copy, Debug, PartialEq, Eq, Structural)]
pub enum PowerEvent {
    Boot,
    Shutdown,
    Sleep,
    Wake,
    Unknown,
}

/// The name of a power event, as rule documents write it.
pub open spec fn power_event_name(e: PowerEvent) -> Seq<char> {
    match e {
        PowerEvent::Boot => "Boot"@,
        PowerEvent::Shutdown => "Shutdown"@,
        PowerEvent::Sleep => "Sleep"@,
        PowerEvent::Wake => "Wake"@,
        PowerEvent::Unknown => "Unknown"@,
    }
}

/// The power event with this exact name.
pub open spec fn power_event_named(s: Seq<char>) -> Option<PowerEvent> {
    if s == "Boot"@ {
        Some(PowerEvent::Boot)
    } else if s == "Shutdown"@ {
        Some(PowerEvent::Shutdown)
    } else if s == "Sleep"@ {
        Some(PowerEvent::Sleep)
    } else if s == "Wake"@ {
        Some(PowerEvent::Wake)
    } else if s == "Unknown"@ {
        Some(PowerEvent::Unknown)
    } else {
        None
    }
}

impl PowerEvent {
    /// The event's name.
    pub fn name(&self) -> (r: String)
        ensures
            r@ == power_event_name(*self),
    {
        match self {
            PowerEvent::Boot => String::from_str("Boot"),
            PowerEvent::Shutdown => String::from_str("Shutdown"),
            PowerEvent::Sleep => String::from_str("Sleep"),
            PowerEvent::Wake => String::from_str("Wake"),
            PowerEvent::Unknown => String::from_str("Unknown"),
        }
    }
}

/// The power event that `s` names; names are matched exactly.
pub fn power_event_deserialize(s: String) -> (r: Result<PowerEvent, AppError>)
    ensures
        r == match power_event_named(s@) {
            Some(e) => Ok::<PowerEvent, AppError>(e),
            None => Err(AppError::PowerEventParseError),
        },
{
    if s == String::from_str("Boot") {
        Ok(PowerEvent::Boot)
    } else if s == String::from_str("Shutdown") {
        Ok(PowerEvent::Shutdown)
    } else if s == String::from_str("Sleep") {
        Ok(PowerEvent::Sleep)
    } else if s == String::from_str("Wake") {
        Ok(PowerEvent::Wake)
    } else if s == String::from_str("Unknown") {
        Ok(PowerEvent::Unknown)
    } else {
        Err(AppError::PowerEventParseError)
    }
}

/// A trigger that fires on the power events it lists.
#[derive(Clone, Debug)]
pub struct PowerTrigger {
    pub events: Vec<PowerEvent>,
}

/// Every item is text that names a power event.
pub open spec fn all_power_names(items: Seq<SectionValue>) -> bool {
    forall|i: int|
        0 <= i < items.len() ==> (#[trigger] items[i] matches SectionValue::Text(s)
            && power_event_named(s@) is Some)
}

/// The power events that a section's `events` field lists.
pub open spec fn power_events_of(v: Option<SectionValue>) -> Result<Seq<PowerEvent>, AppError> {
    match v {
        None => Err(AppError::PowerEventsMissingError),
        Some(SectionValue::List(items)) => if all_power_names(items@) {
            Ok(items@.map_values(|x: SectionValue| power_event_named(x->Text_0@)->0))
        } else {
            Err(AppError::PowerEventParseError)
        },
        Some(_) => Err(AppError::PowerEventParseError),
    }
}

/// The power events of a list of section values.
fn power_events_from_list(items: &Vec<SectionValue>) -> (r: Result<Vec<PowerEvent>, AppError>)
    ensures
        r matches Ok(v) ==> all_power_names(items@) && v@ == items@.map_values(
            |x: SectionValue| power_event_named(x->Text_0@)->0,
        ),
        r is Err ==> !all_power_names(items@) && r == Err::<Vec<PowerEvent>, AppError>(
            AppError::PowerEventParseError,
        ),
{
    let mut events: Vec<PowerEvent> = Vec::new();
    let mut i: usize = 0;
    while i < items.len()
        invariant
            i <= items.len(),
            all_power_names(items@.take(i as int)),
            events@ == items@.take(i as int).map_values(
                |x: SectionValue| power_event_named(x->Text_0@)->0,
            ),
        decreases items.len() - i,
    {
        let e = match &items[i] {
            SectionValue::Text(s) => power_event_deserialize(s.clone()),
            _ => Err(AppError::PowerEventParseError),
        };
        match e {
            Ok(e) => {
                events.push(e);
                proof {
                    assert(items@.take(i + 1).map_values(
                        |x: SectionValue| power_event_named(x->Text_0@)->0,
                    ) =~= items@.take(i as int).map_values(
                        |x: SectionValue| power_event_named(x->Text_0@)->0,
                    ).push(e));
                    assert forall|j: int| 0 <= j < i + 1 implies (#[trigger] items@.take(
                        i + 1,
                    )[j] matches SectionValue::Text(s) && power_event_named(s@) is Some) by {
                        if j < i {
                            assert(items@.take(i as int)[j] == items@.take(i + 1)[j]);
                        }
                    }
                }
            },
            Err(_) => {
                assert(!all_power_names(items@)) by {
                    assert(!(items@[i as int] matches SectionValue::Text(s) && power_event_named(
                        s@,
                    ) is Some));
                }
                return Err(AppError::PowerEventParseError);
            },
        }
        i = i + 1;
    }
    assert(items@.take(i as int) =~= items@);
    Ok(events)
}

/// Reads a power trigger section: its `events` field must list power events.
pub fn power_trigger_toml_deserialize(section: &Section) -> (r: Result<PowerTrigger, AppError>)
    ensures
        match power_events_of(section.spec_field("events"@)) {
            Ok(es) => r matches Ok(t) && t.events@ == es,
            Err(e) => r matches Err(f) && f == e,
        },
{
    match section.position("events") {
        None => Err(AppError::PowerEventsMissingError),
        Some(i) => match &section.entries[i].1 {
            SectionValue::List(items) => match power_events_from_list(items) {
                Ok(events) => Ok(PowerTrigger { events }),
                Err(e) => Err(e),
            },
            _ => Err(AppError::PowerEventParseError),
        },
    }
}

/// The blackboard key under which the last power event is recorded.
pub open spec fn power_event_key() -> Seq<char> {
    "sytter_power_event"@
}

/// Whether `e` is one of `events`.
fn contains_power_event(events: &Vec<PowerEvent>, e: PowerEvent) -> (r: bool)
    ensures
        r == events@.contains(e),
{
    let mut i: usize = 0;
    while i < events.len()
        invariant
            i <= events.len(),
            forall|j: int| 0 <= j < i ==> events@[j] != e,
        decreases events.len() - i,
    {
        if events[i] == e {
            assert(events@[i as int] == e);
            return true;
        }
        i = i + 1;
    }
    false
}

impl PowerTrigger {
    /// Reacts to a power event: where the trigger lists it, records its name
    /// on the blackboard under `sytter_power_event` and answers that the rule
    /// is to be signalled; otherwise leaves the blackboard alone.
    pub fn on_power_event(&self, state: &mut State, event: PowerEvent) -> (r: bool)
        ensures
            r == self.events@.contains(event),
            r ==> final(state)@ == upsert(old(state)@, power_event_key(), power_event_name(event)),
            !r ==> final(state)@ == old(state)@,
            old(state).wf() ==> final(state).wf(),
    {
        if contains_power_event(&self.events, event) {
            state.set_variable(
                SytterVariable { key: String::from_str("sytter_power_event"), value: event.name() },
            );
            true
        } else {
            false
        }
    }
}

} // verus!
