use std::collections::HashSet;

use sytter::error::AppError;
use sytter::event::{power_message_action, CallbackRegistry, ListenResult, PowerMessageAction};
use sytter::macos_bindings::{
    kIOMessageCanSystemSleep, kIOMessageSystemHasPoweredOn, kIOMessageSystemWillNotSleep,
    kIOMessageSystemWillPowerOn, kIOMessageSystemWillSleep,
};
use sytter::power::PowerEvent;

#[test]
fn registry_hands_out_fresh_identifiers() {
    let mut r: CallbackRegistry<&str> = CallbackRegistry::new();
    let a = r.register("a").unwrap();
    let b = r.register("b").unwrap();
    assert_eq!(a, 1);
    assert_eq!(b, 2);
    assert_eq!(*r.refcon_callback(a).unwrap(), "a");
    assert_eq!(*r.refcon_callback(b).unwrap(), "b");
    assert_eq!(r.refcon_callback(0).unwrap_err(), AppError::CallbackNotFound(0));
    assert_eq!(r.refcon_callback(3).unwrap_err(), AppError::CallbackNotFound(3));
}

#[test]
fn ten_thousand_registrations_never_collide() {
    let mut r: CallbackRegistry<usize> = CallbackRegistry::new();
    let mut seen = HashSet::new();
    for n in 0..10_000usize {
        let id = r.register(n).unwrap();
        assert!(seen.insert(id));
    }
    assert_eq!(seen.len(), 10_000);
    for id in [1u64, 5_000, 10_000] {
        assert_eq!(*r.refcon_callback(id).unwrap(), (id - 1) as usize);
    }
}

#[test]
fn registration_status() {
    assert_eq!(ListenResult::io_connect_t(0x1203).registration(), Ok(0x1203));
    assert_eq!(
        ListenResult::io_connect_t(0).registration(),
        Err(AppError::ListenerRegistrationFailed)
    );
    assert_eq!(ListenResult::kern_return_t(0).registration(), Ok(0));
    assert_eq!(
        ListenResult::kern_return_t(-536870212).registration(),
        Err(AppError::ListenerRegistrationFailed)
    );
    assert!(ListenResult::kern_return_t(0).success());
    assert!(!ListenResult::io_connect_t(0).success());
}

#[test]
fn power_messages() {
    assert_eq!(
        power_message_action(kIOMessageCanSystemSleep),
        PowerMessageAction::DeliverAndAcknowledge(PowerEvent::Unknown)
    );
    assert_eq!(
        power_message_action(kIOMessageSystemWillSleep),
        PowerMessageAction::DeliverAndAcknowledge(PowerEvent::Sleep)
    );
    assert_eq!(
        power_message_action(kIOMessageSystemHasPoweredOn),
        PowerMessageAction::Deliver(PowerEvent::Wake)
    );
    assert_eq!(power_message_action(kIOMessageSystemWillPowerOn), PowerMessageAction::Ignore);
    assert_eq!(power_message_action(kIOMessageSystemWillNotSleep), PowerMessageAction::Ignore);
    assert_eq!(power_message_action(0), PowerMessageAction::Ignore);
}

#[test]
fn removed_identifiers_stay_unregistered() {
    let mut r: CallbackRegistry<&str> = CallbackRegistry::new();
    let a = r.register("a").unwrap();
    let b = r.register("b").unwrap();
    r.remove(a);
    assert_eq!(r.refcon_callback(a).unwrap_err(), AppError::CallbackNotFound(a));
    assert_eq!(*r.refcon_callback(b).unwrap(), "b");
    r.remove(42);
    let c = r.register("c").unwrap();
    assert!(c != a && c != b);
    assert_eq!(*r.refcon_callback(c).unwrap(), "c");
}
