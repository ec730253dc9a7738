use sytter::macos_bindings::{
    err_sub, err_system, iokit_common_err, iokit_common_msg, kIOMessageCanSystemSleep,
    kIOMessageSystemWillPowerOn, kIOReturnError, kIOReturnInvalid, kIOReturnNotFound,
    AppleIoMessage, AppleIoReturn,
};

#[test]
fn code_fields() {
    assert_eq!(err_system(0x38), 0xe000_0000);
    assert_eq!(err_system(0x7f), 0xfc00_0000);
    assert_eq!(err_sub(0), 0);
    assert_eq!(err_sub(0x1fff), 0x03ff_c000);
    assert_eq!(iokit_common_msg(0x270), kIOMessageCanSystemSleep);
    assert_eq!(iokit_common_msg(0x320), kIOMessageSystemWillPowerOn);
    assert_eq!(iokit_common_err(0x2bc), kIOReturnError);
    assert_eq!(kIOReturnError, 0xe000_02bc);
}

#[test]
fn codes_round_trip() {
    assert_eq!(AppleIoReturn::from_u32(0), Some(AppleIoReturn::kIOReturnSuccess));
    assert_eq!(AppleIoReturn::from_u32(kIOReturnNotFound), Some(AppleIoReturn::kIOReturnNotFound));
    assert_eq!(AppleIoReturn::kIOReturnInvalid.code(), kIOReturnInvalid);
    assert_eq!(AppleIoReturn::from_u32(7), None);
    assert_eq!(
        AppleIoMessage::from_u32(kIOMessageCanSystemSleep),
        Some(AppleIoMessage::kIOMessageCanSystemSleep)
    );
    assert_eq!(AppleIoMessage::kIOMessageSystemWillPowerOn.code(), 0xe000_0320);
    assert_eq!(AppleIoMessage::from_u32(0xe000_0999), None);
}
