//! IOKit status codes and interest-notification message codes, laid out as
//! the kernel headers define them: a system field, a subsystem field and a code.
#![allow(non_upper_case_globals)]
#![allow(non_camel_case_types)]
use vstd::prelude::*;

verus! {

/// Places the low six bits of `x` in the system field (bits 26 to 31).
pub fn err_system(x: u32) -> (r: u32)
    ensures
        r == (x % 64) * 0x400_0000,
{
    assert((x & 0x3f) << 26 == (x % 64) * 0x400_0000) by (bit_vector);
    (x & 0x3f) << 26
}

/// Places the low twelve bits of `x` in the subsystem field (bits 14 to 25).
pub fn err_sub(x: u32) -> (r: u32)
    ensures
        r == (x % 4096) * 0x4000,
{
    assert((x & 0xfff) << 14 == (x % 4096) * 0x4000) by (bit_vector);
    (x & 0xfff) << 14
}

/// The IOKit system field: system 0x38.
pub const sys_iokit: u32 = 0xe000_0000;

/// The common IOKit subsystem: subsystem 0.
pub const sys_iokit_common: u32 = 0;

/// A message code of the common IOKit subsystem.
pub fn iokit_common_msg(message: u32) -> (r: u32)
    ensures
        r == sys_iokit | sys_iokit_common | message,
{
    let system = err_system(0x38);
    let sub = err_sub(0);
    system | sub | message
}

/// A status code of the IOKit system.
pub fn iokit_common_err(sub: u32) -> (r: u32)
    ensures
        r == sys_iokit | sub,
{
    err_system(0x38) | sub
}

/// Success, as the kernel reports it.
pub const kIOReturnSuccess: u32 = 0;

// Message codes: the IOKit system, the common subsystem, and the message.
pub const kIOMessageServiceIsTerminated: u32 = 0xe0000010;
pub const kIOMessageServiceIsSuspended: u32 = 0xe0000020;
pub const kIOMessageServiceIsResumed: u32 = 0xe0000030;
pub const kIOMessageServiceIsRequestingClose: u32 = 0xe0000100;
pub const kIOMessageServiceIsAttemptingOpen: u32 = 0xe0000101;
pub const kIOMessageServiceWasClosed: u32 = 0xe0000110;
pub const kIOMessageServiceBusyStateChange: u32 = 0xe0000120;
pub const kIOMessageCanDevicePowerOff: u32 = 0xe0000200;
pub const kIOMessageDeviceWillPowerOff: u32 = 0xe0000210;
pub const kIOMessageDeviceWillNotPowerOff: u32 = 0xe0000220;
pub const kIOMessageDeviceHasPoweredOn: u32 = 0xe0000230;
pub const kIOMessageCanSystemPowerOff: u32 = 0xe0000240;
pub const kIOMessageSystemWillPowerOff: u32 = 0xe0000250;
pub const kIOMessageSystemWillNotPowerOff: u32 = 0xe0000260;
pub const kIOMessageCanSystemSleep: u32 = 0xe0000270;
pub const kIOMessageSystemWillSleep: u32 = 0xe0000280;
pub const kIOMessageSystemWillNotSleep: u32 = 0xe0000290;
pub const kIOMessageSystemHasPoweredOn: u32 = 0xe0000300;
pub const kIOMessageSystemWillRestart: u32 = 0xe0000310;
pub const kIOMessageSystemWillPowerOn: u32 = 0xe0000320;

// Status codes: the IOKit system and the status.
pub const kIOReturnError: u32 = 0xe00002bc;
pub const kIOReturnNoMemory: u32 = 0xe00002bd;
pub const kIOReturnNoResources: u32 = 0xe00002be;
pub const kIOReturnIPCError: u32 = 0xe00002bf;
pub const kIOReturnNoDevice: u32 = 0xe00002c0;
pub const kIOReturnNotPrivileged: u32 = 0xe00002c1;
pub const kIOReturnBadArgument: u32 = 0xe00002c2;
pub const kIOReturnLockedRead: u32 = 0xe00002c3;
pub const kIOReturnLockedWrite: u32 = 0xe00002c4;
pub const kIOReturnExclusiveAccess: u32 = 0xe00002c5;
pub const kIOReturnBadMessageID: u32 = 0xe00002c6;
pub const kIOReturnUnsupported: u32 = 0xe00002c7;
pub const kIOReturnVMError: u32 = 0xe00002c8;
pub const kIOReturnInternalError: u32 = 0xe00002c9;
pub const kIOReturnIOError: u32 = 0xe00002ca;
pub const kIOReturnCannotLock: u32 = 0xe00002cc;
pub const kIOReturnNotOpen: u32 = 0xe00002cd;
pub const kIOReturnNotReadable: u32 = 0xe00002ce;
pub const kIOReturnNotWritable: u32 = 0xe00002cf;
pub const kIOReturnNotAligned: u32 = 0xe00002d0;
pub const kIOReturnBadMedia: u32 = 0xe00002d1;
pub const kIOReturnStillOpen: u32 = 0xe00002d2;
pub const kIOReturnRLDError: u32 = 0xe00002d3;
pub const kIOReturnDMAError: u32 = 0xe00002d4;
pub const kIOReturnBusy: u32 = 0xe00002d5;
pub const kIOReturnTimeout: u32 = 0xe00002d6;
pub const kIOReturnOffline: u32 = 0xe00002d7;
pub const kIOReturnNotReady: u32 = 0xe00002d8;
pub const kIOReturnNotAttached: u32 = 0xe00002d9;
pub const kIOReturnNoChannels: u32 = 0xe00002da;
pub const kIOReturnNoSpace: u32 = 0xe00002db;
pub const kIOReturnPortExists: u32 = 0xe00002dd;
pub const kIOReturnCannotWire: u32 = 0xe00002de;
pub const kIOReturnNoInterrupt: u32 = 0xe00002df;
pub const kIOReturnNoFrames: u32 = 0xe00002e0;
pub const kIOReturnMessageTooLarge: u32 = 0xe00002e1;
pub const kIOReturnNotPermitted: u32 = 0xe00002e2;
pub const kIOReturnNoPower: u32 = 0xe00002e3;
pub const kIOReturnNoMedia: u32 = 0xe00002e4;
pub const kIOReturnUnformattedMedia: u32 = 0xe00002e5;
pub const kIOReturnUnsupportedMode: u32 = 0xe00002e6;
pub const kIOReturnUnderrun: u32 = 0xe00002e7;
pub const kIOReturnOverrun: u32 = 0xe00002e8;
pub const kIOReturnDeviceError: u32 = 0xe00002e9;
pub const kIOReturnNoCompletion: u32 = 0xe00002ea;
pub const kIOReturnAborted: u32 = 0xe00002eb;
pub const kIOReturnNoBandwidth: u32 = 0xe00002ec;
pub const kIOReturnNotResponding: u32 = 0xe00002ed;
pub const kIOReturnIsoTooOld: u32 = 0xe00002ee;
pub const kIOReturnIsoTooNew: u32 = 0xe00002ef;
pub const kIOReturnNotFound: u32 = 0xe00002f0;
pub const kIOReturnInvalid: u32 = 0xe0000001;

/// An IOKit status code.
#[derive(Clone, Copy, Debug, PartialEq, Eq, Structural)]
pub enum AppleIoReturn {
    kIOReturnSuccess,
    kIOReturnError,
    kIOReturnNoMemory,
    kIOReturnNoResources,
    kIOReturnIPCError,
    kIOReturnNoDevice,
    kIOReturnNotPrivileged,
    kIOReturnBadArgument,
    kIOReturnLockedRead,
    kIOReturnLockedWrite,
    kIOReturnExclusiveAccess,
    kIOReturnBadMessageID,
    kIOReturnUnsupported,
    kIOReturnVMError,
    kIOReturnInternalError,
    kIOReturnIOError,
    kIOReturnCannotLock,
    kIOReturnNotOpen,
    kIOReturnNotReadable,
    kIOReturnNotWritable,
    kIOReturnNotAligned,
    kIOReturnBadMedia,
    kIOReturnStillOpen,
    kIOReturnRLDError,
    kIOReturnDMAError,
    kIOReturnBusy,
    kIOReturnTimeout,
    kIOReturnOffline,
    kIOReturnNotReady,
    kIOReturnNotAttached,
    kIOReturnNoChannels,
    kIOReturnNoSpace,
    kIOReturnPortExists,
    kIOReturnCannotWire,
    kIOReturnNoInterrupt,
    kIOReturnNoFrames,
    kIOReturnMessageTooLarge,
    kIOReturnNotPermitted,
    kIOReturnNoPower,
    kIOReturnNoMedia,
    kIOReturnUnformattedMedia,
    kIOReturnUnsupportedMode,
    kIOReturnUnderrun,
    kIOReturnOverrun,
    kIOReturnDeviceError,
    kIOReturnNoCompletion,
    kIOReturnAborted,
    kIOReturnNoBandwidth,
    kIOReturnNotResponding,
    kIOReturnIsoTooOld,
    kIOReturnIsoTooNew,
    kIOReturnNotFound,
    kIOReturnInvalid,
}

/// A message that IOKit delivers to an interest notification.
#[derive(Clone, Copy, Debug, PartialEq, Eq, Structural)]
pub enum AppleIoMessage {
    kIOMessageServiceIsTerminated,
    kIOMessageServiceIsSuspended,
    kIOMessageServiceIsResumed,
    kIOMessageServiceIsRequestingClose,
    kIOMessageServiceIsAttemptingOpen,
    kIOMessageServiceWasClosed,
    kIOMessageServiceBusyStateChange,
    kIOMessageCanDevicePowerOff,
    kIOMessageDeviceWillPowerOff,
    kIOMessageDeviceWillNotPowerOff,
    kIOMessageDeviceHasPoweredOn,
    kIOMessageCanSystemPowerOff,
    kIOMessageSystemWillPowerOff,
    kIOMessageSystemWillNotPowerOff,
    kIOMessageCanSystemSleep,
    kIOMessageSystemWillSleep,
    kIOMessageSystemWillNotSleep,
    kIOMessageSystemHasPoweredOn,
    kIOMessageSystemWillRestart,
    kIOMessageSystemWillPowerOn,
}

impl AppleIoReturn {
    /// The numeric code of this value.
    pub open spec fn spec_code(self) -> u32 {
        match self {
            AppleIoReturn::kIOReturnSuccess => kIOReturnSuccess,
            AppleIoReturn::kIOReturnError => kIOReturnError,
            AppleIoReturn::kIOReturnNoMemory => kIOReturnNoMemory,
            AppleIoReturn::kIOReturnNoResources => kIOReturnNoResources,
            AppleIoReturn::kIOReturnIPCError => kIOReturnIPCError,
            AppleIoReturn::kIOReturnNoDevice => kIOReturnNoDevice,
            AppleIoReturn::kIOReturnNotPrivileged => kIOReturnNotPrivileged,
            AppleIoReturn::kIOReturnBadArgument => kIOReturnBadArgument,
            AppleIoReturn::kIOReturnLockedRead => kIOReturnLockedRead,
            AppleIoReturn::kIOReturnLockedWrite => kIOReturnLockedWrite,
            AppleIoReturn::kIOReturnExclusiveAccess => kIOReturnExclusiveAccess,
            AppleIoReturn::kIOReturnBadMessageID => kIOReturnBadMessageID,
            AppleIoReturn::kIOReturnUnsupported => kIOReturnUnsupported,
            AppleIoReturn::kIOReturnVMError => kIOReturnVMError,
            AppleIoReturn::kIOReturnInternalError => kIOReturnInternalError,
            AppleIoReturn::kIOReturnIOError => kIOReturnIOError,
            AppleIoReturn::kIOReturnCannotLock => kIOReturnCannotLock,
            AppleIoReturn::kIOReturnNotOpen => kIOReturnNotOpen,
            AppleIoReturn::kIOReturnNotReadable => kIOReturnNotReadable,
            AppleIoReturn::kIOReturnNotWritable => kIOReturnNotWritable,
            AppleIoReturn::kIOReturnNotAligned => kIOReturnNotAligned,
            AppleIoReturn::kIOReturnBadMedia => kIOReturnBadMedia,
            AppleIoReturn::kIOReturnStillOpen => kIOReturnStillOpen,
            AppleIoReturn::kIOReturnRLDError => kIOReturnRLDError,
            AppleIoReturn::kIOReturnDMAError => kIOReturnDMAError,
            AppleIoReturn::kIOReturnBusy => kIOReturnBusy,
            AppleIoReturn::kIOReturnTimeout => kIOReturnTimeout,
            AppleIoReturn::kIOReturnOffline => kIOReturnOffline,
            AppleIoReturn::kIOReturnNotReady => kIOReturnNotReady,
            AppleIoReturn::kIOReturnNotAttached => kIOReturnNotAttached,
            AppleIoReturn::kIOReturnNoChannels => kIOReturnNoChannels,
            AppleIoReturn::kIOReturnNoSpace => kIOReturnNoSpace,
            AppleIoReturn::kIOReturnPortExists => kIOReturnPortExists,
            AppleIoReturn::kIOReturnCannotWire => kIOReturnCannotWire,
            AppleIoReturn::kIOReturnNoInterrupt => kIOReturnNoInterrupt,
            AppleIoReturn::kIOReturnNoFrames => kIOReturnNoFrames,
            AppleIoReturn::kIOReturnMessageTooLarge => kIOReturnMessageTooLarge,
            AppleIoReturn::kIOReturnNotPermitted => kIOReturnNotPermitted,
            AppleIoReturn::kIOReturnNoPower => kIOReturnNoPower,
            AppleIoReturn::kIOReturnNoMedia => kIOReturnNoMedia,
            AppleIoReturn::kIOReturnUnformattedMedia => kIOReturnUnformattedMedia,
            AppleIoReturn::kIOReturnUnsupportedMode => kIOReturnUnsupportedMode,
            AppleIoReturn::kIOReturnUnderrun => kIOReturnUnderrun,
            AppleIoReturn::kIOReturnOverrun => kIOReturnOverrun,
            AppleIoReturn::kIOReturnDeviceError => kIOReturnDeviceError,
            AppleIoReturn::kIOReturnNoCompletion => kIOReturnNoCompletion,
            AppleIoReturn::kIOReturnAborted => kIOReturnAborted,
            AppleIoReturn::kIOReturnNoBandwidth => kIOReturnNoBandwidth,
            AppleIoReturn::kIOReturnNotResponding => kIOReturnNotResponding,
            AppleIoReturn::kIOReturnIsoTooOld => kIOReturnIsoTooOld,
            AppleIoReturn::kIOReturnIsoTooNew => kIOReturnIsoTooNew,
            AppleIoReturn::kIOReturnNotFound => kIOReturnNotFound,
            AppleIoReturn::kIOReturnInvalid => kIOReturnInvalid,
        }
    }

    /// The numeric code of this value.
    pub fn code(&self) -> (r: u32)
        ensures
            r == self.spec_code(),
    {
        match self {
            AppleIoReturn::kIOReturnSuccess => kIOReturnSuccess,
            AppleIoReturn::kIOReturnError => kIOReturnError,
            AppleIoReturn::kIOReturnNoMemory => kIOReturnNoMemory,
            AppleIoReturn::kIOReturnNoResources => kIOReturnNoResources,
            AppleIoReturn::kIOReturnIPCError => kIOReturnIPCError,
            AppleIoReturn::kIOReturnNoDevice => kIOReturnNoDevice,
            AppleIoReturn::kIOReturnNotPrivileged => kIOReturnNotPrivileged,
            AppleIoReturn::kIOReturnBadArgument => kIOReturnBadArgument,
            AppleIoReturn::kIOReturnLockedRead => kIOReturnLockedRead,
            AppleIoReturn::kIOReturnLockedWrite => kIOReturnLockedWrite,
            AppleIoReturn::kIOReturnExclusiveAccess => kIOReturnExclusiveAccess,
            AppleIoReturn::kIOReturnBadMessageID => kIOReturnBadMessageID,
            AppleIoReturn::kIOReturnUnsupported => kIOReturnUnsupported,
            AppleIoReturn::kIOReturnVMError => kIOReturnVMError,
            AppleIoReturn::kIOReturnInternalError => kIOReturnInternalError,
            AppleIoReturn::kIOReturnIOError => kIOReturnIOError,
            AppleIoReturn::kIOReturnCannotLock => kIOReturnCannotLock,
            AppleIoReturn::kIOReturnNotOpen => kIOReturnNotOpen,
            AppleIoReturn::kIOReturnNotReadable => kIOReturnNotReadable,
            AppleIoReturn::kIOReturnNotWritable => kIOReturnNotWritable,
            AppleIoReturn::kIOReturnNotAligned => kIOReturnNotAligned,
            AppleIoReturn::kIOReturnBadMedia => kIOReturnBadMedia,
            AppleIoReturn::kIOReturnStillOpen => kIOReturnStillOpen,
            AppleIoReturn::kIOReturnRLDError => kIOReturnRLDError,
            AppleIoReturn::kIOReturnDMAError => kIOReturnDMAError,
            AppleIoReturn::kIOReturnBusy => kIOReturnBusy,
            AppleIoReturn::kIOReturnTimeout => kIOReturnTimeout,
            AppleIoReturn::kIOReturnOffline => kIOReturnOffline,
            AppleIoReturn::kIOReturnNotReady => kIOReturnNotReady,
            AppleIoReturn::kIOReturnNotAttached => kIOReturnNotAttached,
            AppleIoReturn::kIOReturnNoChannels => kIOReturnNoChannels,
            AppleIoReturn::kIOReturnNoSpace => kIOReturnNoSpace,
            AppleIoReturn::kIOReturnPortExists => kIOReturnPortExists,
            AppleIoReturn::kIOReturnCannotWire => kIOReturnCannotWire,
            AppleIoReturn::kIOReturnNoInterrupt => kIOReturnNoInterrupt,
            AppleIoReturn::kIOReturnNoFrames => kIOReturnNoFrames,
            AppleIoReturn::kIOReturnMessageTooLarge => kIOReturnMessageTooLarge,
            AppleIoReturn::kIOReturnNotPermitted => kIOReturnNotPermitted,
            AppleIoReturn::kIOReturnNoPower => kIOReturnNoPower,
            AppleIoReturn::kIOReturnNoMedia => kIOReturnNoMedia,
            AppleIoReturn::kIOReturnUnformattedMedia => kIOReturnUnformattedMedia,
            AppleIoReturn::kIOReturnUnsupportedMode => kIOReturnUnsupportedMode,
            AppleIoReturn::kIOReturnUnderrun => kIOReturnUnderrun,
            AppleIoReturn::kIOReturnOverrun => kIOReturnOverrun,
            AppleIoReturn::kIOReturnDeviceError => kIOReturnDeviceError,
            AppleIoReturn::kIOReturnNoCompletion => kIOReturnNoCompletion,
            AppleIoReturn::kIOReturnAborted => kIOReturnAborted,
            AppleIoReturn::kIOReturnNoBandwidth => kIOReturnNoBandwidth,
            AppleIoReturn::kIOReturnNotResponding => kIOReturnNotResponding,
            AppleIoReturn::kIOReturnIsoTooOld => kIOReturnIsoTooOld,
            AppleIoReturn::kIOReturnIsoTooNew => kIOReturnIsoTooNew,
            AppleIoReturn::kIOReturnNotFound => kIOReturnNotFound,
            AppleIoReturn::kIOReturnInvalid => kIOReturnInvalid,
        }
    }

    /// The value whose code is `v`, if there is one.
    pub fn from_u32(v: u32) -> (r: Option<AppleIoReturn>)
        ensures
            r matches Some(m) ==> m.spec_code() == v,
            r is None ==> forall|m: AppleIoReturn| #[trigger] m.spec_code() != v,
    {
        if v == kIOReturnSuccess {
            Some(AppleIoReturn::kIOReturnSuccess)
        } else if v == kIOReturnError {
            Some(AppleIoReturn::kIOReturnError)
        } else if v == kIOReturnNoMemory {
            Some(AppleIoReturn::kIOReturnNoMemory)
        } else if v == kIOReturnNoResources {
            Some(AppleIoReturn::kIOReturnNoResources)
        } else if v == kIOReturnIPCError {
            Some(AppleIoReturn::kIOReturnIPCError)
        } else if v == kIOReturnNoDevice {
            Some(AppleIoReturn::kIOReturnNoDevice)
        } else if v == kIOReturnNotPrivileged {
            Some(AppleIoReturn::kIOReturnNotPrivileged)
        } else if v == kIOReturnBadArgument {
            Some(AppleIoReturn::kIOReturnBadArgument)
        } else if v == kIOReturnLockedRead {
            Some(AppleIoReturn::kIOReturnLockedRead)
        } else if v == kIOReturnLockedWrite {
            Some(AppleIoReturn::kIOReturnLockedWrite)
        } else if v == kIOReturnExclusiveAccess {
            Some(AppleIoReturn::kIOReturnExclusiveAccess)
        } else if v == kIOReturnBadMessageID {
            Some(AppleIoReturn::kIOReturnBadMessageID)
        } else if v == kIOReturnUnsupported {
            Some(AppleIoReturn::kIOReturnUnsupported)
        } else if v == kIOReturnVMError {
            Some(AppleIoReturn::kIOReturnVMError)
        } else if v == kIOReturnInternalError {
            Some(AppleIoReturn::kIOReturnInternalError)
        } else if v == kIOReturnIOError {
            Some(AppleIoReturn::kIOReturnIOError)
        } else if v == kIOReturnCannotLock {
            Some(AppleIoReturn::kIOReturnCannotLock)
        } else if v == kIOReturnNotOpen {
            Some(AppleIoReturn::kIOReturnNotOpen)
        } else if v == kIOReturnNotReadable {
            Some(AppleIoReturn::kIOReturnNotReadable)
        } else if v == kIOReturnNotWritable {
            Some(AppleIoReturn::kIOReturnNotWritable)
        } else if v == kIOReturnNotAligned {
            Some(AppleIoReturn::kIOReturnNotAligned)
        } else if v == kIOReturnBadMedia {
            Some(AppleIoReturn::kIOReturnBadMedia)
        } else if v == kIOReturnStillOpen {
            Some(AppleIoReturn::kIOReturnStillOpen)
        } else if v == kIOReturnRLDError {
            Some(AppleIoReturn::kIOReturnRLDError)
        } else if v == kIOReturnDMAError {
            Some(AppleIoReturn::kIOReturnDMAError)
        } else if v == kIOReturnBusy {
            Some(AppleIoReturn::kIOReturnBusy)
        } else if v == kIOReturnTimeout {
            Some(AppleIoReturn::kIOReturnTimeout)
        } else if v == kIOReturnOffline {
            Some(AppleIoReturn::kIOReturnOffline)
        } else if v == kIOReturnNotReady {
            Some(AppleIoReturn::kIOReturnNotReady)
        } else if v == kIOReturnNotAttached {
            Some(AppleIoReturn::kIOReturnNotAttached)
        } else if v == kIOReturnNoChannels {
            Some(AppleIoReturn::kIOReturnNoChannels)
        } else if v == kIOReturnNoSpace {
            Some(AppleIoReturn::kIOReturnNoSpace)
        } else if v == kIOReturnPortExists {
            Some(AppleIoReturn::kIOReturnPortExists)
        } else if v == kIOReturnCannotWire {
            Some(AppleIoReturn::kIOReturnCannotWire)
        } else if v == kIOReturnNoInterrupt {
            Some(AppleIoReturn::kIOReturnNoInterrupt)
        } else if v == kIOReturnNoFrames {
            Some(AppleIoReturn::kIOReturnNoFrames)
        } else if v == kIOReturnMessageTooLarge {
            Some(AppleIoReturn::kIOReturnMessageTooLarge)
        } else if v == kIOReturnNotPermitted {
            Some(AppleIoReturn::kIOReturnNotPermitted)
        } else if v == kIOReturnNoPower {
            Some(AppleIoReturn::kIOReturnNoPower)
        } else if v == kIOReturnNoMedia {
            Some(AppleIoReturn::kIOReturnNoMedia)
        } else if v == kIOReturnUnformattedMedia {
            Some(AppleIoReturn::kIOReturnUnformattedMedia)
        } else if v == kIOReturnUnsupportedMode {
            Some(AppleIoReturn::kIOReturnUnsupportedMode)
        } else if v == kIOReturnUnderrun {
            Some(AppleIoReturn::kIOReturnUnderrun)
        } else if v == kIOReturnOverrun {
            Some(AppleIoReturn::kIOReturnOverrun)
        } else if v == kIOReturnDeviceError {
            Some(AppleIoReturn::kIOReturnDeviceError)
        } else if v == kIOReturnNoCompletion {
            Some(AppleIoReturn::kIOReturnNoCompletion)
        } else if v == kIOReturnAborted {
            Some(AppleIoReturn::kIOReturnAborted)
        } else if v == kIOReturnNoBandwidth {
            Some(AppleIoReturn::kIOReturnNoBandwidth)
        } else if v == kIOReturnNotResponding {
            Some(AppleIoReturn::kIOReturnNotResponding)
        } else if v == kIOReturnIsoTooOld {
            Some(AppleIoReturn::kIOReturnIsoTooOld)
        } else if v == kIOReturnIsoTooNew {
            Some(AppleIoReturn::kIOReturnIsoTooNew)
        } else if v == kIOReturnNotFound {
            Some(AppleIoReturn::kIOReturnNotFound)
        } else if v == kIOReturnInvalid {
            Some(AppleIoReturn::kIOReturnInvalid)
        } else {
            None
        }
    }
}

impl AppleIoMessage {
    /// The numeric code of this value.
    pub open spec fn spec_code(self) -> u32 {
        match self {
            AppleIoMessage::kIOMessageServiceIsTerminated => kIOMessageServiceIsTerminated,
            AppleIoMessage::kIOMessageServiceIsSuspended => kIOMessageServiceIsSuspended,
            AppleIoMessage::kIOMessageServiceIsResumed => kIOMessageServiceIsResumed,
            AppleIoMessage::kIOMessageServiceIsRequestingClose => kIOMessageServiceIsRequestingClose,
            AppleIoMessage::kIOMessageServiceIsAttemptingOpen => kIOMessageServiceIsAttemptingOpen,
            AppleIoMessage::kIOMessageServiceWasClosed => kIOMessageServiceWasClosed,
            AppleIoMessage::kIOMessageServiceBusyStateChange => kIOMessageServiceBusyStateChange,
            AppleIoMessage::kIOMessageCanDevicePowerOff => kIOMessageCanDevicePowerOff,
            AppleIoMessage::kIOMessageDeviceWillPowerOff => kIOMessageDeviceWillPowerOff,
            AppleIoMessage::kIOMessageDeviceWillNotPowerOff => kIOMessageDeviceWillNotPowerOff,
            AppleIoMessage::kIOMessageDeviceHasPoweredOn => kIOMessageDeviceHasPoweredOn,
            AppleIoMessage::kIOMessageCanSystemPowerOff => kIOMessageCanSystemPowerOff,
            AppleIoMessage::kIOMessageSystemWillPowerOff => kIOMessageSystemWillPowerOff,
            AppleIoMessage::kIOMessageSystemWillNotPowerOff => kIOMessageSystemWillNotPowerOff,
            AppleIoMessage::kIOMessageCanSystemSleep => kIOMessageCanSystemSleep,
            AppleIoMessage::kIOMessageSystemWillSleep => kIOMessageSystemWillSleep,
            AppleIoMessage::kIOMessageSystemWillNotSleep => kIOMessageSystemWillNotSleep,
            AppleIoMessage::kIOMessageSystemHasPoweredOn => kIOMessageSystemHasPoweredOn,
            AppleIoMessage::kIOMessageSystemWillRestart => kIOMessageSystemWillRestart,
            AppleIoMessage::kIOMessageSystemWillPowerOn => kIOMessageSystemWillPowerOn,
        }
    }

    /// The numeric code of this value.
    pub fn code(&self) -> (r: u32)
        ensures
            r == self.spec_code(),
    {
        match self {
            AppleIoMessage::kIOMessageServiceIsTerminated => kIOMessageServiceIsTerminated,
            AppleIoMessage::kIOMessageServiceIsSuspended => kIOMessageServiceIsSuspended,
            AppleIoMessage::kIOMessageServiceIsResumed => kIOMessageServiceIsResumed,
            AppleIoMessage::kIOMessageServiceIsRequestingClose => kIOMessageServiceIsRequestingClose,
            AppleIoMessage::kIOMessageServiceIsAttemptingOpen => kIOMessageServiceIsAttemptingOpen,
            AppleIoMessage::kIOMessageServiceWasClosed => kIOMessageServiceWasClosed,
            AppleIoMessage::kIOMessageServiceBusyStateChange => kIOMessageServiceBusyStateChange,
            AppleIoMessage::kIOMessageCanDevicePowerOff => kIOMessageCanDevicePowerOff,
            AppleIoMessage::kIOMessageDeviceWillPowerOff => kIOMessageDeviceWillPowerOff,
            AppleIoMessage::kIOMessageDeviceWillNotPowerOff => kIOMessageDeviceWillNotPowerOff,
            AppleIoMessage::kIOMessageDeviceHasPoweredOn => kIOMessageDeviceHasPoweredOn,
            AppleIoMessage::kIOMessageCanSystemPowerOff => kIOMessageCanSystemPowerOff,
            AppleIoMessage::kIOMessageSystemWillPowerOff => kIOMessageSystemWillPowerOff,
            AppleIoMessage::kIOMessageSystemWillNotPowerOff => kIOMessageSystemWillNotPowerOff,
            AppleIoMessage::kIOMessageCanSystemSleep => kIOMessageCanSystemSleep,
            AppleIoMessage::kIOMessageSystemWillSleep => kIOMessageSystemWillSleep,
            AppleIoMessage::kIOMessageSystemWillNotSleep => kIOMessageSystemWillNotSleep,
            AppleIoMessage::kIOMessageSystemHasPoweredOn => kIOMessageSystemHasPoweredOn,
            AppleIoMessage::kIOMessageSystemWillRestart => kIOMessageSystemWillRestart,
            AppleIoMessage::kIOMessageSystemWillPowerOn => kIOMessageSystemWillPowerOn,
        }
    }

    /// The value whose code is `v`, if there is one.
    pub fn from_u32(v: u32) -> (r: Option<AppleIoMessage>)
        ensures
            r matches Some(m) ==> m.spec_code() == v,
            r is None ==> forall|m: AppleIoMessage| #[trigger] m.spec_code() != v,
    {
        if v == kIOMessageServiceIsTerminated {
            Some(AppleIoMessage::kIOMessageServiceIsTerminated)
        } else if v == kIOMessageServiceIsSuspended {
            Some(AppleIoMessage::kIOMessageServiceIsSuspended)
        } else if v == kIOMessageServiceIsResumed {
            Some(AppleIoMessage::kIOMessageServiceIsResumed)
        } else if v == kIOMessageServiceIsRequestingClose {
            Some(AppleIoMessage::kIOMessageServiceIsRequestingClose)
        } else if v == kIOMessageServiceIsAttemptingOpen {
            Some(AppleIoMessage::kIOMessageServiceIsAttemptingOpen)
        } else if v == kIOMessageServiceWasClosed {
            Some(AppleIoMessage::kIOMessageServiceWasClosed)
        } else if v == kIOMessageServiceBusyStateChange {
            Some(AppleIoMessage::kIOMessageServiceBusyStateChange)
        } else if v == kIOMessageCanDevicePowerOff {
            Some(AppleIoMessage::kIOMessageCanDevicePowerOff)
        } else if v == kIOMessageDeviceWillPowerOff {
            Some(AppleIoMessage::kIOMessageDeviceWillPowerOff)
        } else if v == kIOMessageDeviceWillNotPowerOff {
            Some(AppleIoMessage::kIOMessageDeviceWillNotPowerOff)
        } else if v == kIOMessageDeviceHasPoweredOn {
            Some(AppleIoMessage::kIOMessageDeviceHasPoweredOn)
        } else if v == kIOMessageCanSystemPowerOff {
            Some(AppleIoMessage::kIOMessageCanSystemPowerOff)
        } else if v == kIOMessageSystemWillPowerOff {
            Some(AppleIoMessage::kIOMessageSystemWillPowerOff)
        } else if v == kIOMessageSystemWillNotPowerOff {
            Some(AppleIoMessage::kIOMessageSystemWillNotPowerOff)
        } else if v == kIOMessageCanSystemSleep {
            Some(AppleIoMessage::kIOMessageCanSystemSleep)
        } else if v == kIOMessageSystemWillSleep {
            Some(AppleIoMessage::kIOMessageSystemWillSleep)
        } else if v == kIOMessageSystemWillNotSleep {
            Some(AppleIoMessage::kIOMessageSystemWillNotSleep)
        } else if v == kIOMessageSystemHasPoweredOn {
            Some(AppleIoMessage::kIOMessageSystemHasPoweredOn)
        } else if v == kIOMessageSystemWillRestart {
            Some(AppleIoMessage::kIOMessageSystemWillRestart)
        } else if v == kIOMessageSystemWillPowerOn {
            Some(AppleIoMessage::kIOMessageSystemWillPowerOn)
        } else {
            None
        }
    }
}

} // verus!
