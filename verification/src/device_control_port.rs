//! Protocol-neutral control of one prepared network device session.

use crate::protocol::text_view;
use vstd::prelude::*;

verus! {

#[derive(Debug, Clone, Copy, PartialEq, Eq, Structural)]
pub enum DeviceControlKind {
    Activate,
    Deactivate,
    Power,
    Standby,
    KeyDown,
    KeyUp,
    Volume,
    Mute,
}

/// One control request to a device.
#[derive(Debug, PartialEq, Eq)]
pub struct DeviceControlOperation {
    pub kind: DeviceControlKind,
    pub code: Option<String>,
    pub value: i32,
}

/// The contents of a [`DeviceControlOperation`].
pub struct ControlView {
    pub kind: DeviceControlKind,
    pub code: Option<Seq<char>>,
    pub value: i32,
}

impl View for DeviceControlOperation {
    type V = ControlView;

    open spec fn view(&self) -> ControlView {
        ControlView { kind: self.kind, code: text_view(self.code), value: self.value }
    }
}

impl DeviceControlOperation {
    pub fn simple(kind: DeviceControlKind) -> (operation: Self)
        ensures
            operation@ == (ControlView { kind, code: None, value: 0 }),
    {
        DeviceControlOperation { kind, code: None, value: 0 }
    }

    pub fn coded(kind: DeviceControlKind, code: &str) -> (operation: Self)
        ensures
            operation@ == (ControlView { kind, code: Some(code@), value: 0 }),
    {
        DeviceControlOperation { kind, code: Some(code.to_owned()), value: 0 }
    }

    pub fn valued(kind: DeviceControlKind, code: &str, value: i32) -> (operation: Self)
        ensures
            operation@ == (ControlView { kind, code: Some(code@), value }),
    {
        DeviceControlOperation { kind, code: Some(code.to_owned()), value }
    }
}

/// Why a device did not take a control request.
#[derive(Debug, PartialEq, Eq)]
pub struct DeviceControlError(pub String);

impl DeviceControlError {
    pub fn new(message: &str) -> (error: Self)
        ensures
            error.0@ == message@,
    {
        DeviceControlError(message.to_owned())
    }

    /// The refusal of a session that controls nothing.
    pub fn unsupported() -> (error: Self)
        ensures
            error.0@ == "Device session does not support control operations"@,
    {
        DeviceControlError::new("Device session does not support control operations")
    }

    /// The refusal of a device that did not answer in time.
    pub fn timed_out() -> (error: Self)
        ensures
            error.0@ == "Device control operation timed out"@,
    {
        DeviceControlError::new("Device control operation timed out")
    }

    pub fn to_text(&self) -> (text: String)
        ensures
            text@ == self.0@,
    {
        self.0.clone()
    }
}

/// An operation shows its kind, its code and its value.
pub proof fn operations_show_their_parts(operation: DeviceControlOperation)
    ensures
        operation@.kind == operation.kind,
        operation@.value == operation.value,
        operation@.code is Some <==> operation.code is Some,
        operation.code is Some ==> operation@.code->0 == operation.code->0@,
{
}

} // verus!
