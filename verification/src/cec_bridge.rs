//! Translation of HDMI-CEC messages to device control.
//!
//! The bridge models a network display as a TV at logical address 0 and an
//! audio system at address 5.

use crate::device_control_port::{ControlView, DeviceControlKind, DeviceControlOperation};
use crate::protocol::text_view;
use crate::text::{hex_byte, push_hex_byte};
use vstd::prelude::*;
use vstd::string::*;

verus! {

pub const LOGICAL_ADDRESS_TV: u8 = 0;

pub const LOGICAL_ADDRESS_AUDIO_SYSTEM: u8 = 5;

pub const LOGICAL_ADDRESS_BROADCAST: u8 = 15;

pub const OPCODE_FEATURE_ABORT: u8 = 0x00;

pub const OPCODE_IMAGE_VIEW_ON: u8 = 0x04;

pub const OPCODE_TEXT_VIEW_ON: u8 = 0x0d;

pub const OPCODE_STANDBY: u8 = 0x36;

pub const OPCODE_USER_CONTROL_PRESSED: u8 = 0x44;

pub const OPCODE_USER_CONTROL_RELEASED: u8 = 0x45;

pub const OPCODE_SET_AUDIO_VOLUME_LEVEL: u8 = 0x73;

pub const OPCODE_ACTIVE_SOURCE: u8 = 0x82;

pub const OPCODE_INACTIVE_SOURCE: u8 = 0x9d;

pub const ABORT_UNRECOGNIZED_OPCODE: u8 = 0x00;

pub const ABORT_INVALID_OPERAND: u8 = 0x03;

pub const UI_POWER: u8 = 0x40;

pub const UI_VOLUME_UP: u8 = 0x41;

pub const UI_VOLUME_DOWN: u8 = 0x42;

pub const UI_MUTE: u8 = 0x43;

pub const UI_POWER_TOGGLE: u8 = 0x6b;

pub const UI_POWER_OFF: u8 = 0x6c;

pub const UI_POWER_ON: u8 = 0x6d;

pub const RELATIVE_VOLUME_STEP_PERCENT: i32 = 5;

/// Longest CEC message, header included.
pub const MAX_MESSAGE_BYTES: usize = 16;

/// What to do about one CEC message.
#[derive(Debug, PartialEq, Eq)]
pub enum CecBridgeAction {
    Acknowledge,
    NotAcknowledged,
    Reply(Vec<u8>),
    Control(DeviceControlOperation),
}

/// The contents of a [`CecBridgeAction`].
pub enum ActionView {
    Acknowledge,
    NotAcknowledged,
    Reply(Seq<u8>),
    Control(ControlView),
}

impl View for CecBridgeAction {
    type V = ActionView;

    open spec fn view(&self) -> ActionView {
        match *self {
            CecBridgeAction::Acknowledge => ActionView::Acknowledge,
            CecBridgeAction::NotAcknowledged => ActionView::NotAcknowledged,
            CecBridgeAction::Reply(message) => ActionView::Reply(message@),
            CecBridgeAction::Control(operation) => ActionView::Control(operation@),
        }
    }
}

/// Translator with the one generic key that is held down, if any.
#[derive(Debug)]
pub struct CecBridge {
    pressed_key: Option<String>,
}

impl View for CecBridge {
    type V = Option<Seq<char>>;

    /// The key that is held down.
    closed spec fn view(&self) -> Option<Seq<char>> {
        text_view(self.pressed_key)
    }
}

/// The address is one of the two that the bridge stands for.
pub open spec fn remote_address(address: u8) -> bool {
    address == LOGICAL_ADDRESS_TV || address == LOGICAL_ADDRESS_AUDIO_SYSTEM
}

/// The address that a message header names as its sender.
pub open spec fn initiator_of(header: u8) -> u8 {
    header / 16
}

/// The address that a message header names as its receiver.
pub open spec fn destination_of(header: u8) -> u8 {
    header % 16
}

/// A refused message is answered to its sender, unless one side is a broadcast.
pub open spec fn refusal(header: u8, opcode: u8, reason: u8) -> ActionView {
    if destination_of(header) == LOGICAL_ADDRESS_BROADCAST || initiator_of(header)
        == LOGICAL_ADDRESS_BROADCAST {
        ActionView::Acknowledge
    } else {
        ActionView::Reply(
            seq![
                (destination_of(header) * 16 + initiator_of(header)) as u8,
                OPCODE_FEATURE_ABORT,
                opcode,
                reason,
            ],
        )
    }
}

pub open spec fn simple(kind: DeviceControlKind) -> ActionView {
    ActionView::Control(ControlView { kind, code: None, value: 0 })
}

pub open spec fn coded(kind: DeviceControlKind, code: Seq<char>, value: i32) -> ActionView {
    ActionView::Control(ControlView { kind, code: Some(code), value })
}

/// The name of a key that has no meaning of its own here.
pub open spec fn generic_key(code: u8) -> Seq<char> {
    "cec-ui-"@ + hex_byte(code)
}

/// A key that is passed on under its generic name.
pub open spec fn is_generic_key(code: u8) -> bool {
    !(code == UI_VOLUME_UP || code == UI_VOLUME_DOWN || code == UI_MUTE || code == UI_POWER || code
        == UI_POWER_TOGGLE || code == UI_POWER_OFF || code == UI_POWER_ON)
}

/// The action for a pressed key.
pub open spec fn key_action(code: u8) -> ActionView {
    if code == UI_VOLUME_UP {
        coded(DeviceControlKind::Volume, "relative"@, RELATIVE_VOLUME_STEP_PERCENT)
    } else if code == UI_VOLUME_DOWN {
        coded(DeviceControlKind::Volume, "relative"@, (-RELATIVE_VOLUME_STEP_PERCENT) as i32)
    } else if code == UI_MUTE {
        coded(DeviceControlKind::Mute, "toggle"@, 0)
    } else if code == UI_POWER || code == UI_POWER_TOGGLE {
        coded(DeviceControlKind::Power, "toggle"@, 0)
    } else if code == UI_POWER_OFF {
        simple(DeviceControlKind::Standby)
    } else if code == UI_POWER_ON {
        coded(DeviceControlKind::Power, "on"@, 0)
    } else {
        coded(DeviceControlKind::KeyDown, generic_key(code), 0)
    }
}

/// The message presses a key at an address that the bridge stands for.
pub open spec fn is_key_press(message: Seq<u8>) -> bool {
    message.len() == 3 && remote_address(destination_of(message[0])) && message[1]
        == OPCODE_USER_CONTROL_PRESSED
}

/// The message releases the key at an address that the bridge stands for.
pub open spec fn is_key_release(message: Seq<u8>) -> bool {
    message.len() == 2 && remote_address(destination_of(message[0])) && message[1]
        == OPCODE_USER_CONTROL_RELEASED
}

/// The bridge knows the operation, whatever its operands.
pub open spec fn known_opcode(opcode: u8) -> bool {
    opcode == OPCODE_IMAGE_VIEW_ON || opcode == OPCODE_TEXT_VIEW_ON || opcode
        == OPCODE_ACTIVE_SOURCE || opcode == OPCODE_INACTIVE_SOURCE || opcode == OPCODE_STANDBY
        || opcode == OPCODE_USER_CONTROL_PRESSED || opcode == OPCODE_USER_CONTROL_RELEASED
        || opcode == OPCODE_SET_AUDIO_VOLUME_LEVEL
}

/// The action for a message, given the key that is held down.
pub open spec fn action_for(pressed: Option<Seq<char>>, message: Seq<u8>) -> ActionView {
    if message.len() == 0 || message.len() > MAX_MESSAGE_BYTES {
        ActionView::NotAcknowledged
    } else {
        let header = message[0];
        let destination = destination_of(header);
        if message.len() == 1 {
            if initiator_of(header) == destination && remote_address(destination) {
                ActionView::Acknowledge
            } else {
                ActionView::NotAcknowledged
            }
        } else if !remote_address(destination) && destination != LOGICAL_ADDRESS_BROADCAST {
            ActionView::NotAcknowledged
        } else {
            let opcode = message[1];
            if (opcode == OPCODE_IMAGE_VIEW_ON || opcode == OPCODE_TEXT_VIEW_ON) && destination
                == LOGICAL_ADDRESS_TV && message.len() == 2 {
                simple(DeviceControlKind::Activate)
            } else if opcode == OPCODE_ACTIVE_SOURCE && destination == LOGICAL_ADDRESS_BROADCAST
                && message.len() == 4 {
                simple(DeviceControlKind::Activate)
            } else if opcode == OPCODE_INACTIVE_SOURCE && destination == LOGICAL_ADDRESS_BROADCAST
                && message.len() == 4 {
                simple(DeviceControlKind::Deactivate)
            } else if opcode == OPCODE_STANDBY && message.len() == 2 {
                simple(DeviceControlKind::Standby)
            } else if is_key_press(message) {
                key_action(message[2])
            } else if is_key_release(message) {
                match pressed {
                    Some(key) => coded(DeviceControlKind::KeyUp, key, 0),
                    None => ActionView::Acknowledge,
                }
            } else if opcode == OPCODE_SET_AUDIO_VOLUME_LEVEL && remote_address(destination)
                && message.len() == 3 && message[2] <= 100 {
                coded(DeviceControlKind::Volume, "absolute"@, message[2] as i32)
            } else if known_opcode(opcode) {
                refusal(header, opcode, ABORT_INVALID_OPERAND)
            } else {
                refusal(header, opcode, ABORT_UNRECOGNIZED_OPCODE)
            }
        }
    }
}

/// The key that is held down after a message.
pub open spec fn pressed_after(pressed: Option<Seq<char>>, message: Seq<u8>) -> Option<Seq<char>> {
    if is_key_press(message) && is_generic_key(message[2]) {
        Some(generic_key(message[2]))
    } else if is_key_release(message) {
        None
    } else {
        pressed
    }
}

impl Default for CecBridge {
    fn default() -> (bridge: Self)
        ensures
            bridge@ is None,
    {
        CecBridge { pressed_key: None }
    }
}

impl CecBridge {
    pub fn new() -> (bridge: Self)
        ensures
            bridge@ is None,
    {
        CecBridge { pressed_key: None }
    }

    /// Decide about one message.
    pub fn translate(&mut self, message: &[u8]) -> (action: CecBridgeAction)
        ensures
            action@ == action_for(old(self)@, message@),
            final(self)@ == pressed_after(old(self)@, message@),
    {
        if message.len() == 0 || message.len() > MAX_MESSAGE_BYTES {
            return CecBridgeAction::NotAcknowledged;
        }
        let header: u8 = message[0];
        let initiator: u8 = header / 16;
        let destination: u8 = header % 16;
        if message.len() == 1 {
            return if initiator == destination && is_remote_address(destination) {
                CecBridgeAction::Acknowledge
            } else {
                CecBridgeAction::NotAcknowledged
            };
        }
        if !is_remote_address(destination) && destination != LOGICAL_ADDRESS_BROADCAST {
            return CecBridgeAction::NotAcknowledged;
        }
        let opcode: u8 = message[1];
        if opcode == OPCODE_USER_CONTROL_PRESSED && is_remote_address(destination)
            && message.len() == 3 {
            return self.user_control_pressed(message[2]);
        }
        if opcode == OPCODE_USER_CONTROL_RELEASED && is_remote_address(destination)
            && message.len() == 2 {
            return self.user_control_released();
        }
        let operation = if (opcode == OPCODE_IMAGE_VIEW_ON || opcode == OPCODE_TEXT_VIEW_ON)
            && destination == LOGICAL_ADDRESS_TV && message.len() == 2 {
            DeviceControlOperation::simple(DeviceControlKind::Activate)
        } else if opcode == OPCODE_ACTIVE_SOURCE && destination == LOGICAL_ADDRESS_BROADCAST
            && message.len() == 4 {
            DeviceControlOperation::simple(DeviceControlKind::Activate)
        } else if opcode == OPCODE_INACTIVE_SOURCE && destination == LOGICAL_ADDRESS_BROADCAST
            && message.len() == 4 {
            DeviceControlOperation::simple(DeviceControlKind::Deactivate)
        } else if opcode == OPCODE_STANDBY && message.len() == 2 {
            DeviceControlOperation::simple(DeviceControlKind::Standby)
        } else if opcode == OPCODE_SET_AUDIO_VOLUME_LEVEL && is_remote_address(destination)
            && message.len() == 3 && message[2] <= 100 {
            DeviceControlOperation::valued(
                DeviceControlKind::Volume,
                "absolute",
                message[2] as i32,
            )
        } else if opcode == OPCODE_IMAGE_VIEW_ON || opcode == OPCODE_TEXT_VIEW_ON || opcode
            == OPCODE_ACTIVE_SOURCE || opcode == OPCODE_INACTIVE_SOURCE || opcode
            == OPCODE_STANDBY || opcode == OPCODE_USER_CONTROL_PRESSED || opcode
            == OPCODE_USER_CONTROL_RELEASED || opcode == OPCODE_SET_AUDIO_VOLUME_LEVEL {
            return abort_or_acknowledge(initiator, destination, opcode, ABORT_INVALID_OPERAND);
        } else {
            return abort_or_acknowledge(initiator, destination, opcode, ABORT_UNRECOGNIZED_OPCODE);
        };
        CecBridgeAction::Control(operation)
    }

    fn user_control_pressed(&mut self, code: u8) -> (action: CecBridgeAction)
        ensures
            action@ == key_action(code),
            final(self)@ == (if is_generic_key(code) {
                Some(generic_key(code))
            } else {
                old(self)@
            }),
    {
        let operation = if code == UI_VOLUME_UP {
            DeviceControlOperation::valued(
                DeviceControlKind::Volume,
                "relative",
                RELATIVE_VOLUME_STEP_PERCENT,
            )
        } else if code == UI_VOLUME_DOWN {
            DeviceControlOperation::valued(
                DeviceControlKind::Volume,
                "relative",
                -RELATIVE_VOLUME_STEP_PERCENT,
            )
        } else if code == UI_MUTE {
            DeviceControlOperation::coded(DeviceControlKind::Mute, "toggle")
        } else if code == UI_POWER || code == UI_POWER_TOGGLE {
            DeviceControlOperation::coded(DeviceControlKind::Power, "toggle")
        } else if code == UI_POWER_OFF {
            DeviceControlOperation::simple(DeviceControlKind::Standby)
        } else if code == UI_POWER_ON {
            DeviceControlOperation::coded(DeviceControlKind::Power, "on")
        } else {
            let mut key = "cec-ui-".to_owned();
            push_hex_byte(&mut key, code);
            let operation = DeviceControlOperation::coded(
                DeviceControlKind::KeyDown,
                key.as_str(),
            );
            self.pressed_key = Some(key);
            operation
        };
        CecBridgeAction::Control(operation)
    }

    fn user_control_released(&mut self) -> (action: CecBridgeAction)
        ensures
            action@ == (match old(self)@ {
                Some(key) => coded(DeviceControlKind::KeyUp, key, 0),
                None => ActionView::Acknowledge,
            }),
            final(self)@ is None,
    {
        match self.pressed_key.take() {
            Some(key) => CecBridgeAction::Control(
                DeviceControlOperation::coded(DeviceControlKind::KeyUp, key.as_str()),
            ),
            None => CecBridgeAction::Acknowledge,
        }
    }
}

fn is_remote_address(address: u8) -> (remote: bool)
    ensures
        remote == remote_address(address),
{
    address == LOGICAL_ADDRESS_TV || address == LOGICAL_ADDRESS_AUDIO_SYSTEM
}

fn abort_or_acknowledge(initiator: u8, destination: u8, opcode: u8, reason: u8) -> (action:
    CecBridgeAction)
    requires
        initiator < 16,
        destination < 16,
    ensures
        action@ == refusal((initiator * 16 + destination) as u8, opcode, reason),
{
    if destination == LOGICAL_ADDRESS_BROADCAST || initiator == LOGICAL_ADDRESS_BROADCAST {
        CecBridgeAction::Acknowledge
    } else {
        let reply: Vec<u8> = vec![
            destination * 16 + initiator,
            OPCODE_FEATURE_ABORT,
            opcode,
            reason,
        ];
        proof {
            assert(reply@ =~= seq![
                (destination * 16 + initiator) as u8,
                OPCODE_FEATURE_ABORT,
                opcode,
                reason,
            ]);
        }
        CecBridgeAction::Reply(reply)
    }
}

/// A generic key that was pressed is the one that the next release lifts,
/// whatever messages but presses and releases came in between.
pub proof fn releases_lift_the_pressed_key(
    pressed: Option<Seq<char>>,
    press: Seq<u8>,
    between: Seq<Seq<u8>>,
    release: Seq<u8>,
)
    requires
        is_key_press(press),
        is_generic_key(press[2]),
        is_key_release(release),
        forall|i: int|
            0 <= i < between.len() ==> !is_key_press(#[trigger] between[i]) && !is_key_release(
                between[i],
            ),
    ensures
        ({
            let held = between.fold_left(
                pressed_after(pressed, press),
                |key: Option<Seq<char>>, message: Seq<u8>| pressed_after(key, message),
            );
            &&& action_for(held, release) == coded(
                DeviceControlKind::KeyUp,
                generic_key(press[2]),
                0,
            )
            &&& pressed_after(held, release) is None
        }),
    decreases between.len(),
{
    let step = |key: Option<Seq<char>>, message: Seq<u8>| pressed_after(key, message);
    let start = pressed_after(pressed, press);
    unrelated_messages_hold_the_key(start, between);
    assert(between.fold_left(start, step) == start);
}

proof fn unrelated_messages_hold_the_key(pressed: Option<Seq<char>>, between: Seq<Seq<u8>>)
    requires
        forall|i: int|
            0 <= i < between.len() ==> !is_key_press(#[trigger] between[i]) && !is_key_release(
                between[i],
            ),
    ensures
        between.fold_left(
            pressed,
            |key: Option<Seq<char>>, message: Seq<u8>| pressed_after(key, message),
        ) == pressed,
    decreases between.len(),
{
    reveal_with_fuel(Seq::fold_left, 2);
    if between.len() > 0 {
        assert(between.drop_last().len() == between.len() - 1);
        assert forall|i: int| 0 <= i < between.drop_last().len() implies !is_key_press(
            #[trigger] between.drop_last()[i],
        ) && !is_key_release(between.drop_last()[i]) by {
            assert(between.drop_last()[i] == between[i]);
        }
        unrelated_messages_hold_the_key(pressed, between.drop_last());
        assert(between[between.len() - 1] == between.last());
    }
}

/// A second release is only acknowledged.
pub proof fn repeated_releases_are_acknowledged(
    pressed: Option<Seq<char>>,
    first: Seq<u8>,
    second: Seq<u8>,
)
    requires
        is_key_release(first),
        is_key_release(second),
    ensures
        action_for(pressed_after(pressed, first), second) == ActionView::Acknowledge,
{
}

/// A reply goes back to the sender in the name of the address it wrote to, and
/// names the operation that it refuses.
pub proof fn replies_answer_their_sender(pressed: Option<Seq<char>>, message: Seq<u8>)
    ensures
        action_for(pressed, message) matches ActionView::Reply(reply) ==> {
            &&& reply.len() == 4
            &&& initiator_of(reply[0]) == destination_of(message[0])
            &&& destination_of(reply[0]) == initiator_of(message[0])
            &&& reply[1] == OPCODE_FEATURE_ABORT
            &&& reply[2] == message[1]
        },
{
}

/// The number that a lower-case hexadecimal digit is written for.
pub open spec fn digit_value(character: char) -> int {
    if '0' <= character <= '9' {
        character as int - 48
    } else {
        character as int - 87
    }
}

/// The name tells the key by two hexadecimal digits, high digit first.
pub open spec fn names_key(name: Seq<char>, code: u8) -> bool {
    &&& name.len() == 9
    &&& name.take(7) == "cec-ui-"@
    &&& '0' <= name[7] <= '9' || 'a' <= name[7] <= 'f'
    &&& '0' <= name[8] <= '9' || 'a' <= name[8] <= 'f'
    &&& code == 16 * digit_value(name[7]) + digit_value(name[8])
}

proof fn generic_keys_are_named(code: u8)
    ensures
        names_key(generic_key(code), code),
{
    reveal_strlit("cec-ui-");
    let name = generic_key(code);
    assert(name.take(7) =~= "cec-ui-"@);
    assert(name[7] == hex_byte(code)[0]);
    assert(name[8] == hex_byte(code)[1]);
}

/// A key of a remote control that is pressed at the TV or at the audio system
/// means what the standard says of its code, and nothing else means the same: only
/// 0x6d switches on, only 0x6c puts to sleep, 0x40 and 0x6b switch over, 0x41 and
/// 0x42 change the volume by five percent, 0x43 mutes, and every other key is
/// passed on under its own name.
pub proof fn keys_mean_what_their_codes_say(pressed: Option<Seq<char>>, header: u8, code: u8)
    requires
        header % 16 == 0 || header % 16 == 5,
    ensures
        ({
            let action = action_for(pressed, seq![header, 0x44u8, code]);
            let asked = action->Control_0;
            &&& action is Control
            &&& asked.kind == DeviceControlKind::Standby <==> code == 0x6c
            &&& asked.kind == DeviceControlKind::Standby ==> asked.code is None && asked.value == 0
            &&& asked.kind == DeviceControlKind::Power <==> code == 0x6d || code == 0x40 || code
                == 0x6b
            &&& code == 0x6d ==> asked.code == Some("on"@) && asked.value == 0
            &&& code == 0x40 || code == 0x6b ==> asked.code == Some("toggle"@) && asked.value == 0
            &&& asked.kind == DeviceControlKind::Volume <==> code == 0x41 || code == 0x42
            &&& code == 0x41 ==> asked.code == Some("relative"@) && asked.value == 5
            &&& code == 0x42 ==> asked.code == Some("relative"@) && asked.value == -5
            &&& asked.kind == DeviceControlKind::Mute <==> code == 0x43
            &&& code == 0x43 ==> asked.code == Some("toggle"@) && asked.value == 0
            &&& asked.kind == DeviceControlKind::KeyDown <==> !(0x40 <= code <= 0x43 || 0x6b <= code
                <= 0x6d)
            &&& asked.kind == DeviceControlKind::KeyDown ==> asked.code is Some && names_key(
                asked.code->0,
                code,
            ) && asked.value == 0
        }),
{
    generic_keys_are_named(code);
}

/// A key is held down from its press to the release, if it is one that is passed on
/// under its name; the other keys, and every other message, leave what is held.
pub proof fn held_keys_are_those_passed_on(pressed: Option<Seq<char>>, message: Seq<u8>)
    ensures
        ({
            let held = pressed_after(pressed, message);
            let to_us = message.len() > 0 && (message[0] % 16 == 0 || message[0] % 16 == 5);
            if to_us && message.len() == 3 && message[1] == 0x44 && !(0x40 <= message[2] <= 0x43
                || 0x6b <= message[2] <= 0x6d) {
                held is Some && names_key(held->0, message[2])
            } else if to_us && message.len() == 2 && message[1] == 0x45 {
                held is None
            } else {
                held == pressed
            }
        }),
{
    if message.len() == 3 {
        generic_keys_are_named(message[2]);
    }
}

/// What a message asks a device for, by its receiver, its operation and its
/// operands. The receiver is 0 for the TV, 5 for the audio system and 15 for
/// everybody.
pub proof fn messages_mean_what_the_standard_says(pressed: Option<Seq<char>>, message: Seq<u8>)
    requires
        2 <= message.len() <= 16,
    ensures
        ({
            let action = action_for(pressed, message);
            let asked = action->Control_0;
            let to = message[0] % 16;
            let to_us = to == 0 || to == 5;
            let operation = message[1];
            &&& action is NotAcknowledged <==> !(to_us || to == 15)
            &&& action is Control && asked.kind == DeviceControlKind::Activate <==> {
                ||| to == 0 && message.len() == 2 && (operation == 0x04 || operation == 0x0d)
                ||| to == 15 && message.len() == 4 && operation == 0x82
            }
            &&& action is Control && asked.kind == DeviceControlKind::Deactivate <==> to == 15
                && message.len() == 4 && operation == 0x9d
            &&& action is Control && asked.kind == DeviceControlKind::Standby <==> {
                ||| (to_us || to == 15) && message.len() == 2 && operation == 0x36
                ||| to_us && message.len() == 3 && operation == 0x44 && message[2] == 0x6c
            }
            &&& action is Control && (asked.kind == DeviceControlKind::Activate || asked.kind
                == DeviceControlKind::Deactivate || asked.kind == DeviceControlKind::Standby)
                ==> asked.code is None && asked.value == 0
            &&& action is Control && asked.kind == DeviceControlKind::KeyUp <==> to_us
                && message.len() == 2 && operation == 0x45 && pressed is Some
            &&& action is Control && asked.kind == DeviceControlKind::KeyUp ==> asked.code
                == pressed && asked.value == 0
            &&& action is Control && asked.kind == DeviceControlKind::Volume && operation != 0x44
                <==> to_us && message.len() == 3 && operation == 0x73 && message[2] <= 100
            &&& to_us && message.len() == 3 && operation == 0x73 && message[2] <= 100
                ==> asked.code == Some("absolute"@) && asked.value == message[2]
        }),
{
}

/// What is not understood is refused to its sender, with reason 3 where the
/// operation is known and 0 where it is not. What everybody was told, and what
/// nobody in particular said, is only acknowledged.
pub proof fn refusals_say_why(pressed: Option<Seq<char>>, message: Seq<u8>)
    requires
        2 <= message.len() <= 16,
    ensures
        ({
            let action = action_for(pressed, message);
            let to = message[0] % 16;
            let from = message[0] / 16;
            let known = message[1] == 0x04 || message[1] == 0x0d || message[1] == 0x36 || message[1]
                == 0x44 || message[1] == 0x45 || message[1] == 0x73 || message[1] == 0x82
                || message[1] == 0x9d;
            &&& action matches ActionView::Reply(reply) ==> {
                &&& reply == seq![
                    (16 * to + from) as u8,
                    0x00u8,
                    message[1],
                    if known {
                        3u8
                    } else {
                        0u8
                    },
                ]
                &&& (to == 0 || to == 5) && from != 15
            }
            &&& (to == 0 || to == 5) && from != 15 && !known ==> action is Reply
            &&& (to == 15 || (to == 0 || to == 5) && from == 15) && !known ==> action
                is Acknowledge
            &&& (to == 0 || to == 5) && action is Acknowledge ==> from == 15 || message[1] == 0x45
                && message.len() == 2 && pressed is None
        }),
{
}

/// Empty and overlong messages are not acknowledged. A message without an operation
/// only asks who is there: the TV and the audio system are, where they ask
/// themselves.
pub proof fn only_own_polls_are_acknowledged(pressed: Option<Seq<char>>, message: Seq<u8>)
    requires
        message.len() < 2 || message.len() > 16,
    ensures
        action_for(pressed, message) is Acknowledge <==> message.len() == 1 && (message[0] == 0x00
            || message[0] == 0x55),
        action_for(pressed, message) is NotAcknowledged <==> !(action_for(
            pressed,
            message,
        ) is Acknowledge),
{
}

/// An action shows what it holds.
pub proof fn actions_show_what_they_hold(action: CecBridgeAction)
    ensures
        action is Acknowledge <==> action@ is Acknowledge,
        action is NotAcknowledged <==> action@ is NotAcknowledged,
        action matches CecBridgeAction::Reply(message) ==> action@ == ActionView::Reply(message@),
        action matches CecBridgeAction::Control(operation) ==> action@ == ActionView::Control(
            operation@,
        ),
{
}

} // verus!
