use pronk::cec_bridge::{
    CecBridge, CecBridgeAction, ABORT_INVALID_OPERAND, OPCODE_ACTIVE_SOURCE, OPCODE_FEATURE_ABORT,
    OPCODE_IMAGE_VIEW_ON, OPCODE_INACTIVE_SOURCE, OPCODE_SET_AUDIO_VOLUME_LEVEL, OPCODE_STANDBY,
    OPCODE_USER_CONTROL_PRESSED, OPCODE_USER_CONTROL_RELEASED, UI_MUTE, UI_POWER_ON,
    UI_VOLUME_DOWN, UI_VOLUME_UP,
};
use pronk::device_control_port::{DeviceControlKind, DeviceControlOperation};

fn operation(action: CecBridgeAction) -> DeviceControlOperation {
    let CecBridgeAction::Control(operation) = action else {
        panic!("expected control operation, got {action:?}");
    };
    operation
}

#[test]
fn polling_reports_only_the_emulated_remote_addresses() {
    let mut bridge = CecBridge::new();
    assert_eq!(bridge.translate(&[0x00]), CecBridgeAction::Acknowledge);
    assert_eq!(bridge.translate(&[0x55]), CecBridgeAction::Acknowledge);
    assert_eq!(bridge.translate(&[0x44]), CecBridgeAction::NotAcknowledged);
    assert_eq!(bridge.translate(&[0x04]), CecBridgeAction::NotAcknowledged);
}

#[test]
fn routes_source_and_power_operations_without_protocol_types() {
    let mut bridge = CecBridge::new();
    for (message, kind) in [
        (
            &[0x40, OPCODE_IMAGE_VIEW_ON][..],
            DeviceControlKind::Activate,
        ),
        (
            &[0x4f, OPCODE_ACTIVE_SOURCE, 0x10, 0x00][..],
            DeviceControlKind::Activate,
        ),
        (
            &[0x4f, OPCODE_INACTIVE_SOURCE, 0x10, 0x00][..],
            DeviceControlKind::Deactivate,
        ),
        (&[0x4f, OPCODE_STANDBY][..], DeviceControlKind::Standby),
    ] {
        assert_eq!(operation(bridge.translate(message)).kind, kind);
    }
}

#[test]
fn normalizes_relative_absolute_volume_mute_and_power() {
    let mut bridge = CecBridge::new();
    assert_eq!(
        operation(bridge.translate(&[0x45, OPCODE_USER_CONTROL_PRESSED, UI_VOLUME_UP])),
        DeviceControlOperation::valued(DeviceControlKind::Volume, "relative", 5)
    );
    assert_eq!(
        operation(bridge.translate(&[0x45, OPCODE_USER_CONTROL_PRESSED, UI_VOLUME_DOWN])),
        DeviceControlOperation::valued(DeviceControlKind::Volume, "relative", -5)
    );
    assert_eq!(
        operation(bridge.translate(&[0x45, OPCODE_USER_CONTROL_PRESSED, UI_MUTE])),
        DeviceControlOperation::coded(DeviceControlKind::Mute, "toggle")
    );
    assert_eq!(
        operation(bridge.translate(&[0x45, OPCODE_USER_CONTROL_PRESSED, UI_POWER_ON])),
        DeviceControlOperation::coded(DeviceControlKind::Power, "on")
    );
    assert_eq!(
        operation(bridge.translate(&[0x45, OPCODE_SET_AUDIO_VOLUME_LEVEL, 73])),
        DeviceControlOperation::valued(DeviceControlKind::Volume, "absolute", 73)
    );
}

#[test]
fn remembers_the_generic_key_for_key_up() {
    let mut bridge = CecBridge::new();
    assert_eq!(
        operation(bridge.translate(&[0x40, OPCODE_USER_CONTROL_PRESSED, 0x44])),
        DeviceControlOperation::coded(DeviceControlKind::KeyDown, "cec-ui-44")
    );
    assert_eq!(
        operation(bridge.translate(&[0x40, OPCODE_USER_CONTROL_RELEASED])),
        DeviceControlOperation::coded(DeviceControlKind::KeyUp, "cec-ui-44")
    );
    assert_eq!(
        bridge.translate(&[0x40, OPCODE_USER_CONTROL_RELEASED]),
        CecBridgeAction::Acknowledge
    );
}

#[test]
fn addressed_unknown_and_invalid_messages_get_feature_abort_replies() {
    let mut bridge = CecBridge::new();
    assert_eq!(
        bridge.translate(&[0x40, 0xee]),
        CecBridgeAction::Reply(vec![0x04, OPCODE_FEATURE_ABORT, 0xee, 0])
    );
    assert_eq!(
        bridge.translate(&[0x40, OPCODE_SET_AUDIO_VOLUME_LEVEL, 101]),
        CecBridgeAction::Reply(vec![
            0x04,
            OPCODE_FEATURE_ABORT,
            OPCODE_SET_AUDIO_VOLUME_LEVEL,
            ABORT_INVALID_OPERAND,
        ])
    );
    assert_eq!(
        bridge.translate(&[0x4f, 0xee]),
        CecBridgeAction::Acknowledge
    );
}

#[test]
fn rejects_unrepresented_destinations_and_unbounded_messages() {
    let mut bridge = CecBridge::new();
    assert_eq!(
        bridge.translate(&[0x42, OPCODE_STANDBY]),
        CecBridgeAction::NotAcknowledged
    );
    assert_eq!(bridge.translate(&[]), CecBridgeAction::NotAcknowledged);
    assert_eq!(bridge.translate(&[0; 17]), CecBridgeAction::NotAcknowledged);
}

#[test]
fn a_new_key_replaces_the_pressed_one() {
    let mut bridge = CecBridge::new();
    bridge.translate(&[0x40, OPCODE_USER_CONTROL_PRESSED, 0x01]);
    bridge.translate(&[0x40, OPCODE_USER_CONTROL_PRESSED, 0x2b]);
    assert_eq!(
        operation(bridge.translate(&[0x40, OPCODE_USER_CONTROL_RELEASED])),
        DeviceControlOperation::coded(DeviceControlKind::KeyUp, "cec-ui-2b")
    );
}
