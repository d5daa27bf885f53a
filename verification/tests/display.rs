use pronk::display::{
    bounded_text, AddedCastDisplay, CastDisplayId, DisplaySetupStage, MediaRuntime,
    MAX_OPERATION_ERROR_BYTES,
};
use pronk::display_media::CaptureSource;
use pronk::protocol::{DeviceAvailability, DeviceInfo};

fn identity(seed: u8) -> CastDisplayId {
    let mut random = [0u8; 16];
    for (index, byte) in random.iter_mut().enumerate() {
        *byte = seed.wrapping_mul(31).wrapping_add(index as u8 * 17);
    }
    CastDisplayId::from_random_bytes(random)
}

#[test]
fn generated_display_ids_are_canonical_random_uuids() {
    let first = identity(1);
    let second = identity(2);
    assert_ne!(first, second);
    let text = first.to_text();
    assert_eq!(text.len(), 36);
    assert_eq!(&text[14..15], "4");
    assert!(matches!(&text[19..20], "8" | "9" | "a" | "b"));
    assert_eq!(
        text.chars().filter(|character| *character == '-').count(),
        4
    );
    assert_eq!(text.parse::<CastDisplayId>().unwrap(), first);
    assert_eq!(first.object_segment().len(), 32);
    assert!("00000000-0000-0000-0000-000000000000"
        .parse::<CastDisplayId>()
        .is_err());
}

#[test]
fn operation_errors_are_utf8_bounded() {
    let text = format!("{}é", "x".repeat(MAX_OPERATION_ERROR_BYTES));
    let bounded = bounded_text(text, MAX_OPERATION_ERROR_BYTES);
    assert_eq!(bounded.len(), MAX_OPERATION_ERROR_BYTES);
    assert!(bounded.is_char_boundary(bounded.len()));
}

#[test]
fn short_operation_errors_are_kept_and_characters_are_not_cut() {
    assert_eq!(bounded_text("é".into(), 2), "é");
    assert_eq!(bounded_text("éé".into(), 3), "é");
    assert_eq!(bounded_text("é".into(), 1), "");
}

#[test]
fn identities_are_written_and_read_exactly() {
    let id = CastDisplayId::from_random_bytes([
        0x01, 0x23, 0x45, 0x67, 0x89, 0xab, 0xcd, 0xef, 0x01, 0x23, 0x45, 0x67, 0x89, 0xab, 0xcd,
        0xef,
    ]);
    assert_eq!(id.to_text(), "01234567-89ab-4def-8123-456789abcdef");
    assert_eq!(id.object_segment(), "0123456789ab4def8123456789abcdef");
    assert_eq!(
        CastDisplayId::parse("01234567-89AB-4DEF-8123-456789ABCDEF").unwrap(),
        id
    );
    assert!(CastDisplayId::parse("01234567-89ab-4def-8123-456789abcde").is_err());
    assert!(CastDisplayId::parse("0123456789ab-4def-8123-456789abcdef-").is_err());
    assert!(CastDisplayId::parse("01234567-89ab-1def-8123-456789abcdef").is_err());
    assert!(CastDisplayId::parse("01234567-89ab-4def-c123-456789abcdef").is_err());
    assert!(CastDisplayId::parse("01234567-89ab-4def-8123-456789abcdeg").is_err());
}

#[test]
fn only_ended_stages_are_terminal() {
    for stage in [
        DisplaySetupStage::Validating,
        DisplaySetupStage::Authorizing,
        DisplaySetupStage::PreparingDevice,
        DisplaySetupStage::Attaching,
    ] {
        assert!(!stage.is_terminal());
    }
    for stage in [
        DisplaySetupStage::Added,
        DisplaySetupStage::Cancelled,
        DisplaySetupStage::Failed,
    ] {
        assert!(stage.is_terminal());
    }
}

#[test]
fn the_media_runtime_of_a_user_is_private_to_them() {
    let runtime = MediaRuntime::for_user(1000);
    assert_eq!(runtime.directory, "/run/user/1000/pronk/media");
    assert_eq!(runtime.server_uid, 1000);
    assert_eq!(runtime.capture_source(), CaptureSource::Renderer);
    let final_image = runtime.with_capture_source(CaptureSource::FinalImage);
    assert_eq!(final_image.capture_source(), CaptureSource::FinalImage);
}

#[test]
fn only_a_changed_device_advances_an_unowned_display() {
    let device = DeviceInfo {
        backend_id: "mock".into(),
        device_id: "living-room".into(),
        display_name: "Living Room TV".into(),
        availability: DeviceAvailability::Available,
        connection_generation: 1,
        discovery_generation: 2,
        device_revision: 7,
        metadata: Vec::new(),
    };
    let mut display = AddedCastDisplay {
        display_id: identity(3),
        state_revision: 4,
        device: device.clone(),
    };
    assert!(!display.update_device(device.clone()));
    assert_eq!(display.state_revision, 4);
    let mut renamed = device.clone();
    renamed.display_name = "Den TV".into();
    assert!(display.update_device(renamed));
    assert_eq!(display.state_revision, 7);
    assert!(display.update_device(device));
    assert_eq!(display.state_revision, 8);
}
