use pronk::capture_output_layouts::{
    common_modifiers, for_modes_with, next_query, Answer, ProbeError, ProbeErrorKind,
    RawVideoLayout, FOURCC_AB24, FOURCC_AR24, FOURCC_XB24, FOURCC_XR24, MAX_RAW_VIDEO_LAYOUTS,
};
use pronk::device_session::DisplayMode;

fn mode(width: u32, height: u32) -> DisplayMode {
    DisplayMode {
        width,
        height,
        refresh_millihz: 60_000,
        flags: 0,
    }
}

fn ask(
    modes: &Vec<DisplayMode>,
    mut renderer: impl FnMut(u32) -> Answer,
) -> Vec<Answer> {
    let mut answers = Vec::new();
    while let Some(mode) = next_query(modes, &answers) {
        answers.push(renderer(mode.width));
    }
    answers
}

fn failure(kind: ProbeErrorKind, message: &str) -> ProbeError {
    ProbeError {
        kind,
        message: message.into(),
    }
}

#[test]
fn advertises_only_modifiers_available_for_every_mode() {
    let modes = vec![mode(1920, 1080), mode(3840, 2160)];
    let bgra = ask(&modes, |width| {
        Ok(if width == 1920 { vec![0, 9] } else { vec![9] })
    });
    let rgba = ask(&modes, |_| Ok(vec![]));
    let result = for_modes_with(&modes, &bgra, &rgba).unwrap();
    assert_eq!(
        result,
        vec![
            RawVideoLayout::system_memory(u32::from_le_bytes(*b"XR24")),
            RawVideoLayout::dma_buf(u32::from_le_bytes(*b"AR24"), 9),
            RawVideoLayout::dma_buf(u32::from_le_bytes(*b"XR24"), 9),
        ]
    );
}

#[test]
fn keeps_system_memory_when_the_gpu_has_no_shared_layout() {
    let modes = vec![mode(1920, 1080)];
    let none = ask(&modes, |_| Ok(vec![]));
    let result = for_modes_with(&modes, &none, &none).unwrap();
    assert_eq!(
        result,
        vec![RawVideoLayout::system_memory(u32::from_le_bytes(*b"XR24"))]
    );
}

#[test]
fn long_modifier_lists_leave_room_for_each_pixel_order() {
    let modes = vec![mode(1920, 1080)];
    let many = ask(&modes, |_| Ok((0..80).collect()));
    let layouts = for_modes_with(&modes, &many, &many).unwrap();
    assert_eq!(layouts.len(), MAX_RAW_VIDEO_LAYOUTS);
    for fourcc in [FOURCC_AR24, FOURCC_XR24, FOURCC_AB24, FOURCC_XB24] {
        assert!(layouts.contains(&RawVideoLayout::dma_buf(fourcc, 0)));
    }
}

#[test]
fn fourcc_aliases_share_one_gpu_query_per_mode() {
    let modes = vec![mode(640, 480), mode(1920, 1080)];
    let mut queries = Vec::new();
    let bgra = ask(&modes, |width| {
        queries.push(("bgra", width));
        Ok(vec![9])
    });
    let rgba = ask(&modes, |width| {
        queries.push(("rgba", width));
        Ok(vec![9])
    });
    let layouts = for_modes_with(&modes, &bgra, &rgba).unwrap();
    assert_eq!(queries.len(), 4);
    for fourcc in [FOURCC_AR24, FOURCC_XR24, FOURCC_AB24, FOURCC_XB24] {
        assert!(layouts.contains(&RawVideoLayout::dma_buf(fourcc, 9)));
    }
}

#[test]
fn one_unsupported_channel_order_does_not_hide_the_other() {
    let modes = vec![mode(1920, 1080)];
    let bgra = ask(&modes, |_| {
        Err(failure(ProbeErrorKind::Unsupported, "BGRA unavailable"))
    });
    let rgba = ask(&modes, |_| Ok(vec![9]));
    let layouts = for_modes_with(&modes, &bgra, &rgba).unwrap();
    assert_eq!(
        layouts,
        vec![
            RawVideoLayout::system_memory(u32::from_le_bytes(*b"XR24")),
            RawVideoLayout::dma_buf(u32::from_le_bytes(*b"AB24"), 9),
            RawVideoLayout::dma_buf(u32::from_le_bytes(*b"XB24"), 9),
        ]
    );
}

#[test]
fn both_failed_channel_orders_preserve_the_probe_error() {
    let modes = vec![mode(1920, 1080)];
    let lost = || {
        ask(&modes, |_| {
            Err(failure(ProbeErrorKind::BrokenPipe, "GPU device lost"))
        })
    };
    let error = for_modes_with(&modes, &lost(), &lost()).unwrap_err();
    assert_eq!(error.kind, ProbeErrorKind::BrokenPipe);
}

#[test]
fn a_mode_without_an_area_is_not_asked_about() {
    let modes = vec![mode(1920, 1080), mode(0, 720)];
    let answers = ask(&modes, |_| Ok(vec![1]));
    assert_eq!(answers.len(), 1);
    assert_eq!(
        common_modifiers(&modes, &answers).unwrap_err().kind,
        ProbeErrorKind::InvalidInput
    );
}
