use rscreenrec::capture::{
    cursor_choice, even_dimension, frame_part, preview_content_type, preview_dimensions,
    preview_needs_downscale, CursorChoice,
};

#[test]
fn cursor_setting() {
    assert_eq!(cursor_choice(true), CursorChoice::Embedded);
    assert_eq!(cursor_choice(false), CursorChoice::Hidden);
}

#[test]
fn even_dimensions_round_toward_zero() {
    assert_eq!(even_dimension(1281), 1280);
    assert_eq!(even_dimension(720), 720);
    assert_eq!(even_dimension(0), 0);
    assert_eq!(even_dimension(1), 0);
    assert_eq!(even_dimension(-5), -4);
    assert_eq!(even_dimension(i32::MIN), i32::MIN);
    assert_eq!(even_dimension(i32::MAX), i32::MAX - 1);
}

#[test]
fn downscale_threshold() {
    assert!(!preview_needs_downscale(1280, 720));
    assert!(preview_needs_downscale(1281, 720));
    assert!(preview_needs_downscale(800, 721));
}

#[test]
fn preview_sizes() {
    assert_eq!(preview_dimensions(None, None), (1280, 720));
    assert_eq!(preview_dimensions(Some((1025, 719)), None), (1024, 718));
    assert_eq!(preview_dimensions(Some((3840, 2160)), Some((1280, 720))), (1280, 720));
    assert_eq!(preview_dimensions(Some((2560, 1601)), Some((1151, 720))), (1150, 720));
}

#[test]
fn frame_parts() {
    let part = frame_part(&[0xff, 0xd8, 0x01]);
    let mut expected = Vec::new();
    expected.extend_from_slice(b"--frame\r\nContent-Type: image/jpeg\r\n\r\n");
    expected.extend_from_slice(&[0xff, 0xd8, 0x01]);
    expected.extend_from_slice(b"\r\n");
    assert_eq!(part, expected);
    assert_eq!(frame_part(&[]), b"--frame\r\nContent-Type: image/jpeg\r\n\r\n\r\n".to_vec());
}

#[test]
fn stream_content_type() {
    assert_eq!(preview_content_type(), "multipart/x-mixed-replace; boundary=frame");
}
