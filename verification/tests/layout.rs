use mcat_core::ansi::clear_screen;
use mcat_core::layout::{disables_raw_mode, frame_layout, image_rows, EncoderKind, TermWindow};

fn window() -> TermWindow {
    TermWindow { sc_width: 100, sc_height: 50, spx_width: 1920, spx_height: 1080, is_tmux: false }
}

#[test]
fn image_rows_leave_room_for_prompt() {
    assert_eq!(image_rows(&window()), 46);
}

#[test]
fn frame_is_centred() {
    let layout = frame_layout(&window(), 40, 540, true, false);
    assert_eq!(layout.offset, Some(30));
    assert_eq!(layout.v_pad, (46 - 25) / 2);
    let layout = frame_layout(&window(), 960, 540, false, false);
    assert_eq!(layout.offset, Some(25));
}

#[test]
fn frame_without_centring_or_pixel_size() {
    let layout = frame_layout(&window(), 40, 540, true, true);
    assert_eq!(layout.offset, None);
    let mut win = window();
    win.spx_height = 0;
    let layout = frame_layout(&win, 40, 540, true, false);
    assert_eq!(layout.v_pad, 0);
}

#[test]
fn raw_mode_dropped_per_encoder() {
    assert!(disables_raw_mode(EncoderKind::Ascii, false));
    assert!(disables_raw_mode(EncoderKind::Kitty, true));
    assert!(!disables_raw_mode(EncoderKind::Kitty, false));
    assert!(!disables_raw_mode(EncoderKind::Iterm, true));
    assert!(!disables_raw_mode(EncoderKind::Sixel, true));
}

#[test]
fn clear_screen_frames() {
    assert_eq!(clear_screen(None), b"\x1b[2J\x1b[1;1H".to_vec());
    assert_eq!(clear_screen(Some(b"img".to_vec())), b"\x1b[2J\x1b[1;1Himg".to_vec());
}
