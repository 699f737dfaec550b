use mcat_core::input::{Key, KeyPress, Mods, TermEvent};
use mcat_core::viewer::{pan_delta, redraw_due, show_help_prompt, ViewerSession, ViewerStep};

fn key(key: Key, mods: Mods) -> TermEvent {
    TermEvent::Key(KeyPress { key, mods, release: false })
}

fn ch(c: char) -> TermEvent {
    key(Key::Char(c), Mods::Empty)
}

const CHANGED: ViewerStep = ViewerStep::Continue { changed: true };
const SAME: ViewerStep = ViewerStep::Continue { changed: false };

#[test]
fn new_session_starts_unzoomed() {
    let s = ViewerSession::new(320, 160, 100, 50, 3);
    assert_eq!(s.view.zoom, 1);
    assert_eq!((s.view.pan_x, s.view.pan_y), (0, 0));
    assert_eq!(s.current_image, 0);
    assert_eq!(s.max_images, 3);
}

#[test]
fn small_image_cannot_pan() {
    let mut s = ViewerSession::new(320, 160, 100, 50, 1);
    assert_eq!(s.step(&ch('l')), SAME);
    assert_eq!(s.step(&TermEvent::WheelDown), SAME);
    assert_eq!((s.view.pan_x, s.view.pan_y), (0, 0));
}

#[test]
fn zoomed_image_pans_within_limits() {
    let mut s = ViewerSession::new(100, 100, 1000, 1000, 1);
    assert_eq!(s.step(&ch('l')), SAME);
    assert_eq!(s.step(&ch('+')), CHANGED);
    assert_eq!(s.view.zoom, 2);
    assert_eq!(s.step(&ch('l')), CHANGED);
    assert_eq!(s.view.pan_x, 50);
    assert_eq!(s.step(&key(Key::Left, Mods::Control)), CHANGED);
    assert_eq!(s.view.pan_x, 0);
    assert_eq!(s.step(&key(Key::Right, Mods::Control)), SAME);
    assert_eq!(s.step(&key(Key::Char('d'), Mods::Control)), CHANGED);
    assert_eq!(s.view.pan_y, 200);
    assert_eq!(s.step(&key(Key::Char('d'), Mods::Control)), SAME);
    assert_eq!(s.step(&key(Key::Char('G'), Mods::Shift)), CHANGED);
    assert_eq!(s.view.pan_y, 250);
    assert_eq!(s.step(&key(Key::Char('G'), Mods::Shift)), SAME);
    assert_eq!(s.step(&ch('g')), CHANGED);
    assert_eq!(s.view.pan_y, -250);
    assert_eq!(s.step(&TermEvent::WheelUp), SAME);
    assert_eq!(s.step(&TermEvent::WheelDown), CHANGED);
    assert_eq!(s.view.pan_y, -200);
}

#[test]
fn reset_returns_to_unzoomed_centre() {
    let mut s = ViewerSession::new(100, 100, 1000, 1000, 1);
    s.step(&ch('+'));
    s.step(&ch('+'));
    s.step(&ch('l'));
    s.step(&ch('j'));
    assert_eq!(s.step(&ch('0')), CHANGED);
    assert_eq!(s.view.zoom, 1);
    assert_eq!((s.view.pan_x, s.view.pan_y), (0, 0));
}

#[test]
fn zoom_out_stops_at_one_and_clamps_pan() {
    let mut s = ViewerSession::new(100, 100, 1000, 1000, 1);
    assert_eq!(s.step(&ch('-')), SAME);
    s.step(&ch('='));
    s.step(&ch('l'));
    assert_eq!(s.view.pan_x, 50);
    assert_eq!(s.step(&ch('-')), CHANGED);
    assert_eq!(s.view.zoom, 1);
    assert_eq!(s.view.pan_x, 0);
}

#[test]
fn next_and_previous_image() {
    let mut s = ViewerSession::new(100, 100, 10, 10, 2);
    assert_eq!(s.step(&ch('p')), SAME);
    assert_eq!(s.step(&ch('n')), CHANGED);
    assert_eq!(s.current_image, 1);
    assert_eq!(s.step(&ch('n')), SAME);
    assert_eq!(s.current_image, 1);
    assert_eq!(s.step(&ch('p')), CHANGED);
    assert_eq!(s.current_image, 0);
}

#[test]
fn quit_keys_and_releases() {
    let mut s = ViewerSession::new(100, 100, 1000, 1000, 2);
    assert_eq!(s.step(&ch('q')), ViewerStep::Quit);
    assert_eq!(s.step(&key(Key::Esc, Mods::Shift)), ViewerStep::Quit);
    assert_eq!(s.step(&key(Key::Char('q'), Mods::Control)), SAME);
    let release = TermEvent::Key(KeyPress { key: Key::Char('n'), mods: Mods::Empty, release: true });
    assert_eq!(s.step(&release), SAME);
    assert_eq!(s.current_image, 0);
    assert_eq!(s.step(&TermEvent::Resize), SAME);
}

#[test]
fn new_image_size_clamps_pan() {
    let mut s = ViewerSession::new(100, 100, 1000, 1000, 2);
    s.step(&ch('+'));
    s.step(&ch('l'));
    s.step(&ch('l'));
    assert_eq!(s.view.pan_x, 100);
    s.load_image_size(10, 10);
    assert_eq!((s.view.image_width, s.view.image_height), (10, 10));
    assert_eq!(s.view.pan_x, 2);
}

#[test]
fn redraw_only_for_changes_after_interval() {
    assert!(redraw_due(CHANGED, 50));
    assert!(redraw_due(CHANGED, 1000));
    assert!(!redraw_due(CHANGED, 49));
    assert!(!redraw_due(SAME, 1000));
    assert!(!redraw_due(ViewerStep::Quit, 1000));
}

#[test]
fn help_prompt_bytes() {
    let s = ViewerSession::new(100, 100, 1000, 1000, 3);
    let out = show_help_prompt(100, 10, &s.view, 0, 3);
    let status = "Position: (0, 0) | Zoom: 1x | image: 1/3";
    let help = "[Arrow/hjkl/Wheel] Move [n/p] Next/Pre [g/G] Start/End  [+/-] Zoom  [0] Reset  [q/ESC] Quit";
    let expected = format!(
        "\x1b[8;1H{}\x1b[9;{}H{}\x1b[10;{}H{}",
        "━".repeat(100),
        (100 - status.len()) / 2 + 1,
        status,
        (100 - help.len()) / 2 + 1,
        help
    );
    assert_eq!(String::from_utf8(out).unwrap(), expected);
}

#[test]
fn help_prompt_negative_pan_and_narrow_terminal() {
    let mut s = ViewerSession::new(100, 100, 1000, 1000, 3);
    s.step(&ch('+'));
    s.step(&ch('h'));
    s.step(&ch('k'));
    let out = show_help_prompt(10, 1, &s.view, 2, 3);
    let text = String::from_utf8(out).unwrap();
    assert!(text.starts_with("\x1b[1;1H━━━━━━━━━━\x1b[1;1HPosition: (-50, -50) | Zoom: 2x | image: 3/3"));
    assert!(text.ends_with("\x1b[1;1H[Arrow/hjkl/Wheel] Move [n/p] Next/Pre [g/G] Start/End  [+/-] Zoom  [0] Reset  [q/ESC] Quit"));
}

#[test]
fn pan_deltas() {
    assert_eq!(pan_delta(&key(Key::Left, Mods::Control)), Some((-50, 0)));
    assert_eq!(pan_delta(&key(Key::Right, Mods::Control)), None);
    assert_eq!(pan_delta(&ch('j')), Some((0, 50)));
    assert_eq!(pan_delta(&key(Key::Char('u'), Mods::Control)), Some((0, -200)));
    assert_eq!(pan_delta(&TermEvent::WheelRight), Some((50, 0)));
    assert_eq!(pan_delta(&ch('q')), None);
    let release = TermEvent::Key(KeyPress { key: Key::Left, mods: Mods::Empty, release: true });
    assert_eq!(pan_delta(&release), None);
}

#[test]
fn huge_image_session_starts_and_checks_pan_room() {
    let mut s = ViewerSession::new(100, 100, u32::MAX, u32::MAX, 1);
    assert_eq!(s.view.zoom, 1);
    assert!(s.pan_fits(&ch('l')));
    for _ in 0..20 {
        s.step(&ch('+'));
    }
    assert!(s.view.pan_x == 0);
    assert!(s.pan_fits(&ch('q')));
}
