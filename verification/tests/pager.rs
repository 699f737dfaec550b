use mcat_core::input::{Key, KeyPress, Mods, TermEvent};
use mcat_core::pager::{Pager, PagerCandidate, PagerKind, PagerStep, PagerTerminalGuard};

fn key(key: Key, mods: Mods) -> TermEvent {
    TermEvent::Key(KeyPress { key, mods, release: false })
}

fn lines(n: usize) -> Vec<Vec<u8>> {
    (0..n).map(|i| format!("line {i}").into_bytes()).collect()
}

#[test]
fn default_less_uses_builtin_pager() {
    let pager = Pager::new("less -r");
    assert!(pager.is_some());
}

#[test]
fn splits_command_and_args() {
    let (command, args) = Pager::command_and_args_from_string("bat --paging never file.md")
        .expect("command should parse");
    assert_eq!(command, "bat");
    assert_eq!(args, vec!["--paging", "never", "file.md"]);
}

#[test]
fn padded_less_is_builtin() {
    let pager = Pager::new("  less -r\t\n").unwrap();
    assert!(matches!(pager.kind(), PagerKind::Builtin));
    let pager = Pager::new("\u{3000}less -r\u{a0}").unwrap();
    assert!(matches!(pager.kind(), PagerKind::Builtin));
}

#[test]
fn less_with_other_flags_is_not_builtin() {
    match Pager::new("less -R") {
        None => {}
        Some(p) => match p.kind() {
            PagerKind::External { command, args } => {
                assert_eq!(command, "less");
                assert_eq!(args, &vec!["-R".to_string()]);
            }
            PagerKind::Builtin => panic!("only `less -r` selects the built-in pager"),
        },
    }
}

#[test]
fn quoted_arguments_are_kept_whole() {
    let (command, args) =
        Pager::command_and_args_from_string("'my pager' --title \"a b\" c\\ d").unwrap();
    assert_eq!(command, "my pager");
    assert_eq!(args, vec!["--title", "a b", "c d"]);
}

#[test]
fn unparsable_or_empty_setting_has_no_command() {
    assert!(Pager::command_and_args_from_string("bat 'open").is_none());
    assert!(Pager::command_and_args_from_string("   ").is_none());
    assert!(Pager::new("bat \"open").is_none());
    assert!(Pager::new("").is_none());
}

#[test]
fn missing_program_gives_no_pager() {
    assert!(Pager::new("surely-no-such-pager-program-xyz --flag").is_none());
}

#[test]
fn external_pager_only_when_found() {
    let p = Pager::external_if_found("bat".to_string(), vec!["-p".to_string()], true).unwrap();
    match p.kind() {
        PagerKind::External { command, args } => {
            assert_eq!(command, "bat");
            assert_eq!(args, &vec!["-p".to_string()]);
        }
        PagerKind::Builtin => panic!("expected an external pager"),
    }
    assert!(Pager::external_if_found("bat".to_string(), vec![], false).is_none());
}

#[test]
fn page_height_from_terminal_rows() {
    assert_eq!(Pager::page_height(Some(40)), 39);
    assert_eq!(Pager::page_height(Some(1)), 1);
    assert_eq!(Pager::page_height(Some(0)), 1);
    assert_eq!(Pager::page_height(None), 24);
}

#[test]
fn page_step_is_page_minus_one() {
    assert_eq!(Pager::page_step(24), 23);
    assert_eq!(Pager::page_step(2), 1);
    assert_eq!(Pager::page_step(1), 1);
    assert_eq!(Pager::page_step(0), 1);
}

#[test]
fn scroll_down_stops_at_last_page() {
    let l = lines(100);
    assert_eq!(Pager::scroll_down(&l, 0, 1, 20), 1);
    assert_eq!(Pager::scroll_down(&l, 79, 3, 20), 80);
    assert_eq!(Pager::scroll_down(&l, 10, usize::MAX, 20), 80);
    assert_eq!(Pager::scroll_down(&lines(5), 0, 1, 20), 0);
}

#[test]
fn pager_key_bindings() {
    let l = lines(100);
    let step = |top, ev: TermEvent| Pager::builtin_step(&l, top, 20, &ev);
    assert_eq!(step(5, key(Key::Esc, Mods::Control)), PagerStep::Quit);
    assert_eq!(step(5, key(Key::Char('q'), Mods::Empty)), PagerStep::Quit);
    assert_eq!(step(5, key(Key::Char('q'), Mods::Shift)), PagerStep::Show(5));
    assert_eq!(step(5, key(Key::Down, Mods::Empty)), PagerStep::Show(6));
    assert_eq!(step(5, key(Key::Char('j'), Mods::Empty)), PagerStep::Show(6));
    assert_eq!(step(5, TermEvent::WheelDown), PagerStep::Show(8));
    assert_eq!(step(5, key(Key::Up, Mods::Empty)), PagerStep::Show(4));
    assert_eq!(step(0, key(Key::Char('k'), Mods::Empty)), PagerStep::Show(0));
    assert_eq!(step(2, TermEvent::WheelUp), PagerStep::Show(0));
    assert_eq!(step(5, key(Key::PageDown, Mods::Empty)), PagerStep::Show(24));
    assert_eq!(step(5, key(Key::Char(' '), Mods::Empty)), PagerStep::Show(24));
    assert_eq!(step(5, key(Key::Char('f'), Mods::Control)), PagerStep::Show(24));
    assert_eq!(step(30, key(Key::PageUp, Mods::Empty)), PagerStep::Show(11));
    assert_eq!(step(30, key(Key::Char('b'), Mods::Control)), PagerStep::Show(11));
    assert_eq!(step(30, key(Key::Char('g'), Mods::Empty)), PagerStep::Show(0));
    assert_eq!(step(30, key(Key::Home, Mods::Empty)), PagerStep::Show(0));
    assert_eq!(step(30, key(Key::Char('G'), Mods::Shift)), PagerStep::Show(80));
    assert_eq!(step(30, key(Key::End, Mods::Empty)), PagerStep::Show(80));
    assert_eq!(step(30, key(Key::Char('G'), Mods::Empty)), PagerStep::Show(30));
    assert_eq!(step(30, TermEvent::Resize), PagerStep::Show(30));
}

#[test]
fn up_undoes_down_away_from_the_end() {
    let l = lines(100);
    let down = Pager::builtin_step(&l, 7, 20, &key(Key::Down, Mods::Empty));
    assert_eq!(down, PagerStep::Show(8));
    let up = Pager::builtin_step(&l, 8, 20, &key(Key::Up, Mods::Empty));
    assert_eq!(up, PagerStep::Show(7));
}

#[test]
fn render_page_frame_bytes() {
    let l: Vec<Vec<u8>> = vec![b"one".to_vec(), b"two".to_vec(), b"three".to_vec()];
    let out = Pager::render_builtin_page(&l, 1, 4, 10);
    let mut expected = b"\x1b[2J\x1b[1;1H".to_vec();
    expected.extend_from_slice(b"two\r\nthree\r\n");
    expected.extend_from_slice(b"\x1b[4;1H");
    expected.extend_from_slice(
        b"[Esc/q] Quit  [j/k/arrows/wheel] Scroll  [PgUp/PgDn/Space] Page  [g/G] Start/End  3/3",
    );
    assert_eq!(out, expected);
}

#[test]
fn render_page_limited_by_terminal_rows() {
    let l: Vec<Vec<u8>> = (0..10).map(|i| vec![b'a' + i as u8]).collect();
    let out = Pager::render_builtin_page(&l, 0, 3, 24);
    let text = String::from_utf8(out).unwrap();
    assert!(text.contains("a\r\nb\r\n\x1b[3;1H"));
    assert!(!text.contains("c\r\n"));
    assert!(text.ends_with("2/10"));
}

#[test]
fn guard_hands_out_its_output() {
    let mut guard = PagerTerminalGuard::new(std::io::stdout());
    let _out: &mut std::io::Stdout = guard.stdout_mut();
}

#[test]
fn command_from_words() {
    let words = vec!["bat".to_string(), "-p".to_string(), "x".to_string()];
    let (c, a) = Pager::command_and_args_from_words(words).unwrap();
    assert_eq!(c, "bat");
    assert_eq!(a, vec!["-p", "x"]);
    let (c, a) = Pager::command_and_args_from_words(vec!["less".to_string()]).unwrap();
    assert_eq!(c, "less");
    assert!(a.is_empty());
    assert!(Pager::command_and_args_from_words(vec![]).is_none());
}

#[test]
fn candidate_before_lookup() {
    assert!(matches!(Pager::candidate(" less -r "), PagerCandidate::Builtin));
    match Pager::candidate("surely-no-such-pager-program-xyz --flag") {
        PagerCandidate::Program(c, a) => {
            assert_eq!(c, "surely-no-such-pager-program-xyz");
            assert_eq!(a, vec!["--flag"]);
        }
        _ => panic!("expected a program"),
    }
    assert!(matches!(Pager::candidate("bat 'open"), PagerCandidate::Nothing));
    assert!(matches!(Pager::candidate(""), PagerCandidate::Nothing));
}
