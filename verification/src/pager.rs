//! The pager: choosing between the built-in pager and an external command,
//! and the built-in pager's scrolling and page rendering.

use vstd::prelude::*;
use vstd::string::StringSliceAdditionalSpecFns;

use crate::ansi::{clear_all_seq, move_to_seq, push_clear_all, push_move_to};
use crate::input::{is_key, is_key_any, Key, Mods, TermEvent};
use crate::text::{decimal, extend_bytes, push_decimal, trim, trimmed_equals};

verus! {

/// `a - b`, or zero when `b` is larger.
pub open spec fn sat_sub(a: int, b: int) -> int {
    if a > b {
        a - b
    } else {
        0
    }
}

/// The smaller of two integers.
pub open spec fn min_int(a: int, b: int) -> int {
    if a < b {
        a
    } else {
        b
    }
}

/// `a + b`, capped at `usize::MAX`.
pub open spec fn sat_add_usize(a: int, b: int) -> int {
    min_int(a + b, usize::MAX as int)
}

/// Rows the built-in pager shows: one less than the terminal's rows, at least
/// one, and 24 when the terminal size cannot be read.
pub open spec fn spec_page_height(terminal_rows: Option<u16>) -> int {
    match terminal_rows {
        Some(h) => if h > 1 {
            h - 1
        } else {
            1
        },
        None => 24,
    }
}

/// How far a page scroll moves: one row less than a page, at least one row.
pub open spec fn spec_page_step(page_height: int) -> int {
    if sat_sub(page_height, 1) > 1 {
        sat_sub(page_height, 1)
    } else {
        1
    }
}

/// The top row after scrolling down by `amount`: never past the row that shows
/// the last line at the bottom of the page.
pub open spec fn spec_scroll_down(len: int, top: int, amount: int, page_height: int) -> int {
    min_int(sat_add_usize(top, amount), sat_sub(len, page_height))
}

/// What the built-in pager does with one event.
#[derive(Clone, Copy, PartialEq, Eq, Structural, Debug)]
pub enum PagerStep {
    /// Leave the pager.
    Quit,
    /// Show the page whose first row is this line.
    Show(usize),
}

/// The built-in pager's key bindings: `len` lines, first shown row `top`,
/// `page_height` rows on the page.
pub open spec fn spec_pager_step(len: int, top: int, page_height: int, ev: TermEvent) -> PagerStep {
    let step = spec_page_step(page_height);
    if is_key_any(ev, Key::Esc) || is_key(ev, Key::Char('q'), Mods::Empty) {
        PagerStep::Quit
    } else if is_key_any(ev, Key::Down) || is_key(ev, Key::Char('j'), Mods::Empty) {
        PagerStep::Show(spec_scroll_down(len, top, 1, page_height) as usize)
    } else if ev == TermEvent::WheelDown {
        PagerStep::Show(spec_scroll_down(len, top, 3, page_height) as usize)
    } else if is_key_any(ev, Key::Up) || is_key(ev, Key::Char('k'), Mods::Empty) {
        PagerStep::Show(sat_sub(top, 1) as usize)
    } else if ev == TermEvent::WheelUp {
        PagerStep::Show(sat_sub(top, 3) as usize)
    } else if is_key_any(ev, Key::PageDown) || is_key(ev, Key::Char(' '), Mods::Empty) || is_key(
        ev,
        Key::Char('f'),
        Mods::Control,
    ) {
        PagerStep::Show(spec_scroll_down(len, top, step, page_height) as usize)
    } else if is_key_any(ev, Key::PageUp) || is_key(ev, Key::Char('b'), Mods::Control) {
        PagerStep::Show(sat_sub(top, step) as usize)
    } else if is_key(ev, Key::Char('g'), Mods::Empty) || is_key_any(ev, Key::Home) {
        PagerStep::Show(0)
    } else if is_key(ev, Key::Char('G'), Mods::Shift) || is_key_any(ev, Key::End) {
        PagerStep::Show(sat_sub(len, page_height) as usize)
    } else {
        PagerStep::Show(top as usize)
    }
}

/// The lines of the page as byte strings.
pub open spec fn line_views(lines: Seq<Vec<u8>>) -> Seq<Seq<u8>> {
    lines.map_values(|l: Vec<u8>| l@)
}

/// Each line followed by `\r\n`, in order.
pub open spec fn joined_crlf(ls: Seq<Seq<u8>>) -> Seq<u8>
    decreases ls.len(),
{
    if ls.len() == 0 {
        Seq::empty()
    } else {
        joined_crlf(ls.drop_last()) + ls.last() + seq![13u8, 10u8]
    }
}

/// The help text at the start of the pager's status line.
pub open spec fn pager_status_prefix() -> Seq<u8> {
    "[Esc/q] Quit  [j/k/arrows/wheel] Scroll  [PgUp/PgDn/Space] Page  [g/G] Start/End  ".spec_bytes()
}

/// Rows of text on the screen: the page height, but no more than the rows
/// above the status line.
pub open spec fn visible_rows(page_height: int, term_height: u16) -> int {
    min_int(page_height, sat_sub(term_height as int, 1))
}

/// One past the last line shown.
pub open spec fn page_end(len: int, top: int, page_height: int, term_height: u16) -> int {
    min_int(sat_add_usize(top, visible_rows(page_height, term_height)), len)
}

/// One frame of the built-in pager: clear and home, the visible lines each
/// ending in `\r\n`, then at the bottom row the help text and `{end}/{total}`.
pub open spec fn spec_render_page(
    lines: Seq<Seq<u8>>,
    top: int,
    term_height: u16,
    page_height: int,
) -> Seq<u8> {
    let end = page_end(lines.len() as int, top, page_height, term_height);
    clear_all_seq() + move_to_seq(0, 0) + joined_crlf(lines.subrange(top, end)) + move_to_seq(
        0,
        sat_sub(term_height as int, 1) as u16,
    ) + pager_status_prefix() + decimal(min_int(end, lines.len() as int) as nat) + seq![47u8]
        + decimal(lines.len())
}

/// What a pager value is.
pub enum PagerKindView {
    Builtin,
    External(Seq<char>, Seq<Seq<char>>),
}

/// Which pager shows long output.
pub enum PagerKind {
    /// The scrolling pager of this library.
    Builtin,
    /// A program, run with these arguments, that reads the text on its input.
    External { command: String, args: Vec<String> },
}

/// What a pager setting asks for, before any program is looked up.
pub enum PagerCandidate {
    Builtin,
    Program(String, Vec<String>),
    Nothing,
}

/// A pager chosen from the user's pager setting.
pub struct Pager {
    kind: PagerKind,
}

/// The views of a list of strings.
pub open spec fn string_views(v: Seq<String>) -> Seq<Seq<char>> {
    v.map_values(|s: String| s@)
}

impl View for Pager {
    type V = PagerKindView;

    closed spec fn view(&self) -> PagerKindView {
        match self.kind {
            PagerKind::Builtin => PagerKindView::Builtin,
            PagerKind::External { command, args } => PagerKindView::External(
                command@,
                string_views(args@),
            ),
        }
    }
}

#[verifier::external_type_specification]
#[verifier::external_body]
pub struct ExShellParseError(shell_words::ParseError);

/// The words `shell_words::split` finds in `s`, or `None` where it reports a
/// parse error (an unclosed quote, or a string that ends inside a quote).
pub uninterp spec fn spec_shell_split(s: Seq<char>) -> Option<Seq<Seq<char>>>;

/// `shell_words::split`: splits a command line into words the way a POSIX
/// shell does. Its result is a function of the text alone, named
/// `spec_shell_split`; what that function is, is not stated here.
#[verifier::external_body]
fn shell_split(s: &str) -> (r: Result<Vec<String>, shell_words::ParseError>)
    ensures
        r is Ok <==> spec_shell_split(s@) is Some,
        r matches Ok(words) ==> string_views(words@) == spec_shell_split(s@).unwrap(),
{
    shell_words::split(s)
}

/// `which::which(command).is_ok()`: whether `command` names an executable that
/// can be found (through `PATH` when it is a bare name). The answer depends on
/// the environment and the file system, so nothing is stated of it.
#[verifier::external_body]
fn command_on_path(command: &str) -> (r: bool) {
    which::which(command).is_ok()
}

/// A lookup with `which` for `name` answered `found`.
pub closed spec fn which_answered(name: &str, found: bool) -> bool {
    call_ensures(command_on_path, (name,), found)
}

/// The program and its arguments in a pager setting: the first word and the
/// rest, when the setting parses and has at least one word.
pub open spec fn spec_command_and_args(s: Seq<char>) -> Option<(Seq<char>, Seq<Seq<char>>)> {
    match spec_shell_split(s) {
        Some(words) => if words.len() > 0 {
            Some((words[0], words.drop_first()))
        } else {
            None
        },
        None => None,
    }
}

/// The setting that selects the built-in pager, once trimmed.
pub open spec fn builtin_pager_setting() -> Seq<char> {
    seq!['l', 'e', 's', 's', ' ', '-', 'r']
}

impl Pager {
    /// The program and its arguments from the words of a setting: the first
    /// word and the rest, or `None` when there is no word.
    pub fn command_and_args_from_words(words: Vec<String>) -> (r: Option<(String, Vec<String>)>)
        ensures
            words@.len() == 0 ==> r is None,
            words@.len() > 0 ==> (r matches Some((c, a)) && c@ == string_views(words@)[0]
                && string_views(a@) == string_views(words@).drop_first()),
    {
        let mut parts = words;
        if parts.len() == 0 {
            None
        } else {
            let ghost all = string_views(parts@);
            let cmd = parts.remove(0);
            assert(string_views(parts@) =~= all.drop_first());
            Some((cmd, parts))
        }
    }

    /// Splits a pager setting into the program and its arguments, as a shell
    /// would; `None` when it does not parse or holds no word.
    pub fn command_and_args_from_string(full: &str) -> (r: Option<(String, Vec<String>)>)
        ensures
            match (r, spec_command_and_args(full@)) {
                (None, None) => true,
                (Some((c, a)), Some((sc, sa))) => c@ == sc && string_views(a@) == sa,
                _ => false,
            },
    {
        match shell_split(full) {
            Err(_) => None,
            Ok(parts) => Self::command_and_args_from_words(parts),
        }
    }

    /// What a setting asks for before any program is looked up: the built-in
    /// pager for `less -r` (surrounding whitespace aside), otherwise the program
    /// and arguments it names, or nothing when it does not parse or is empty.
    pub fn candidate(def_command: &str) -> (r: PagerCandidate)
        ensures
            trim(def_command@) == builtin_pager_setting() ==> r is Builtin,
            trim(def_command@) != builtin_pager_setting() ==> match spec_command_and_args(
                def_command@,
            ) {
                None => r is Nothing,
                Some((c, a)) => (r matches PagerCandidate::Program(rc, ra) && rc@ == c
                    && string_views(ra@) == a),
            },
    {
        let builtin = vec!['l', 'e', 's', 's', ' ', '-', 'r'];
        assert(builtin@ =~= builtin_pager_setting());
        if trimmed_equals(def_command, &builtin) {
            return PagerCandidate::Builtin;
        }
        match Self::command_and_args_from_string(def_command) {
            None => PagerCandidate::Nothing,
            Some((command, args)) => PagerCandidate::Program(command, args),
        }
    }

    /// The external pager `command` with `args` when `found` says the command
    /// exists, and no pager otherwise.
    pub fn external_if_found(command: String, args: Vec<String>, found: bool) -> (r: Option<Pager>)
        ensures
            found ==> (r matches Some(p) && p@ == PagerKindView::External(command@, string_views(args@))),
            !found ==> r is None,
    {
        if found {
            Some(Pager { kind: PagerKind::External { command, args } })
        } else {
            None
        }
    }

    /// The pager for a setting, asking `lookup` whether a program exists: the
    /// built-in pager for `less -r` (surrounding whitespace aside); otherwise
    /// the program the setting names, exactly when `lookup` answers yes for
    /// that program's name (the first word alone); otherwise none.
    pub fn with_lookup<F: Fn(&str) -> bool>(def_command: &str, lookup: F) -> (r: Option<Pager>)
        requires
            forall|s: &str| #[trigger] call_requires(lookup, (s,)),
        ensures
            trim(def_command@) == builtin_pager_setting() ==> (r matches Some(p) && p@
                == PagerKindView::Builtin),
            trim(def_command@) != builtin_pager_setting() ==> match spec_command_and_args(
                def_command@,
            ) {
                None => r is None,
                Some((c, a)) => (r is None || (r matches Some(p) && p@ == PagerKindView::External(
                    c,
                    a,
                ))) && exists|s: &str| s@ == c && #[trigger] call_ensures(lookup, (s,), r is Some),
            },
    {
        match Self::candidate(def_command) {
            PagerCandidate::Builtin => Some(Pager { kind: PagerKind::Builtin }),
            PagerCandidate::Nothing => None,
            PagerCandidate::Program(command, args) => {
                let name = command.as_str();
                let found = lookup(name);
                let ghost c = command@;
                let r = Self::external_if_found(command, args, found);
                assert(name@ == c);
                assert(call_ensures(lookup, (name,), r is Some));
                r
            },
        }
    }

    /// The pager for a setting: the built-in pager for `less -r` (surrounding
    /// whitespace aside); otherwise the program the setting names (its
    /// `candidate`), exactly when that program's name (the first word alone)
    /// is found by `which`; otherwise none.
    pub fn new(def_command: &str) -> (r: Option<Pager>)
        ensures
            trim(def_command@) == builtin_pager_setting() ==> (r matches Some(p) && p@
                == PagerKindView::Builtin),
            trim(def_command@) != builtin_pager_setting() ==> match spec_command_and_args(
                def_command@,
            ) {
                None => r is None,
                Some((c, a)) => (r is None || (r matches Some(p) && p@ == PagerKindView::External(
                    c,
                    a,
                ))) && exists|s: &str| s@ == c && #[trigger] which_answered(s, r is Some),
            },
    {
        let r = Self::with_lookup(def_command, command_on_path);
        proof {
            if trim(def_command@) != builtin_pager_setting() {
                if let Some((c, a)) = spec_command_and_args(def_command@) {
                    let s = choose|s: &str| s@ == c && #[trigger] call_ensures(command_on_path, (s,), r is Some);
                    assert(which_answered(s, r is Some));
                }
            }
        }
        r
    }

    /// Which pager this is.
    pub fn kind(&self) -> (r: &PagerKind)
        ensures
            match (r, self@) {
                (PagerKind::Builtin, PagerKindView::Builtin) => true,
                (PagerKind::External { command, args }, PagerKindView::External(c, a)) => command@
                    == c && string_views(args@) == a,
                _ => false,
            },
    {
        &self.kind
    }

    /// Rows the built-in pager shows for a terminal with `terminal_rows` rows
    /// (`None` when the size cannot be read).
    pub fn page_height(terminal_rows: Option<u16>) -> (r: usize)
        ensures
            r as int == spec_page_height(terminal_rows),
            r >= 1,
    {
        match terminal_rows {
            Some(h) => {
                let rows = h.saturating_sub(1) as usize;
                if rows > 1 {
                    rows
                } else {
                    1
                }
            },
            None => 24,
        }
    }

    /// How many rows Page Up and Page Down move on a page of `page_height` rows.
    pub fn page_step(page_height: usize) -> (r: usize)
        ensures
            r as int == spec_page_step(page_height as int),
            r >= 1,
    {
        let s = page_height.saturating_sub(1);
        if s > 1 {
            s
        } else {
            1
        }
    }

    /// The first row after scrolling down `amount` rows from `top`.
    pub fn scroll_down(lines: &[Vec<u8>], top: usize, amount: usize, page_height: usize) -> (r:
        usize)
        ensures
            r as int == spec_scroll_down(lines@.len() as int, top as int, amount as int, page_height as int),
    {
        let max_top = lines.len().saturating_sub(page_height);
        let t = top.saturating_add(amount);
        if t < max_top {
            t
        } else {
            max_top
        }
    }

    /// What the built-in pager does with `event` when `lines` are shown from
    /// row `top` on a page of `page_height` rows.
    pub fn builtin_step(lines: &[Vec<u8>], top: usize, page_height: usize, event: &TermEvent) -> (r:
        PagerStep)
        ensures
            r == spec_pager_step(lines@.len() as int, top as int, page_height as int, *event),
    {
        let len = lines.len();
        match event {
            TermEvent::Key(k) => match k.key {
                Key::Esc => PagerStep::Quit,
                Key::Down => PagerStep::Show(Self::scroll_down(lines, top, 1, page_height)),
                Key::Up => PagerStep::Show(top.saturating_sub(1)),
                Key::PageDown => PagerStep::Show(
                    Self::scroll_down(lines, top, Self::page_step(page_height), page_height),
                ),
                Key::PageUp => PagerStep::Show(top.saturating_sub(Self::page_step(page_height))),
                Key::Home => PagerStep::Show(0),
                Key::End => PagerStep::Show(len.saturating_sub(page_height)),
                Key::Char(c) => {
                    if k.mods == Mods::Empty {
                        if c == 'q' {
                            PagerStep::Quit
                        } else if c == 'j' {
                            PagerStep::Show(Self::scroll_down(lines, top, 1, page_height))
                        } else if c == 'k' {
                            PagerStep::Show(top.saturating_sub(1))
                        } else if c == ' ' {
                            PagerStep::Show(
                                Self::scroll_down(lines, top, Self::page_step(page_height), page_height),
                            )
                        } else if c == 'g' {
                            PagerStep::Show(0)
                        } else {
                            PagerStep::Show(top)
                        }
                    } else if k.mods == Mods::Control {
                        if c == 'f' {
                            PagerStep::Show(
                                Self::scroll_down(lines, top, Self::page_step(page_height), page_height),
                            )
                        } else if c == 'b' {
                            PagerStep::Show(top.saturating_sub(Self::page_step(page_height)))
                        } else {
                            PagerStep::Show(top)
                        }
                    } else if k.mods == Mods::Shift && c == 'G' {
                        PagerStep::Show(len.saturating_sub(page_height))
                    } else {
                        PagerStep::Show(top)
                    }
                },
                _ => PagerStep::Show(top),
            },
            TermEvent::WheelDown => PagerStep::Show(Self::scroll_down(lines, top, 3, page_height)),
            TermEvent::WheelUp => PagerStep::Show(top.saturating_sub(3)),
            _ => PagerStep::Show(top),
        }
    }

    /// The bytes of one frame of the built-in pager showing `lines` from row
    /// `top`, on a terminal of `term_height` rows with pages of `page_height`.
    pub fn render_builtin_page(
        lines: &[Vec<u8>],
        top: usize,
        term_height: u16,
        page_height: usize,
    ) -> (r: Vec<u8>)
        requires
            top <= lines@.len(),
        ensures
            r@ == spec_render_page(line_views(lines@), top as int, term_height, page_height as int),
    {
        let ghost views = line_views(lines@);
        let len = lines.len();
        let rows = term_height.saturating_sub(1) as usize;
        let shown = if page_height < rows {
            page_height
        } else {
            rows
        };
        let t = top.saturating_add(shown);
        let end = if t < len {
            t
        } else {
            len
        };
        let mut out: Vec<u8> = Vec::new();
        push_clear_all(&mut out);
        push_move_to(&mut out, 0, 0);
        let ghost head = out@;
        let mut i: usize = top;
        while i < end
            invariant
                top <= i <= end <= len,
                len == lines@.len(),
                views == line_views(lines@),
                out@ == head + joined_crlf(views.subrange(top as int, i as int)),
            decreases end - i,
        {
            extend_bytes(&mut out, lines[i].as_slice());
            out.push(13u8);
            out.push(10u8);
            proof {
                assert(views.subrange(top as int, i + 1).drop_last() =~= views.subrange(
                    top as int,
                    i as int,
                ));
                assert(views[i as int] == lines@[i as int]@);
                assert(out@ =~= head + joined_crlf(views.subrange(top as int, i + 1)));
            }
            i = i + 1;
        }
        push_move_to(&mut out, 0, term_height.saturating_sub(1));
        extend_bytes(
            &mut out,
            "[Esc/q] Quit  [j/k/arrows/wheel] Scroll  [PgUp/PgDn/Space] Page  [g/G] Start/End  ".as_bytes(),
        );
        push_decimal(&mut out, (if end < len { end } else { len }) as u64);
        out.push(47u8);
        push_decimal(&mut out, len as u64);
        assert(out@ =~= spec_render_page(views, top as int, term_height, page_height as int));
        out
    }
}


#[verifier::external_type_specification]
#[verifier::external_body]
pub struct ExStdout(std::io::Stdout);

/// Holds the terminal's output while the built-in pager owns the screen.
pub struct PagerTerminalGuard {
    stdout: std::io::Stdout,
}

impl PagerTerminalGuard {
    /// The output the guard holds.
    pub closed spec fn held(&self) -> std::io::Stdout {
        self.stdout
    }

    /// A guard holding `stdout`.
    pub fn new(stdout: std::io::Stdout) -> (r: PagerTerminalGuard)
        ensures
            r.held() == stdout,
    {
        PagerTerminalGuard { stdout }
    }

    /// The output the guard holds, to write the pager's frames to.
    pub fn stdout_mut(&mut self) -> (r: &mut std::io::Stdout)
        ensures
            *r == old(self).held(),
            final(self).held() == *final(r),
    {
        &mut self.stdout
    }
}

} // verus!
