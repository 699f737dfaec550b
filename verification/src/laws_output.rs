//! What the bytes sent to the terminal say: decimal numbers that read back as
//! the numbers written, the viewer's status and prompt, the pager's frame, and
//! the route a request takes.

use vstd::prelude::*;
use vstd::string::StringSliceAdditionalSpecFns;

use crate::ansi::{clear_screen_seq, move_to_seq};
use crate::plan::{shown_inline_by_default, spec_cat_route, CatError, CatRoute, McatKind, OutputFormat};
use crate::pager::{
    builtin_pager_setting, joined_crlf, pager_status_prefix, spec_command_and_args, spec_render_page,
    spec_shell_split,
};
use crate::text::{decimal, is_unicode_whitespace, signed_decimal};
use crate::viewer::{help_text, separator, spec_help_prompt, status_text, REDRAW_INTERVAL_MS};
use crate::viewport::ZoomPan;

verus! {

/// Whether every byte is an ASCII digit.
pub open spec fn all_digits(s: Seq<u8>) -> bool {
    forall|i: int| 0 <= i < s.len() ==> 48 <= #[trigger] s[i] <= 57
}

/// The number that ASCII digits spell, most significant first.
pub open spec fn digits_value(s: Seq<u8>) -> int
    decreases s.len(),
{
    if s.len() == 0 {
        0
    } else {
        digits_value(s.drop_last()) * 10 + (s.last() - 48)
    }
}

/// The number that an optional `-` followed by ASCII digits spells.
pub open spec fn signed_value(s: Seq<u8>) -> int {
    if s.len() > 0 && s[0] == 45 {
        -digits_value(s.drop_first())
    } else {
        digits_value(s)
    }
}

/// The decimal rendering of `n` is a non-empty string of digits that reads
/// back as `n`, with no leading zero unless `n` is zero.
pub proof fn law_decimal_reads_back(n: nat)
    ensures
        decimal(n).len() >= 1,
        all_digits(decimal(n)),
        digits_value(decimal(n)) == n,
        decimal(n)[0] == 48 ==> n == 0,
    decreases n,
{
    if n >= 10 {
        law_decimal_reads_back(n / 10);
        vstd::arithmetic::div_mod::lemma_fundamental_div_mod(n as int, 10);
        let d = decimal(n / 10);
        let x = (48 + n % 10) as u8;
        assert(x == 48 + n % 10);
        assert(decimal(n) == d.push(x));
        assert(decimal(n).drop_last() =~= d);
        assert(decimal(n).last() == x);
        assert(digits_value(decimal(n)) == digits_value(d) * 10 + (x - 48));
        assert(decimal(n)[0] == d[0]);
    } else {
        let x = (48 + n) as u8;
        assert(decimal(n) == seq![x]);
        assert(decimal(n).drop_last() =~= Seq::<u8>::empty());
        assert(digits_value(Seq::<u8>::empty()) == 0);
    }
}

/// The signed rendering of `n` reads back as `n`: a `-` and the digits of its
/// magnitude when negative, the digits alone otherwise.
pub proof fn law_signed_decimal_reads_back(n: int)
    ensures
        signed_value(signed_decimal(n)) == n,
        n < 0 ==> signed_decimal(n)[0] == 45 && all_digits(signed_decimal(n).drop_first()),
        n >= 0 ==> all_digits(signed_decimal(n)),
{
    if n < 0 {
        law_decimal_reads_back((-n) as nat);
        assert(signed_decimal(n).drop_first() =~= decimal((-n) as nat));
    } else {
        law_decimal_reads_back(n as nat);
    }
}

/// The viewer's status shows, in this order: the horizontal pan, the vertical
/// pan, the zoom, the image number counted from one, and the number of images.
pub proof fn law_status_shows_state(view: ZoomPan, current_image: u8, max_images: u8)
    ensures
        status_text(view, current_image, max_images) == "Position: (".spec_bytes() + signed_decimal(
            view.pan_x as int,
        ) + ", ".spec_bytes() + signed_decimal(view.pan_y as int) + ") | Zoom: ".spec_bytes()
            + decimal(view.zoom as nat) + "x | image: ".spec_bytes() + decimal(
            (current_image + 1) as nat,
        ) + "/".spec_bytes() + decimal(max_images as nat),
{
}

/// The `k`-th character of a rule is `━` (bytes E2 94 81).
pub open spec fn rule_char_at(s: Seq<u8>, k: int) -> bool {
    s[3 * k] == 226 && s[3 * k + 1] == 148 && s[3 * k + 2] == 129
}

/// The separator is `width` copies of the three bytes of `━`.
pub proof fn law_separator_bytes(width: u16)
    ensures
        separator(width).len() == 3 * width,
        forall|k: int| 0 <= k < width ==> #[trigger] rule_char_at(separator(width), k),
{
    lemma_repeat(width as nat);
}

proof fn lemma_repeat(n: nat)
    requires
        n <= u16::MAX,
    ensures
        separator(n as u16).len() == 3 * n,
        forall|k: int| 0 <= k < n ==> #[trigger] rule_char_at(separator(n as u16), k),
    decreases n,
{
    if n > 0 {
        lemma_repeat((n - 1) as nat);
        let prev = separator((n - 1) as u16);
        let cur = separator(n as u16);
        assert(cur == prev + seq![226u8, 148u8, 129u8]);
        assert forall|k: int| 0 <= k < n implies #[trigger] rule_char_at(cur, k) by {
            assert(prev.len() == 3 * (n - 1));
            if k < n - 1 {
                assert(rule_char_at(prev, k));
                assert(cur[3 * k] == prev[3 * k]);
                assert(cur[3 * k + 1] == prev[3 * k + 1]);
                assert(prev[3 * k + 2] == 129);
                assert(cur[3 * k + 2] == prev[3 * k + 2]);
            } else {
                assert(3 * k == prev.len());
                assert(cur[3 * k] == 226);
                assert(cur[3 * k + 1] == 148);
                assert(cur[3 * k + 2] == 129);
            }
        }
    }
}

/// The column that centres `len` bytes on a row of `width` columns.
pub open spec fn centre(width: u16, len: nat) -> int {
    if width as int > (len as u16) as int {
        (width - (len as u16) as int) / 2
    } else {
        0
    }
}

/// The viewer's prompt: the separator on the third row from the bottom, the
/// status centred on the second, the key help centred on the last.
pub proof fn law_help_prompt_layout(
    term_width: u16,
    term_height: u16,
    view: ZoomPan,
    current_image: u8,
    max_images: u8,
)
    ensures
        ({
            let status = status_text(view, current_image, max_images);
            let h = term_height as int;
            let status_row = if h >= 2 { h - 2 } else { 0 };
            let help_row = if h >= 1 { h - 1 } else { 0 };
            let rule_row = if status_row >= 1 { status_row - 1 } else { 0 };
            spec_help_prompt(term_width, term_height, view, current_image, max_images)
                == move_to_seq(0, rule_row as u16) + separator(term_width) + move_to_seq(
                centre(term_width, status.len()) as u16,
                status_row as u16,
            ) + status + move_to_seq(centre(term_width, help_text().len()) as u16, help_row as u16)
                + help_text()
        }),
{
}

/// A frame starting on a cleared screen is `ESC [ 2 J`, `ESC [ 1 ; 1 H`, then
/// the addon's bytes.
pub proof fn law_clear_screen_bytes(addon: Option<Seq<u8>>)
    ensures
        clear_screen_seq(addon) == seq![27u8, 91u8, 50u8, 74u8, 27u8, 91u8, 49u8, 59u8, 49u8, 72u8]
            + match addon {
            Some(a) => a,
            None => Seq::empty(),
        },
{
    assert(decimal(1) == seq![49u8]);
    assert(move_to_seq(0, 0) =~= seq![27u8, 91u8, 49u8, 59u8, 49u8, 72u8]);
}

/// Lines each followed by `\r\n`: nothing for no lines, and one more line
/// adds its bytes and `\r\n` at the end.
pub proof fn law_joined_lines(ls: Seq<Seq<u8>>, l: Seq<u8>)
    ensures
        joined_crlf(Seq::empty()) == Seq::<u8>::empty(),
        joined_crlf(ls.push(l)) == joined_crlf(ls) + l + seq![13u8, 10u8],
{
    assert(ls.push(l).drop_last() =~= ls);
}

/// A pager frame: clear and home, the lines from `top` up to the end of the
/// page (a page of `page_height` rows, no more than the rows above the status
/// line, and never past the last line), then on the bottom row the key help
/// and `{last row shown}/{lines}`.
pub proof fn law_pager_frame(lines: Seq<Seq<u8>>, top: int, term_height: u16, page_height: int)
    requires
        0 <= top <= lines.len() <= usize::MAX,
        0 <= page_height,
    ensures
        ({
            let len = lines.len() as int;
            let rows_above = if term_height >= 1 { term_height - 1 } else { 0 };
            let rows = if page_height < rows_above { page_height } else { rows_above };
            let end = if top + rows < len { top + rows } else { len };
            let bottom = rows_above as u16;
            spec_render_page(lines, top, term_height, page_height) == seq![27u8, 91u8, 50u8, 74u8]
                + move_to_seq(0, 0) + joined_crlf(lines.subrange(top, end)) + move_to_seq(0, bottom)
                + pager_status_prefix() + decimal(end as nat) + seq![47u8] + decimal(lines.len())
        }),
{
}

/// How files are shown: the interactive viewer when asked for (over one image
/// per file for several files, over the pages of the file otherwise); several
/// files otherwise are refused as one image, refused when any of them is a
/// video, and merged otherwise; one file is shown on its own.
pub proof fn law_cat_route(output: Option<OutputFormat>, kinds: Seq<McatKind>)
    ensures
        output == Some(OutputFormat::Interactive) && kinds.len() > 1 ==> spec_cat_route(output, kinds)
            == Ok::<CatRoute, CatError>(CatRoute::InteractiveMany),
        output == Some(OutputFormat::Interactive) && kinds.len() <= 1 ==> spec_cat_route(output, kinds)
            == Ok::<CatRoute, CatError>(CatRoute::InteractiveAlbum),
        output != Some(OutputFormat::Interactive) && kinds.len() <= 1 ==> spec_cat_route(output, kinds)
            == Ok::<CatRoute, CatError>(CatRoute::Single),
        output == Some(OutputFormat::Image) && kinds.len() > 1 ==> spec_cat_route(output, kinds)
            == Err::<CatRoute, CatError>(CatError::ImageFromMany),
        forall|i: int|
            0 <= i < kinds.len() && kinds.len() > 1 && output != Some(OutputFormat::Interactive)
                && output != Some(OutputFormat::Image) && #[trigger] kinds[i] == McatKind::Video
                ==> spec_cat_route(output, kinds) == Err::<CatRoute, CatError>(CatError::VideoAmongMany),
        (forall|i: int| 0 <= i < kinds.len() ==> #[trigger] kinds[i] != McatKind::Video)
            && kinds.len() > 1 && output != Some(OutputFormat::Interactive) && output != Some(
            OutputFormat::Image,
        ) ==> spec_cat_route(output, kinds) == Ok::<CatRoute, CatError>(CatRoute::Merge),
{
}


/// Files shown inline when no output is asked for: videos, animations,
/// images, SVG, PDF, executables, JPEG XL and shortcuts.
pub proof fn law_inline_by_default(kind: McatKind)
    ensures
        shown_inline_by_default(kind) <==> (kind == McatKind::Video || kind == McatKind::Gif || kind
            == McatKind::Image || kind == McatKind::Svg || kind == McatKind::Pdf || kind
            == McatKind::Exe || kind == McatKind::JpegXL || kind == McatKind::Lnk),
{
}

/// The fixed texts: the setting for the built-in pager, the pager's key help,
/// the viewer's key help, and the redraw interval.
pub proof fn law_fixed_texts()
    ensures
        builtin_pager_setting() == seq!['l', 'e', 's', 's', ' ', '-', 'r'],
        pager_status_prefix()
            == "[Esc/q] Quit  [j/k/arrows/wheel] Scroll  [PgUp/PgDn/Space] Page  [g/G] Start/End  ".spec_bytes(),
        help_text()
            == "[Arrow/hjkl/Wheel] Move [n/p] Next/Pre [g/G] Start/End  [+/-] Zoom  [0] Reset  [q/ESC] Quit".spec_bytes(),
        REDRAW_INTERVAL_MS == 50,
{
}

/// A pager setting names no program when it does not parse or has no word;
/// otherwise the program is its first word and the arguments the rest.
pub proof fn law_setting_words(s: Seq<char>)
    ensures
        spec_shell_split(s) is None ==> spec_command_and_args(s) is None,
        match spec_shell_split(s) {
            Some(w) => if w.len() == 0 {
                spec_command_and_args(s) is None
            } else {
                spec_command_and_args(s) == Some((w[0], w.subrange(1, w.len() as int)))
            },
            None => true,
        },
{
    if let Some(w) = spec_shell_split(s) {
        if w.len() > 0 {
            assert(w.drop_first() =~= w.subrange(1, w.len() as int));
        }
    }
}

/// The ASCII whitespace characters are space, tab, line feed, vertical tab,
/// form feed and carriage return; no visible ASCII character is whitespace.
pub proof fn law_ascii_whitespace(c: char)
    ensures
        (c as u32) < 128 ==> (is_unicode_whitespace(c) <==> (c == ' ' || c == '\t' || c == '\n' || c
            == '\r' || c as u32 == 11 || c as u32 == 12)),
{
}

} // verus!
