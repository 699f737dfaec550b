//! Properties that hold across calls: of the pager's scrolling and page
//! frames, of the viewer's bindings, and of line splitting.

use vstd::prelude::*;

use crate::input::{Key, KeyPress, Mods, TermEvent};
use crate::pager::{
    page_end, sat_sub, spec_command_and_args, spec_page_step, spec_pager_step, spec_shell_split,
    PagerStep,
};
use crate::text::{lines_from, next_newline, spec_lines, strip_cr};
use crate::viewer::{press, spec_viewer_step, ViewerSession, ViewerStep};

verus! {

/// Once the pager's first row is at most the last page's first row, no event
/// takes it past that row.
pub proof fn law_pager_stays_in_range(len: usize, top: usize, page_height: usize, ev: TermEvent)
    requires
        top <= sat_sub(len as int, page_height as int),
    ensures
        spec_pager_step(len as int, top as int, page_height as int, ev) matches PagerStep::Show(t)
            ==> t <= sat_sub(len as int, page_height as int),
{
}

/// From a first row within the text, no event moves the first row past the
/// end of the text, so every frame the pager draws starts within it.
pub proof fn law_pager_top_within_text(len: usize, top: usize, page_height: usize, ev: TermEvent)
    requires
        top <= len,
    ensures
        spec_pager_step(len as int, top as int, page_height as int, ev) matches PagerStep::Show(t)
            ==> t <= len,
{
}

/// Scrolling up one row undoes scrolling down one row, away from the end.
pub proof fn law_up_undoes_down(len: usize, top: usize, page_height: usize)
    requires
        top < sat_sub(len as int, page_height as int),
    ensures
        spec_pager_step(len as int, top as int, page_height as int, press(Key::Down, Mods::Empty))
            == PagerStep::Show((top + 1) as usize),
        spec_pager_step(len as int, top + 1, page_height as int, press(Key::Up, Mods::Empty))
            == PagerStep::Show(top),
{
}

/// Page Up undoes Page Down when the whole page step fits before the end.
pub proof fn law_page_up_undoes_page_down(len: usize, top: usize, page_height: usize)
    requires
        top + spec_page_step(page_height as int) <= sat_sub(len as int, page_height as int),
    ensures
        spec_pager_step(len as int, top as int, page_height as int, press(Key::PageDown, Mods::Empty))
            == PagerStep::Show((top + spec_page_step(page_height as int)) as usize),
        spec_pager_step(
            len as int,
            top + spec_page_step(page_height as int),
            page_height as int,
            press(Key::PageUp, Mods::Empty),
        ) == PagerStep::Show(top),
{
}

/// A pager frame shows lines from `top` on, never past the last line, never
/// more than a page, and never more than the rows above the status line.
pub proof fn law_page_fits(len: usize, top: usize, page_height: usize, term_height: u16)
    requires
        top <= len,
    ensures
        top <= page_end(len as int, top as int, page_height as int, term_height) <= len,
        page_end(len as int, top as int, page_height as int, term_height) - top <= page_height,
        page_end(len as int, top as int, page_height as int, term_height) - top <= sat_sub(
            term_height as int,
            1,
        ),
{
}

/// Going to the next image and back to the previous one returns to the same
/// state, and both moves redraw.
pub proof fn law_next_then_previous(s: ViewerSession)
    requires
        s.wf(),
        s.current_image + 1 < s.max_images,
    ensures
        spec_viewer_step(s, press(Key::Char('n'), Mods::Empty)).0 == (ViewerStep::Continue {
            changed: true,
        }),
        spec_viewer_step(spec_viewer_step(s, press(Key::Char('n'), Mods::Empty)).1, press(Key::Char('p'), Mods::Empty))
            == (ViewerStep::Continue { changed: true }, s),
{
    let s1 = spec_viewer_step(s, press(Key::Char('n'), Mods::Empty)).1;
    assert(s1.current_image == s.current_image + 1);
    assert(ViewerSession { current_image: (s1.current_image - 1) as u8, ..s1 } == s);
}

/// Zooming in and then out returns to the zoom level one started from.
pub proof fn law_zoom_in_then_out(s: ViewerSession)
    requires
        s.wf(),
        s.view.zoom < usize::MAX,
    ensures
        spec_viewer_step(spec_viewer_step(s, press(Key::Char('+'), Mods::Empty)).1, press(Key::Char('-'), Mods::Empty)).1.view.zoom
            == s.view.zoom,
{
}

/// No event changes the container, the image size or the number of images.
pub proof fn law_step_keeps_sizes(s: ViewerSession, ev: TermEvent)
    ensures
        spec_viewer_step(s, ev).1.view.container_width == s.view.container_width,
        spec_viewer_step(s, ev).1.view.container_height == s.view.container_height,
        spec_viewer_step(s, ev).1.view.image_width == s.view.image_width,
        spec_viewer_step(s, ev).1.view.image_height == s.view.image_height,
        spec_viewer_step(s, ev).1.max_images == s.max_images,
{
}

/// Key releases change nothing and do not redraw.
pub proof fn law_release_is_ignored(s: ViewerSession, key: Key, mods: Mods)
    ensures
        spec_viewer_step(s, TermEvent::Key(KeyPress { key, mods, release: true })) == (
            ViewerStep::Continue { changed: false },
            s,
        ),
{
}

/// Quitting leaves the viewer's state as it was.
pub proof fn law_quit_keeps_state(s: ViewerSession, ev: TermEvent)
    ensures
        spec_viewer_step(s, ev).0 == ViewerStep::Quit ==> spec_viewer_step(s, ev).1 == s,
{
}

proof fn lemma_lines_no_line_feed(b: Seq<u8>, start: int)
    requires
        0 <= start,
    ensures
        forall|i: int, k: int|
            0 <= i < lines_from(b, start).len() && 0 <= k < lines_from(b, start)[i].len()
                ==> lines_from(b, start)[i][k] != 10,
    decreases b.len() - start,
{
    if start < b.len() {
        crate::text::lemma_next_newline_in_range(b, start);
        let e = next_newline(b, start);
        if e < b.len() {
            lemma_lines_no_line_feed(b, e + 1);
            let first = strip_cr(b.subrange(start, e));
            assert forall|k: int| 0 <= k < first.len() implies first[k] != 10 by {
                assert(first[k] == b[start + k]);
            }
            let rest = lines_from(b, e + 1);
            assert(lines_from(b, start) == seq![first] + rest);
            assert forall|i: int, k: int|
                0 <= i < lines_from(b, start).len() && 0 <= k < lines_from(b, start)[i].len()
                    implies lines_from(b, start)[i][k] != 10 by {
                if i > 0 {
                    assert(lines_from(b, start)[i] == rest[i - 1]);
                }
            }
        } else {
            let only = b.subrange(start, b.len() as int);
            assert forall|k: int| 0 <= k < only.len() implies only[k] != 10 by {
                assert(only[k] == b[start + k]);
            }
        }
    }
}

/// No line holds a line feed.
pub proof fn law_lines_hold_no_line_feed(b: Seq<u8>)
    ensures
        forall|i: int, k: int|
            0 <= i < spec_lines(b).len() && 0 <= k < spec_lines(b)[i].len() ==> spec_lines(b)[i][k]
                != 10,
{
    lemma_lines_no_line_feed(b, 0);
}

proof fn lemma_final_line_feed(b: Seq<u8>, start: int)
    requires
        0 <= start < b.len(),
        b.last() != 10,
        b.last() != 13,
    ensures
        lines_from(b.push(10), start) == lines_from(b, start),
    decreases b.len() - start,
{
    let c = b.push(10);
    crate::text::lemma_next_newline_in_range(b, start);
    crate::text::lemma_next_newline_in_range(c, start);
    let e = next_newline(b, start);
    assert forall|k: int| start <= k < e implies c[k] != 10 by {
        assert(c[k] == b[k]);
    }
    if e < b.len() {
        assert(c[e] == 10);
        assert(next_newline(c, start) == e) by {
            lemma_next_newline_eq(c, start, e);
        }
        assert(e + 1 < b.len());
        lemma_final_line_feed(b, e + 1);
        assert(c.subrange(start, e) =~= b.subrange(start, e));
    } else {
        assert(next_newline(c, start) == b.len()) by {
            lemma_next_newline_eq(c, start, b.len() as int);
        }
        assert(c.subrange(start, b.len() as int) =~= b.subrange(start, b.len() as int));
        assert(lines_from(c, (b.len() + 1) as int) =~= Seq::<Seq<u8>>::empty());
        assert(strip_cr(b.subrange(start, b.len() as int)) == b.subrange(start, b.len() as int));
        assert(lines_from(c, start) =~= lines_from(b, start));
    }
}

proof fn lemma_next_newline_eq(b: Seq<u8>, start: int, e: int)
    requires
        0 <= start <= e < b.len(),
        b[e] == 10,
        forall|k: int| start <= k < e ==> b[k] != 10,
    ensures
        next_newline(b, start) == e,
    decreases e - start,
{
    if start < e {
        lemma_next_newline_eq(b, start + 1, e);
    }
}

/// A line feed added after text that ends in neither a line feed nor a
/// carriage return adds no line.
pub proof fn law_final_line_feed_adds_no_line(b: Seq<u8>)
    requires
        b.len() > 0,
        b.last() != 10,
        b.last() != 13,
    ensures
        spec_lines(b.push(10)) == spec_lines(b),
{
    lemma_final_line_feed(b, 0);
}


/// The first row after the built-in pager has handled `evs` in turn from row
/// `top` (it stops at the first event that quits).
pub open spec fn spec_pager_run(len: usize, top: usize, page_height: usize, evs: Seq<TermEvent>) -> usize
    decreases evs.len(),
{
    if evs.len() == 0 {
        top
    } else {
        match spec_pager_step(len as int, top as int, page_height as int, evs[0]) {
            PagerStep::Quit => top,
            PagerStep::Show(t) => spec_pager_run(len, t, page_height, evs.drop_first()),
        }
    }
}

/// Whatever events arrive, the built-in pager never starts a frame past the
/// last full page, when it starts within it (as it does, at the first row).
pub proof fn law_pager_run_stays_in_range(
    len: usize,
    top: usize,
    page_height: usize,
    evs: Seq<TermEvent>,
)
    requires
        top <= sat_sub(len as int, page_height as int),
    ensures
        spec_pager_run(len, top, page_height, evs) <= sat_sub(len as int, page_height as int),
    decreases evs.len(),
{
    if evs.len() > 0 {
        law_pager_stays_in_range(len, top, page_height, evs[0]);
        match spec_pager_step(len as int, top as int, page_height as int, evs[0]) {
            PagerStep::Quit => {},
            PagerStep::Show(t) => {
                law_pager_run_stays_in_range(len, t, page_height, evs.drop_first());
            },
        }
    }
}

/// The viewer's state after it has handled `evs` in turn (it stops at the
/// first event that quits, and handles no event after it).
pub open spec fn spec_viewer_run(s: ViewerSession, evs: Seq<TermEvent>) -> ViewerSession
    decreases evs.len(),
{
    if evs.len() == 0 {
        s
    } else {
        let (r, next) = spec_viewer_step(s, evs[0]);
        if r == ViewerStep::Quit {
            s
        } else {
            spec_viewer_run(next, evs.drop_first())
        }
    }
}

/// Whatever events arrive, the image index stays below the number of images,
/// which never changes.
pub proof fn law_viewer_run_keeps_index(s: ViewerSession, evs: Seq<TermEvent>)
    requires
        s.current_image < s.max_images,
    ensures
        spec_viewer_run(s, evs).current_image < s.max_images,
        spec_viewer_run(s, evs).max_images == s.max_images,
    decreases evs.len(),
{
    if evs.len() > 0 {
        let (r, next) = spec_viewer_step(s, evs[0]);
        law_step_keeps_sizes(s, evs[0]);
        assert(next.current_image < s.max_images);
        if r != ViewerStep::Quit {
            law_viewer_run_keeps_index(next, evs.drop_first());
        }
    }
}

/// After a quitting event nothing else is handled: the state is the one the
/// event found.
pub proof fn law_viewer_quit_ends_run(s: ViewerSession, evs: Seq<TermEvent>)
    requires
        evs.len() > 0,
        spec_viewer_step(s, evs[0]).0 == ViewerStep::Quit,
    ensures
        spec_viewer_run(s, evs) == s,
{
}

/// A key release in a run is as if it had not arrived: a released `q` or Esc
/// does not quit.
pub proof fn law_viewer_release_skipped(s: ViewerSession, k: KeyPress, rest: Seq<TermEvent>)
    requires
        k.release,
    ensures
        spec_viewer_run(s, seq![TermEvent::Key(k)] + rest) == spec_viewer_run(s, rest),
{
    assert((seq![TermEvent::Key(k)] + rest).drop_first() =~= rest);
}

/// The program and its arguments put back together are the words of the
/// setting: the first word, then the rest in order.
pub proof fn law_command_and_args_are_the_words(s: Seq<char>)
    requires
        spec_shell_split(s) matches Some(words) && words.len() > 0,
    ensures
        spec_command_and_args(s) matches Some((c, a)) && seq![c] + a == spec_shell_split(s).unwrap(),
{
    let words = spec_shell_split(s).unwrap();
    assert(seq![words[0]] + words.drop_first() =~= words);
}

} // verus!
