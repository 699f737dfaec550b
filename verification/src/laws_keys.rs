//! What each key and wheel event does in the built-in pager and in the image
//! viewer, stated event by event in plain arithmetic.

use vstd::prelude::*;

use crate::input::{Key, KeyPress, Mods, TermEvent};
use crate::pager::{spec_page_height, spec_page_step, spec_pager_step, spec_scroll_down, PagerStep};
use crate::viewer::{spec_pan_delta, spec_viewer_step, ViewerSession, ViewerStep};

verus! {

/// A key event, pressed or released.
pub open spec fn key_event(key: Key, mods: Mods, release: bool) -> TermEvent {
    TermEvent::Key(KeyPress { key, mods, release })
}

/// The first row of the last full page of `len` lines on pages of
/// `page_height` rows (the first row when the text fits on one page).
pub open spec fn last_page_top(len: int, page_height: int) -> int {
    if len > page_height {
        len - page_height
    } else {
        0
    }
}

/// `top` moved down by `amount` rows, stopping at the last full page.
pub open spec fn moved_down(len: int, top: int, amount: int, page_height: int) -> int {
    if top + amount < last_page_top(len, page_height) {
        top + amount
    } else {
        last_page_top(len, page_height)
    }
}

/// `top` moved up by `amount` rows, stopping at the first row.
pub open spec fn moved_up(top: int, amount: int) -> int {
    if top >= amount {
        top - amount
    } else {
        0
    }
}

/// Rows a page scroll moves: a page less one, and at least one.
pub open spec fn page_scroll(page_height: int) -> int {
    if page_height >= 3 {
        page_height - 1
    } else {
        1
    }
}

/// The pager's rows per page, the page scroll, and scrolling down.
pub proof fn law_pager_geometry(len: usize, top: usize, amount: usize, page_height: usize, rows: u16)
    ensures
        spec_page_height(Some(rows)) == if rows >= 2 {
            rows - 1
        } else {
            1
        },
        spec_page_height(None) == 24,
        spec_page_step(page_height as int) == page_scroll(page_height as int),
        top <= len ==> spec_scroll_down(len as int, top as int, amount as int, page_height as int)
            == moved_down(len as int, top as int, amount as int, page_height as int),
{
}

/// The built-in pager's keys, whether pressed or released: Esc (any
/// modifiers) and `q` quit; Down (any) and `j` go down a row; Up (any) and `k`
/// up a row; Page Down (any), Space and Ctrl+`f` down a page scroll; Page Up
/// (any) and Ctrl+`b` up a page scroll; Home (any) and `g` to the first row;
/// End (any) and Shift+`G` to the last full page.
pub proof fn law_pager_keys(len: usize, top: usize, page_height: usize, mods: Mods, release: bool)
    requires
        top <= len,
    ensures
        ({
            let l = len as int;
            let t = top as int;
            let ph = page_height as int;
            let step = |ev: TermEvent| spec_pager_step(l, t, ph, ev);
            &&& step(key_event(Key::Esc, mods, release)) == PagerStep::Quit
            &&& step(key_event(Key::Char('q'), Mods::Empty, release)) == PagerStep::Quit
            &&& step(key_event(Key::Down, mods, release)) == PagerStep::Show(
                moved_down(l, t, 1, ph) as usize,
            )
            &&& step(key_event(Key::Char('j'), Mods::Empty, release)) == PagerStep::Show(
                moved_down(l, t, 1, ph) as usize,
            )
            &&& step(key_event(Key::Up, mods, release)) == PagerStep::Show(moved_up(t, 1) as usize)
            &&& step(key_event(Key::Char('k'), Mods::Empty, release)) == PagerStep::Show(
                moved_up(t, 1) as usize,
            )
            &&& step(key_event(Key::PageDown, mods, release)) == PagerStep::Show(
                moved_down(l, t, page_scroll(ph), ph) as usize,
            )
            &&& step(key_event(Key::Char(' '), Mods::Empty, release)) == PagerStep::Show(
                moved_down(l, t, page_scroll(ph), ph) as usize,
            )
            &&& step(key_event(Key::Char('f'), Mods::Control, release)) == PagerStep::Show(
                moved_down(l, t, page_scroll(ph), ph) as usize,
            )
            &&& step(key_event(Key::PageUp, mods, release)) == PagerStep::Show(
                moved_up(t, page_scroll(ph)) as usize,
            )
            &&& step(key_event(Key::Char('b'), Mods::Control, release)) == PagerStep::Show(
                moved_up(t, page_scroll(ph)) as usize,
            )
            &&& step(key_event(Key::Home, mods, release)) == PagerStep::Show(0)
            &&& step(key_event(Key::Char('g'), Mods::Empty, release)) == PagerStep::Show(0)
            &&& step(key_event(Key::End, mods, release)) == PagerStep::Show(
                last_page_top(l, ph) as usize,
            )
            &&& step(key_event(Key::Char('G'), Mods::Shift, release)) == PagerStep::Show(
                last_page_top(l, ph) as usize,
            )
        }),
{
}

/// The pager's wheel scrolls three rows; other events, other keys, and the
/// letter keys with other modifiers keep the first row.
pub proof fn law_pager_other_events(
    len: usize,
    top: usize,
    page_height: usize,
    c: char,
    mods: Mods,
    release: bool,
)
    requires
        top <= len,
    ensures
        ({
            let l = len as int;
            let t = top as int;
            let ph = page_height as int;
            let step = |ev: TermEvent| spec_pager_step(l, t, ph, ev);
            &&& step(TermEvent::WheelDown) == PagerStep::Show(moved_down(l, t, 3, ph) as usize)
            &&& step(TermEvent::WheelUp) == PagerStep::Show(moved_up(t, 3) as usize)
            &&& step(TermEvent::WheelLeft) == PagerStep::Show(top)
            &&& step(TermEvent::WheelRight) == PagerStep::Show(top)
            &&& step(TermEvent::Resize) == PagerStep::Show(top)
            &&& step(TermEvent::Other) == PagerStep::Show(top)
            &&& step(key_event(Key::Left, mods, release)) == PagerStep::Show(top)
            &&& step(key_event(Key::Right, mods, release)) == PagerStep::Show(top)
            &&& step(key_event(Key::Other, mods, release)) == PagerStep::Show(top)
            &&& (c != 'q' && c != 'j' && c != 'k' && c != ' ' && c != 'g') ==> step(
                key_event(Key::Char(c), Mods::Empty, release),
            ) == PagerStep::Show(top)
            &&& (c != 'f' && c != 'b') ==> step(key_event(Key::Char(c), Mods::Control, release))
                == PagerStep::Show(top)
            &&& c != 'G' ==> step(key_event(Key::Char(c), Mods::Shift, release)) == PagerStep::Show(
                top,
            )
            &&& step(key_event(Key::Char(c), Mods::Other, release)) == PagerStep::Show(top)
        }),
{
}

/// The viewer's pan keys and how far they move: Left (any modifiers) and `h`
/// left by 50; Right and `l` right by 50; Up and `k` up by 50; Down and `j`
/// down by 50 (Right, Up and Down only without modifiers); Ctrl+`u` and
/// Ctrl+`d` up and down by 200; the wheel by 50. Releases move nothing.
pub proof fn law_viewer_pan_keys(mods: Mods, key: Key)
    ensures
        spec_pan_delta(key_event(Key::Left, mods, false)) == Some((-50i32, 0i32)),
        spec_pan_delta(key_event(Key::Char('h'), Mods::Empty, false)) == Some((-50i32, 0i32)),
        spec_pan_delta(key_event(Key::Right, Mods::Empty, false)) == Some((50i32, 0i32)),
        spec_pan_delta(key_event(Key::Char('l'), Mods::Empty, false)) == Some((50i32, 0i32)),
        spec_pan_delta(key_event(Key::Up, Mods::Empty, false)) == Some((0i32, -50i32)),
        spec_pan_delta(key_event(Key::Char('k'), Mods::Empty, false)) == Some((0i32, -50i32)),
        spec_pan_delta(key_event(Key::Down, Mods::Empty, false)) == Some((0i32, 50i32)),
        spec_pan_delta(key_event(Key::Char('j'), Mods::Empty, false)) == Some((0i32, 50i32)),
        spec_pan_delta(key_event(Key::Char('u'), Mods::Control, false)) == Some((0i32, -200i32)),
        spec_pan_delta(key_event(Key::Char('d'), Mods::Control, false)) == Some((0i32, 200i32)),
        spec_pan_delta(TermEvent::WheelLeft) == Some((-50i32, 0i32)),
        spec_pan_delta(TermEvent::WheelRight) == Some((50i32, 0i32)),
        spec_pan_delta(TermEvent::WheelUp) == Some((0i32, -50i32)),
        spec_pan_delta(TermEvent::WheelDown) == Some((0i32, 50i32)),
        mods != Mods::Empty ==> spec_pan_delta(key_event(Key::Right, mods, false)) is None,
        mods != Mods::Empty ==> spec_pan_delta(key_event(Key::Up, mods, false)) is None,
        mods != Mods::Empty ==> spec_pan_delta(key_event(Key::Down, mods, false)) is None,
        spec_pan_delta(key_event(key, mods, true)) is None,
        spec_pan_delta(TermEvent::Resize) is None,
        spec_pan_delta(TermEvent::Other) is None,
{
}

/// A pan key moves each axis by its delta exactly when the delta is not zero
/// and the moved pan stays within the limits; it redraws exactly when an axis
/// moved, and changes nothing else.
pub proof fn law_viewer_pan_moves(s: ViewerSession, ev: TermEvent, dx: i32, dy: i32)
    requires
        spec_pan_delta(ev) == Some((dx, dy)),
    ensures
        ({
            let (r, n) = spec_viewer_step(s, ev);
            let l = s.view.limits();
            let mx = dx != 0 && l.0 <= s.view.pan_x + dx <= l.1;
            let my = dy != 0 && l.2 <= s.view.pan_y + dy <= l.3;
            &&& n.view.pan_x == if mx {
                s.view.pan_x + dx
            } else {
                s.view.pan_x as int
            }
            &&& n.view.pan_y == if my {
                s.view.pan_y + dy
            } else {
                s.view.pan_y as int
            }
            &&& r == ViewerStep::Continue { changed: mx || my }
            &&& n.view.zoom == s.view.zoom
            &&& n.current_image == s.current_image
            &&& n.max_images == s.max_images
        }),
{
}

/// The viewer's other keys: `q` and Esc (any modifiers) quit; `+` and `=`
/// zoom in by one; `-` zooms out by one down to one; `g` and Shift+`G` move
/// the vertical pan to its top and bottom limit; the zoom keys clamp the pan
/// into the limits at the new zoom; every other key leaves the state alone.
pub proof fn law_viewer_keys(s: ViewerSession, c: char, mods: Mods)
    requires
        s.wf(),
        s.view.zoom < usize::MAX,
    ensures
        spec_viewer_step(s, key_event(Key::Char('q'), Mods::Empty, false)).0 == ViewerStep::Quit,
        spec_viewer_step(s, key_event(Key::Esc, mods, false)).0 == ViewerStep::Quit,
        mods != Mods::Empty ==> spec_viewer_step(s, key_event(Key::Char('q'), mods, false)).0
            != ViewerStep::Quit,
        ({
            let (r, n) = spec_viewer_step(s, key_event(Key::Char('+'), Mods::Empty, false));
            let l = n.view.limits();
            &&& r == ViewerStep::Continue { changed: true }
            &&& n.view.zoom == s.view.zoom + 1
            &&& n.view.pan_x == if s.view.pan_x < l.0 {
                l.0
            } else if s.view.pan_x > l.1 {
                l.1
            } else {
                s.view.pan_x
            }
            &&& n.view.pan_y == if s.view.pan_y < l.2 {
                l.2
            } else if s.view.pan_y > l.3 {
                l.3
            } else {
                s.view.pan_y
            }
        }),
        spec_viewer_step(s, key_event(Key::Char('='), Mods::Empty, false)) == spec_viewer_step(
            s,
            key_event(Key::Char('+'), Mods::Empty, false),
        ),
        ({
            let (r, n) = spec_viewer_step(s, key_event(Key::Char('-'), Mods::Empty, false));
            &&& s.view.zoom > 1 ==> r == ViewerStep::Continue { changed: true } && n.view.zoom
                == s.view.zoom - 1 && n.view.pan_x == (if s.view.pan_x < n.view.limits().0 {
                n.view.limits().0
            } else if s.view.pan_x > n.view.limits().1 {
                n.view.limits().1
            } else {
                s.view.pan_x
            }) && n.view.pan_y == (if s.view.pan_y < n.view.limits().2 {
                n.view.limits().2
            } else if s.view.pan_y > n.view.limits().3 {
                n.view.limits().3
            } else {
                s.view.pan_y
            })
            &&& s.view.zoom == 1 ==> r == ViewerStep::Continue { changed: false } && n == s
        }),
        ({
            let (r, n) = spec_viewer_step(s, key_event(Key::Char('g'), Mods::Empty, false));
            &&& n.view.pan_y == s.view.limits().2
            &&& n.view.pan_x == s.view.pan_x
            &&& n.view.zoom == s.view.zoom
            &&& r == ViewerStep::Continue { changed: s.view.pan_y != s.view.limits().2 }
        }),
        ({
            let (r, n) = spec_viewer_step(s, key_event(Key::Char('G'), Mods::Shift, false));
            &&& n.view.pan_y == s.view.limits().3
            &&& n.view.pan_x == s.view.pan_x
            &&& n.view.zoom == s.view.zoom
            &&& r == ViewerStep::Continue { changed: s.view.pan_y != s.view.limits().3 }
        }),
        (c != 'q' && c != 'n' && c != 'p' && c != '+' && c != '=' && c != '-' && c != 'g' && c
            != '0' && c != 'h' && c != 'j' && c != 'k' && c != 'l') ==> spec_viewer_step(
            s,
            key_event(Key::Char(c), Mods::Empty, false),
        ) == (ViewerStep::Continue { changed: false }, s),
        spec_viewer_step(s, TermEvent::Resize) == (ViewerStep::Continue { changed: false }, s),
        spec_viewer_step(s, TermEvent::Other) == (ViewerStep::Continue { changed: false }, s),
{
}


/// Keys with modifiers do nothing in the viewer, except Ctrl+`u`, Ctrl+`d`,
/// Shift+`G`, Esc and Left; Page Up, Page Down, Home, End and other keys do
/// nothing at all.
pub proof fn law_viewer_keys_without_binding(s: ViewerSession, c: char, mods: Mods)
    ensures
        (mods != Mods::Empty && !(mods == Mods::Control && (c == 'u' || c == 'd')) && !(mods
            == Mods::Shift && c == 'G')) ==> spec_viewer_step(
            s,
            key_event(Key::Char(c), mods, false),
        ) == (ViewerStep::Continue { changed: false }, s),
        mods != Mods::Empty ==> spec_viewer_step(s, key_event(Key::Right, mods, false)) == (
            ViewerStep::Continue { changed: false },
            s,
        ),
        mods != Mods::Empty ==> spec_viewer_step(s, key_event(Key::Up, mods, false)) == (
            ViewerStep::Continue { changed: false },
            s,
        ),
        mods != Mods::Empty ==> spec_viewer_step(s, key_event(Key::Down, mods, false)) == (
            ViewerStep::Continue { changed: false },
            s,
        ),
        spec_viewer_step(s, key_event(Key::PageUp, mods, false)) == (
            ViewerStep::Continue { changed: false },
            s,
        ),
        spec_viewer_step(s, key_event(Key::PageDown, mods, false)) == (
            ViewerStep::Continue { changed: false },
            s,
        ),
        spec_viewer_step(s, key_event(Key::Home, mods, false)) == (
            ViewerStep::Continue { changed: false },
            s,
        ),
        spec_viewer_step(s, key_event(Key::End, mods, false)) == (
            ViewerStep::Continue { changed: false },
            s,
        ),
        spec_viewer_step(s, key_event(Key::Other, mods, false)) == (
            ViewerStep::Continue { changed: false },
            s,
        ),
{
}

/// `n` goes to the next image when there is one, `p` to the previous one when
/// there is one; neither touches the zoom or the pan. `0` resets to zoom one.
pub proof fn law_viewer_image_keys(s: ViewerSession)
    ensures
        ({
            let (r, n) = spec_viewer_step(s, key_event(Key::Char('n'), Mods::Empty, false));
            &&& n.current_image == if s.current_image + 1 < s.max_images {
                s.current_image + 1
            } else {
                s.current_image as int
            }
            &&& r == ViewerStep::Continue { changed: s.current_image + 1 < s.max_images }
            &&& n.view == s.view
            &&& n.max_images == s.max_images
        }),
        ({
            let (r, n) = spec_viewer_step(s, key_event(Key::Char('p'), Mods::Empty, false));
            &&& n.current_image == if s.current_image > 0 {
                s.current_image - 1
            } else {
                s.current_image as int
            }
            &&& r == ViewerStep::Continue { changed: s.current_image > 0 }
            &&& n.view == s.view
            &&& n.max_images == s.max_images
        }),
        ({
            let (r, n) = spec_viewer_step(s, key_event(Key::Char('0'), Mods::Empty, false));
            &&& r == ViewerStep::Continue { changed: true }
            &&& n.view.zoom == 1
            &&& n.current_image == s.current_image
        }),
{
}

} // verus!
