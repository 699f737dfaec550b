//! The interactive image viewer: its key and wheel bindings over the zoom,
//! the pan and the current image, when to redraw, and the bytes of its help
//! prompt.

use vstd::prelude::*;

use vstd::string::StringSliceAdditionalSpecFns;

use crate::ansi::{move_to_seq, push_move_to};
use crate::input::{is_key, is_key_any, Key, KeyPress, Mods, TermEvent};
use crate::pager::sat_sub;
use crate::text::{decimal, extend_bytes, push_decimal, push_signed_decimal, signed_decimal};
use crate::viewport::ZoomPan;

verus! {

/// What the viewer does with one event.
#[derive(Clone, Copy, PartialEq, Eq, Structural, Debug)]
pub enum ViewerStep {
    /// Leave the viewer.
    Quit,
    /// Keep going; `changed` says whether the picture changed.
    Continue { changed: bool },
}

/// The viewer's state: the zoom and pan, the image shown and how many there are.
#[derive(Clone, Copy, PartialEq, Eq, Structural, Debug)]
pub struct ViewerSession {
    pub view: ZoomPan,
    pub current_image: u8,
    pub max_images: u8,
}

/// The bindings of the viewer's keys that move the pan.
pub open spec fn spec_pan_step(s: ViewerSession, dx: i32, dy: i32) -> (ViewerStep, ViewerSession) {
    (
        ViewerStep::Continue { changed: s.view.spec_adjust_pan(dx, dy).0 },
        ViewerSession { view: s.view.spec_adjust_pan(dx, dy).1, ..s },
    )
}

/// Nothing happens.
pub open spec fn unchanged(s: ViewerSession) -> (ViewerStep, ViewerSession) {
    (ViewerStep::Continue { changed: false }, s)
}

/// A pressed key with an exact set of modifiers.
pub open spec fn press(key: Key, mods: Mods) -> TermEvent {
    TermEvent::Key(KeyPress { key, mods, release: false })
}

/// How far an event moves the pan: arrows, `hjkl` and the wheel by 50,
/// Ctrl+`u`/Ctrl+`d` by 200; `None` for every other event and for key releases.
pub open spec fn spec_pan_delta(ev: TermEvent) -> Option<(i32, i32)> {
    match ev {
        TermEvent::Key(k) => if k.release {
            None
        } else if is_key_any(ev, Key::Left) || is_key(ev, Key::Char('h'), Mods::Empty) {
            Some((-50i32, 0i32))
        } else if is_key(ev, Key::Right, Mods::Empty) || is_key(ev, Key::Char('l'), Mods::Empty) {
            Some((50i32, 0i32))
        } else if is_key(ev, Key::Up, Mods::Empty) || is_key(ev, Key::Char('k'), Mods::Empty) {
            Some((0i32, -50i32))
        } else if is_key(ev, Key::Down, Mods::Empty) || is_key(ev, Key::Char('j'), Mods::Empty) {
            Some((0i32, 50i32))
        } else if is_key(ev, Key::Char('u'), Mods::Control) {
            Some((0i32, -200i32))
        } else if is_key(ev, Key::Char('d'), Mods::Control) {
            Some((0i32, 200i32))
        } else {
            None
        },
        TermEvent::WheelUp => Some((0i32, -50i32)),
        TermEvent::WheelDown => Some((0i32, 50i32)),
        TermEvent::WheelLeft => Some((-50i32, 0i32)),
        TermEvent::WheelRight => Some((50i32, 0i32)),
        _ => None,
    }
}

/// The pan moved by the event's delta stays in `i32` (rasteroid adds the
/// delta in `i32`).
pub open spec fn spec_pan_fits(s: ViewerSession, ev: TermEvent) -> bool {
    match spec_pan_delta(ev) {
        Some((dx, dy)) => i32::MIN <= s.view.pan_x + dx <= i32::MAX && i32::MIN <= s.view.pan_y
            + dy <= i32::MAX,
        None => true,
    }
}

/// The viewer's bindings: `q`/Esc quit; `n`/`p` next and previous image; the
/// pan moves of `spec_pan_delta`; `+`/`=` and `-` zoom; `g`/`G` go to the top
/// and bottom edge; `0` resets. Key releases, and moves that change nothing,
/// leave the state as it is.
pub open spec fn spec_viewer_step(s: ViewerSession, ev: TermEvent) -> (ViewerStep, ViewerSession) {
    match spec_pan_delta(ev) {
        Some((dx, dy)) => spec_pan_step(s, dx, dy),
        None => match ev {
            TermEvent::Key(k) => if k.release {
                unchanged(s)
            } else if is_key(ev, Key::Char('q'), Mods::Empty) || is_key_any(ev, Key::Esc) {
                (ViewerStep::Quit, s)
            } else if is_key(ev, Key::Char('n'), Mods::Empty) {
                if s.current_image + 1 < s.max_images {
                    (
                        ViewerStep::Continue { changed: true },
                        ViewerSession { current_image: (s.current_image + 1) as u8, ..s },
                    )
                } else {
                    unchanged(s)
                }
            } else if is_key(ev, Key::Char('p'), Mods::Empty) {
                if s.current_image != 0 {
                    (
                        ViewerStep::Continue { changed: true },
                        ViewerSession { current_image: (s.current_image - 1) as u8, ..s },
                    )
                } else {
                    unchanged(s)
                }
            } else if is_key(ev, Key::Char('+'), Mods::Empty) || is_key(
                ev,
                Key::Char('='),
                Mods::Empty,
            ) {
                (
                    ViewerStep::Continue { changed: true },
                    ViewerSession { view: s.view.spec_set_zoom((s.view.zoom + 1) as usize), ..s },
                )
            } else if is_key(ev, Key::Char('-'), Mods::Empty) {
                if s.view.zoom > 1 {
                    (
                        ViewerStep::Continue { changed: true },
                        ViewerSession {
                            view: s.view.spec_set_zoom((s.view.zoom - 1) as usize),
                            ..s
                        },
                    )
                } else {
                    unchanged(s)
                }
            } else if is_key(ev, Key::Char('g'), Mods::Empty) {
                if s.view.pan_y != s.view.limits().2 {
                    (
                        ViewerStep::Continue { changed: true },
                        ViewerSession {
                            view: s.view.spec_set_pan(s.view.pan_x, s.view.limits().2),
                            ..s
                        },
                    )
                } else {
                    unchanged(s)
                }
            } else if is_key(ev, Key::Char('G'), Mods::Shift) {
                if s.view.pan_y != s.view.limits().3 {
                    (
                        ViewerStep::Continue { changed: true },
                        ViewerSession {
                            view: s.view.spec_set_pan(s.view.pan_x, s.view.limits().3),
                            ..s
                        },
                    )
                } else {
                    unchanged(s)
                }
            } else if is_key(ev, Key::Char('0'), Mods::Empty) {
                (
                    ViewerStep::Continue { changed: true },
                    ViewerSession { view: s.view.spec_set_zoom(1).spec_set_pan(0, 0), ..s },
                )
            } else {
                unchanged(s)
            },
            _ => unchanged(s),
        },
    }
}

/// How far `event` moves the pan (see `spec_pan_delta`).
pub fn pan_delta(event: &TermEvent) -> (r: Option<(i32, i32)>)
    ensures
        r == spec_pan_delta(*event),
{
    match event {
        TermEvent::Key(k) => {
            if k.release {
                return None;
            }
            match k.key {
                Key::Left => Some((-50, 0)),
                Key::Right => if k.mods == Mods::Empty {
                    Some((50, 0))
                } else {
                    None
                },
                Key::Up => if k.mods == Mods::Empty {
                    Some((0, -50))
                } else {
                    None
                },
                Key::Down => if k.mods == Mods::Empty {
                    Some((0, 50))
                } else {
                    None
                },
                Key::Char(c) => {
                    if k.mods == Mods::Empty {
                        if c == 'h' {
                            Some((-50, 0))
                        } else if c == 'l' {
                            Some((50, 0))
                        } else if c == 'k' {
                            Some((0, -50))
                        } else if c == 'j' {
                            Some((0, 50))
                        } else {
                            None
                        }
                    } else if k.mods == Mods::Control {
                        if c == 'u' {
                            Some((0, -200))
                        } else if c == 'd' {
                            Some((0, 200))
                        } else {
                            None
                        }
                    } else {
                        None
                    }
                },
                _ => None,
            }
        },
        TermEvent::WheelUp => Some((0, -50)),
        TermEvent::WheelDown => Some((0, 50)),
        TermEvent::WheelLeft => Some((-50, 0)),
        TermEvent::WheelRight => Some((50, 0)),
        _ => None,
    }
}

/// Milliseconds that must pass between two redraws.
pub const REDRAW_INTERVAL_MS: u64 = 50;

impl ViewerSession {
    /// The viewer's state is consistent: a well-formed zoom and pan, and an
    /// image index below the count (or zero).
    pub open spec fn wf(self) -> bool {
        &&& self.view.wf()
        &&& (self.current_image < self.max_images || self.current_image == 0)
    }

    /// The viewer's state for the first of `max_images` images, shown at zoom
    /// one with no pan in a container of the given size.
    pub fn new(
        container_width: u32,
        container_height: u32,
        image_width: u32,
        image_height: u32,
        max_images: u8,
    ) -> (r: ViewerSession)
        ensures
            r.wf(),
            r.view == (ZoomPan {
                container_width,
                container_height,
                image_width,
                image_height,
                zoom: 1,
                pan_x: 0,
                pan_y: 0,
            }),
            r.current_image == 0,
            r.max_images == max_images,
    {
        let view = ZoomPan::new(container_width, container_height, image_width, image_height);
        ViewerSession { view, current_image: 0, max_images }
    }

    /// The image shown changed to one of `width` by `height`: the pan is clamped
    /// into the limits for the new size.
    pub fn load_image_size(&mut self, width: u32, height: u32)
        requires
            old(self).wf(),
        ensures
            final(self).wf(),
            final(self).view == old(self).view.spec_update_image_size(width, height),
            final(self).current_image == old(self).current_image,
            final(self).max_images == old(self).max_images,
    {
        self.view.update_image_size(width, height);
    }

    fn pan(&mut self, dx: i32, dy: i32) -> (r: ViewerStep)
        requires
            old(self).wf(),
            i32::MIN <= old(self).view.pan_x + dx <= i32::MAX,
            i32::MIN <= old(self).view.pan_y + dy <= i32::MAX,
        ensures
            (r, *final(self)) == spec_pan_step(*old(self), dx, dy),
            final(self).wf(),
    {
        let changed = self.view.adjust_pan(dx, dy);
        ViewerStep::Continue { changed }
    }

    fn zoom_to(&mut self, zoom: usize) -> (r: ViewerStep)
        requires
            old(self).wf(),
        ensures
            r == (ViewerStep::Continue { changed: true }),
            *final(self) == (ViewerSession { view: old(self).view.spec_set_zoom(zoom), ..*old(self) }),
            final(self).wf(),
    {
        self.view.set_zoom(zoom);
        ViewerStep::Continue { changed: true }
    }

    fn pan_y_to_limit(&mut self, top: bool) -> (r: ViewerStep)
        requires
            old(self).wf(),
        ensures
            ({
                let s = *old(self);
                let y = if top { s.view.limits().2 } else { s.view.limits().3 };
                if s.view.pan_y != y {
                    (r, *final(self)) == (
                        ViewerStep::Continue { changed: true },
                        ViewerSession { view: s.view.spec_set_pan(s.view.pan_x, y), ..s },
                    )
                } else {
                    (r, *final(self)) == unchanged(s)
                }
            }),
            final(self).wf(),
    {
        let (_, _, min_y, max_y) = self.view.pan_limits();
        let y = if top {
            min_y
        } else {
            max_y
        };
        if self.view.pan_y != y {
            let x = self.view.pan_x;
            self.view.set_pan(x, y);
            ViewerStep::Continue { changed: true }
        } else {
            ViewerStep::Continue { changed: false }
        }
    }

    /// Whether `event` can be applied without the pan leaving `i32`.
    pub fn pan_fits(&self, event: &TermEvent) -> (r: bool)
        ensures
            r == spec_pan_fits(*self, *event),
    {
        match pan_delta(event) {
            Some((dx, dy)) => {
                let x = self.view.pan_x as i64 + dx as i64;
                let y = self.view.pan_y as i64 + dy as i64;
                i32::MIN as i64 <= x && x <= i32::MAX as i64 && i32::MIN as i64 <= y && y
                    <= i32::MAX as i64
            },
            None => true,
        }
    }

    /// Applies one event to the viewer (see `spec_viewer_step`). The `0` key
    /// always ends at zoom one with no pan.
    pub fn step(&mut self, event: &TermEvent) -> (r: ViewerStep)
        requires
            old(self).wf(),
            old(self).view.zoom < usize::MAX,
            spec_pan_fits(*old(self), *event),
        ensures
            (r, *final(self)) == spec_viewer_step(*old(self), *event),
            final(self).wf(),
            *event == press(Key::Char('0'), Mods::Empty) ==> final(self).view.zoom == 1
                && final(self).view.pan_x == 0 && final(self).view.pan_y == 0,
    {
        if let Some((dx, dy)) = pan_delta(event) {
            return self.pan(dx, dy);
        }
        match event {
            TermEvent::Key(k) => {
                if k.release {
                    return ViewerStep::Continue { changed: false };
                }
                match k.key {
                    Key::Esc => ViewerStep::Quit,
                    Key::Char(c) => {
                        if k.mods == Mods::Empty {
                            if c == 'q' {
                                ViewerStep::Quit
                            } else if c == 'n' {
                                if self.current_image < 255 && self.current_image + 1
                                    < self.max_images {
                                    self.current_image = self.current_image + 1;
                                    ViewerStep::Continue { changed: true }
                                } else {
                                    ViewerStep::Continue { changed: false }
                                }
                            } else if c == 'p' {
                                if self.current_image != 0 {
                                    self.current_image = self.current_image - 1;
                                    ViewerStep::Continue { changed: true }
                                } else {
                                    ViewerStep::Continue { changed: false }
                                }
                            } else if c == '+' || c == '=' {
                                let z = self.view.zoom + 1;
                                self.zoom_to(z)
                            } else if c == '-' {
                                if self.view.zoom > 1 {
                                    let z = self.view.zoom - 1;
                                    self.zoom_to(z)
                                } else {
                                    ViewerStep::Continue { changed: false }
                                }
                            } else if c == 'g' {
                                self.pan_y_to_limit(true)
                            } else if c == '0' {
                                self.view.set_zoom(1);
                                self.view.set_pan(0, 0);
                                ViewerStep::Continue { changed: true }
                            } else {
                                ViewerStep::Continue { changed: false }
                            }
                        } else if k.mods == Mods::Shift && c == 'G' {
                            self.pan_y_to_limit(false)
                        } else {
                            ViewerStep::Continue { changed: false }
                        }
                    },
                    _ => ViewerStep::Continue { changed: false },
                }
            },
            _ => ViewerStep::Continue { changed: false },
        }
    }
}

/// Whether the picture is redrawn after `step`, when `elapsed_ms` milliseconds
/// have passed since the last redraw: only for a change, and at most once
/// every `REDRAW_INTERVAL_MS`.
pub fn redraw_due(step: ViewerStep, elapsed_ms: u64) -> (r: bool)
    ensures
        r == (step == ViewerStep::Continue { changed: true } && elapsed_ms >= REDRAW_INTERVAL_MS),
{
    match step {
        ViewerStep::Continue { changed } => changed && elapsed_ms >= REDRAW_INTERVAL_MS,
        ViewerStep::Quit => false,
    }
}


/// The viewer's key help, shown on the bottom row.
pub open spec fn help_text() -> Seq<u8> {
    "[Arrow/hjkl/Wheel] Move [n/p] Next/Pre [g/G] Start/End  [+/-] Zoom  [0] Reset  [q/ESC] Quit".spec_bytes()
}

/// The viewer's status: the pan, the zoom, and which image of how many (the
/// first image is image 1).
pub open spec fn status_text(view: ZoomPan, current_image: u8, max_images: u8) -> Seq<u8> {
    "Position: (".spec_bytes() + signed_decimal(view.pan_x as int) + ", ".spec_bytes()
        + signed_decimal(view.pan_y as int) + ") | Zoom: ".spec_bytes() + decimal(view.zoom as nat)
        + "x | image: ".spec_bytes() + decimal((current_image + 1) as nat) + "/".spec_bytes()
        + decimal(max_images as nat)
}

/// `n` copies of `s`.
pub open spec fn repeat(s: Seq<u8>, n: nat) -> Seq<u8>
    decreases n,
{
    if n == 0 {
        Seq::empty()
    } else {
        repeat(s, (n - 1) as nat) + s
    }
}

/// A full-width rule of `━` (U+2501) characters, `width` of them.
pub open spec fn separator(width: u16) -> Seq<u8> {
    repeat(seq![226u8, 148u8, 129u8], width as nat)
}

/// The column at which text of `len` bytes is centred on a row of `width`
/// columns (the length taken as a `u16`).
pub open spec fn centred_column(width: u16, len: nat) -> u16 {
    (sat_sub(width as int, (len as u16) as int) / 2) as u16
}

/// The help prompt drawn at the bottom of the viewer: a rule on the third row
/// from the bottom, the centred status on the second, the centred key help on
/// the last.
pub open spec fn spec_help_prompt(
    term_width: u16,
    term_height: u16,
    view: ZoomPan,
    current_image: u8,
    max_images: u8,
) -> Seq<u8> {
    let status = status_text(view, current_image, max_images);
    let status_line = sat_sub(term_height as int, 2) as u16;
    let help_line = sat_sub(term_height as int, 1) as u16;
    move_to_seq(0, sat_sub(status_line as int, 1) as u16) + separator(term_width) + move_to_seq(
        centred_column(term_width, status.len()),
        status_line,
    ) + status + move_to_seq(centred_column(term_width, help_text().len()), help_line)
        + help_text()
}

/// The bytes of the viewer's help prompt for a terminal of `term_width` by
/// `term_height` cells, showing image `current_image` (counted from zero) of
/// `max_images`.
pub fn show_help_prompt(
    term_width: u16,
    term_height: u16,
    state: &ZoomPan,
    current_image: u8,
    max_images: u8,
) -> (r: Vec<u8>)
    requires
        current_image < 255,
    ensures
        r@ == spec_help_prompt(term_width, term_height, *state, current_image, max_images),
{
    let help = "[Arrow/hjkl/Wheel] Move [n/p] Next/Pre [g/G] Start/End  [+/-] Zoom  [0] Reset  [q/ESC] Quit".as_bytes();
    let mut status: Vec<u8> = Vec::new();
    extend_bytes(&mut status, "Position: (".as_bytes());
    push_signed_decimal(&mut status, state.pan_x as i64);
    extend_bytes(&mut status, ", ".as_bytes());
    push_signed_decimal(&mut status, state.pan_y as i64);
    extend_bytes(&mut status, ") | Zoom: ".as_bytes());
    push_decimal(&mut status, state.zoom as u64);
    extend_bytes(&mut status, "x | image: ".as_bytes());
    push_decimal(&mut status, (current_image + 1) as u64);
    extend_bytes(&mut status, "/".as_bytes());
    push_decimal(&mut status, max_images as u64);
    assert(status@ =~= status_text(*state, current_image, max_images));

    let status_line = term_height.saturating_sub(2);
    let help_line = term_height.saturating_sub(1);
    let help_pos = term_width.saturating_sub(help.len() as u16) / 2;
    let status_pos = term_width.saturating_sub(status.len() as u16) / 2;

    let mut out: Vec<u8> = Vec::new();
    push_move_to(&mut out, 0, status_line.saturating_sub(1));
    let ghost head = out@;
    let mut i: u16 = 0;
    while i < term_width
        invariant
            i <= term_width,
            out@ == head + repeat(seq![226u8, 148u8, 129u8], i as nat),
        decreases term_width - i,
    {
        out.push(226u8);
        out.push(148u8);
        out.push(129u8);
        i = i + 1;
        assert(out@ =~= head + repeat(seq![226u8, 148u8, 129u8], i as nat));
    }
    push_move_to(&mut out, status_pos, status_line);
    extend_bytes(&mut out, status.as_slice());
    push_move_to(&mut out, help_pos, help_line);
    extend_bytes(&mut out, help);
    assert(out@ =~= spec_help_prompt(term_width, term_height, *state, current_image, max_images));
    out
}

} // verus!
