//! Where the interactive viewer puts each frame: the rows left for the image,
//! the blank rows above it, its left offset, and whether raw mode is dropped
//! while the image is written.

use rasteroid::term_misc::{SizeDirection, Wininfo};
use vstd::prelude::*;

use crate::pager::sat_sub;

verus! {

/// The terminal size in cells and in pixels, and whether it runs inside tmux.
#[derive(Clone, Copy, PartialEq, Eq, Structural, Debug)]
pub struct TermWindow {
    pub sc_width: u16,
    pub sc_height: u16,
    pub spx_width: u16,
    pub spx_height: u16,
    pub is_tmux: bool,
}

/// The image protocol that draws pictures in the terminal.
#[derive(Clone, Copy, PartialEq, Eq, Structural, Debug)]
pub enum EncoderKind {
    Kitty,
    Iterm,
    Sixel,
    Ascii,
}

/// The cell column rasteroid's `Wininfo::center_offset` gives to centre an
/// image of `image_width` (cells when `is_cells`, pixels otherwise) on a
/// terminal `sc_width` cells and `spx_width` pixels wide. It computes in
/// floating point.
pub uninterp spec fn spec_center_offset(
    sc_width: u16,
    spx_width: u16,
    image_width: u16,
    is_cells: bool,
) -> u16;

/// The rows rasteroid's `Wininfo::dim_to_cells` gives for a height of `px`
/// pixels on a terminal `spx_height` pixels and `sc_height` cells high, or
/// `None` where it reports an error. It computes in floating point.
pub uninterp spec fn spec_px_to_cells_height(px: u32, spx_height: u16, sc_height: u16) -> Option<u32>;

/// rasteroid's `Wininfo::center_offset`, which reads only the terminal's
/// width in cells and in pixels.
#[verifier::external_body]
fn center_offset(win: &TermWindow, image_width: u16, is_cells: bool) -> (r: u16)
    ensures
        r == spec_center_offset(win.sc_width, win.spx_width, image_width, is_cells),
{
    let info = Wininfo {
        sc_width: win.sc_width,
        sc_height: win.sc_height,
        spx_width: win.spx_width,
        spx_height: win.spx_height,
        is_tmux: win.is_tmux,
        needs_inline: false,
    };
    info.center_offset(image_width, is_cells)
}

/// rasteroid's `Wininfo::dim_to_cells` on `"{px}px"` for the height, which
/// reads only the terminal's height in cells and in pixels, and reports an
/// error exactly when one of them is zero.
#[verifier::external_body]
fn px_to_cells_height(win: &TermWindow, px: u32) -> (r: Option<u32>)
    ensures
        r == spec_px_to_cells_height(px, win.spx_height, win.sc_height),
        r is None <==> (win.spx_height == 0 || win.sc_height == 0),
{
    let info = Wininfo {
        sc_width: win.sc_width,
        sc_height: win.sc_height,
        spx_width: win.spx_width,
        spx_height: win.spx_height,
        is_tmux: win.is_tmux,
        needs_inline: false,
    };
    info.dim_to_cells(&format!("{}px", px), SizeDirection::Height).ok()
}

/// The placement of one frame of the interactive viewer.
#[derive(Clone, Copy, PartialEq, Eq, Structural, Debug)]
pub struct FrameLayout {
    /// Blank rows written above the image.
    pub v_pad: u32,
    /// The column the image starts at, or `None` to leave it where it falls.
    pub offset: Option<u16>,
}

/// Rows left for the image: all but four, which the help prompt and its
/// margins take.
pub fn image_rows(win: &TermWindow) -> (r: u16)
    requires
        win.sc_height >= 4,
    ensures
        r == win.sc_height - 4,
{
    win.sc_height - 4
}

/// Whether raw mode is turned off while a frame is written: always for the
/// text encoder, for Kitty only inside tmux, never for iTerm and Sixel.
pub fn disables_raw_mode(encoder: EncoderKind, is_tmux: bool) -> (r: bool)
    ensures
        r == match encoder {
            EncoderKind::Kitty => is_tmux,
            EncoderKind::Ascii => true,
            EncoderKind::Iterm | EncoderKind::Sixel => false,
        },
{
    match encoder {
        EncoderKind::Kitty => is_tmux,
        EncoderKind::Ascii => true,
        EncoderKind::Iterm | EncoderKind::Sixel => false,
    }
}

/// The layout of a frame for an image, already resized, of `image_width` by
/// `image_height` (cells when `resize_for_ascii`, pixels otherwise): the image
/// is centred vertically in the image rows (its height in rows counted as all
/// of them when the terminal's pixel size is unknown) and, unless `no_center`,
/// horizontally.
pub fn frame_layout(
    win: &TermWindow,
    image_width: u32,
    image_height: u32,
    resize_for_ascii: bool,
    no_center: bool,
) -> (r: FrameLayout)
    requires
        win.sc_height >= 4,
    ensures
        win.spx_height == 0 ==> r.v_pad == 0,
        r.v_pad == sat_sub(
            win.sc_height - 4,
            match spec_px_to_cells_height(image_height, win.spx_height, win.sc_height) {
                Some(c) => c as int,
                None => win.sc_height - 4,
            },
        ) / 2,
        r.offset == if no_center {
            None
        } else {
            Some(
                spec_center_offset(win.sc_width, win.spx_width, image_width as u16, resize_for_ascii),
            )
        },
{
    let height = image_rows(win);
    let center = center_offset(win, image_width as u16, resize_for_ascii);
    let cells = match px_to_cells_height(win, image_height) {
        Some(c) => c,
        None => height as u32,
    };
    let v_pad = (height as u32).saturating_sub(cells) / 2;
    FrameLayout {
        v_pad,
        offset: if no_center {
            None
        } else {
            Some(center)
        },
    }
}

} // verus!
