//! The terminal control sequences the viewers send, produced by crossterm's
//! commands, and the clear-screen frame built from them.

use crossterm::cursor::MoveTo;
use crossterm::terminal::{Clear, ClearType};
use crossterm::Command;
use vstd::prelude::*;

use crate::text::{decimal, extend_bytes};

verus! {

/// The control sequence introducer, `ESC [`.
pub open spec fn csi() -> Seq<u8> {
    seq![27u8, 91u8]
}

/// The sequence that clears the whole screen, `ESC [ 2 J`.
pub open spec fn clear_all_seq() -> Seq<u8> {
    csi() + seq![50u8, 74u8]
}

/// The sequence that moves the cursor to column `x`, row `y` (both counted
/// from zero): `ESC [ {y + 1} ; {x + 1} H`.
pub open spec fn move_to_seq(x: u16, y: u16) -> Seq<u8> {
    csi() + decimal((y + 1) as nat) + seq![59u8] + decimal((x + 1) as nat) + seq![72u8]
}

/// crossterm's `Clear(ClearType::All)` written as ANSI: its `write_ansi`
/// writes exactly `ESC [ 2 J`.
#[verifier::external_body]
fn clear_all_bytes() -> (r: Vec<u8>)
    ensures
        r@ == clear_all_seq(),
{
    let mut s = String::new();
    let _ = Clear(ClearType::All).write_ansi(&mut s);
    s.into_bytes()
}

/// crossterm's `MoveTo(x, y)` written as ANSI: its `write_ansi` writes
/// `ESC [`, then `y + 1` and `x + 1` in decimal separated by `;`, then `H`.
/// It adds one to each coordinate in `u16`, so the maximum is left out.
#[verifier::external_body]
fn move_to_bytes(x: u16, y: u16) -> (r: Vec<u8>)
    requires
        x < u16::MAX,
        y < u16::MAX,
    ensures
        r@ == move_to_seq(x, y),
{
    let mut s = String::new();
    let _ = MoveTo(x, y).write_ansi(&mut s);
    s.into_bytes()
}

/// Appends the clear-screen sequence to `out`.
pub fn push_clear_all(out: &mut Vec<u8>)
    ensures
        final(out)@ == old(out)@ + clear_all_seq(),
{
    let mut b = clear_all_bytes();
    out.append(&mut b);
}

/// Appends the cursor-move sequence for `(x, y)` to `out`.
pub fn push_move_to(out: &mut Vec<u8>, x: u16, y: u16)
    requires
        x < u16::MAX,
        y < u16::MAX,
    ensures
        final(out)@ == old(out)@ + move_to_seq(x, y),
{
    let mut b = move_to_bytes(x, y);
    out.append(&mut b);
}

/// What `clear_screen` writes: clear the screen, home the cursor, then `addon`.
pub open spec fn clear_screen_seq(addon: Option<Seq<u8>>) -> Seq<u8> {
    clear_all_seq() + move_to_seq(0, 0) + match addon {
        Some(a) => a,
        None => Seq::empty(),
    }
}

/// The bytes of one frame that starts on a cleared screen: the clear-screen
/// and cursor-home sequences, then `addon` when there is one.
pub fn clear_screen(addon: Option<Vec<u8>>) -> (r: Vec<u8>)
    ensures
        r@ == clear_screen_seq(
            match addon {
                Some(a) => Some(a@),
                None => None,
            },
        ),
{
    let mut buffer: Vec<u8> = Vec::new();
    push_clear_all(&mut buffer);
    push_move_to(&mut buffer, 0, 0);
    match addon {
        Some(val) => {
            extend_bytes(&mut buffer, val.as_slice());
        },
        None => {},
    }
    assert(buffer@ =~= clear_screen_seq(
        match addon {
            Some(a) => Some(a@),
            None => None,
        },
    ));
    buffer
}

} // verus!
