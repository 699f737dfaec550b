//! Verified core of a terminal document and image viewer: the built-in pager,
//! the interactive zoom-and-pan image viewer, the bytes they send to the
//! terminal, and the decisions that pick how a file is shown.

pub mod ansi;
pub mod input;
pub mod laws;
pub mod laws_keys;
pub mod laws_output;
pub mod laws_text;
pub mod layout;
pub mod pager;
pub mod plan;
pub mod text;
pub mod viewer;
pub mod viewport;
