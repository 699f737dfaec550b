//! How a request to show files is carried out: which files may be shown
//! together, which output each file gets, and whether color and the pager
//! are used.

use vstd::prelude::*;
use vstd::string::StringSliceAdditionalSpecFns;

use crate::text::{spec_lines, split_lines};

verus! {

/// What kind of content a file holds.
#[derive(Clone, Copy, PartialEq, Eq, Structural, Debug)]
pub enum McatKind {
    PreMarkdown,
    Markdown,
    Html,
    Video,
    Gif,
    Svg,
    Exe,
    Lnk,
    Pdf,
    Tex,
    Url,
    JpegXL,
    Typst,
    Image,
}

/// The output the user asked for.
#[derive(Clone, Copy, PartialEq, Eq, Structural, Debug)]
pub enum OutputFormat {
    Html,
    Md,
    Image,
    Inline,
    Interactive,
}

/// When to color text output.
#[derive(Clone, Copy, PartialEq, Eq, Structural, Debug)]
pub enum ColorMode {
    Never,
    Always,
    Auto,
}

/// When to page text output.
#[derive(Clone, Copy, PartialEq, Eq, Structural, Debug)]
pub enum PagingMode {
    Never,
    Always,
    Auto,
}

/// Why a request cannot be carried out.
#[derive(Clone, Copy, PartialEq, Eq, Structural, Debug)]
pub enum CatError {
    NoFiles,
    NoEncoder,
    NoWindowInfo,
    ImageFromMany,
    VideoAmongMany,
}

impl CatError {
    /// The message shown for the error.
    pub fn message(&self) -> (r: &'static str)
        ensures
            r@ == match *self {
                CatError::NoFiles => "this is likely a bug, mcat cat command was passed with 0 files"@,
                CatError::NoEncoder => "this is likely a bug, encoder wasn't set at the cat command"@,
                CatError::NoWindowInfo => "this is likely a bug, wininfo isn't set when inlining a video"@,
                CatError::ImageFromMany => "Cannot turn multiple files into an image."@,
                CatError::VideoAmongMany => "Cannot view multiple files if 1 of them is a video."@,
            },
    {
        match self {
            CatError::NoFiles => "this is likely a bug, mcat cat command was passed with 0 files",
            CatError::NoEncoder => "this is likely a bug, encoder wasn't set at the cat command",
            CatError::NoWindowInfo => "this is likely a bug, wininfo isn't set when inlining a video",
            CatError::ImageFromMany => "Cannot turn multiple files into an image.",
            CatError::VideoAmongMany => "Cannot view multiple files if 1 of them is a video.",
        }
    }
}

/// How the files of a request are shown.
#[derive(Clone, Copy, PartialEq, Eq, Structural, Debug)]
pub enum CatRoute {
    /// The interactive viewer over one image per file.
    InteractiveMany,
    /// The interactive viewer over the pages of the one file.
    InteractiveAlbum,
    /// The files merged into one markdown document.
    Merge,
    /// The one file on its own.
    Single,
}

/// The checks made before anything is shown, in order: at least one file, an
/// image encoder, and the terminal's size.
pub fn check_setup(n_files: usize, has_encoder: bool, has_window_info: bool) -> (r: Result<
    (),
    CatError,
>)
    ensures
        r == if n_files == 0 {
            Err(CatError::NoFiles)
        } else if !has_encoder {
            Err(CatError::NoEncoder)
        } else if !has_window_info {
            Err(CatError::NoWindowInfo)
        } else {
            Ok(())
        },
{
    if n_files == 0 {
        Err(CatError::NoFiles)
    } else if !has_encoder {
        Err(CatError::NoEncoder)
    } else if !has_window_info {
        Err(CatError::NoWindowInfo)
    } else {
        Ok(())
    }
}

/// Whether some file is a video.
pub open spec fn has_video(kinds: Seq<McatKind>) -> bool {
    exists|i: int| 0 <= i < kinds.len() && kinds[i] == McatKind::Video
}

/// The route for files of the given kinds under the requested output.
pub open spec fn spec_cat_route(output: Option<OutputFormat>, kinds: Seq<McatKind>) -> Result<
    CatRoute,
    CatError,
> {
    if output == Some(OutputFormat::Interactive) {
        if kinds.len() > 1 {
            Ok(CatRoute::InteractiveMany)
        } else {
            Ok(CatRoute::InteractiveAlbum)
        }
    } else if kinds.len() > 1 {
        if output == Some(OutputFormat::Image) {
            Err(CatError::ImageFromMany)
        } else if has_video(kinds) {
            Err(CatError::VideoAmongMany)
        } else {
            Ok(CatRoute::Merge)
        }
    } else {
        Ok(CatRoute::Single)
    }
}

/// Picks how files of the given kinds are shown: the interactive viewer when
/// asked for; several files are merged into one document, which cannot be
/// turned into an image and cannot hold a video.
pub fn cat_route(output: Option<OutputFormat>, kinds: &[McatKind]) -> (r: Result<CatRoute, CatError>)
    ensures
        r == spec_cat_route(output, kinds@),
{
    let interactive = match output {
        Some(OutputFormat::Interactive) => true,
        _ => false,
    };
    let image = match output {
        Some(OutputFormat::Image) => true,
        _ => false,
    };
    if interactive {
        if kinds.len() > 1 {
            return Ok(CatRoute::InteractiveMany);
        }
        return Ok(CatRoute::InteractiveAlbum);
    }
    if kinds.len() > 1 {
        if image {
            return Err(CatError::ImageFromMany);
        }
        let mut i: usize = 0;
        while i < kinds.len()
            invariant
                i <= kinds@.len(),
                kinds@.len() > 1,
                output != Some(OutputFormat::Interactive),
                output != Some(OutputFormat::Image),
                forall|j: int| 0 <= j < i ==> kinds@[j] != McatKind::Video,
            decreases kinds@.len() - i,
        {
            if kinds[i] == McatKind::Video {
                assert(kinds@[i as int] == McatKind::Video);
                assert(has_video(kinds@));
                return Err(CatError::VideoAmongMany);
            }
            i = i + 1;
        }
        return Ok(CatRoute::Merge);
    }
    Ok(CatRoute::Single)
}

/// Whether a file of this kind is turned into an image before files are
/// merged: everything but text, markup and images. Videos never reach the
/// merge.
pub fn converted_to_image_for_merge(kind: McatKind) -> (r: bool)
    requires
        kind != McatKind::Video,
    ensures
        r == !(kind == McatKind::PreMarkdown || kind == McatKind::Markdown || kind == McatKind::Html
            || kind == McatKind::Image),
{
    match kind {
        McatKind::PreMarkdown | McatKind::Markdown | McatKind::Html | McatKind::Image => false,
        _ => true,
    }
}

/// Whether a file of this kind is shown inline when no output was asked for.
pub open spec fn shown_inline_by_default(kind: McatKind) -> bool {
    kind == McatKind::Video || kind == McatKind::Gif || kind == McatKind::Image || kind
        == McatKind::Svg || kind == McatKind::Pdf || kind == McatKind::Exe || kind
        == McatKind::JpegXL || kind == McatKind::Lnk
}

/// The output used for a file: the one asked for, otherwise inline for
/// pictures, videos and documents drawn as pictures, otherwise none (text).
pub fn effective_output(output: Option<OutputFormat>, kind: McatKind) -> (r: Option<OutputFormat>)
    ensures
        r == match output {
            Some(o) => Some(o),
            None => if shown_inline_by_default(kind) {
                Some(OutputFormat::Inline)
            } else {
                None
            },
        },
{
    match output {
        Some(v) => Some(v),
        None => match kind {
            McatKind::Video | McatKind::Gif | McatKind::Image | McatKind::Svg | McatKind::Pdf
            | McatKind::Exe | McatKind::JpegXL | McatKind::Lnk => Some(OutputFormat::Inline),
            _ => None,
        },
    }
}

/// Whether inline output of this kind is a sequence of frames.
pub fn inline_as_frames(kind: McatKind) -> (r: bool)
    ensures
        r == (kind == McatKind::Video || kind == McatKind::Gif),
{
    match kind {
        McatKind::Video | McatKind::Gif => true,
        _ => false,
    }
}

/// Whether text output is colored: as set, or when writing to a terminal.
pub fn uses_color(mode: ColorMode, is_tty: bool) -> (r: bool)
    ensures
        r == match mode {
            ColorMode::Never => false,
            ColorMode::Always => true,
            ColorMode::Auto => is_tty,
        },
{
    match mode {
        ColorMode::Never => false,
        ColorMode::Always => true,
        ColorMode::Auto => is_tty,
    }
}

/// Whether text output goes through the pager: as set, or when writing to a
/// terminal and the text has more lines than the terminal has rows.
pub fn uses_pager(mode: PagingMode, is_tty: bool, content: &str, screen_rows: u16) -> (r: bool)
    ensures
        r == match mode {
            PagingMode::Never => false,
            PagingMode::Always => true,
            PagingMode::Auto => is_tty && spec_lines(content.spec_bytes()).len() > screen_rows,
        },
{
    match mode {
        PagingMode::Never => false,
        PagingMode::Always => true,
        PagingMode::Auto => {
            if is_tty {
                let lines = split_lines(content.as_bytes());
                assert(lines@.len() == lines@.map_values(|l: Vec<u8>| l@).len());
                lines.len() > screen_rows as usize
            } else {
                false
            }
        },
    }
}

} // verus!
