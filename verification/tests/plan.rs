use mcat_core::plan::{
    cat_route, check_setup, converted_to_image_for_merge, effective_output, inline_as_frames,
    uses_color, uses_pager, CatError, CatRoute, ColorMode, McatKind, OutputFormat, PagingMode,
};

#[test]
fn setup_checks_in_order() {
    assert_eq!(check_setup(0, false, false), Err(CatError::NoFiles));
    assert_eq!(check_setup(1, false, false), Err(CatError::NoEncoder));
    assert_eq!(check_setup(1, true, false), Err(CatError::NoWindowInfo));
    assert_eq!(check_setup(2, true, true), Ok(()));
    assert_eq!(CatError::NoFiles.message(), "this is likely a bug, mcat cat command was passed with 0 files");
}

#[test]
fn routes() {
    assert_eq!(cat_route(Some(OutputFormat::Interactive), &[McatKind::Image, McatKind::Video]), Ok(CatRoute::InteractiveMany));
    assert_eq!(cat_route(Some(OutputFormat::Interactive), &[McatKind::Pdf]), Ok(CatRoute::InteractiveAlbum));
    assert_eq!(cat_route(Some(OutputFormat::Image), &[McatKind::Markdown, McatKind::Image]), Err(CatError::ImageFromMany));
    assert_eq!(cat_route(None, &[McatKind::Markdown, McatKind::Video]), Err(CatError::VideoAmongMany));
    assert_eq!(cat_route(Some(OutputFormat::Html), &[McatKind::Markdown, McatKind::Gif, McatKind::Pdf]), Ok(CatRoute::Merge));
    assert_eq!(cat_route(Some(OutputFormat::Image), &[McatKind::Video]), Ok(CatRoute::Single));
    assert_eq!(CatError::ImageFromMany.message(), "Cannot turn multiple files into an image.");
    assert_eq!(CatError::VideoAmongMany.message(), "Cannot view multiple files if 1 of them is a video.");
}

#[test]
fn merge_conversion() {
    for k in [McatKind::PreMarkdown, McatKind::Markdown, McatKind::Html, McatKind::Image] {
        assert!(!converted_to_image_for_merge(k));
    }
    for k in [McatKind::Gif, McatKind::Svg, McatKind::Exe, McatKind::Lnk, McatKind::Pdf, McatKind::Tex, McatKind::Url, McatKind::JpegXL, McatKind::Typst] {
        assert!(converted_to_image_for_merge(k));
    }
}

#[test]
fn outputs() {
    assert_eq!(effective_output(Some(OutputFormat::Md), McatKind::Video), Some(OutputFormat::Md));
    for k in [McatKind::Video, McatKind::Gif, McatKind::Image, McatKind::Svg, McatKind::Pdf, McatKind::Exe, McatKind::JpegXL, McatKind::Lnk] {
        assert_eq!(effective_output(None, k), Some(OutputFormat::Inline));
    }
    for k in [McatKind::PreMarkdown, McatKind::Markdown, McatKind::Html, McatKind::Tex, McatKind::Url, McatKind::Typst] {
        assert_eq!(effective_output(None, k), None);
    }
    assert!(inline_as_frames(McatKind::Video) && inline_as_frames(McatKind::Gif) && !inline_as_frames(McatKind::Image));
}

#[test]
fn color_and_paging() {
    assert!(!uses_color(ColorMode::Never, true));
    assert!(uses_color(ColorMode::Always, false));
    assert!(uses_color(ColorMode::Auto, true) && !uses_color(ColorMode::Auto, false));
    assert!(uses_pager(PagingMode::Always, false, "", 10));
    assert!(!uses_pager(PagingMode::Never, true, "a\nb\nc", 1));
    assert!(uses_pager(PagingMode::Auto, true, "a\nb\nc\n", 2));
    assert!(!uses_pager(PagingMode::Auto, true, "a\nb\nc\n", 3));
    assert!(!uses_pager(PagingMode::Auto, false, "a\nb\nc\n", 1));
}
