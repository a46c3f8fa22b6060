use everything_adapter::error::Error;
use everything_adapter::flags::{flag_bit, flags_to_mask, RequestFlags};

#[test]
fn flag_bits_match_the_engine() {
    assert_eq!(flag_bit(RequestFlags::FileName), 0x1);
    assert_eq!(flag_bit(RequestFlags::Path), 0x2);
    assert_eq!(flag_bit(RequestFlags::FullPathAndFileName), 0x4);
    assert_eq!(flag_bit(RequestFlags::Extension), 0x8);
    assert_eq!(flag_bit(RequestFlags::Size), 0x10);
    assert_eq!(flag_bit(RequestFlags::DateCreated), 0x20);
    assert_eq!(flag_bit(RequestFlags::DateModified), 0x40);
    assert_eq!(flag_bit(RequestFlags::DateAccessed), 0x80);
    assert_eq!(flag_bit(RequestFlags::Attributes), 0x100);
    assert_eq!(flag_bit(RequestFlags::FileListFileName), 0x200);
    assert_eq!(flag_bit(RequestFlags::RunCount), 0x400);
    assert_eq!(flag_bit(RequestFlags::DateRun), 0x800);
    assert_eq!(flag_bit(RequestFlags::DateRecentlyChanged), 0x1000);
    assert_eq!(flag_bit(RequestFlags::HighlightedFileName), 0x2000);
    assert_eq!(flag_bit(RequestFlags::HighlightedPath), 0x4000);
    assert_eq!(flag_bit(RequestFlags::HighlightedFullPathAndFileName), 0x8000);
}

#[test]
fn mask_is_the_union_of_the_bits() {
    let flags = vec![RequestFlags::FileName, RequestFlags::Path];
    assert_eq!(flags_to_mask(&flags), Ok(0x3));

    let flags = vec![
        RequestFlags::FileName,
        RequestFlags::Path,
        RequestFlags::Size,
    ];
    assert_eq!(flags_to_mask(&flags), Ok(0x13));
}

#[test]
fn mask_does_not_depend_on_order() {
    let one = vec![
        RequestFlags::FileName,
        RequestFlags::Path,
        RequestFlags::Size,
    ];
    let other = vec![
        RequestFlags::Size,
        RequestFlags::Path,
        RequestFlags::FileName,
    ];
    assert_eq!(flags_to_mask(&one), flags_to_mask(&other));
}

#[test]
fn mask_ignores_repetition() {
    let flags = vec![RequestFlags::FileName, RequestFlags::FileName];
    assert_eq!(flags_to_mask(&flags), Ok(0x1));
}

#[test]
fn mask_of_every_flag_fills_the_low_bits() {
    let flags = vec![
        RequestFlags::FileName,
        RequestFlags::Path,
        RequestFlags::FullPathAndFileName,
        RequestFlags::Extension,
        RequestFlags::Size,
        RequestFlags::DateCreated,
        RequestFlags::DateModified,
        RequestFlags::DateAccessed,
        RequestFlags::Attributes,
        RequestFlags::FileListFileName,
        RequestFlags::RunCount,
        RequestFlags::DateRun,
        RequestFlags::DateRecentlyChanged,
        RequestFlags::HighlightedFileName,
        RequestFlags::HighlightedPath,
        RequestFlags::HighlightedFullPathAndFileName,
    ];
    assert_eq!(flags_to_mask(&flags), Ok(0xFFFF));
}

#[test]
fn empty_flag_sequence_is_rejected() {
    let flags: Vec<RequestFlags> = Vec::new();
    assert_eq!(flags_to_mask(&flags), Err(Error::InvalidRequestFlags));
}
