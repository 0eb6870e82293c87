use rawbit::metadata::MetadataKind;
use rawbit::parse::{expand, parse_name_format, FmtItem, ParseErrorKind};

#[test]
fn parses_expansions_and_strftime_ok() {
    assert!(parse_name_format("%Y-%m-%d_{camera.make}").is_ok())
}

#[test]
fn fails_to_parse_incomplete_expansion() {
    const BAD_EXPANSION: &str = "{camera.make";
    assert!(parse_name_format(BAD_EXPANSION).is_err())
}

#[test]
fn escaped_double_squirly_brace_only_prints_one() {
    let escaped = format!("{}{}%Y{{image.original_filename}}", '{', '{');
    let parsed = parse_name_format(&escaped);

    assert!(parsed.is_ok());

    let parsed = parsed.unwrap();

    assert!(parsed.len() == 3);

    assert!(matches!(
        parsed[0], FmtItem::Literal(ref s) if s.chars().next().unwrap() == '{' && s.len() == 1
    ));

    assert!(matches!(parsed[1], FmtItem::DateTime(..)));
}

#[test]
fn inserts_fname_automatically() {
    const FMT_STR_NO_FNAME: &str = "%Y";

    let parsed = parse_name_format(FMT_STR_NO_FNAME).unwrap();

    assert_eq!(
        parsed.as_slice(),
        &[
            FmtItem::DateTime("%Y".into()),
            FmtItem::Metadata(MetadataKind::ImageOriginalFilename)
        ]
    )
}

#[test]
fn escape_then_date_then_reference_is_three_segments() {
    let parsed = parse_name_format("{{%Y{image.original_filename}").unwrap();
    assert_eq!(
        parsed,
        vec![
            FmtItem::Literal("{".to_string()),
            FmtItem::DateTime("%Y".to_string()),
            FmtItem::Metadata(MetadataKind::ImageOriginalFilename),
        ]
    );
}

#[test]
fn unclosed_expansion_is_unterminated() {
    let err = parse_name_format("{camera.make").unwrap_err();
    assert_eq!(err.kind, ParseErrorKind::UnterminatedExpansion);
    assert_eq!(err.offset, 0);
    assert_eq!(err.length, 12);
    assert_eq!(err.source, "{camera.make");
}

#[test]
fn unknown_key_is_invalid_expansion() {
    let err = parse_name_format("{not.a.real.key}").unwrap_err();
    assert_eq!(err.kind, ParseErrorKind::InvalidExpansion);
    assert_eq!(err.offset, 0);
    assert_eq!(err.length, 16);
}

#[test]
fn invalid_expansion_reports_its_place() {
    let err = parse_name_format("ab{x}cd").unwrap_err();
    assert_eq!(err.kind, ParseErrorKind::InvalidExpansion);
    assert_eq!(err.offset, 2);
    assert_eq!(err.length, 3);
}

#[test]
fn error_offsets_count_bytes() {
    let err = parse_name_format("é%").unwrap_err();
    assert_eq!(err.kind, ParseErrorKind::InvalidExpansion);
    assert_eq!(err.offset, 2);
    assert_eq!(err.length, 1);
}

#[test]
fn unknown_date_letter_still_parses() {
    let parsed = parse_name_format("%Q").unwrap();
    assert_eq!(
        parsed,
        vec![
            FmtItem::DateTime("%Q".to_string()),
            FmtItem::Metadata(MetadataKind::ImageOriginalFilename),
        ]
    );
}

#[test]
fn trailing_percent_is_invalid() {
    let err = parse_name_format("abc%").unwrap_err();
    assert_eq!(err.kind, ParseErrorKind::InvalidExpansion);
    assert_eq!(err.offset, 3);
    assert_eq!(err.length, 1);
}

#[test]
fn trailing_open_brace_is_unterminated() {
    let err = parse_name_format("abc{").unwrap_err();
    assert_eq!(err.kind, ParseErrorKind::UnterminatedExpansion);
    assert_eq!(err.offset, 3);
    assert_eq!(err.length, 1);
}

#[test]
fn empty_braces_are_invalid() {
    let err = parse_name_format("{}").unwrap_err();
    assert_eq!(err.kind, ParseErrorKind::InvalidExpansion);
}

#[test]
fn literal_runs_split_at_tokens() {
    let parsed = parse_name_format("shot-%d_{camera.iso}x").unwrap();
    assert_eq!(
        parsed,
        vec![
            FmtItem::Literal("shot-".to_string()),
            FmtItem::DateTime("%d".to_string()),
            FmtItem::Literal("_".to_string()),
            FmtItem::Metadata(MetadataKind::CameraISO),
            FmtItem::Literal("x".to_string()),
            FmtItem::Metadata(MetadataKind::ImageOriginalFilename),
        ]
    );
}

#[test]
fn named_original_filename_is_not_appended_again() {
    let parsed = parse_name_format("{image.original_filename}-x").unwrap();
    assert_eq!(
        parsed,
        vec![
            FmtItem::Metadata(MetadataKind::ImageOriginalFilename),
            FmtItem::Literal("-x".to_string()),
        ]
    );
}

#[test]
fn empty_template_is_the_original_filename() {
    let parsed = parse_name_format("").unwrap();
    assert_eq!(parsed, vec![FmtItem::Metadata(MetadataKind::ImageOriginalFilename)]);
}

#[test]
fn keyword_table_keeps_its_spelling() {
    assert_eq!(expand("camea.flash"), Some(FmtItem::Metadata(MetadataKind::CameraFlash)));
    assert_eq!(expand("camera.flash"), None);
    assert_eq!(expand("lens.fstop"), Some(FmtItem::Metadata(MetadataKind::LensFStop)));
    assert_eq!(expand("Camera.Make"), None);
}

#[test]
fn every_key_looks_up_its_kind() {
    for k in rawbit::metadata::all_kinds() {
        assert_eq!(expand(k.key()), Some(FmtItem::Metadata(k)));
    }
}

#[test]
fn original_filename_named_twice_stays_twice() {
    let parsed = parse_name_format("{image.original_filename}{image.original_filename}").unwrap();
    assert_eq!(
        parsed,
        vec![
            FmtItem::Metadata(MetadataKind::ImageOriginalFilename),
            FmtItem::Metadata(MetadataKind::ImageOriginalFilename),
        ]
    );
}
