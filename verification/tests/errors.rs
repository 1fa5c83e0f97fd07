use nla_codec::adapters::{ArrayIterable, MultiAttrIterable};
use nla_codec::error::{usize_to_string, ErrorContext, ErrorReason, FlattenErrorContext};
use nla_codec::hexfmt::{first_mismatch, FormatHex};

fn parse_error() -> ErrorContext {
    ErrorContext {
        attrs: "conn",
        attr: Some("peer"),
        offset: 12,
        reason: ErrorReason::ParsingError,
    }
}

#[test]
fn render_missing_attribute() {
    let ctx = ErrorContext {
        attrs: "link",
        attr: Some("mtu"),
        offset: 0,
        reason: ErrorReason::AttrMissing,
    };
    assert_eq!(ctx.render(), "Missing attribute \"mtu\" in \"link\"");
}

#[test]
fn render_parsing_error_with_attribute() {
    assert_eq!(parse_error().render(), "Error parsing attribute \"peer\" of \"conn\" at offset 12");
}

#[test]
fn render_header_parsing_error() {
    let ctx = ErrorContext {
        attrs: "link",
        attr: None,
        offset: 3,
        reason: ErrorReason::ParsingError,
    };
    assert_eq!(ctx.render(), "Error parsing header of \"link\" at offset 3");
}

#[test]
fn render_unknown_attribute() {
    let ctx = ErrorContext {
        attrs: "link",
        attr: None,
        offset: 20,
        reason: ErrorReason::UnknownAttr,
    };
    assert_eq!(ctx.render(), "Error parsing header of \"link\" (unknown attribute) at offset 20");
}

#[test]
fn decimal_rendering() {
    assert_eq!(usize_to_string(0), "0");
    assert_eq!(usize_to_string(7), "7");
    assert_eq!(usize_to_string(10), "10");
    assert_eq!(usize_to_string(65535), "65535");
    assert_eq!(usize_to_string(1023004), "1023004");
}

#[test]
fn flatten_carries_the_message() {
    let ok: FlattenErrorContext<u32> = FlattenErrorContext(Ok(5));
    assert!(ok.err_render().is_none());
    let err: FlattenErrorContext<u32> = FlattenErrorContext(Err(parse_error()));
    assert_eq!(
        err.err_render().unwrap(),
        "Error parsing attribute \"peer\" of \"conn\" at offset 12"
    );
}

#[test]
fn array_adapter_stops_at_first_err() {
    let items: Vec<Result<u32, ErrorContext>> = vec![Ok(1), Err(parse_error()), Ok(3)];
    let mut it = ArrayIterable::new(items.into_iter());
    assert_eq!(it.next(), Some(1));
    assert_eq!(it.next(), None);
    // Permanently: item 3 is never yielded.
    assert_eq!(it.next(), None);
    assert_eq!(it.next(), None);
}

#[test]
fn array_adapter_ends_at_exhaustion() {
    let items: Vec<Result<u32, ErrorContext>> = vec![Ok(4), Ok(5)];
    let mut it = ArrayIterable::new(items.into_iter());
    assert_eq!(it.next(), Some(4));
    assert_eq!(it.next(), Some(5));
    assert_eq!(it.next(), None);
    assert_eq!(it.next(), None);
}

fn tens(t: u32) -> Option<u32> {
    if t == 2 {
        None
    } else {
        Some(t * 10)
    }
}

#[test]
fn mapping_adapter_stops_at_first_err() {
    let items: Vec<Result<u32, ErrorContext>> = vec![Ok(1), Err(parse_error()), Ok(3)];
    let mut it = MultiAttrIterable::new(items.into_iter(), tens);
    assert_eq!(it.next(), Some(10));
    assert_eq!(it.next(), None);
    assert_eq!(it.next(), None);
}

#[test]
fn mapping_adapter_stops_at_projection_miss() {
    let items: Vec<Result<u32, ErrorContext>> = vec![Ok(1), Ok(2), Ok(3)];
    let mut it = MultiAttrIterable::new(items.into_iter(), tens);
    assert_eq!(it.next(), Some(10));
    // The projection rejects item 2; item 3 is never yielded.
    assert_eq!(it.next(), None);
    assert_eq!(it.next(), None);
}

#[test]
fn format_hex_renders_quoted_pairs() {
    assert_eq!(FormatHex(&[]).render(), "\"\"");
    assert_eq!(FormatHex(&[0x00, 0x1F, 0xAB]).render(), "\"001fab\"");
    assert_eq!(FormatHex(&[0xFF]).render(), "\"ff\"");
}

#[test]
fn first_mismatch_finds_first_difference() {
    assert_eq!(first_mismatch(&[1, 2, 3], &[1, 2, 3]), None);
    assert_eq!(first_mismatch(&[1, 2, 3], &[1, 9, 3]), Some(1));
    assert_eq!(first_mismatch(&[], &[1]), None);
    assert_eq!(first_mismatch(&[1, 2], &[1, 2, 9]), None);
    assert_eq!(first_mismatch(&[0, 2], &[1, 2, 9]), Some(0));
}
