use nla_codec::cursor::Iterable;
use nla_codec::error::{ErrorContext, ErrorReason};

#[derive(Clone, Copy)]
struct TestSet;

#[test]
fn offset_exact_distance_from_origin() {
    let buf = [0u8; 16];
    let it: Iterable<TestSet> = Iterable::with_loc(&buf, 10, 10);
    assert_eq!(it.calc_offset(25), 15);
    assert_eq!(it.calc_offset(10), 0);
    assert_eq!(it.calc_offset(10 + 65535), 65535);
}

#[test]
fn offset_before_origin_clamps_to_zero() {
    let buf = [0u8; 4];
    let it: Iterable<TestSet> = Iterable::with_loc(&buf, 0, 100);
    assert_eq!(it.calc_offset(50), 0);
    assert_eq!(it.calc_offset(99), 0);
    assert_eq!(it.calc_offset(100), 0);
    assert_eq!(it.calc_offset(101), 1);
}

#[test]
fn offset_past_u16_range_clamps_to_zero() {
    let buf = [0u8; 4];
    let it: Iterable<TestSet> = Iterable::new(&buf);
    assert_eq!(it.calc_offset(65535), 65535);
    assert_eq!(it.calc_offset(65536), 0);
}

#[test]
fn missing_attribute_error_uses_remaining_start() {
    let buf = [0u8; 8];
    let it: Iterable<TestSet> = Iterable::new(&buf);
    let ctx = it.error_missing("conn", "peer");
    assert_eq!(ctx.attrs, "conn");
    assert_eq!(ctx.attr, Some("peer"));
    assert_eq!(ctx.offset, 0);
    assert_eq!(ctx.reason, ErrorReason::AttrMissing);

    // A sub-slice cursor reports its distance from the shared origin.
    let sub: Iterable<TestSet> = Iterable::with_loc(&buf[4..], 4, 0);
    let ctx = sub.error_missing("conn", "peer");
    assert_eq!(ctx.offset, 4);
}

#[test]
fn error_context_reasons_and_poisoning() {
    let buf = [1u8, 2, 3, 4];
    let mut it: Iterable<TestSet> = Iterable::new(&buf);
    assert_eq!(it.get_buf(), &[1, 2, 3, 4]);

    let ctx = it.error_context("conn", Some("peer"), 2);
    assert_eq!(ctx.reason, ErrorReason::ParsingError);
    assert_eq!(ctx.attr, Some("peer"));
    assert_eq!(ctx.offset, 2);
    // Poisoned: nothing remains to read.
    assert_eq!(it.get_buf(), &[] as &[u8]);

    let mut it: Iterable<TestSet> = Iterable::new(&buf);
    let ctx = it.error_context("conn", None, 3);
    assert_eq!(ctx.reason, ErrorReason::UnknownAttr);
    assert_eq!(ctx.attr, None);
    assert_eq!(ctx.offset, 3);
    assert!(it.get_buf().is_empty());
}

#[test]
fn strict_mode_is_explicit_and_carried() {
    let buf = [0u8; 4];
    let it: Iterable<TestSet> = Iterable::new(&buf);
    assert!(!it.is_strict());
    let strict = it.set_strict(true);
    assert!(strict.is_strict());
    assert_eq!(strict.get_buf(), it.get_buf());
    let back = strict.set_strict(false);
    assert!(!back.is_strict());
}

#[test]
fn default_cursor_is_empty() {
    let it: Iterable<TestSet> = Iterable::default();
    assert!(it.get_buf().is_empty());
    assert!(!it.is_strict());
    assert_eq!(it.calc_offset(9), 9);
}

#[test]
fn cursor_copies_share_nothing() {
    let buf = [9u8, 9, 9, 9];
    let mut a: Iterable<TestSet> = Iterable::new(&buf);
    let b = a;
    a.error_context("conn", None, 0);
    assert!(a.get_buf().is_empty());
    assert_eq!(b.get_buf(), &[9, 9, 9, 9]);
    let c = b.clone();
    assert_eq!(c.get_buf(), b.get_buf());
}

#[test]
fn error_context_values_are_plain_data() {
    let ctx = ErrorContext {
        attrs: "conn",
        attr: None,
        offset: 7,
        reason: ErrorReason::UnknownAttr,
    };
    let copy = ctx.clone();
    assert_eq!(ctx, copy);
    assert_ne!(
        copy,
        ErrorContext { attrs: "conn", attr: None, offset: 8, reason: ErrorReason::UnknownAttr }
    );
}
