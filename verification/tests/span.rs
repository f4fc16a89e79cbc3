use std::collections::hash_map::DefaultHasher;
use std::hash::Hash;
use std::hash::Hasher;
use std::ops::Range;

use copyspan::index_slice;
use copyspan::index_str;
use copyspan::Span;

fn hash_of(s: &Span<u32>) -> u64 {
    let mut h = DefaultHasher::new();
    s.hash(&mut h);
    h.finish()
}

#[test]
fn round_trip_span_to_range() {
    assert_eq!(Span::from(2..5).range(), 2..5);
    assert_eq!(Span::from(0..0).range(), 0..0);
    let crossed = Span::from(5..3);
    assert_eq!(crossed.range(), 5..3);
    assert_eq!(Span::from(crossed.range()), crossed);
}

#[test]
fn round_trip_range_to_span() {
    let r: Range<u64> = 7..19;
    let s = Span::from(r.clone());
    assert_eq!(s.start, 7);
    assert_eq!(s.end, 19);
    assert_eq!(Range::from(s), r);
    let back: Range<u64> = s.into();
    assert_eq!(back, 7..19);
}

#[test]
fn copy_independence() {
    let original = Span::from(1..4);
    let duplicate = original;
    let moved = duplicate.with_start(9);
    assert_eq!(original.start, 1);
    assert_eq!(original.end, 4);
    assert_eq!(duplicate.start, 1);
    assert_eq!(duplicate.end, 4);
    assert_eq!(moved.start, 9);
    assert_eq!(moved.end, 4);
}

#[test]
fn clone_equals_original_and_is_independent() {
    let original: Span<i32> = Span::from(-4..7);
    let cloned = original.clone();
    assert_eq!(cloned, original);
    let _ = cloned.with_start(0).with_end(1);
    assert_eq!(original, Span::from(-4..7));
    assert_eq!(cloned, Span::from(-4..7));
}

#[test]
fn copy_independence_all_mutators() {
    let original: Span<u16> = Span::from(10..20);
    let d = original;
    let _ = d.with_end(99);
    let _ = d.with_len(3);
    let _ = d.span_at();
    let _ = d.span_after();
    assert_eq!(original, Span::from(10..20));
}

#[test]
fn zero_width_construction() {
    assert_eq!(Span::at(5), Span::from(5..5));
    assert_eq!(Span::at(0), Span::from(0..0));
    assert_eq!(Span::at(50), Span::from(50..50));
}

#[test]
fn containment_boundary() {
    let s = Span::from(2..5);
    assert!(s.contains(2));
    assert!(!s.contains(5));
    for x in 2..5 {
        assert!(s.contains(x));
    }
    assert!(!s.contains(1));
    assert!(!s.contains(6));
}

#[test]
fn containment_signed() {
    let s: Span<i8> = Span::from(-3..2);
    assert!(s.contains(-3));
    assert!(s.contains(0));
    assert!(!s.contains(2));
    assert!(!s.contains(-4));
}

#[test]
fn containment_of_crossed_and_empty() {
    let crossed: Span<i32> = Span::from(5..3);
    assert!(!crossed.contains(4));
    assert!(!crossed.contains(5));
    assert!(!crossed.contains(3));
    let empty: Span<i32> = Span::from(5..5);
    assert!(!empty.contains(5));
}

#[test]
fn emptiness_literal_quirk() {
    assert!(Span::from(5..5).is_empty());
    assert!(!Span::from(5..3).is_empty());
    assert!(!Span::from(3..5).is_empty());
}

#[test]
fn overlap_examples() {
    let foo = Span::from(0..3);
    let bar = Span::from(2..4);
    let biz = Span::from(3..6);

    assert!(!foo.overlaps_with(biz));
    assert!(foo.overlaps_with(bar));
    assert!(bar.overlaps_with(biz));

    assert!(foo.overlaps_with(Span::from(0..0)));
}

#[test]
fn overlap_is_the_literal_disjunction() {
    // A zero-width span contains nothing, so it never overlaps from its own
    // side; it still overlaps a span that contains its start coordinate.
    let zero = Span::from(0..0);
    assert!(zero.overlaps_with(Span::from(0..3)));
    assert!(!zero.overlaps_with(Span::from(1..3)));
    assert!(!zero.overlaps_with(zero));
    // A crossed span contains nothing either, but its start can fall inside
    // the other span.
    let crossed = Span::from(5..3);
    assert!(crossed.overlaps_with(Span::from(4..6)));
    assert!(Span::from(4..6).overlaps_with(crossed));
    assert!(!crossed.overlaps_with(Span::from(6..8)));
}

#[test]
fn iteration_yields_elements_in_order() {
    assert_eq!(Span::from(2..5).elements(), vec![2, 3, 4]);
    assert_eq!(Span::from(5..5).elements(), Vec::<i32>::new());
    assert_eq!(Span::from(5..3).elements(), Vec::<i32>::new());
}

#[test]
fn iteration_restartable_from_copy() {
    let s: Span<u8> = Span::from(250..255);
    let first = s.elements();
    let second = s.elements();
    assert_eq!(first, vec![250, 251, 252, 253, 254]);
    assert_eq!(first, second);
}

#[test]
fn iteration_signed() {
    let s: Span<i16> = Span::from(-2..2);
    assert_eq!(s.elements(), vec![-2, -1, 0, 1]);
}

#[test]
fn indexing_str() {
    let text = "hello world";
    let s = Span::from(6..11);
    assert_eq!(index_str(text, s), "world");
    assert_eq!(index_str(text, s.with_len(2)), "wo");
}

#[test]
fn indexing_str_counts_characters() {
    let text = "h\u{e9}llo w\u{f6}rld";
    assert_eq!(index_str(text, Span::from(6..11)), "w\u{f6}rld");
    assert_eq!(index_str(text, Span::from(0..2)), "h\u{e9}");
}

#[test]
fn with_len_near_domain_maximum() {
    let s: Span<u8> = Span::at(250).with_len(5);
    assert_eq!(s, Span::from(250..255));
    let full: Span<u8> = Span::at(0).with_len(255);
    assert_eq!(full.elements().len(), 255);
}

#[test]
fn indexing_slice() {
    let v = vec![10, 20, 30, 40, 50];
    let s = Span::from(1..4);
    assert_eq!(index_slice(&v, s), &[20, 30, 40]);
    assert_eq!(index_slice(&v, Span::at(2)), &[] as &[i32]);
}

#[test]
fn hash_consistent_with_equality() {
    let a: Span<u32> = Span::from(3..9);
    let b: Span<u32> = Span::from(3..9);
    assert_eq!(a, b);
    assert_eq!(hash_of(&a), hash_of(&b));

    let crossed: Span<u32> = Span::from(9..3);
    let empty: Span<u32> = Span::from(9..9);
    assert_ne!(crossed, empty);
    assert_ne!(a, Span::from(3..8));
    assert_ne!(a, Span::from(4..9));
}

#[test]
fn derived_positions() {
    let s = Span::from(4..9);
    assert_eq!(s.span_at(), Span::from(4..4));
    assert_eq!(s.span_after(), Span::from(9..9));
}

#[test]
fn copy_mutators_exact_fields() {
    let s = Span::from(4..9);
    assert_eq!(s.with_start(1), Span::from(1..9));
    assert_eq!(s.with_end(12), Span::from(4..12));
    assert_eq!(s.with_len(2), Span::from(4..6));
    assert_eq!(s.with_len(0), Span::from(4..4));
}

#[test]
fn default_is_zero_zero() {
    let d: Span<u32> = Span::default();
    assert_eq!(d, Span::at(0));
    let di: Span<i64> = Span::default();
    assert_eq!(di, Span::at(0));
    let du: Span<usize> = Span::default();
    assert_eq!(du, Span::from(0..0));
}
