//! A duplicable half-open interval value type.
//!
//! [`Span`] is an alternative to the native range type: a plain two-field
//! record `[start, end)` over a fixed-width integer domain, with pure value
//! copy semantics, so that structures holding one stay freely duplicable.
//! Every operation returns a new value; nothing is ever mutated in place.
//!
//! Each method carries a contract stated over the mathematical image of the
//! two fields, and the general laws of the type (round-tripping with the
//! native range form, containment boundaries, the emptiness check, equality)
//! are stated and proved as lemmas alongside the code.

use vstd::prelude::*;

mod util;

pub use util::Dummy;
pub use util::RustNumber;

verus! {

use core::ops::Range;
use vstd::string::StrSliceExecFns;

/// A half-open interval `[start, end)` over a fixed-width integer domain.
///
/// No invariant forces `start <= end`: a crossed span (`start > end`) is
/// representable; it contains nothing, yet `is_empty` reports only the
/// literal `start == end` case (see [`Span::is_empty`]).
#[derive(Copy, Debug, Hash)]
pub struct Span<T: RustNumber = usize> {
    pub start: T,
    pub end: T,
}

impl<T: RustNumber> Clone for Span<T> {
    /// A clone is a fully independent value with the same two fields,
    /// identical to the copy the type's value semantics already guarantee.
    fn clone(&self) -> (r: Self)
        ensures
            r == *self,
    {
        Span { start: self.start, end: self.end }
    }
}

impl<T: RustNumber> Span<T> {
    /// The start field as a mathematical integer.
    pub open spec fn start_num(self) -> int {
        self.start.as_num()
    }

    /// The end field as a mathematical integer.
    pub open spec fn end_num(self) -> int {
        self.end.as_num()
    }

    /// What it means for the span to contain a point: at or after the start
    /// and strictly before the end.
    pub open spec fn spec_contains(self, x: int) -> bool {
        self.start_num() <= x < self.end_num()
    }

    /// A zero-width span at the end of this span.
    pub fn span_after(self) -> (r: Self)
        ensures
            r.start == self.end,
            r.end == self.end,
    {
        Span { start: self.end, end: self.end }
    }

    /// A zero-width span at the start of this span.
    pub fn span_at(self) -> (r: Self)
        ensures
            r.start == self.start,
            r.end == self.start,
    {
        Span { start: self.start, end: self.start }
    }

    /// The zero-width span `[pos, pos)` at a given position.
    pub fn at(pos: T) -> (r: Self)
        ensures
            r.start == pos,
            r.end == pos,
    {
        Span { start: pos, end: pos }
    }

    /// A copy of this span with a new start and the same end.
    pub fn with_start(self, start: T) -> (r: Self)
        ensures
            r.start == start,
            r.end == self.end,
    {
        Span { start, end: self.end }
    }

    /// A copy of this span with the same start and a new end.
    pub fn with_end(self, end: T) -> (r: Self)
        ensures
            r.start == self.start,
            r.end == end,
    {
        Span { start: self.start, end }
    }

    /// A copy of this span whose end lies `len` past the start.
    ///
    /// The sum `start + len` must stay within the element domain; spans over
    /// an input on which the domain's addition would overflow are ruled out.
    pub fn with_len(self, len: T) -> (r: Self)
        requires
            T::min_num() <= self.start_num() + len.as_num() <= T::max_num(),
        ensures
            r.start == self.start,
            r.end.as_num() == self.start_num() + len.as_num(),
    {
        Span { start: self.start, end: self.start.add_num(len) }
    }

    /// Whether the span contains a point, under the half-open rule:
    /// `start <= elem < end`.
    pub fn contains(&self, elem: T) -> (r: bool)
        ensures
            r == self.spec_contains(elem.as_num()),
    {
        self.start.le_num(elem) && elem.lt_num(self.end)
    }

    /// Whether the two fields are literally equal.
    ///
    /// A crossed span (`start > end`) also contains nothing, but is not
    /// reported empty by this check; the literal field comparison is part
    /// of the observable contract.
    pub fn is_empty(&self) -> (r: bool)
        ensures
            r == (self.start_num() == self.end_num()),
    {
        self.start.eq_num(self.end)
    }

    /// Whether this span overlaps another, as the exact two-clause
    /// disjunction: this span contains the other's start, or the other
    /// contains this span's start.
    ///
    /// This is deliberately not a generalized "intervals intersect" test:
    /// a zero-width or crossed span contains no point itself, yet it
    /// overlaps any span that contains its start coordinate. These edge
    /// cases are part of the observable contract.
    pub fn overlaps_with(&self, other: Self) -> (r: bool)
        ensures
            r == (self.spec_contains(other.start_num()) || other.spec_contains(self.start_num())),
    {
        self.contains(other.start) || other.contains(self.start)
    }

    /// The native range form of this span, as a mathematical value.
    pub open spec fn spec_range(self) -> Range<T> {
        Range { start: self.start, end: self.end }
    }

    /// The span with the two fields of a native range, as a mathematical
    /// value.
    pub open spec fn spec_from_range(r: Range<T>) -> Span<T> {
        Span { start: r.start, end: r.end }
    }

    /// The native range form of this span: same start, same end.
    pub fn range(self) -> (r: Range<T>)
        ensures
            r == self.spec_range(),
    {
        Range { start: self.start, end: self.end }
    }

    /// What executable equality means on spans: the mathematical images of
    /// both fields agree. By injectivity of the image this coincides with
    /// literal field equality (see [`lemma_eq_is_structural`]).
    pub open spec fn spec_eq(self, other: Self) -> bool {
        self.start_num() == other.start_num() && self.end_num() == other.end_num()
    }

    /// The elements of the span, in ascending order: `start, start + 1, ...,
    /// end - 1`, and the empty sequence when `start >= end`. Deriving the
    /// sequence again from a copy of the same span gives the same result.
    pub fn elements(self) -> (r: Vec<T>)
        ensures
            self.start_num() <= self.end_num() ==> r@.len() == self.end_num() - self.start_num(),
            self.start_num() > self.end_num() ==> r@.len() == 0,
            forall|i: int| 0 <= i < r@.len() ==> (#[trigger] r@[i]).as_num() == self.start_num() + i,
    {
        let mut out: Vec<T> = Vec::new();
        let mut cur: T = self.start;
        while cur.lt_num(self.end)
            invariant
                self.start_num() <= self.end_num() ==> self.start_num() <= cur.as_num()
                    <= self.end_num() && out@.len() == cur.as_num() - self.start_num(),
                self.start_num() > self.end_num() ==> cur == self.start && out@.len() == 0,
                forall|i: int| 0 <= i < out@.len() ==> (#[trigger] out@[i]).as_num()
                    == self.start_num() + i,
            decreases self.end_num() - cur.as_num(),
        {
            proof {
                self.end.lemma_in_bounds();
            }
            out.push(cur);
            cur = cur.succ_num();
        }
        out
    }
}

impl<T: RustNumber> PartialEq for Span<T> {
    fn eq(&self, other: &Self) -> (r: bool) {
        self.start.eq_num(other.start) && self.end.eq_num(other.end)
    }
}

impl<T: RustNumber> Eq for Span<T> {

}

impl<T: RustNumber> vstd::std_specs::cmp::PartialEqSpecImpl for Span<T> {
    open spec fn obeys_eq_spec() -> bool {
        true
    }

    open spec fn eq_spec(&self, other: &Self) -> bool {
        self.spec_eq(*other)
    }
}

impl<T: RustNumber> From<Range<T>> for Span<T> {
    /// The span with the same start and end as the given range.
    fn from(value: Range<T>) -> (r: Self) {
        Span { start: value.start, end: value.end }
    }
}

impl<T: RustNumber> vstd::std_specs::convert::FromSpecImpl<Range<T>> for Span<T> {
    open spec fn obeys_from_spec() -> bool {
        true
    }

    open spec fn from_spec(value: Range<T>) -> Self {
        Span::spec_from_range(value)
    }
}

impl<T: RustNumber> Default for Span<T> {
    /// The span `[0, 0)`: both fields hold the element domain's zero.
    fn default() -> (r: Self)
        ensures
            r.start_num() == 0,
            r.end_num() == 0,
    {
        Span { start: T::zero_num(), end: T::zero_num() }
    }
}

impl<T: RustNumber> From<Span<T>> for Range<T> {
    /// The native range with the same start and end as the given span.
    fn from(value: Span<T>) -> (r: Self) {
        value.range()
    }
}

impl<T: RustNumber> vstd::std_specs::convert::FromSpecImpl<Span<T>> for Range<T> {
    open spec fn obeys_from_spec() -> bool {
        true
    }

    open spec fn from_spec(value: Span<T>) -> Self {
        value.spec_range()
    }
}

/// The subslice of `v` selected by `s`, read-only: the elements at the
/// positions `s.start, ..., s.end - 1`. As with native range indexing, the
/// bounds must be ordered and within the slice; no extra validation is added.
pub fn index_slice<'a, U>(v: &'a [U], s: Span<usize>) -> (r: &'a [U])
    requires
        s.start_num() <= s.end_num() <= v@.len(),
    ensures
        r@ == v@.subrange(s.start_num(), s.end_num()),
{
    vstd::slice::slice_subrange(v, s.start, s.end)
}

/// The substring of `text` selected by `s`, read-only, by character
/// position: the characters at the positions `s.start, ..., s.end - 1`.
/// The bounds must be ordered and within the text; no extra validation is
/// added.
///
/// This is a deliberate change from native `str` range indexing, which
/// counts bytes and rejects positions inside a multi-byte character: on
/// ASCII text the two agree, but on other text this function accepts spans
/// the native indexing would reject and selects whole characters instead.
pub fn index_str<'a>(text: &'a str, s: Span<usize>) -> (r: &'a str)
    requires
        s.start_num() <= s.end_num() <= text@.len(),
    ensures
        r@ == text@.subrange(s.start_num(), s.end_num()),
{
    text.substring_char(s.start, s.end)
}

/// Round-trip law: taking the native range form of a span and converting it
/// back reproduces the span's two fields exactly, and likewise starting from
/// a native range, for every pair of fields, crossed spans included.
pub proof fn lemma_range_round_trip<T: RustNumber>(s: Span<T>, r: Range<T>)
    ensures
        Span::spec_from_range(s.spec_range()) == s,
        Span::spec_from_range(r).spec_range() == r,
{
}

/// Zero-width construction law: the span at a position equals the span
/// converted from the zero-width native range at that position.
pub proof fn lemma_at_is_zero_width_range<T: RustNumber>(pos: T)
    ensures
        Span::spec_from_range(Range { start: pos, end: pos }) == (Span { start: pos, end: pos }),
{
}

/// Containment boundary law: a span with `start < end` contains its start,
/// never contains its end, and contains exactly the points from the start
/// up to but excluding the end.
pub proof fn lemma_containment_boundary<T: RustNumber>(s: Span<T>, x: int)
    requires
        s.start_num() < s.end_num(),
    ensures
        s.spec_contains(s.start_num()),
        !s.spec_contains(s.end_num()),
        s.spec_contains(x) <==> s.start_num() <= x < s.end_num(),
{
}

/// Emptiness law: the emptiness check is the literal field comparison, so a
/// crossed span (`start > end`) is not reported empty even though, like a
/// zero-width span, it contains no point at all.
pub proof fn lemma_emptiness<T: RustNumber>(s: Span<T>)
    ensures
        s.start_num() > s.end_num() ==> !(s.start_num() == s.end_num()),
        s.start_num() >= s.end_num() ==> forall|x: int| !s.spec_contains(x),
{
}

/// Equality law: executable equality, stated over the mathematical images of
/// the fields, coincides with literal structural equality of the two spans.
/// Hashing is derived from the same two fields, so equal spans hash alike.
pub proof fn lemma_eq_is_structural<T: RustNumber>(a: Span<T>, b: Span<T>)
    ensures
        a.spec_eq(b) <==> a == b,
{
    if a.spec_eq(b) {
        T::lemma_as_num_injective(a.start, b.start);
        T::lemma_as_num_injective(a.end, b.end);
    }
}

} // verus!
