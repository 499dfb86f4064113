//! Text positions, ranges and single edits.
//!
//! Offsets count characters from the start of the document. A range is a
//! half-open interval `start..end`; an edit is a contiguous delete range
//! plus an insertion string.

use vstd::prelude::*;

verus! {

/// A half-open character range `start..end` within a text.
#[derive(Clone, Copy, Debug, PartialEq, Eq, Hash, Structural)]
pub struct TextRange {
    pub start: usize,
    pub end: usize,
}

impl TextRange {
    /// A range is proper when it does not end before it starts.
    pub open spec fn wf(self) -> bool {
        self.start <= self.end
    }

    /// Builds the range `start..end`.
    pub fn new(start: usize, end: usize) -> (r: TextRange)
        requires
            start <= end,
        ensures
            r == (TextRange { start, end }),
    {
        TextRange { start, end }
    }

    /// The number of characters the range spans.
    pub open spec fn len_spec(self) -> int {
        self.end - self.start
    }

    /// The number of characters the range spans.
    pub fn len(&self) -> (n: usize)
        requires
            self.wf(),
        ensures
            n == self.len_spec(),
    {
        self.end - self.start
    }

    /// Whether `other` lies entirely inside `self`.
    pub open spec fn contains_range_spec(self, other: TextRange) -> bool {
        self.start <= other.start && other.end <= self.end
    }

    /// Whether `other` lies entirely inside `self`.
    pub fn contains_range(&self, other: &TextRange) -> (r: bool)
        ensures
            r == self.contains_range_spec(*other),
    {
        self.start <= other.start && other.end <= self.end
    }

    /// Shifts the range left by `amount`.
    pub fn shift_left(&self, amount: usize) -> (r: TextRange)
        requires
            amount <= self.start,
            self.wf(),
        ensures
            r.start == self.start - amount,
            r.end == self.end - amount,
    {
        TextRange { start: self.start - amount, end: self.end - amount }
    }
}

/// A single contiguous edit: delete `delete`, insert `insert` in its place.
pub struct AtomEdit {
    pub delete: TextRange,
    pub insert: String,
}

impl AtomEdit {
    /// Replaces the characters of `range` with `replace_with`.
    pub fn replace(range: TextRange, replace_with: String) -> (e: AtomEdit)
        ensures
            e.delete == range,
            e.insert@ == replace_with@,
    {
        AtomEdit { delete: range, insert: replace_with }
    }

    /// Deletes the characters of `range`.
    pub fn delete(range: TextRange) -> (e: AtomEdit)
        ensures
            e.delete == range,
            e.insert@ == Seq::<char>::empty(),
    {
        AtomEdit::replace(range, String::new())
    }

    /// Inserts `text` at `offset`, deleting nothing.
    pub fn insert(offset: usize, text: String) -> (e: AtomEdit)
        ensures
            e.delete == (TextRange { start: offset, end: offset }),
            e.insert@ == text@,
    {
        AtomEdit::replace(TextRange { start: offset, end: offset }, text)
    }
}

/// The result of applying an edit to a text as a plain string operation:
/// the characters of `range` are replaced by `ins`.
pub open spec fn splice_text(t: Seq<char>, range: TextRange, ins: Seq<char>) -> Seq<char> {
    t.take(range.start as int) + ins + t.skip(range.end as int)
}

/// Applies `range -> replace_with` to `text` as a plain string operation.
pub fn replace_range(text: String, range: TextRange, replace_with: &str) -> (r: String)
    requires
        range.wf(),
        range.end <= text@.len(),
    ensures
        r@ == splice_text(text@, range, replace_with@),
{
    let len = text.as_str().unicode_len();
    let mut r = String::new();
    let prefix = text.as_str().substring_char(0, range.start);
    let suffix = text.as_str().substring_char(range.end, len);
    r.append(prefix);
    r.append(replace_with);
    r.append(suffix);
    proof {
        assert(text@.subrange(0, range.start as int) =~= text@.take(range.start as int));
        assert(text@.subrange(range.end as int, text@.len() as int) =~= text@.skip(
            range.end as int,
        ));
    }
    r
}

} // verus!
