use vstd::prelude::*;
use vstd::utf8::valid_utf8;

verus! {

/// The line-feed byte that every processed file must end with.
pub const LF: u8 = 0x0a;

/// The carriage-return byte; together with a following `LF` it forms a CRLF line ending.
pub const CR: u8 = 0x0d;

/// True when a CRLF pair starts at position `i` of the content.
pub open spec fn crlf_at(c: Seq<u8>, i: int) -> bool {
    0 <= i && i + 1 < c.len() && c[i] == CR && c[i + 1] == LF
}

/// True when the content holds a carriage return immediately followed by a line feed.
pub open spec fn has_crlf(c: Seq<u8>) -> bool {
    exists|i: int| #[trigger] crlf_at(c, i)
}

/// True when the content is non-empty and its last byte is a line feed.
pub open spec fn ends_with_lf(c: Seq<u8>) -> bool {
    c.len() > 0 && c.last() == LF
}

/// Tells whether the last byte of the content is a line feed.
pub fn last_is_lf(c: &[u8]) -> (r: bool)
    ensures
        r == ends_with_lf(c@),
{
    c.len() > 0 && c[c.len() - 1] == LF
}

/// Relies on std::str::from_utf8: it succeeds exactly on well-formed UTF-8.
#[verifier::external_body]
pub(crate) fn decodes_as_utf8(c: &[u8]) -> (r: bool)
    ensures
        r == valid_utf8(c@),
{
    std::str::from_utf8(c).is_ok()
}

/// Scans the content for a CRLF pair.
pub fn contains_crlf(c: &[u8]) -> (r: bool)
    ensures
        r == has_crlf(c@),
{
    let n = c.len();
    let mut i: usize = 0;
    while i < n
        invariant
            n == c@.len(),
            i <= n,
            forall|j: int| 0 <= j < i ==> !#[trigger] crlf_at(c@, j),
        decreases n - i,
    {
        if c[i] == CR && i + 1 < n && c[i + 1] == LF {
            assert(crlf_at(c@, i as int));
            return true;
        }
        i = i + 1;
    }
    assert forall|j: int| !#[trigger] crlf_at(c@, j) by {
        if 0 <= j < i {
        }
    }
    false
}

} // verus!
