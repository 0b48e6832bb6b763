use vstd::prelude::*;
use vstd::utf8::{pop_first_scalar, valid_first_scalar, valid_utf8, valid_utf8_concat};
use crate::content::{crlf_at, has_crlf, ends_with_lf, last_is_lf, contains_crlf, decodes_as_utf8, CR, LF};
use crate::outcome::{exit_status, Outcome, EXIT_FAILURE, EXIT_PLEASE_FIX, EXIT_SUCCESS};

verus! {

/// What to do with a file once its kind and content are known.
#[derive(Debug, Clone, PartialEq, Eq)]
pub enum Decision {
    /// Nothing is written; the run ends with this outcome.
    Done(Outcome),
    /// One line feed is to be appended at the end of the file.
    AppendNewline,
}

impl Decision {
    /// The bytes that carrying out the decision appends to the file.
    pub open spec fn appended(self) -> Seq<u8> {
        match self {
            Decision::Done(_) => Seq::empty(),
            Decision::AppendNewline => seq![LF],
        }
    }

    /// The bytes to append at the end of the file; at most one is ever written.
    pub fn bytes_to_append(&self) -> (r: Vec<u8>)
        ensures
            r@ == self.appended(),
            r@.len() <= 1,
    {
        match self {
            Decision::Done(_) => Vec::new(),
            Decision::AppendNewline => {
                let mut v: Vec<u8> = Vec::new();
                v.push(LF);
                v
            },
        }
    }
}

/// The content of a file after a decision on it has been carried out.
pub open spec fn content_after(c: Seq<u8>, d: Decision) -> Seq<u8> {
    c + d.appended()
}

/// The decision for a file: the checks run in a fixed order and the first
/// one that applies settles the outcome.
pub open spec fn decision(is_regular_file: bool, c: Seq<u8>, check_only: bool) -> Decision {
    if !is_regular_file {
        Decision::Done(Outcome::NotRegularFile)
    } else if c.len() == 0 {
        Decision::Done(Outcome::AlreadyValid)
    } else if !valid_utf8(c) {
        Decision::Done(Outcome::NotUtf8)
    } else if has_crlf(c) {
        Decision::Done(Outcome::ContainsCrlf)
    } else if ends_with_lf(c) {
        Decision::Done(Outcome::AlreadyValid)
    } else if check_only {
        Decision::Done(Outcome::NeedsFix)
    } else {
        Decision::AppendNewline
    }
}

/// Decides what to do with a file, given whether it is a regular file and its
/// full content. For an entry that is not a regular file the content is not
/// looked at (the caller need not read it).
pub fn decide(is_regular_file: bool, content: &[u8], check_only: bool) -> (r: Decision)
    ensures
        r == decision(is_regular_file, content@, check_only),
{
    if !is_regular_file {
        Decision::Done(Outcome::NotRegularFile)
    } else if content.len() == 0 {
        Decision::Done(Outcome::AlreadyValid)
    } else if !decodes_as_utf8(content) {
        Decision::Done(Outcome::NotUtf8)
    } else if contains_crlf(content) {
        Decision::Done(Outcome::ContainsCrlf)
    } else if last_is_lf(content) {
        Decision::Done(Outcome::AlreadyValid)
    } else if check_only {
        Decision::Done(Outcome::NeedsFix)
    } else {
        Decision::AppendNewline
    }
}

/// A lone line feed is well-formed UTF-8.
proof fn lemma_lf_is_utf8()
    ensures
        valid_utf8(seq![LF]),
{
    let s = seq![LF];
    assert((0x0au8 & 0x7fu8) == 0x0au8) by (bit_vector);
    assert(valid_first_scalar(s));
    assert(pop_first_scalar(s) =~= Seq::<u8>::empty());
    assert(valid_utf8(pop_first_scalar(s)));
}

/// Fixing a valid LF-only file that lacks its final line feed appends exactly
/// one line feed, and a second run on the result writes nothing. Unless the
/// content ended in a carriage return (which the appended line feed turns into
/// a CRLF pair), the second run finds the file already valid.
pub proof fn lemma_fix_then_settled(c: Seq<u8>, check_only: bool)
    requires
        c.len() > 0,
        valid_utf8(c),
        !has_crlf(c),
        !ends_with_lf(c),
    ensures
        decision(true, c, false) == Decision::AppendNewline,
        content_after(c, decision(true, c, false)) == c.push(LF),
        content_after(c.push(LF), decision(true, c.push(LF), check_only)) == c.push(LF),
        c.last() != CR ==> decision(true, c.push(LF), check_only) == Decision::Done(
            Outcome::AlreadyValid,
        ),
{
    let d = c.push(LF);
    assert(c + seq![LF] =~= d);
    assert(content_after(c, decision(true, c, false)) == d);
    lemma_lf_is_utf8();
    valid_utf8_concat(c, seq![LF]);
    assert(valid_utf8(d));
    assert(ends_with_lf(d));
    assert(d + Seq::<u8>::empty() =~= d);
    if c.last() != CR {
        assert forall|i: int| !#[trigger] crlf_at(d, i) by {
            if crlf_at(d, i) {
                if i + 1 < c.len() {
                    assert(crlf_at(c, i));
                } else {
                    assert(d[i] == c.last());
                }
            }
        }
        assert(!has_crlf(d));
    }
}

/// A file that already ends with a line feed is never written to; when it is
/// valid LF-only text the run succeeds.
pub proof fn lemma_ending_lf_untouched(c: Seq<u8>, check_only: bool)
    requires
        ends_with_lf(c),
    ensures
        content_after(c, decision(true, c, check_only)) == c,
        valid_utf8(c) && !has_crlf(c) ==> decision(true, c, check_only) == Decision::Done(
            Outcome::AlreadyValid,
        ) && exit_status(Outcome::AlreadyValid) == EXIT_SUCCESS,
{
    assert(c + Seq::<u8>::empty() =~= c);
}

/// An empty file is never written to and the run succeeds, in either mode.
pub proof fn lemma_empty_untouched(check_only: bool)
    ensures
        decision(true, Seq::<u8>::empty(), check_only) == Decision::Done(Outcome::AlreadyValid),
        content_after(Seq::<u8>::empty(), decision(true, Seq::<u8>::empty(), check_only))
            == Seq::<u8>::empty(),
        exit_status(Outcome::AlreadyValid) == EXIT_SUCCESS,
{
    assert(Seq::<u8>::empty() + Seq::<u8>::empty() =~= Seq::<u8>::empty());
}

/// Content holding a CRLF pair is never written to; when it is valid UTF-8 the
/// run fails with the CRLF rejection.
pub proof fn lemma_crlf_rejected(c: Seq<u8>, check_only: bool)
    requires
        has_crlf(c),
    ensures
        content_after(c, decision(true, c, check_only)) == c,
        valid_utf8(c) ==> decision(true, c, check_only) == Decision::Done(Outcome::ContainsCrlf),
        exit_status(Outcome::ContainsCrlf) == EXIT_FAILURE,
{
    assert(c + Seq::<u8>::empty() =~= c);
}

/// Content that is not valid UTF-8 is never written to and the run fails with
/// the non-UTF-8 rejection.
pub proof fn lemma_non_utf8_rejected(c: Seq<u8>, check_only: bool)
    requires
        !valid_utf8(c),
    ensures
        decision(true, c, check_only) == Decision::Done(Outcome::NotUtf8),
        content_after(c, decision(true, c, check_only)) == c,
        exit_status(Outcome::NotUtf8) == EXIT_FAILURE,
{
    assert(c + Seq::<u8>::empty() =~= c);
}

/// In check-only mode a valid LF-only file that lacks its final line feed is
/// left as it is, the run ends with the needs-fix status, and running again
/// on the unchanged file gives the same decision.
pub proof fn lemma_check_only_stable(c: Seq<u8>)
    requires
        c.len() > 0,
        valid_utf8(c),
        !has_crlf(c),
        !ends_with_lf(c),
    ensures
        decision(true, c, true) == Decision::Done(Outcome::NeedsFix),
        content_after(c, decision(true, c, true)) == c,
        decision(true, content_after(c, decision(true, c, true)), true) == decision(true, c, true),
        exit_status(Outcome::NeedsFix) == EXIT_PLEASE_FIX,
{
    assert(c + Seq::<u8>::empty() =~= c);
}

} // verus!
