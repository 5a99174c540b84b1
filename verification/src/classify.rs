//! The response classifier.
//!
//! The device signals the result of an install run by printing one of two
//! fixed fingerprints on its console.  The classifier reads the console line
//! by line, normalizes each line (trim, then byte-wise lowercase) and resolves
//! as soon as a fingerprint matches; blank and unrecognized lines are ignored.
//! A run that ends without a match resolves by how it ended: `NotConnected`
//! when the stream closed, `Timeout` when the deadline expired first.

use vstd::prelude::*;
use vstd::string::StringSliceAdditionalSpecFns;
use crate::errors::ApiError;
use crate::text::{bytes_eq, normalize_line, normalized};

verus! {

/// The result of one classification attempt.
#[derive(Clone, Copy, Debug, PartialEq, Eq, Structural)]
pub enum Outcome {
    /// The success fingerprint arrived.
    Success,
    /// The rollback fingerprint arrived.
    RollbackDetected,
    /// The deadline expired before any fingerprint arrived.
    Timeout,
    /// No session was active, or the stream closed before any fingerprint
    /// arrived.
    NotConnected,
}

/// What a single line contributes to a classification attempt.
#[derive(Clone, Copy, Debug, PartialEq, Eq, Structural)]
pub enum LineVerdict {
    /// The line matches the success fingerprint.
    Success,
    /// The line matches the rollback fingerprint.
    Rollback,
    /// The line is blank or unrecognized and the attempt goes on.
    Ignore,
}

/// How a stream of lines ended when no fingerprint had matched.
#[derive(Clone, Copy, Debug, PartialEq, Eq, Structural)]
pub enum StreamEnd {
    /// The peer closed the connection.
    Closed,
    /// The wall-clock deadline expired while the stream was still open.
    DeadlineExpired,
}

/// The fingerprint the device prints when the install succeeded.
pub open spec fn success_token() -> Seq<u8> {
    "fb5f2f27be2de104ac2b192f3e874dda".spec_bytes()
}

/// The fingerprint the device prints when it rolled the install back.
pub open spec fn rollback_token() -> Seq<u8> {
    "fff66e9b3d962fa319c8068b5c1997cd".spec_bytes()
}

/// How one line is judged: blank lines and lines matching no fingerprint are
/// ignored; the fingerprints are matched on the normalized line.
pub open spec fn line_verdict(line: Seq<u8>) -> LineVerdict {
    if normalized(line).len() == 0 {
        LineVerdict::Ignore
    } else if normalized(line) == success_token() {
        LineVerdict::Success
    } else if normalized(line) == rollback_token() {
        LineVerdict::Rollback
    } else {
        LineVerdict::Ignore
    }
}

/// Judges one line of console output.
pub fn classify_line(line: &[u8]) -> (v: LineVerdict)
    ensures
        v == line_verdict(line@),
{
    let norm = normalize_line(line);
    if norm.len() == 0 {
        LineVerdict::Ignore
    } else if bytes_eq(norm.as_slice(), "fb5f2f27be2de104ac2b192f3e874dda".as_bytes()) {
        LineVerdict::Success
    } else if bytes_eq(norm.as_slice(), "fff66e9b3d962fa319c8068b5c1997cd".as_bytes()) {
        LineVerdict::Rollback
    } else {
        LineVerdict::Ignore
    }
}

/// The outcome of an attempt that observed `lines` in order and then ended as
/// `end` says: the first line matching a fingerprint decides; with no match,
/// a closed stream means `NotConnected` and an expired deadline means
/// `Timeout`.
pub open spec fn transcript_outcome(lines: Seq<Seq<u8>>, end: StreamEnd) -> Outcome
    decreases lines.len(),
{
    if lines.len() == 0 {
        match end {
            StreamEnd::Closed => Outcome::NotConnected,
            StreamEnd::DeadlineExpired => Outcome::Timeout,
        }
    } else {
        match line_verdict(lines[0]) {
            LineVerdict::Success => Outcome::Success,
            LineVerdict::Rollback => Outcome::RollbackDetected,
            LineVerdict::Ignore => transcript_outcome(lines.skip(1), end),
        }
    }
}

/// Resolves a finished attempt from the lines it observed, in arrival order,
/// and the way the stream ended.
pub fn classify_transcript(lines: &Vec<Vec<u8>>, end: StreamEnd) -> (r: Outcome)
    ensures
        r == transcript_outcome(lines.deep_view(), end),
{
    let ghost all = lines.deep_view();
    proof {
        assert(all.skip(0) =~= all);
    }
    let mut i: usize = 0;
    while i < lines.len()
        invariant
            i <= lines.len(),
            all == lines.deep_view(),
            transcript_outcome(all, end) == transcript_outcome(all.skip(i as int), end),
        decreases lines.len() - i,
    {
        proof {
            assert(all.skip(i as int)[0] == all[i as int]);
            assert(all[i as int] == lines[i as int]@);
            assert(all.skip(i as int).skip(1) =~= all.skip(i + 1));
        }
        match classify_line(lines[i].as_slice()) {
            LineVerdict::Success => {
                return Outcome::Success;
            },
            LineVerdict::Rollback => {
                return Outcome::RollbackDetected;
            },
            LineVerdict::Ignore => {},
        }
        i += 1;
    }
    proof {
        assert(all.skip(i as int) =~= Seq::<Seq<u8>>::empty());
    }
    match end {
        StreamEnd::Closed => Outcome::NotConnected,
        StreamEnd::DeadlineExpired => Outcome::Timeout,
    }
}

/// An outcome as the install-check surface reports it: success is the only
/// `Ok`; a rollback, an expired deadline and a missing session each surface
/// as their own error.
pub fn outcome_as_result(outcome: Outcome) -> (r: Result<(), ApiError>)
    ensures
        outcome == Outcome::Success <==> r is Ok,
        outcome == Outcome::RollbackDetected <==> (r matches Err(ApiError::RollbackDetected)),
        outcome == Outcome::Timeout <==> (r matches Err(ApiError::Timeout)),
        outcome == Outcome::NotConnected <==> (r matches Err(ApiError::NotConnected)),
{
    match outcome {
        Outcome::Success => Ok(()),
        Outcome::RollbackDetected => Err(ApiError::RollbackDetected),
        Outcome::Timeout => Err(ApiError::Timeout),
        Outcome::NotConnected => Err(ApiError::NotConnected),
    }
}

/// Inserting a blank or unrecognized line anywhere in a transcript never
/// changes its outcome: only the two fingerprints are meaningful signals.
pub proof fn lemma_ignored_line_immaterial(
    lines: Seq<Seq<u8>>,
    i: int,
    extra: Seq<u8>,
    end: StreamEnd,
)
    requires
        0 <= i <= lines.len(),
        line_verdict(extra) == LineVerdict::Ignore,
    ensures
        transcript_outcome(lines.insert(i, extra), end) == transcript_outcome(lines, end),
    decreases lines.len(),
{
    let grown = lines.insert(i, extra);
    if i == 0 {
        assert(grown[0] == extra);
        assert(grown.skip(1) =~= lines);
    } else {
        assert(grown[0] == lines[0]);
        assert(grown.skip(1) =~= lines.skip(1).insert(i - 1, extra));
        lemma_ignored_line_immaterial(lines.skip(1), i - 1, extra, end);
    }
}

/// An attempt in which no line matched a fingerprint resolves purely by how
/// the stream ended: `NotConnected` on closure, `Timeout` on an expired
/// deadline — however many unrelated lines kept arriving.
pub proof fn lemma_no_match_resolves_by_end(lines: Seq<Seq<u8>>, end: StreamEnd)
    requires
        forall|i: int| 0 <= i < lines.len() ==> line_verdict(lines[i]) == LineVerdict::Ignore,
    ensures
        end == StreamEnd::Closed ==> transcript_outcome(lines, end) == Outcome::NotConnected,
        end == StreamEnd::DeadlineExpired ==> transcript_outcome(lines, end) == Outcome::Timeout,
    decreases lines.len(),
{
    if lines.len() > 0 {
        assert(line_verdict(lines[0]) == LineVerdict::Ignore);
        lemma_no_match_resolves_by_end(lines.skip(1), end);
    }
}

} // verus!
