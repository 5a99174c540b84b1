//! Byte-level text handling shared by the classifier and the output monitor.
//!
//! Lines read from the device are byte strings.  Before a line is matched or
//! stored it is trimmed at both ends of the UTF-8 encodings of the Unicode
//! white-space characters — the same characters trimming the decoded line
//! would remove, matched here as their one-, two- and three-byte encodings,
//! each of which starts with a byte no encoding of another character ends
//! with.  For matching the line is additionally lowercased byte-wise (the
//! fingerprints are plain ASCII, so byte-wise folding is exact for them).

use vstd::prelude::*;

verus! {

/// A one-byte white-space encoding: the ASCII whitespace characters tab,
/// line feed, vertical tab, form feed, carriage return and space.
pub open spec fn is_blank_byte(b: u8) -> bool {
    b == 9 || b == 10 || b == 11 || b == 12 || b == 13 || b == 32
}

/// A two-byte UTF-8 white-space encoding: next line (U+0085) or no-break
/// space (U+00A0).
pub open spec fn is_blank_pair(a: u8, b: u8) -> bool {
    a == 0xC2 && (b == 0x85 || b == 0xA0)
}

/// A three-byte UTF-8 white-space encoding: ogham space mark (U+1680), the
/// en quad through hair space range (U+2000 to U+200A), the line and
/// paragraph separators (U+2028, U+2029), narrow no-break space (U+202F),
/// medium mathematical space (U+205F) or ideographic space (U+3000).
pub open spec fn is_blank_triple(a: u8, b: u8, c: u8) -> bool {
    (a == 0xE1 && b == 0x9A && c == 0x80) || (a == 0xE2 && b == 0x80 && (0x80 <= c <= 0x8A || c
        == 0xA8 || c == 0xA9 || c == 0xAF)) || (a == 0xE2 && b == 0x81 && c == 0x9F) || (a == 0xE3
        && b == 0x80 && c == 0x80)
}

/// The length of the white-space encoding at the front of `s`: 0 when `s`
/// does not start with one.  At most one of the three shapes can match, since
/// their lead bytes differ.
pub open spec fn leading_blank_len(s: Seq<u8>) -> nat {
    if s.len() >= 1 && is_blank_byte(s[0]) {
        1
    } else if s.len() >= 2 && is_blank_pair(s[0], s[1]) {
        2
    } else if s.len() >= 3 && is_blank_triple(s[0], s[1], s[2]) {
        3
    } else {
        0
    }
}

/// The length of the white-space encoding at the end of `s`: 0 when `s` does
/// not end with one.
pub open spec fn trailing_blank_len(s: Seq<u8>) -> nat {
    if s.len() >= 1 && is_blank_byte(s.last()) {
        1
    } else if s.len() >= 2 && is_blank_pair(s[s.len() - 2], s[s.len() - 1]) {
        2
    } else if s.len() >= 3 && is_blank_triple(s[s.len() - 3], s[s.len() - 2], s[s.len() - 1]) {
        3
    } else {
        0
    }
}

/// An ASCII upper-case letter mapped to its lower-case form; any other byte
/// unchanged.
pub open spec fn lower_byte(b: u8) -> u8 {
    if 65 <= b <= 90 {
        (b + 32) as u8
    } else {
        b
    }
}

/// A byte string lowercased byte by byte.
pub open spec fn lower_bytes(s: Seq<u8>) -> Seq<u8> {
    s.map_values(|b: u8| lower_byte(b))
}

/// A byte string with every white-space encoding removed from either end.
pub open spec fn trim_bytes(s: Seq<u8>) -> Seq<u8>
    decreases s.len(),
{
    if leading_blank_len(s) > 0 {
        trim_bytes(s.skip(leading_blank_len(s) as int))
    } else if trailing_blank_len(s) > 0 {
        trim_bytes(s.take(s.len() - trailing_blank_len(s)))
    } else {
        s
    }
}

/// The form in which a line is compared against a fingerprint: trimmed, then
/// lowercased.
pub open spec fn normalized(s: Seq<u8>) -> Seq<u8> {
    lower_bytes(trim_bytes(s))
}

/// Executable twin of `is_blank_byte`.
pub fn is_blank(b: u8) -> (r: bool)
    ensures
        r == is_blank_byte(b),
{
    b == 9 || b == 10 || b == 11 || b == 12 || b == 13 || b == 32
}

/// True exactly when the two slices hold the same bytes.
pub fn bytes_eq(a: &[u8], b: &[u8]) -> (r: bool)
    ensures
        r == (a@ == b@),
{
    if a.len() != b.len() {
        return false;
    }
    let mut i: usize = 0;
    while i < a.len()
        invariant
            i <= a.len(),
            a@.len() == b@.len(),
            forall|j: int| 0 <= j < i ==> a@[j] == b@[j],
        decreases a.len() - i,
    {
        if a[i] != b[i] {
            return false;
        }
        i += 1;
    }
    proof {
        assert(a@ =~= b@);
    }
    true
}

/// True exactly when `prefix` is a prefix of `s`.
pub fn bytes_starts_with(s: &[u8], prefix: &[u8]) -> (r: bool)
    ensures
        r == prefix@.is_prefix_of(s@),
{
    if prefix.len() > s.len() {
        return false;
    }
    let mut i: usize = 0;
    while i < prefix.len()
        invariant
            i <= prefix.len(),
            prefix@.len() <= s@.len(),
            forall|j: int| 0 <= j < i ==> prefix@[j] == s@[j],
        decreases prefix.len() - i,
    {
        if prefix[i] != s[i] {
            proof {
                let sub = s@.subrange(0, prefix@.len() as int);
                assert(sub[i as int] == s@[i as int]);
                assert(!(prefix@ =~= sub));
            }
            return false;
        }
        i += 1;
    }
    proof {
        assert(prefix@ =~= s@.subrange(0, prefix@.len() as int));
    }
    true
}

/// Executable twin of `is_blank_pair`.
fn is_blank_pair_bytes(a: u8, b: u8) -> (r: bool)
    ensures
        r == is_blank_pair(a, b),
{
    a == 0xC2 && (b == 0x85 || b == 0xA0)
}

/// Executable twin of `is_blank_triple`.
fn is_blank_triple_bytes(a: u8, b: u8, c: u8) -> (r: bool)
    ensures
        r == is_blank_triple(a, b, c),
{
    (a == 0xE1 && b == 0x9A && c == 0x80) || (a == 0xE2 && b == 0x80 && (0x80 <= c && c <= 0x8A
        || c == 0xA8 || c == 0xA9 || c == 0xAF)) || (a == 0xE2 && b == 0x81 && c == 0x9F) || (a
        == 0xE3 && b == 0x80 && c == 0x80)
}

/// The length of the white-space encoding at position `lo` of the window
/// `line[lo..hi]`.
fn leading_blank_at(line: &[u8], lo: usize, hi: usize) -> (l: usize)
    requires
        lo <= hi <= line@.len(),
    ensures
        l == leading_blank_len(line@.subrange(lo as int, hi as int)),
{
    let n = hi - lo;
    if n >= 1 && is_blank(line[lo]) {
        1
    } else if n >= 2 && is_blank_pair_bytes(line[lo], line[lo + 1]) {
        2
    } else if n >= 3 && is_blank_triple_bytes(line[lo], line[lo + 1], line[lo + 2]) {
        3
    } else {
        0
    }
}

/// The length of the white-space encoding that ends at position `hi` of the
/// window `line[lo..hi]`.
fn trailing_blank_at(line: &[u8], lo: usize, hi: usize) -> (t: usize)
    requires
        lo <= hi <= line@.len(),
    ensures
        t == trailing_blank_len(line@.subrange(lo as int, hi as int)),
{
    let n = hi - lo;
    if n >= 1 && is_blank(line[hi - 1]) {
        1
    } else if n >= 2 && is_blank_pair_bytes(line[hi - 2], line[hi - 1]) {
        2
    } else if n >= 3 && is_blank_triple_bytes(line[hi - 3], line[hi - 2], line[hi - 1]) {
        3
    } else {
        0
    }
}

/// The line with every white-space encoding removed from either end.
pub fn trim_line(line: &[u8]) -> (r: Vec<u8>)
    ensures
        r@ == trim_bytes(line@),
{
    let mut lo: usize = 0;
    let mut hi: usize = line.len();
    proof {
        assert(line@.subrange(0, line@.len() as int) =~= line@);
    }
    while leading_blank_at(line, lo, hi) > 0 || trailing_blank_at(line, lo, hi) > 0
        invariant
            lo <= hi <= line@.len(),
            trim_bytes(line@) == trim_bytes(line@.subrange(lo as int, hi as int)),
        decreases hi - lo,
    {
        let l = leading_blank_at(line, lo, hi);
        if l > 0 {
            proof {
                assert(line@.subrange(lo as int, hi as int).skip(l as int) =~= line@.subrange(
                    lo + l,
                    hi as int,
                ));
            }
            lo += l;
        } else {
            let t = trailing_blank_at(line, lo, hi);
            proof {
                assert(line@.subrange(lo as int, hi as int).take(hi - lo - t) =~= line@.subrange(
                    lo as int,
                    hi - t,
                ));
            }
            hi -= t;
        }
    }
    let mut r: Vec<u8> = Vec::new();
    let mut k: usize = lo;
    while k < hi
        invariant
            lo <= k <= hi <= line.len(),
            r@ =~= line@.subrange(lo as int, k as int),
        decreases hi - k,
    {
        r.push(line[k]);
        proof {
            assert(line@.subrange(lo as int, k + 1) =~= line@.subrange(lo as int, k as int).push(
                line@[k as int],
            ));
        }
        k += 1;
    }
    proof {
        assert(r@ =~= trim_bytes(line@));
    }
    r
}

/// The line lowercased byte by byte.
pub fn lower_line(line: &[u8]) -> (r: Vec<u8>)
    ensures
        r@ == lower_bytes(line@),
{
    let mut r: Vec<u8> = Vec::new();
    let mut i: usize = 0;
    while i < line.len()
        invariant
            i <= line.len(),
            r@ =~= lower_bytes(line@.take(i as int)),
        decreases line.len() - i,
    {
        let b = line[i];
        let folded = if 65 <= b && b <= 90 {
            b + 32
        } else {
            b
        };
        r.push(folded);
        proof {
            assert(line@.take(i + 1) =~= line@.take(i as int).push(line@[i as int]));
            assert(lower_bytes(line@.take(i + 1)) =~= lower_bytes(line@.take(i as int)).push(
                lower_byte(line@[i as int]),
            ));
        }
        i += 1;
    }
    proof {
        assert(line@.take(line@.len() as int) =~= line@);
        assert(r@ =~= lower_bytes(line@));
    }
    r
}

/// The line as the classifier compares it: trimmed, then lowercased.
pub fn normalize_line(line: &[u8]) -> (r: Vec<u8>)
    ensures
        r@ == normalized(line@),
{
    let trimmed = trim_line(line);
    lower_line(trimmed.as_slice())
}

} // verus!
