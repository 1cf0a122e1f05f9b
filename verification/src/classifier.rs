//! Pure classification of one output line: does it indicate that the backend
//! has finished starting up? Readiness is declared when a line contains one
//! of a fixed set of case-sensitive marker substrings taken from the
//! backend's known startup log messages. The marker set is a versioned
//! contract with the supervised backend: if its logging format changes, the
//! markers must be revisited.

use vstd::prelude::*;

verus! {

/// Which of the child's two output streams a line arrived on.
#[derive(Clone, Copy, PartialEq, Eq, Structural, Debug)]
pub enum StreamOrigin {
    Stdout,
    Stderr,
}

/// `needle` occurs in `hay` starting at position `i`.
pub open spec fn seq_contains_at(hay: Seq<char>, needle: Seq<char>, i: int) -> bool {
    0 <= i && i + needle.len() <= hay.len() && hay.subrange(i, i + needle.len()) == needle
}

/// `needle` occurs somewhere in `hay`.
pub open spec fn seq_contains(hay: Seq<char>, needle: Seq<char>) -> bool {
    exists|i: int| seq_contains_at(hay, needle, i)
}

/// The line indicates readiness for its origin stream. Standard output
/// matches the full marker set; standard error only the narrower subset,
/// because some environments route benign startup confirmations there while
/// genuine errors must not be mistaken for readiness.
pub open spec fn spec_line_indicates_readiness(line: Seq<char>, origin: StreamOrigin) -> bool {
    match origin {
        StreamOrigin::Stdout => seq_contains(line, "Application startup complete"@)
            || seq_contains(line, "Uvicorn running on"@)
            || seq_contains(line, "Started server process"@)
            || seq_contains(line, "on port"@),
        StreamOrigin::Stderr => seq_contains(line, "on port"@)
            || seq_contains(line, "Uvicorn running"@),
    }
}

/// `needle` occurs in `hay` starting exactly at `i`.
fn matches_at(hay: &str, needle: &str, i: usize) -> (r: bool)
    requires
        i + needle@.len() <= hay@.len(),
        hay@.len() <= usize::MAX,
    ensures
        r == seq_contains_at(hay@, needle@, i as int),
{
    let needle_len: usize = needle.unicode_len();
    let mut j: usize = 0;
    while j < needle_len
        invariant
            j <= needle_len,
            needle_len == needle@.len(),
            i + needle_len <= hay@.len() <= usize::MAX,
            forall|k: int| 0 <= k < j ==> hay@[i + k] == needle@[k],
        decreases needle_len - j,
    {
        if hay.get_char(i + j) != needle.get_char(j) {
            assert(!seq_contains_at(hay@, needle@, i as int)) by {
                if seq_contains_at(hay@, needle@, i as int) {
                    assert(hay@.subrange(i as int, i + needle@.len())[j as int]
                        == needle@[j as int]);
                }
            }
            return false;
        }
        j += 1;
    }
    assert(hay@.subrange(i as int, i + needle@.len()) =~= needle@);
    true
}

/// Whether `needle` occurs anywhere in `hay`, by characters.
pub fn contains_substring(hay: &str, needle: &str) -> (r: bool)
    ensures
        r == seq_contains(hay@, needle@),
{
    let hay_len: usize = hay.unicode_len();
    let needle_len: usize = needle.unicode_len();
    if needle_len > hay_len {
        assert(forall|k: int| !seq_contains_at(hay@, needle@, k));
        return false;
    }
    if needle_len == 0 {
        assert(seq_contains_at(hay@, needle@, 0)) by {
            assert(hay@.subrange(0, 0) =~= needle@);
        }
        return true;
    }
    let mut i: usize = 0;
    while i <= hay_len - needle_len
        invariant
            1 <= needle_len <= hay_len,
            hay_len == hay@.len(),
            needle_len == needle@.len(),
            i <= hay_len - needle_len + 1,
            forall|k: int| 0 <= k < i ==> !seq_contains_at(hay@, needle@, k),
        decreases hay_len - needle_len + 1 - i,
    {
        if matches_at(hay, needle, i) {
            return true;
        }
        i += 1;
    }
    assert(forall|k: int| !seq_contains_at(hay@, needle@, k));
    false
}

/// LineClassifier: pure and stateless. Maps a decoded line and its origin
/// stream to "this line indicates readiness".
pub fn classify_line(line: &str, origin: StreamOrigin) -> (r: bool)
    ensures
        r == spec_line_indicates_readiness(line@, origin),
{
    match origin {
        StreamOrigin::Stdout => contains_substring(line, "Application startup complete")
            || contains_substring(line, "Uvicorn running on") || contains_substring(
            line,
            "Started server process",
        ) || contains_substring(line, "on port"),
        StreamOrigin::Stderr => contains_substring(line, "on port") || contains_substring(
            line,
            "Uvicorn running",
        ),
    }
}

/// A standard-error line indicates readiness exactly when it contains one of
/// the two narrow error-stream markers; the remaining standard-output markers
/// carry no weight on standard error.
pub proof fn lemma_stderr_markers_are_narrow(line: Seq<char>)
    ensures
        spec_line_indicates_readiness(line, StreamOrigin::Stderr) <==> (seq_contains(
            line,
            "on port"@,
        ) || seq_contains(line, "Uvicorn running"@)),
{
}

} // verus!
