//! Byte-level helpers for the newline-terminated wire lines.
//!
//! Lines arrive with their terminator and possibly surrounding whitespace;
//! the protocol functions work on the trimmed payload. Trimming is specified
//! by recursion on the sequence so that the callers' contracts can speak of
//! the exact trimmed value.

use vstd::prelude::*;

verus! {

/// ASCII whitespace as far as wire lines are concerned: space, tab,
/// line feed, carriage return.
pub open spec fn is_ascii_ws(b: u8) -> bool {
    b == 32 || b == 9 || b == 10 || b == 13
}

/// `s` with every leading ASCII whitespace byte removed.
pub open spec fn trim_start_spec(s: Seq<u8>) -> Seq<u8>
    decreases s.len(),
{
    if s.len() > 0 && is_ascii_ws(s[0]) {
        trim_start_spec(s.skip(1))
    } else {
        s
    }
}

/// `s` with every trailing ASCII whitespace byte removed.
pub open spec fn trim_end_spec(s: Seq<u8>) -> Seq<u8>
    decreases s.len(),
{
    if s.len() > 0 && is_ascii_ws(s[s.len() - 1]) {
        trim_end_spec(s.take(s.len() - 1))
    } else {
        s
    }
}

/// `s` with whitespace removed from both ends.
pub open spec fn trim_spec(s: Seq<u8>) -> Seq<u8> {
    trim_end_spec(trim_start_spec(s))
}

/// Removing leading whitespace keeps a suffix of the sequence.
proof fn lemma_trim_start_as_skip(s: Seq<u8>, i: int)
    requires
        0 <= i <= s.len(),
        forall|j: int| 0 <= j < i ==> is_ascii_ws(s[j]),
        i < s.len() ==> !is_ascii_ws(s[i]),
    ensures
        trim_start_spec(s) == s.skip(i),
    decreases i,
{
    if i == 0 {
        assert(s.skip(0) =~= s);
    } else {
        lemma_trim_start_as_skip(s.skip(1), i - 1);
        assert(s.skip(1).skip(i - 1) =~= s.skip(i));
    }
}

/// Removing trailing whitespace keeps a prefix of the sequence.
proof fn lemma_trim_end_as_take(s: Seq<u8>, i: int)
    requires
        0 <= i <= s.len(),
        forall|j: int| i <= j < s.len() ==> is_ascii_ws(s[j]),
        i > 0 ==> !is_ascii_ws(s[i - 1]),
    ensures
        trim_end_spec(s) == s.take(i),
    decreases s.len() - i,
{
    if i == s.len() {
        assert(s.take(i) =~= s);
    } else {
        lemma_trim_end_as_take(s.take(s.len() - 1), i);
        assert(s.take(s.len() - 1).take(i) =~= s.take(i));
    }
}

/// A sequence without any whitespace byte trims to itself.
pub proof fn lemma_trim_of_clean(s: Seq<u8>)
    requires
        forall|j: int| 0 <= j < s.len() ==> !is_ascii_ws(s[j]),
    ensures
        trim_spec(s) == s,
{
    lemma_trim_start_as_skip(s, 0);
    assert(s.skip(0) =~= s);
    lemma_trim_end_as_take(s, s.len() as int);
    assert(s.take(s.len() as int) =~= s);
}

/// Whether a byte is ASCII whitespace.
fn is_ws_byte(b: u8) -> (r: bool)
    ensures
        r == is_ascii_ws(b),
{
    b == 32 || b == 9 || b == 10 || b == 13
}

/// Remove ASCII whitespace from both ends of a byte string.
pub fn trim_bytes(s: &[u8]) -> (r: Vec<u8>)
    ensures
        r@ == trim_spec(s@),
{
    let mut start: usize = 0;
    while start < s.len() && is_ws_byte(*vstd::slice::slice_index_get(s, start))
        invariant
            0 <= start <= s@.len(),
            forall|j: int| 0 <= j < start ==> is_ascii_ws(s@[j]),
        decreases s@.len() - start,
    {
        start += 1;
    }
    let mut end: usize = s.len();
    while end > start && is_ws_byte(*vstd::slice::slice_index_get(s, end - 1))
        invariant
            start <= end <= s@.len(),
            forall|j: int| 0 <= j < start ==> is_ascii_ws(s@[j]),
            forall|j: int| end <= j < s@.len() ==> is_ascii_ws(s@[j]),
        decreases end,
    {
        end -= 1;
    }
    let r = vstd::slice::slice_to_vec(vstd::slice::slice_subrange(s, start, end));
    proof {
        lemma_trim_start_as_skip(s@, start as int);
        let t = s@.skip(start as int);
        lemma_trim_end_as_take(t, end - start);
        assert(t.take(end - start) =~= s@.subrange(start as int, end as int));
    }
    r
}

/// A whitespace-free sequence with a newline appended trims back to
/// itself: exactly what happens to a wire line between writer and reader.
pub proof fn lemma_trim_clean_line(s: Seq<u8>)
    requires
        forall|j: int| 0 <= j < s.len() ==> !is_ascii_ws(s[j]),
    ensures
        trim_spec(s + seq![10u8]) == s,
{
    let t = s + seq![10u8];
    if s.len() == 0 {
        assert(t =~= seq![10u8]);
        assert(trim_start_spec(t) == trim_start_spec(t.skip(1)));
        assert(t.skip(1) =~= s);
        assert(trim_end_spec(s) == s);
    } else {
        assert(!is_ascii_ws(t[0]));
        assert(trim_start_spec(t) == t);
        assert(is_ascii_ws(t[t.len() - 1]));
        assert(trim_end_spec(t) == trim_end_spec(t.take(t.len() - 1)));
        assert(t.take(t.len() - 1) =~= s);
        lemma_trim_end_as_take(s, s.len() as int);
        assert(s.take(s.len() as int) =~= s);
    }
}

/// Trimming the end never lengthens a sequence.
pub proof fn lemma_trim_end_le(s: Seq<u8>)
    ensures
        trim_end_spec(s).len() <= s.len(),
    decreases s.len(),
{
    if s.len() > 0 && is_ascii_ws(s[s.len() - 1]) {
        lemma_trim_end_le(s.take(s.len() - 1));
    }
}

/// Remove ASCII whitespace from the end of a byte string only.
pub fn trim_end_bytes(s: &[u8]) -> (r: Vec<u8>)
    ensures
        r@ == trim_end_spec(s@),
{
    let mut end: usize = s.len();
    while end > 0 && is_ws_byte(*vstd::slice::slice_index_get(s, end - 1))
        invariant
            0 <= end <= s@.len(),
            forall|j: int| end <= j < s@.len() ==> is_ascii_ws(s@[j]),
        decreases end,
    {
        end -= 1;
    }
    let r = vstd::slice::slice_to_vec(vstd::slice::slice_subrange(s, 0, end));
    proof {
        lemma_trim_end_as_take(s@, end as int);
        assert(s@.take(end as int) =~= s@.subrange(0, end as int));
    }
    r
}

/// Whether two byte strings hold the same bytes.
pub fn bytes_eq(a: &[u8], b: &[u8]) -> (r: bool)
    ensures
        r <==> a@ == b@,
{
    if a.len() != b.len() {
        proof {
            assert(a@ != b@);
        }
        return false;
    }
    let mut i: usize = 0;
    while i < a.len()
        invariant
            a@.len() == b@.len(),
            0 <= i <= a@.len(),
            forall|j: int| 0 <= j < i ==> a@[j] == b@[j],
        decreases a@.len() - i,
    {
        if *vstd::slice::slice_index_get(a, i) != *vstd::slice::slice_index_get(b, i) {
            proof {
                assert(a@[i as int] != b@[i as int]);
            }
            return false;
        }
        i += 1;
    }
    proof {
        assert(a@ =~= b@);
    }
    true
}

} // verus!
