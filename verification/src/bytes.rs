//! Verified helpers on byte and character data: slice equality, string
//! equality, substring search, and normalization of big-endian integer bytes.

use vstd::prelude::*;

verus! {

/// Compares two byte slices for equality.
pub fn bytes_eq(a: &[u8], b: &[u8]) -> (r: bool)
    ensures
        r == (a@ == b@),
{
    if a.len() != b.len() {
        return false;
    }
    let n = a.len();
    let mut i: usize = 0;
    while i < n
        invariant
            n == a@.len() && n == b@.len(),
            i <= n,
            forall|j: int| 0 <= j < i ==> a@[j] == b@[j],
        decreases n - i,
    {
        if a[i] != b[i] {
            return false;
        }
        i += 1;
    }
    proof {
        assert(a@ =~= b@);
    }
    true
}

/// Compares two strings for equality by their UTF-8 bytes.
pub fn str_eq(a: &str, b: &str) -> (r: bool)
    ensures
        r == (a@ == b@),
{
    let r = bytes_eq(a.as_bytes(), b.as_bytes());
    proof {
        if r {
            vstd::utf8::encode_utf8_decode_utf8(a@);
            vstd::utf8::encode_utf8_decode_utf8(b@);
        }
    }
    r
}

/// True when `needle` occurs in `haystack` starting at index `i`.
pub open spec fn is_match_at(haystack: Seq<u8>, needle: Seq<u8>, i: int) -> bool {
    0 <= i && i + needle.len() <= haystack.len() && haystack.subrange(i, i + needle.len() as int)
        == needle
}

/// True when `needle` occurs somewhere in `haystack`.
pub open spec fn contains_seq(haystack: Seq<u8>, needle: Seq<u8>) -> bool {
    exists|i: int| is_match_at(haystack, needle, i)
}

/// Searches `haystack` for `needle` as a contiguous subrange.
pub fn contains_bytes(haystack: &[u8], needle: &[u8]) -> (r: bool)
    ensures
        r == contains_seq(haystack@, needle@),
{
    let hn = haystack.len();
    let nn = needle.len();
    if nn > hn {
        return false;
    }
    if nn == 0 {
        proof {
            assert(haystack@.subrange(0, 0) =~= needle@);
            assert(is_match_at(haystack@, needle@, 0));
        }
        return true;
    }
    let last = hn - nn;
    let mut i: usize = 0;
    while i <= last
        invariant
            hn == haystack@.len(),
            nn == needle@.len(),
            1 <= nn <= hn,
            last == hn - nn,
            i <= last + 1,
            forall|k: int| 0 <= k < i ==> !is_match_at(haystack@, needle@, k),
        decreases last + 1 - i,
    {
        let window = vstd::slice::slice_subrange(haystack, i, i + nn);
        if bytes_eq(window, needle) {
            proof {
                assert(is_match_at(haystack@, needle@, i as int));
            }
            return true;
        }
        i += 1;
    }
    proof {
        assert forall|k: int| !is_match_at(haystack@, needle@, k) by {
            if 0 <= k && k + needle@.len() <= haystack@.len() {
                assert(k < i);
            }
        }
    }
    false
}

/// `s` with every leading zero byte removed.
pub open spec fn strip_spec(s: Seq<u8>) -> Seq<u8>
    decreases s.len(),
{
    if s.len() == 0 {
        s
    } else if s[0] == 0 {
        strip_spec(s.drop_first())
    } else {
        s
    }
}

/// True when `s` is a normalized big-endian integer: empty or without a
/// leading zero byte.
pub open spec fn no_leading_zero(s: Seq<u8>) -> bool {
    s.len() == 0 || s[0] != 0
}

/// Stripping is the identity on already-normalized sequences.
pub proof fn lemma_strip_normalized(s: Seq<u8>)
    requires
        no_leading_zero(s),
    ensures
        strip_spec(s) == s,
{
}

/// The result of stripping never starts with a zero byte.
pub proof fn lemma_strip_no_leading_zero(s: Seq<u8>)
    ensures
        no_leading_zero(strip_spec(s)),
    decreases s.len(),
{
    if s.len() > 0 && s[0] == 0 {
        lemma_strip_no_leading_zero(s.drop_first());
    }
}

proof fn lemma_strip_prefix_zeros(s: Seq<u8>, i: int)
    requires
        0 <= i <= s.len(),
        forall|j: int| 0 <= j < i ==> s[j] == 0,
        i == s.len() || s[i] != 0,
    ensures
        strip_spec(s) == s.skip(i),
    decreases i,
{
    if i == 0 {
        assert(s.skip(0) =~= s);
    } else {
        assert(s[0] == 0);
        lemma_strip_prefix_zeros(s.drop_first(), i - 1);
        assert(s.drop_first().skip(i - 1) =~= s.skip(i));
    }
}

/// Removes every leading zero byte of `v`.
pub fn strip_leading_zeros(v: &[u8]) -> (r: Vec<u8>)
    ensures
        r@ == strip_spec(v@),
        no_leading_zero(r@),
{
    let mut i: usize = 0;
    while i < v.len() && v[i] == 0
        invariant
            i <= v@.len(),
            forall|j: int| 0 <= j < i ==> v@[j] == 0,
        decreases v@.len() - i,
    {
        i += 1;
    }
    proof {
        lemma_strip_prefix_zeros(v@, i as int);
    }
    let tail = vstd::slice::slice_subrange(v, i, v.len());
    let r = vstd::slice::slice_to_vec(tail);
    proof {
        assert(tail@ =~= v@.skip(i as int));
        lemma_strip_no_leading_zero(v@);
    }
    r
}

/// The number of significant bits of one byte.
pub open spec fn u8_bit_len(b: u8) -> nat {
    if b >= 0x80 {
        8
    } else if b >= 0x40 {
        7
    } else if b >= 0x20 {
        6
    } else if b >= 0x10 {
        5
    } else if b >= 0x08 {
        4
    } else if b >= 0x04 {
        3
    } else if b >= 0x02 {
        2
    } else if b >= 0x01 {
        1
    } else {
        0
    }
}

/// The bit length of a big-endian integer in minimal form: significant
/// bits of the leading byte, then eight per remaining byte.
pub open spec fn bit_len_spec(s: Seq<u8>) -> nat {
    if s.len() == 0 {
        0
    } else {
        (u8_bit_len(s[0]) + 8 * (s.len() - 1)) as nat
    }
}

/// Stripping never lengthens a sequence.
pub proof fn lemma_strip_len(s: Seq<u8>)
    ensures
        strip_spec(s).len() <= s.len(),
    decreases s.len(),
{
    if s.len() > 0 && s[0] == 0 {
        lemma_strip_len(s.drop_first());
    }
}

/// `s` left-padded with zero bytes up to length `n`; `s` itself when it is
/// already at least that long.
pub open spec fn pad_spec(s: Seq<u8>, n: nat) -> Seq<u8> {
    if s.len() >= n {
        s
    } else {
        Seq::new((n - s.len()) as nat, |i: int| 0u8) + s
    }
}

/// Left-pads `v` with zero bytes to length `n`.
pub fn left_pad(v: &[u8], n: usize) -> (r: Vec<u8>)
    ensures
        r@ == pad_spec(v@, n as nat),
{
    let mut r: Vec<u8> = Vec::new();
    if v.len() < n {
        let pad = n - v.len();
        let mut i: usize = 0;
        while i < pad
            invariant
                i <= pad,
                r@ =~= Seq::new(i as nat, |k: int| 0u8),
            decreases pad - i,
        {
            r.push(0u8);
            i += 1;
        }
    }
    let mut j: usize = 0;
    let ghost base = r@;
    while j < v.len()
        invariant
            j <= v@.len(),
            r@ =~= base + v@.subrange(0, j as int),
        decreases v@.len() - j,
    {
        r.push(v[j]);
        j += 1;
    }
    proof {
        assert(v@.subrange(0, v@.len() as int) =~= v@);
        if v@.len() >= n as nat {
            assert(base =~= Seq::<u8>::empty());
            assert(r@ =~= v@);
        } else {
            assert(r@ =~= pad_spec(v@, n as nat));
        }
    }
    r
}

/// Padding the stripped form of `s` back to the length of `s` restores `s`
/// exactly: normalization loses nothing but the zero prefix it removes.
pub proof fn lemma_pad_strip_identity(s: Seq<u8>)
    ensures
        pad_spec(strip_spec(s), s.len() as nat) == s,
    decreases s.len(),
{
    lemma_strip_len(s);
    if s.len() == 0 {
        assert(pad_spec(strip_spec(s), 0) =~= s);
    } else if s[0] == 0 {
        let t = s.drop_first();
        let u = strip_spec(t);
        lemma_pad_strip_identity(t);
        lemma_strip_len(t);
        assert(strip_spec(s) == u);
        assert(s =~= seq![0u8] + t);
        if u.len() == t.len() {
            assert(u =~= t);
            assert(pad_spec(u, s.len() as nat) =~= s);
        } else {
            assert(t =~= Seq::new((t.len() - u.len()) as nat, |i: int| 0u8) + u);
            assert(pad_spec(u, s.len() as nat) =~= s);
        }
    } else {
        assert(pad_spec(s, s.len() as nat) =~= s);
    }
}

} // verus!
