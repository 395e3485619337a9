//! Substring sniffing on raw bytes.
//!
//! The proxy classifies a connection by looking for short ASCII tokens
//! (`HTTP`, `websocket`, `SSH`) inside the bytes peeked from the client.
//! This module defines what "contains" means on byte sequences, an ASCII
//! case-folding for the case-insensitive check, and verified executable
//! searches for both.

use vstd::prelude::*;

verus! {

/// The needle `n` occurs in the haystack `h` starting at position `i`.
pub open spec fn match_at(h: Seq<u8>, n: Seq<u8>, i: int) -> bool {
    0 <= i && i + n.len() <= h.len() && h.subrange(i, i + n.len()) == n
}

/// The needle `n` occurs somewhere in the haystack `h`.
pub open spec fn contains_seq(h: Seq<u8>, n: Seq<u8>) -> bool {
    exists|i: int| match_at(h, n, i)
}

/// ASCII case folding of one byte: `A`..`Z` map to `a`..`z`, all else is kept.
pub open spec fn lower_byte(b: u8) -> u8 {
    if 65 <= b <= 90 {
        (b + 32) as u8
    } else {
        b
    }
}

/// ASCII case folding of a byte sequence, applied pointwise.
pub open spec fn lower(s: Seq<u8>) -> Seq<u8> {
    s.map_values(|b: u8| lower_byte(b))
}

/// Does `n` occur in `h` starting exactly at index `i`?
fn match_here(h: &[u8], n: &[u8], i: usize) -> (r: bool)
    requires
        i + n@.len() <= h@.len(),
    ensures
        r == match_at(h@, n@, i as int),
{
    let hlen: usize = h.len();
    let mut j: usize = 0;
    while j < n.len()
        invariant
            hlen == h@.len(),
            i + n@.len() <= h@.len(),
            0 <= j <= n@.len(),
            forall|k: int| 0 <= k < j ==> h@[i + k] == n@[k],
        decreases n@.len() - j,
    {
        if h[i + j] != n[j] {
            assert(h@.subrange(i as int, i + n@.len())[j as int] != n@[j as int]);
            return false;
        }
        j += 1;
    }
    assert(h@.subrange(i as int, i + n@.len()) =~= n@);
    true
}

/// Verified substring search: does the needle `n` occur anywhere in `h`?
pub fn contains_subslice(h: &[u8], n: &[u8]) -> (r: bool)
    ensures
        r == contains_seq(h@, n@),
{
    if n.len() > h.len() {
        assert(forall|i: int| !match_at(h@, n@, i));
        return false;
    }
    if n.len() == 0 {
        assert(h@.subrange(0, 0) =~= n@);
        assert(match_at(h@, n@, 0));
        return true;
    }
    let hlen: usize = h.len();
    let nlen: usize = n.len();
    let last: usize = hlen - nlen;
    let mut i: usize = 0;
    while i <= last
        invariant
            hlen == h@.len(),
            nlen == n@.len(),
            1 <= n@.len() <= h@.len(),
            last == h@.len() - n@.len(),
            0 <= i <= last + 1,
            forall|k: int| 0 <= k < i ==> !match_at(h@, n@, k),
        decreases last + 1 - i,
    {
        if match_here(h, n, i) {
            assert(contains_seq(h@, n@));
            return true;
        }
        i += 1;
    }
    assert(forall|k: int| k > last ==> !match_at(h@, n@, k));
    false
}

/// Copy of `h` with every ASCII upper-case byte folded to lower case.
pub fn to_ascii_lower(h: &[u8]) -> (r: Vec<u8>)
    ensures
        r@ == lower(h@),
{
    let mut r: Vec<u8> = Vec::new();
    let mut i: usize = 0;
    while i < h.len()
        invariant
            0 <= i <= h@.len(),
            r@.len() == i,
            forall|k: int| 0 <= k < i ==> r@[k] == lower_byte(h@[k]),
        decreases h@.len() - i,
    {
        let b = h[i];
        if 65 <= b && b <= 90 {
            r.push(b + 32);
        } else {
            r.push(b);
        }
        i += 1;
    }
    assert(r@ =~= lower(h@));
    r
}

/// Appends all of `s` to `v`, in order.
pub fn push_all(v: &mut Vec<u8>, s: &[u8])
    ensures
        final(v)@ == old(v)@ + s@,
{
    let mut i: usize = 0;
    while i < s.len()
        invariant
            0 <= i <= s@.len(),
            v@ == old(v)@ + s@.subrange(0, i as int),
        decreases s@.len() - i,
    {
        v.push(s[i]);
        assert(v@ =~= old(v)@ + s@.subrange(0, i + 1));
        i += 1;
    }
    assert(v@ =~= old(v)@ + s@);
}

/// Case-insensitive (ASCII) substring search.
pub fn contains_subslice_ci(h: &[u8], n: &[u8]) -> (r: bool)
    ensures
        r == contains_seq(lower(h@), lower(n@)),
{
    let hl = to_ascii_lower(h);
    let nl = to_ascii_lower(n);
    contains_subslice(hl.as_slice(), nl.as_slice())
}

/// Case folding preserves containment: wherever `n` occurs in `h`, the
/// folded needle occurs in the folded haystack at the same position.
pub proof fn lemma_contains_lower(h: Seq<u8>, n: Seq<u8>)
    requires
        contains_seq(h, n),
    ensures
        contains_seq(lower(h), lower(n)),
{
    let i = choose|i: int| match_at(h, n, i);
    assert forall|k: int| 0 <= k < n.len() implies lower(h)[i + k] == lower(n)[k] by {
        assert(h.subrange(i, i + n.len())[k] == h[i + k]);
    }
    assert(lower(h).subrange(i, i + lower(n).len()) =~= lower(n));
    assert(match_at(lower(h), lower(n), i));
}

/// Casing never hides a token: if the haystack contains any variant `v` of
/// the needle `n` that folds to the same bytes, the case-insensitive search
/// finds the needle.
pub proof fn lemma_any_casing_found(h: Seq<u8>, v: Seq<u8>, n: Seq<u8>)
    requires
        contains_seq(h, v),
        lower(v) == lower(n),
    ensures
        contains_seq(lower(h), lower(n)),
{
    lemma_contains_lower(h, v);
}

/// The bytes of `HTTP`, the case-sensitive marker of an HTTP-like preamble.
pub open spec fn http_token() -> Seq<u8> {
    seq![72u8, 84u8, 84u8, 80u8]
}

/// The bytes of `websocket`, matched case-insensitively in the preamble.
pub open spec fn websocket_token() -> Seq<u8> {
    seq![119u8, 101u8, 98u8, 115u8, 111u8, 99u8, 107u8, 101u8, 116u8]
}

/// The bytes of `SSH`, the marker of an SSH client banner.
pub open spec fn ssh_token() -> Seq<u8> {
    seq![83u8, 83u8, 72u8]
}

/// Executable copy of the `HTTP` token.
pub fn http_needle() -> (v: Vec<u8>)
    ensures
        v@ == http_token(),
{
    let mut v: Vec<u8> = Vec::new();
    v.push(72);
    v.push(84);
    v.push(84);
    v.push(80);
    assert(v@ =~= http_token());
    v
}

/// Executable copy of the `websocket` token.
pub fn websocket_needle() -> (v: Vec<u8>)
    ensures
        v@ == websocket_token(),
{
    let mut v: Vec<u8> = Vec::new();
    v.push(119);
    v.push(101);
    v.push(98);
    v.push(115);
    v.push(111);
    v.push(99);
    v.push(107);
    v.push(101);
    v.push(116);
    assert(v@ =~= websocket_token());
    v
}

/// Executable copy of the `SSH` token.
pub fn ssh_needle() -> (v: Vec<u8>)
    ensures
        v@ == ssh_token(),
{
    let mut v: Vec<u8> = Vec::new();
    v.push(83);
    v.push(83);
    v.push(72);
    assert(v@ =~= ssh_token());
    v
}

} // verus!
