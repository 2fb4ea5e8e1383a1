//! Byte-string helpers shared by the key-name and binding parsers: ASCII
//! lowercasing, equality, searching, trimming and splitting.

use vstd::prelude::*;

verus! {

/// ASCII whitespace as the trimming below understands it.
pub open spec fn spec_is_ws(b: u8) -> bool {
    b == 32 || b == 9 || b == 10 || b == 13
}

pub fn is_ws(b: u8) -> (r: bool)
    ensures
        r == spec_is_ws(b),
{
    b == 32 || b == 9 || b == 10 || b == 13
}

/// ASCII lowercase of one byte.
pub open spec fn spec_lower(b: u8) -> u8 {
    if 65 <= b <= 90 {
        (b + 32) as u8
    } else {
        b
    }
}

pub fn lower(b: u8) -> (r: u8)
    ensures
        r == spec_lower(b),
{
    if 65 <= b && b <= 90 {
        b + 32
    } else {
        b
    }
}

/// The sequence with every byte ASCII-lowercased.
pub open spec fn spec_lower_seq(s: Seq<u8>) -> Seq<u8> {
    s.map_values(|b: u8| spec_lower(b))
}

/// ASCII-lowercase a byte slice into a fresh vector.
pub fn lower_vec(s: &[u8]) -> (r: Vec<u8>)
    ensures
        r@ == spec_lower_seq(s@),
{
    let mut v: Vec<u8> = Vec::new();
    let mut i: usize = 0;
    while i < s.len()
        invariant
            i <= s.len(),
            v@ =~= spec_lower_seq(s@.take(i as int)),
        decreases s.len() - i,
    {
        v.push(lower(s[i]));
        proof {
            assert(v@ =~= spec_lower_seq(s@.take(i + 1)));
        }
        i += 1;
    }
    proof {
        assert(s@.take(s@.len() as int) =~= s@);
    }
    v
}

/// Two byte slices hold the same bytes.
pub fn bytes_eq(a: &[u8], b: &[u8]) -> (r: bool)
    ensures
        r == (a@ == b@),
{
    if a.len() != b.len() {
        assert(a@ != b@);
        return false;
    }
    let mut i: usize = 0;
    while i < a.len()
        invariant
            i <= a.len(),
            a@.len() == b@.len(),
            forall|k: int| 0 <= k < i ==> a@[k] == b@[k],
        decreases a.len() - i,
    {
        if a[i] != b[i] {
            return false;
        }
        i += 1;
    }
    proof {
        assert(a@ =~= b@);
    }
    true
}

/// Index of the first occurrence of `b` in `s`, if any.
pub open spec fn spec_find(s: Seq<u8>, b: u8) -> Option<int>
    decreases s.len(),
{
    if s.len() == 0 {
        None
    } else if s[0] == b {
        Some(0)
    } else {
        match spec_find(s.skip(1), b) {
            Some(i) => Some(i + 1),
            None => None,
        }
    }
}

/// What `spec_find` returns, characterized directly: the least index
/// holding `b`, or `None` when no index does.
pub proof fn lemma_find_char(s: Seq<u8>, b: u8)
    ensures
        match spec_find(s, b) {
            Some(i) => 0 <= i < s.len() && s[i] == b && forall|k: int| 0 <= k < i ==> s[k] != b,
            None => forall|k: int| 0 <= k < s.len() ==> s[k] != b,
        },
    decreases s.len(),
{
    if s.len() > 0 && s[0] != b {
        lemma_find_char(s.skip(1), b);
        match spec_find(s.skip(1), b) {
            Some(i) => {
                assert(forall|k: int| 1 <= k < i + 1 ==> s[k] == s.skip(1)[k - 1]);
            },
            None => {
                assert(forall|k: int| 1 <= k < s.len() ==> s[k] == s.skip(1)[k - 1]);
            },
        }
    }
}

/// Find the first occurrence of `b` in `s`.
pub fn find_byte(s: &[u8], b: u8) -> (r: Option<usize>)
    ensures
        match r {
            Some(i) => spec_find(s@, b) == Some(i as int),
            None => spec_find(s@, b) is None,
        },
{
    proof {
        lemma_find_char(s@, b);
    }
    let mut i: usize = 0;
    while i < s.len()
        invariant
            i <= s.len(),
            forall|k: int| 0 <= k < i ==> s@[k] != b,
        decreases s.len() - i,
    {
        if s[i] == b {
            proof {
                lemma_find_char(s@, b);
            }
            return Some(i);
        }
        i += 1;
    }
    None
}

/// Number of leading whitespace bytes.
pub open spec fn spec_trim_start(s: Seq<u8>) -> int
    decreases s.len(),
{
    if s.len() == 0 {
        0
    } else if spec_is_ws(s[0]) {
        1 + spec_trim_start(s.skip(1))
    } else {
        0
    }
}

/// Length of `s` without its trailing whitespace bytes.
pub open spec fn spec_trim_end(s: Seq<u8>) -> int
    decreases s.len(),
{
    if s.len() == 0 {
        0
    } else if spec_is_ws(s[s.len() - 1]) {
        spec_trim_end(s.drop_last())
    } else {
        s.len() as int
    }
}

/// `s` without leading and trailing ASCII whitespace.
pub open spec fn spec_trim(s: Seq<u8>) -> Seq<u8> {
    if spec_trim_start(s) >= spec_trim_end(s) {
        Seq::empty()
    } else {
        s.subrange(spec_trim_start(s), spec_trim_end(s))
    }
}

pub proof fn lemma_trim_start_char(s: Seq<u8>)
    ensures
        0 <= spec_trim_start(s) <= s.len(),
        forall|k: int| 0 <= k < spec_trim_start(s) ==> spec_is_ws(s[k]),
        spec_trim_start(s) < s.len() ==> !spec_is_ws(s[spec_trim_start(s)]),
    decreases s.len(),
{
    if s.len() > 0 && spec_is_ws(s[0]) {
        lemma_trim_start_char(s.skip(1));
        assert(forall|k: int| 1 <= k < s.len() ==> s[k] == s.skip(1)[k - 1]);
    }
}

pub proof fn lemma_trim_end_char(s: Seq<u8>)
    ensures
        0 <= spec_trim_end(s) <= s.len(),
        forall|k: int| spec_trim_end(s) <= k < s.len() ==> spec_is_ws(s[k]),
        spec_trim_end(s) > 0 ==> !spec_is_ws(s[spec_trim_end(s) - 1]),
    decreases s.len(),
{
    if s.len() > 0 && spec_is_ws(s[s.len() - 1]) {
        lemma_trim_end_char(s.drop_last());
        assert(forall|k: int| 0 <= k < s.len() - 1 ==> s[k] == s.drop_last()[k]);
    }
}

/// Whenever some byte is not whitespace, the trimmed range is nonempty and
/// ordered: start strictly below end.
pub proof fn lemma_trim_nonempty(s: Seq<u8>)
    ensures
        spec_trim_start(s) < spec_trim_end(s) || (forall|k: int|
            0 <= k < s.len() ==> spec_is_ws(s[k])),
{
    lemma_trim_start_char(s);
    lemma_trim_end_char(s);
    let a = spec_trim_start(s);
    let e = spec_trim_end(s);
    if a >= e {
        assert forall|k: int| 0 <= k < s.len() implies spec_is_ws(s[k]) by {
            if k < a {
            } else {
                assert(k >= e);
            }
        }
    }
}

/// The trimmed copy of a byte slice.
pub fn trim(s: &[u8]) -> (r: Vec<u8>)
    ensures
        r@ == spec_trim(s@),
{
    proof {
        lemma_trim_start_char(s@);
        lemma_trim_end_char(s@);
        lemma_trim_nonempty(s@);
    }
    let mut a: usize = 0;
    while a < s.len() && is_ws(s[a])
        invariant
            a <= s.len(),
            forall|k: int| 0 <= k < a ==> spec_is_ws(s@[k]),
            a <= spec_trim_start(s@),
        decreases s.len() - a,
    {
        proof {
            lemma_trim_start_char(s@);
        }
        a += 1;
    }
    proof {
        assert(a == spec_trim_start(s@));
    }
    let mut e: usize = s.len();
    while e > a && is_ws(s[e - 1])
        invariant
            a <= e <= s.len(),
            forall|k: int| e <= k < s.len() ==> spec_is_ws(s@[k]),
            a == spec_trim_start(s@),
            e >= spec_trim_end(s@),
        decreases e,
    {
        proof {
            lemma_trim_end_char(s@);
        }
        e -= 1;
    }
    proof {
        if a < e {
            assert(e == spec_trim_end(s@));
        }
    }
    let mut v: Vec<u8> = Vec::new();
    let mut i: usize = a;
    while i < e
        invariant
            a <= i <= e <= s.len(),
            v@ =~= s@.subrange(a as int, i as int),
        decreases e - i,
    {
        v.push(s[i]);
        proof {
            assert(v@ =~= s@.subrange(a as int, i + 1));
        }
        i += 1;
    }
    proof {
        if a < e {
            assert(v@ =~= spec_trim(s@));
        } else {
            assert(v@ =~= spec_trim(s@));
        }
    }
    v
}

/// `pre` is a prefix of `s`.
pub open spec fn spec_starts_with(s: Seq<u8>, pre: Seq<u8>) -> bool {
    pre.len() <= s.len() && s.take(pre.len() as int) == pre
}

pub fn starts_with(s: &[u8], pre: &[u8]) -> (r: bool)
    ensures
        r == spec_starts_with(s@, pre@),
{
    if pre.len() > s.len() {
        return false;
    }
    let head = &s[0..pre.len()];
    bytes_eq(head, pre)
}

/// `suf` is a suffix of `s`.
pub open spec fn spec_ends_with(s: Seq<u8>, suf: Seq<u8>) -> bool {
    suf.len() <= s.len() && s.skip(s.len() - suf.len()) == suf
}

pub fn ends_with(s: &[u8], suf: &[u8]) -> (r: bool)
    ensures
        r == spec_ends_with(s@, suf@),
{
    if suf.len() > s.len() {
        return false;
    }
    let tail = &s[s.len() - suf.len()..s.len()];
    bytes_eq(tail, suf)
}


/// The UTF-8 bytes of an owned string.
pub fn str_bytes(s: &String) -> (r: &[u8])
    ensures
        r@ == vstd::utf8::encode_utf8(s@),
{
    s.as_str().as_bytes()
}

} // verus!
