//! Release version comparison for the update check. The network fetch and
//! the installer run are the host's business; the semantic-version
//! ordering is decided here.

use vstd::prelude::*;
use vstd::string::StringSliceAdditionalSpecFns;

use crate::bytes::{spec_find, find_byte};

verus! {

/// The value of a decimal byte string, or None when empty or non-decimal.
pub open spec fn spec_parse_u32(s: Seq<u8>) -> Option<u32>
    decreases s.len(),
{
    if s.len() == 0 {
        None
    } else if s.len() == 1 {
        if 48 <= s[0] <= 57 {
            Some((s[0] - 48) as u32)
        } else {
            None
        }
    } else {
        match spec_parse_u32(s.take(s.len() - 1)) {
            None => None,
            Some(hi) => if 48 <= s[s.len() - 1] <= 57 && hi <= 429_496_728 {
                Some((hi * 10 + (s[s.len() - 1] - 48)) as u32)
            } else {
                None
            },
        }
    }
}

/// Parse a decimal number; overlong or non-decimal input gives None.
pub fn parse_u32(s: &[u8]) -> (r: Option<u32>)
    ensures
        r == spec_parse_u32(s@),
{
    if s.len() == 0 {
        return None;
    }
    let mut i: usize = 0;
    let mut acc: u32 = 0;
    let mut ok = true;
    while i < s.len()
        invariant
            i <= s.len(),
            1 <= s@.len(),
            i == 0 ==> ok && acc == 0,
            if ok {
                i > 0 ==> spec_parse_u32(s@.take(i as int)) == Some(acc)
            } else {
                i > 0 && spec_parse_u32(s@.take(i as int)) is None
            },
        decreases s.len() - i,
    {
        let b = s[i];
        proof {
            assert(s@.take(i + 1).take(i as int) =~= s@.take(i as int));
            assert(s@.take(i + 1)[i as int] == s@[i as int]);
        }
        if ok && 48 <= b && b <= 57 && acc <= 429_496_728 {
            acc = acc * 10 + ((b - 48) as u32);
        } else {
            ok = false;
        }
        i += 1;
    }
    proof {
        assert(s@.take(s@.len() as int) =~= s@);
    }
    if ok {
        Some(acc)
    } else {
        None
    }
}

/// The `major.minor.patch` triple of a version string, or None when the
/// string is not exactly three decimal fields.
pub open spec fn spec_semver(s: Seq<u8>) -> Option<(u32, u32, u32)> {
    match spec_find(s, 46) {
        None => None,
        Some(i) => {
            let rest = s.skip(i + 1);
            match spec_find(rest, 46) {
                None => None,
                Some(j) => {
                    if spec_find(rest.skip(j + 1), 46) is Some {
                        None
                    } else {
                        match (
                            spec_parse_u32(s.take(i)),
                            spec_parse_u32(rest.take(j)),
                            spec_parse_u32(rest.skip(j + 1)),
                        ) {
                            (Some(a), Some(b), Some(c)) => Some((a, b, c)),
                            _ => None,
                        }
                    }
                },
            }
        },
    }
}

/// Parse a `major.minor.patch` version string.
pub fn parse_semver(s: &[u8]) -> (r: Option<(u32, u32, u32)>)
    ensures
        r == spec_semver(s@),
{
    proof {
        crate::bytes::lemma_find_char(s@, 46);
    }
    match find_byte(s, 46) {
        None => None,
        Some(i) => {
            proof {
                crate::bytes::lemma_find_char(s@, 46);
                assert(i < s.len());
            }
            let rest = &s[i + 1..s.len()];
            proof {
                crate::bytes::lemma_find_char(rest@, 46);
            }
            match find_byte(rest, 46) {
                None => None,
                Some(j) => {
                    proof {
                        crate::bytes::lemma_find_char(rest@, 46);
                        assert(j < rest.len());
                    }
                    let tail = &rest[j + 1..rest.len()];
                    if find_byte(tail, 46).is_some() {
                        None
                    } else {
                        let a = parse_u32(&s[0..i]);
                        let b = parse_u32(&rest[0..j]);
                        let c = parse_u32(tail);
                        match (a, b, c) {
                            (Some(a), Some(b), Some(c)) => Some((a, b, c)),
                            _ => None,
                        }
                    }
                },
            }
        },
    }
}

/// Lexicographic order on version triples.
pub open spec fn spec_triple_gt(r: (u32, u32, u32), c: (u32, u32, u32)) -> bool {
    ||| r.0 > c.0
    ||| (r.0 == c.0 && r.1 > c.1)
    ||| (r.0 == c.0 && r.1 == c.1 && r.2 > c.2)
}

/// True when `remote` names a strictly newer `major.minor.patch` version
/// than `current`; malformed versions are never newer.
pub fn is_newer(remote: &str, current: &str) -> (r: bool)
    ensures
        r == (match (spec_semver(remote.spec_bytes()), spec_semver(current.spec_bytes())) {
            (Some(rv), Some(cv)) => spec_triple_gt(rv, cv),
            _ => false,
        }),
{
    let rv = parse_semver(remote.as_bytes());
    let cv = parse_semver(current.as_bytes());
    match (rv, cv) {
        (Some(r3), Some(c3)) => {
            if r3.0 != c3.0 {
                r3.0 > c3.0
            } else if r3.1 != c3.1 {
                r3.1 > c3.1
            } else {
                r3.2 > c3.2
            }
        },
        _ => false,
    }
}

} // verus!
