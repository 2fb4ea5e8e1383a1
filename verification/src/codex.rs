//! Codex session record handling: the part of the session poller that
//! decides, from plain values, what a record means. Reading the session
//! files and tracking byte offsets is the host's business.

use vstd::prelude::*;
use vstd::string::StringSliceAdditionalSpecFns;

use crate::bytes::{spec_starts_with, starts_with, trim};

verus! {

/// The `Process exited with code ` marker, as bytes.
pub open spec fn spec_exit_marker() -> Seq<u8> {
    seq![
        80u8, 114u8, 111u8, 99u8, 101u8, 115u8, 115u8, 32u8, 101u8, 120u8, 105u8, 116u8, 101u8,
        100u8, 32u8, 119u8, 105u8, 116u8, 104u8, 32u8, 99u8, 111u8, 100u8, 101u8, 32u8,
    ]
}

/// A line reports a nonzero exit: it starts with the marker and the rest,
/// trimmed, is a decimal number other than zero.
pub open spec fn spec_line_nonzero_exit(line: Seq<u8>) -> bool {
    &&& spec_starts_with(line, spec_exit_marker())
    &&& match crate::update::spec_parse_u32(
        crate::bytes::spec_trim(line.skip(spec_exit_marker().len() as int)),
    ) {
        Some(code) => code != 0,
        None => false,
    }
}

/// Some line of the output reports a nonzero exit.
pub open spec fn spec_has_nonzero_exit(lines: Seq<Seq<u8>>) -> bool {
    exists|i: int| 0 <= i < lines.len() && spec_line_nonzero_exit(lines[i])
}

fn line_nonzero_exit(line: &[u8]) -> (r: bool)
    ensures
        r == spec_line_nonzero_exit(line@),
{
    let marker: [u8; 25] = [
        80, 114, 111, 99, 101, 115, 115, 32, 101, 120, 105, 116, 101, 100, 32, 119, 105, 116,
        104, 32, 99, 111, 100, 101, 32,
    ];
    proof {
        assert(marker@ =~= spec_exit_marker());
    }
    if !starts_with(line, marker.as_slice()) {
        return false;
    }
    let rest = trim(&line[25..line.len()]);
    match crate::update::parse_u32(rest.as_slice()) {
        Some(code) => code != 0,
        None => false,
    }
}

/// The lines of a byte string, split on newlines.
pub open spec fn spec_lines(s: Seq<u8>) -> Seq<Seq<u8>>
    decreases s.len(),
    via spec_lines_dec
{
    match crate::bytes::spec_find(s, 10) {
        None => seq![s],
        Some(i) => seq![s.take(i)] + spec_lines(s.skip(i + 1)),
    }
}

#[via_fn]
proof fn spec_lines_dec(s: Seq<u8>) {
    crate::bytes::lemma_find_char(s, 10);
}

fn has_nonzero_exit_rec(s: &[u8]) -> (r: bool)
    ensures
        r == spec_has_nonzero_exit(spec_lines(s@)),
    decreases s.len(),
{
    proof {
        crate::bytes::lemma_find_char(s@, 10);
    }
    match crate::bytes::find_byte(s, 10) {
        None => {
            let hit = line_nonzero_exit(s);
            proof {
                assert(spec_lines(s@) =~= seq![s@]);
                assert(spec_lines(s@)[0] == s@);
                if hit {
                    assert(spec_has_nonzero_exit(spec_lines(s@)));
                } else {
                    assert forall|k: int|
                        0 <= k < spec_lines(s@).len() implies !spec_line_nonzero_exit(
                        spec_lines(s@)[k],
                    ) by {
                        assert(k == 0);
                    }
                }
            }
            hit
        },
        Some(i) => {
            let ghost ls = spec_lines(s@);
            let head_hit = line_nonzero_exit(&s[0..i]);
            if head_hit {
                proof {
                    assert(ls[0] == s@.take(i as int));
                    assert(spec_line_nonzero_exit(ls[0]));
                    assert(spec_has_nonzero_exit(ls));
                }
                true
            } else {
                let rest_hit = has_nonzero_exit_rec(&s[i + 1..s.len()]);
                proof {
                    let tail = spec_lines(s@.skip(i + 1));
                    assert(ls =~= seq![s@.take(i as int)] + tail);
                    assert forall|k: int| 1 <= k < ls.len() implies ls[k] == tail[k - 1] by {}
                    if rest_hit {
                        let j = choose|j: int|
                            0 <= j < tail.len() && spec_line_nonzero_exit(tail[j]);
                        assert(ls[j + 1] == tail[j]);
                    } else {
                        assert forall|k: int|
                            0 <= k < ls.len() implies !spec_line_nonzero_exit(ls[k]) by {
                            if k >= 1 {
                                assert(ls[k] == tail[k - 1]);
                            }
                        }
                    }
                }
                rest_hit
            }
        },
    }
}

/// True when the tool output contains a line `Process exited with code N`
/// with a nonzero N: such a session transitions to the error state.
pub fn has_nonzero_exit(output: &str) -> (r: bool)
    ensures
        r == spec_has_nonzero_exit(spec_lines(output.spec_bytes())),
{
    has_nonzero_exit_rec(output.as_bytes())
}

/// Whether a completed task earns the done state: only when it worked for
/// at least the threshold; shorter tasks settle straight to idle.
pub fn compute_done_state(
    working_since_ms: Option<u64>,
    now_ms: u64,
    done_threshold_ms: u64,
) -> (r: crate::state::AgentState)
    ensures
        r == (if working_since_ms matches Some(t) && crate::state::spec_elapsed(now_ms, t)
            >= done_threshold_ms {
            crate::state::AgentState::Done
        } else {
            crate::state::AgentState::Idle
        }),
{
    match working_since_ms {
        Some(t) => {
            let elapsed = if now_ms >= t {
                now_ms - t
            } else {
                0
            };
            if elapsed >= done_threshold_ms {
                crate::state::AgentState::Done
            } else {
                crate::state::AgentState::Idle
            }
        },
        None => crate::state::AgentState::Idle,
    }
}

} // verus!
