//! Rumble patterns: which haptic pattern a state transition earns.
//!
//! Working to Done gets two short pulses; an overdue idle agent gets one
//! strong pulse. Error transitions stay silent: the agent keeps resolving
//! on its own and is not worth alarming. Playing a pattern (stepping the
//! motors and waiting out each duration) is the host's loop; here live the
//! patterns themselves.

use vstd::prelude::*;

use crate::state::AgentState;

verus! {

/// One rumble step: motor intensities and how long to hold them.
#[derive(Debug, Clone, Copy, PartialEq, Eq, Structural)]
pub struct RumbleStep {
    pub left: u8,
    pub right: u8,
    pub duration_ms: u64,
}

/// The Working-to-Done pattern: pulse, pause, pulse.
pub open spec fn spec_done_pattern() -> Seq<RumbleStep> {
    seq![
        RumbleStep { left: 180u8, right: 180u8, duration_ms: 120u64 },
        RumbleStep { left: 0u8, right: 0u8, duration_ms: 100u64 },
        RumbleStep { left: 180u8, right: 180u8, duration_ms: 120u64 },
    ]
}

/// The idle-attention pattern: one strong pulse.
pub open spec fn spec_idle_reminder_pattern() -> Seq<RumbleStep> {
    seq![RumbleStep { left: 255u8, right: 255u8, duration_ms: 300u64 }]
}

/// The rumble pattern a state transition earns: the done pattern for
/// Working to Done, silence for every other transition.
pub fn pattern_for_transition(from: AgentState, to: AgentState) -> (r: Option<Vec<RumbleStep>>)
    ensures
        (from == AgentState::Working && to == AgentState::Done) <==> r is Some,
        r matches Some(p) ==> p@ == spec_done_pattern(),
{
    if from == AgentState::Working && to == AgentState::Done {
        let mut p: Vec<RumbleStep> = Vec::new();
        p.push(RumbleStep { left: 180, right: 180, duration_ms: 120 });
        p.push(RumbleStep { left: 0, right: 0, duration_ms: 100 });
        p.push(RumbleStep { left: 180, right: 180, duration_ms: 120 });
        proof {
            assert(p@ =~= spec_done_pattern());
        }
        Some(p)
    } else {
        None
    }
}

/// The pattern for the idle attention reminder.
pub fn idle_reminder_pattern() -> (r: Vec<RumbleStep>)
    ensures
        r@ == spec_idle_reminder_pattern(),
{
    let mut p: Vec<RumbleStep> = Vec::new();
    p.push(RumbleStep { left: 255, right: 255, duration_ms: 300 });
    proof {
        assert(p@ =~= spec_idle_reminder_pattern());
    }
    p
}

} // verus!
