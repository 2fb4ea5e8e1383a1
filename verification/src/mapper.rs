//! Button and stick mapper: one unified input frame in, an ordered list of
//! actions out.
//!
//! Face buttons fire on rising edges; L2 is a hold (key-down on press,
//! key-up on release); the D-pad needs a two-frame confirm and then
//! repeats after 300 ms at a 100 ms rate; the right stick scrolls with a
//! deflection-dependent rate limit; the left stick moves the cursor with
//! sub-pixel accumulation in thousandths; the touchpad moves the cursor
//! relatively and its click is always a mouse click; the system button
//! cycles the profile. Time is handed in as milliseconds; sensitivities
//! are integer thousandths.

use vstd::prelude::*;
use vstd::string::StringSliceAdditionalSpecFns;

use crate::config::{OpenCodeConfig, ScrollConfig, StickMouseConfig, TmuxConfig, TouchpadConfig,
    WtConfig};
use crate::input::{ButtonState, DPad, UnifiedInput};
use crate::bytes::bytes_eq;
use crate::keys::{clone_keys, parse_key_combo, VKey};
use crate::opencode_detect::{ActionBinding, ActionBindingV, OpenCodeDetected};
use crate::tmux_detect::TmuxDetected;
use crate::wt_detect::WtDetected;

verus! {

/// Active input profile; the system button cycles it.
#[derive(Debug, Clone, Copy, PartialEq, Eq, Structural)]
pub enum Profile {
    /// Terminal-tab shortcuts on the shoulders and Square.
    Default,
    /// Mapped buttons send the tmux prefix followed by an action key.
    Tmux,
}

/// An action the mapper can produce, in the order emitted.
#[derive(Debug, Clone)]
pub enum Action {
    /// Press and release a combo: modifiers held, main key tapped.
    KeyCombo(Vec<VKey>),
    /// Release held keys.
    KeyUp(Vec<VKey>),
    /// Hold keys down until the matching KeyUp.
    KeyDown(Vec<VKey>),
    /// Combos sent in order with a short delay between them.
    KeySequence(Vec<Vec<VKey>>),
    /// Wheel scroll in wheel-delta units (positive is up/right).
    Scroll { horizontal: i32, vertical: i32 },
    /// Relative cursor motion in pixels.
    MouseMove { dx: i32, dy: i32 },
    /// Left mouse button press and release.
    MouseClick,
    /// Opaque signal for the supervisor (profile switches).
    Custom(String),
}

/// Spec view of an action.
pub enum ActionV {
    KeyCombo(Seq<VKey>),
    KeyUp(Seq<VKey>),
    KeyDown(Seq<VKey>),
    KeySequence(Seq<Seq<VKey>>),
    Scroll { horizontal: int, vertical: int },
    MouseMove { dx: int, dy: int },
    MouseClick,
    Custom(Seq<char>),
}

impl View for Action {
    type V = ActionV;

    open spec fn view(&self) -> ActionV {
        match self {
            Action::KeyCombo(k) => ActionV::KeyCombo(k@),
            Action::KeyUp(k) => ActionV::KeyUp(k@),
            Action::KeyDown(k) => ActionV::KeyDown(k@),
            Action::KeySequence(s) => ActionV::KeySequence(s@.map_values(|v: Vec<VKey>| v@)),
            Action::Scroll { horizontal, vertical } => ActionV::Scroll {
                horizontal: *horizontal as int,
                vertical: *vertical as int,
            },
            Action::MouseMove { dx, dy } => ActionV::MouseMove { dx: *dx as int, dy: *dy as int },
            Action::MouseClick => ActionV::MouseClick,
            Action::Custom(s) => ActionV::Custom(s@),
        }
    }
}

/// The views of an action list.
pub open spec fn spec_actions_view(v: Seq<Action>) -> Seq<ActionV> {
    v.map_values(|a: Action| a@)
}

/// Hold delay before the D-pad starts repeating, in ms.
pub const REPEAT_DELAY_MS: u64 = 300;

/// Interval between D-pad repeats, in ms.
pub const REPEAT_RATE_MS: u64 = 100;

/// Fastest scroll interval at full deflection, in ms.
pub const SCROLL_MIN_INTERVAL_MS: u64 = 30;

/// Slowest scroll interval at the dead zone edge, in ms.
pub const SCROLL_MAX_INTERVAL_MS: u64 = 200;

/// The platform wheel-notch unit.
pub const WHEEL_DELTA: i32 = 120;

/// Milliseconds from `since` to `now`, zero when `since` lies ahead.
pub open spec fn spec_since(now: u64, since: u64) -> int {
    if now >= since {
        now - since
    } else {
        0
    }
}

/// Per-direction D-pad repeat tracking with two-frame confirmation: the
/// first frame of a press only arms the timer; the action fires when the
/// press is still held one frame later, and then repeats.
#[derive(Debug, Clone, Copy, PartialEq, Eq, Structural)]
pub struct RepeatTimer {
    pub pending_since: Option<u64>,
    pub pressed_at: Option<u64>,
    pub last_fired: Option<u64>,
}

/// The timer after a hold frame, and whether it fires: a pending press is
/// confirmed and fires immediately; an armed press fires again every
/// `REPEAT_RATE_MS` once `REPEAT_DELAY_MS` have passed since the confirm.
#[verifier::opaque]
pub open spec fn spec_on_hold(t: RepeatTimer, now: u64) -> (RepeatTimer, bool) {
    match t.pending_since {
        Some(p) => (
            RepeatTimer { pending_since: None, pressed_at: Some(p), last_fired: Some(now) },
            true,
        ),
        None => match t.pressed_at {
            None => (t, false),
            Some(pressed) => {
                if spec_since(now, pressed) < REPEAT_DELAY_MS {
                    (t, false)
                } else {
                    let last = match t.last_fired {
                        Some(l) => l,
                        None => pressed,
                    };
                    if spec_since(now, last) >= REPEAT_RATE_MS {
                        (
                            RepeatTimer {
                                pending_since: t.pending_since,
                                pressed_at: t.pressed_at,
                                last_fired: Some(now),
                            },
                            true,
                        )
                    } else {
                        (t, false)
                    }
                }
            },
        },
    }
}

impl Default for RepeatTimer {
    /// The idle timer.
    fn default() -> (r: Self)
        ensures
            r == (RepeatTimer { pending_since: None, pressed_at: None, last_fired: None }),
    {
        RepeatTimer { pending_since: None, pressed_at: None, last_fired: None }
    }
}

impl RepeatTimer {
    /// First frame of a new press: only note the time, fire nothing.
    pub fn on_press(&mut self, now: u64)
        ensures
            *final(self) == (RepeatTimer {
                pending_since: Some(now),
                pressed_at: old(self).pressed_at,
                last_fired: old(self).last_fired,
            }),
    {
        self.pending_since = Some(now);
    }

    /// A frame with the direction still held; true when an action fires.
    pub fn on_hold(&mut self, now: u64) -> (r: bool)
        ensures
            (*final(self), r) == spec_on_hold(*old(self), now),
    {
        proof {
            reveal(spec_on_hold);
        }
        match self.pending_since {
            Some(p) => {
                self.pending_since = None;
                self.pressed_at = Some(p);
                self.last_fired = Some(now);
                true
            },
            None => {
                let pressed = match self.pressed_at {
                    Some(t) => t,
                    None => {
                        return false;
                    },
                };
                let held_ms = if now >= pressed {
                    now - pressed
                } else {
                    0
                };
                if held_ms < REPEAT_DELAY_MS {
                    return false;
                }
                let last = match self.last_fired {
                    Some(l) => l,
                    None => pressed,
                };
                let since_last = if now >= last {
                    now - last
                } else {
                    0
                };
                if since_last >= REPEAT_RATE_MS {
                    self.last_fired = Some(now);
                    true
                } else {
                    false
                }
            },
        }
    }

    /// A frame with the direction released: back to idle.
    pub fn on_release(&mut self)
        ensures
            *final(self) == (RepeatTimer {
                pending_since: None,
                pressed_at: None,
                last_fired: old(self).last_fired,
            }),
    {
        self.pressed_at = None;
        self.pending_since = None;
    }
}

/// D-pad glitch filter: a single-frame press (on_press) followed by a
/// release (on_release) fires nothing and leaves the timer unarmed, so no
/// later hold frame can fire from it either.
pub proof fn lemma_dpad_glitch_filtered(t0: RepeatTimer, now: u64)
    ensures
        ({
            // after on_press at `now` and then on_release
            let pressed = RepeatTimer {
                pending_since: Some(now),
                pressed_at: t0.pressed_at,
                last_fired: t0.last_fired,
            };
            let released = RepeatTimer {
                pending_since: None,
                pressed_at: None,
                last_fired: pressed.last_fired,
            };
            !spec_on_hold(released, now).1
        }),
{
    reveal(spec_on_hold);
}

/// D-pad repeat shape: a pending press fires exactly on the confirm frame;
/// once confirmed at time `c`, a hold frame at `now` fires again exactly
/// when the delay has passed and the last fire is a full rate interval
/// old — and a fire resets the rate clock to `now`, so each fire pushes
/// the next one a full interval out.
pub proof fn lemma_dpad_repeat_shape(t: RepeatTimer, now: u64)
    requires
        t.pending_since is None,
        t.pressed_at matches Some(c) && t.last_fired matches Some(l),
    ensures
        ({
            let c = t.pressed_at->0;
            let l = t.last_fired->0;
            let fired = spec_since(now, c) >= REPEAT_DELAY_MS && spec_since(now, l)
                >= REPEAT_RATE_MS;
            &&& spec_on_hold(t, now).1 <==> fired
            &&& spec_on_hold(t, now).0 == (RepeatTimer {
                pending_since: None,
                pressed_at: t.pressed_at,
                last_fired: if fired {
                    Some(now)
                } else {
                    t.last_fired
                },
            })
        }),
{
    reveal(spec_on_hold);
}

/// The timer after a run of hold frames, each folded through the hold
/// step.
pub open spec fn spec_dpad_hold_run(t: RepeatTimer, times: Seq<u64>) -> RepeatTimer
    decreases times.len(),
{
    if times.len() == 0 {
        t
    } else {
        spec_dpad_hold_run(spec_on_hold(t, times[0]).0, times.skip(1))
    }
}

/// D-pad repeat across frames: from a confirmed timer, a whole run of
/// hold frames that each fall before the repeat delay has passed since
/// the press, or within the rate interval of the last fire, fires nothing
/// and leaves the timer exactly as it was. So between two fires a full
/// rate interval passes, however many frames the poll loop puts between
/// them, and no repeat fires before the delay has passed.
pub proof fn lemma_dpad_hold_run_quiet(t: RepeatTimer, times: Seq<u64>)
    requires
        t.pending_since is None,
        t.pressed_at is Some,
        t.last_fired is Some,
        forall|i: int|
            0 <= i < times.len() ==> spec_since(#[trigger] times[i], t.pressed_at->0)
                < REPEAT_DELAY_MS || spec_since(times[i], t.last_fired->0) < REPEAT_RATE_MS,
    ensures
        spec_dpad_hold_run(t, times) == t,
        forall|i: int| 0 <= i < times.len() ==> !spec_on_hold(t, #[trigger] times[i]).1,
    decreases times.len(),
{
    reveal(spec_on_hold);
    if times.len() > 0 {
        assert(spec_on_hold(t, times[0]) == (t, false));
        assert(forall|i: int|
            0 <= i < times.skip(1).len() ==> #[trigger] times.skip(1)[i] == times[i + 1]);
        lemma_dpad_hold_run_quiet(t, times.skip(1));
    }
}

/// `(raw * milli) / div`, truncated toward zero as the hardware-facing
/// integer arithmetic does it.
pub open spec fn spec_scale_trunc(raw: int, milli: int, div: int) -> int
    recommends
        milli >= 0,
        div > 0,
{
    if raw >= 0 {
        (raw * milli) / div
    } else {
        -(((-raw) * milli) / div)
    }
}

/// Scale a small signed delta by a milli sensitivity, truncating toward
/// zero.
fn scale_milli(raw: i32, milli: u32, div: u32) -> (r: i32)
    requires
        -70000 <= raw <= 70000,
        milli <= 1_000_000,
        100 <= div <= 1_000_000,
    ensures
        r == spec_scale_trunc(raw as int, milli as int, div as int),
        -700_000_000 <= r <= 700_000_000,
{
    if raw >= 0 {
        proof {
            assert(raw as int * milli as int <= 70_000_000_000int) by (nonlinear_arith)
                requires
                    0 <= raw <= 70000,
                    milli <= 1_000_000,
            ;
        }
        let m = (raw as u64) * (milli as u64);
        let q = m / (div as u64);
        proof {
            vstd::arithmetic::div_mod::lemma_div_is_ordered(
                m as int,
                70_000_000_000int,
                div as int,
            );
            vstd::arithmetic::div_mod::lemma_div_is_ordered_by_denominator(
                70_000_000_000int,
                100,
                div as int,
            );
            vstd::arithmetic::div_mod::lemma_div_pos_is_pos(m as int, div as int);
        }
        q as i32
    } else {
        let mag = (-(raw as i64)) as u64;
        proof {
            assert(mag as int * milli as int <= 70_000_000_000int) by (nonlinear_arith)
                requires
                    0 <= mag <= 70000,
                    milli <= 1_000_000,
            ;
        }
        let m = mag * (milli as u64);
        let q = m / (div as u64);
        proof {
            vstd::arithmetic::div_mod::lemma_div_is_ordered(
                m as int,
                70_000_000_000int,
                div as int,
            );
            vstd::arithmetic::div_mod::lemma_div_is_ordered_by_denominator(
                70_000_000_000int,
                100,
                div as int,
            );
            vstd::arithmetic::div_mod::lemma_div_pos_is_pos(m as int, div as int);
        }
        -(q as i32)
    }
}

// ── Profile key tables ───────────────────────────────────────────────

/// An optional key combo, viewed.
pub open spec fn spec_opt_keys(o: Option<Vec<VKey>>) -> Option<Seq<VKey>> {
    match o {
        Some(k) => Some(k@),
        None => None,
    }
}

/// Resolved tmux button mappings: the prefix combo and, per button, the
/// combo sent after it (None = unmapped).
pub struct TmuxState {
    pub prefix: Vec<VKey>,
    pub l1: Option<Vec<VKey>>,
    pub r1: Option<Vec<VKey>>,
    pub l2: Option<Vec<VKey>>,
    pub r2: Option<Vec<VKey>>,
    pub l3: Option<Vec<VKey>>,
    pub r3: Option<Vec<VKey>>,
    pub square: Option<Vec<VKey>>,
    pub share: Option<Vec<VKey>>,
    pub options: Option<Vec<VKey>>,
    pub touchpad: Option<Vec<VKey>>,
}

/// Spec view of the tmux table.
pub struct TmuxStateV {
    pub prefix: Seq<VKey>,
    pub l1: Option<Seq<VKey>>,
    pub r1: Option<Seq<VKey>>,
    pub l2: Option<Seq<VKey>>,
    pub r2: Option<Seq<VKey>>,
    pub l3: Option<Seq<VKey>>,
    pub r3: Option<Seq<VKey>>,
    pub square: Option<Seq<VKey>>,
    pub share: Option<Seq<VKey>>,
    pub options: Option<Seq<VKey>>,
    pub touchpad: Option<Seq<VKey>>,
}

impl View for TmuxState {
    type V = TmuxStateV;

    open spec fn view(&self) -> TmuxStateV {
        TmuxStateV {
            prefix: self.prefix@,
            l1: spec_opt_keys(self.l1),
            r1: spec_opt_keys(self.r1),
            l2: spec_opt_keys(self.l2),
            r2: spec_opt_keys(self.r2),
            l3: spec_opt_keys(self.l3),
            r3: spec_opt_keys(self.r3),
            square: spec_opt_keys(self.square),
            share: spec_opt_keys(self.share),
            options: spec_opt_keys(self.options),
            touchpad: spec_opt_keys(self.touchpad),
        }
    }
}

/// The stock tmux table: Ctrl+B prefix, window navigation on the
/// shoulders, kill-window on R2, new-window on Square.
pub open spec fn spec_tmux_state_default() -> TmuxStateV {
    TmuxStateV {
        prefix: seq![VKey::Control, VKey::B],
        l1: Some(seq![VKey::P]),
        r1: Some(seq![VKey::N]),
        l2: None,
        r2: Some(seq![VKey::Shift, VKey::D7]),
        l3: None,
        r3: None,
        square: Some(seq![VKey::C]),
        share: None,
        options: None,
        touchpad: None,
    }
}

impl Default for TmuxState {
    fn default() -> (r: Self)
        ensures
            r@ == spec_tmux_state_default(),
    {
        let mut prefix: Vec<VKey> = Vec::new();
        prefix.push(VKey::Control);
        prefix.push(VKey::B);
        let mut l1: Vec<VKey> = Vec::new();
        l1.push(VKey::P);
        let mut r1: Vec<VKey> = Vec::new();
        r1.push(VKey::N);
        let mut r2: Vec<VKey> = Vec::new();
        r2.push(VKey::Shift);
        r2.push(VKey::D7);
        let mut square: Vec<VKey> = Vec::new();
        square.push(VKey::C);
        let r = TmuxState {
            prefix,
            l1: Some(l1),
            r1: Some(r1),
            l2: None,
            r2: Some(r2),
            l3: None,
            r3: None,
            square: Some(square),
            share: None,
            options: None,
            touchpad: None,
        };
        proof {
            assert(r.prefix@ =~= spec_tmux_state_default().prefix);
            assert(r@.l1->0 =~= spec_tmux_state_default().l1->0);
            assert(r@.r1->0 =~= spec_tmux_state_default().r1->0);
            assert(r@.r2->0 =~= spec_tmux_state_default().r2->0);
            assert(r@.square->0 =~= spec_tmux_state_default().square->0);
        }
        r
    }
}

/// Well-known tmux action names and their stock key bindings, used when
/// auto-detection finds nothing for an action.
pub open spec fn spec_default_key_for_action(a: Seq<u8>) -> Option<Seq<VKey>> {
    if a == seq![112u8, 114u8, 101u8, 118u8, 105u8, 111u8, 117u8, 115u8, 45u8, 119u8, 105u8, 110u8, 100u8, 111u8, 119u8] {  // "previous-window"
        Some(seq![VKey::P])
    } else if a == seq![110u8, 101u8, 120u8, 116u8, 45u8, 119u8, 105u8, 110u8, 100u8, 111u8, 119u8] {  // "next-window"
        Some(seq![VKey::N])
    } else if a == seq![110u8, 101u8, 119u8, 45u8, 119u8, 105u8, 110u8, 100u8, 111u8, 119u8] {  // "new-window"
        Some(seq![VKey::C])
    } else if a == seq![107u8, 105u8, 108u8, 108u8, 45u8, 119u8, 105u8, 110u8, 100u8, 111u8, 119u8] {  // "kill-window"
        Some(seq![VKey::Shift, VKey::D7])
    } else if a == seq![99u8, 111u8, 112u8, 121u8, 45u8, 109u8, 111u8, 100u8, 101u8] {  // "copy-mode"
        Some(seq![VKey::LeftBracket])
    } else if a == seq![114u8, 101u8, 115u8, 105u8, 122u8, 101u8, 45u8, 112u8, 97u8, 110u8, 101u8, 32u8, 45u8, 90u8] {  // "resize-pane -Z"
        Some(seq![VKey::Z])
    } else if a == seq![108u8, 97u8, 115u8, 116u8, 45u8, 112u8, 97u8, 110u8, 101u8] {  // "last-pane"
        Some(seq![VKey::Semicolon])
    } else if a == seq![115u8, 101u8, 108u8, 101u8, 99u8, 116u8, 45u8, 112u8, 97u8, 110u8, 101u8] {  // "select-pane"
        Some(seq![VKey::O])
    } else if a == seq![108u8, 97u8, 115u8, 116u8, 45u8, 119u8, 105u8, 110u8, 100u8, 111u8, 119u8] {  // "last-window"
        Some(seq![VKey::L])
    } else if a == seq![100u8, 101u8, 116u8, 97u8, 99u8, 104u8, 45u8, 99u8, 108u8, 105u8, 101u8, 110u8, 116u8] {  // "detach-client"
        Some(seq![VKey::D])
    } else if a == seq![115u8, 112u8, 108u8, 105u8, 116u8, 45u8, 119u8, 105u8, 110u8, 100u8, 111u8, 119u8, 32u8, 45u8, 104u8] {  // "split-window -h"
        Some(seq![VKey::Shift, VKey::D5])
    } else if a == seq![115u8, 112u8, 108u8, 105u8, 116u8, 45u8, 119u8, 105u8, 110u8, 100u8, 111u8, 119u8, 32u8, 45u8, 118u8] {  // "split-window -v"
        Some(seq![VKey::Shift, VKey::Quote])
    } else {
        None
    }
}

/// The stock key for a well-known tmux action name.
pub fn default_key_for_action(action: &str) -> (r: Option<Vec<VKey>>)
    ensures
        match r {
            Some(k) => spec_default_key_for_action(action.spec_bytes()) == Some(k@),
            None => spec_default_key_for_action(action.spec_bytes()) is None,
        },
{
    let a = action.as_bytes();
    let lit_0: [u8; 15] = [112, 114, 101, 118, 105, 111, 117, 115, 45, 119, 105, 110, 100, 111, 119];  // "previous-window"
    proof {
        assert(lit_0@ =~= seq![112u8, 114u8, 101u8, 118u8, 105u8, 111u8, 117u8, 115u8, 45u8, 119u8, 105u8, 110u8, 100u8, 111u8, 119u8]);
    }
    if bytes_eq(a, lit_0.as_slice()) {
        let mut k: Vec<VKey> = Vec::new();
        k.push(VKey::P);
        proof {
            assert(k@ =~= seq![VKey::P]);
        }
        return Some(k);
    }
    let lit_1: [u8; 11] = [110, 101, 120, 116, 45, 119, 105, 110, 100, 111, 119];  // "next-window"
    proof {
        assert(lit_1@ =~= seq![110u8, 101u8, 120u8, 116u8, 45u8, 119u8, 105u8, 110u8, 100u8, 111u8, 119u8]);
    }
    if bytes_eq(a, lit_1.as_slice()) {
        let mut k: Vec<VKey> = Vec::new();
        k.push(VKey::N);
        proof {
            assert(k@ =~= seq![VKey::N]);
        }
        return Some(k);
    }
    let lit_2: [u8; 10] = [110, 101, 119, 45, 119, 105, 110, 100, 111, 119];  // "new-window"
    proof {
        assert(lit_2@ =~= seq![110u8, 101u8, 119u8, 45u8, 119u8, 105u8, 110u8, 100u8, 111u8, 119u8]);
    }
    if bytes_eq(a, lit_2.as_slice()) {
        let mut k: Vec<VKey> = Vec::new();
        k.push(VKey::C);
        proof {
            assert(k@ =~= seq![VKey::C]);
        }
        return Some(k);
    }
    let lit_3: [u8; 11] = [107, 105, 108, 108, 45, 119, 105, 110, 100, 111, 119];  // "kill-window"
    proof {
        assert(lit_3@ =~= seq![107u8, 105u8, 108u8, 108u8, 45u8, 119u8, 105u8, 110u8, 100u8, 111u8, 119u8]);
    }
    if bytes_eq(a, lit_3.as_slice()) {
        let mut k: Vec<VKey> = Vec::new();
        k.push(VKey::Shift);
        k.push(VKey::D7);
        proof {
            assert(k@ =~= seq![VKey::Shift, VKey::D7]);
        }
        return Some(k);
    }
    let lit_4: [u8; 9] = [99, 111, 112, 121, 45, 109, 111, 100, 101];  // "copy-mode"
    proof {
        assert(lit_4@ =~= seq![99u8, 111u8, 112u8, 121u8, 45u8, 109u8, 111u8, 100u8, 101u8]);
    }
    if bytes_eq(a, lit_4.as_slice()) {
        let mut k: Vec<VKey> = Vec::new();
        k.push(VKey::LeftBracket);
        proof {
            assert(k@ =~= seq![VKey::LeftBracket]);
        }
        return Some(k);
    }
    let lit_5: [u8; 14] = [114, 101, 115, 105, 122, 101, 45, 112, 97, 110, 101, 32, 45, 90];  // "resize-pane -Z"
    proof {
        assert(lit_5@ =~= seq![114u8, 101u8, 115u8, 105u8, 122u8, 101u8, 45u8, 112u8, 97u8, 110u8, 101u8, 32u8, 45u8, 90u8]);
    }
    if bytes_eq(a, lit_5.as_slice()) {
        let mut k: Vec<VKey> = Vec::new();
        k.push(VKey::Z);
        proof {
            assert(k@ =~= seq![VKey::Z]);
        }
        return Some(k);
    }
    let lit_6: [u8; 9] = [108, 97, 115, 116, 45, 112, 97, 110, 101];  // "last-pane"
    proof {
        assert(lit_6@ =~= seq![108u8, 97u8, 115u8, 116u8, 45u8, 112u8, 97u8, 110u8, 101u8]);
    }
    if bytes_eq(a, lit_6.as_slice()) {
        let mut k: Vec<VKey> = Vec::new();
        k.push(VKey::Semicolon);
        proof {
            assert(k@ =~= seq![VKey::Semicolon]);
        }
        return Some(k);
    }
    let lit_7: [u8; 11] = [115, 101, 108, 101, 99, 116, 45, 112, 97, 110, 101];  // "select-pane"
    proof {
        assert(lit_7@ =~= seq![115u8, 101u8, 108u8, 101u8, 99u8, 116u8, 45u8, 112u8, 97u8, 110u8, 101u8]);
    }
    if bytes_eq(a, lit_7.as_slice()) {
        let mut k: Vec<VKey> = Vec::new();
        k.push(VKey::O);
        proof {
            assert(k@ =~= seq![VKey::O]);
        }
        return Some(k);
    }
    let lit_8: [u8; 11] = [108, 97, 115, 116, 45, 119, 105, 110, 100, 111, 119];  // "last-window"
    proof {
        assert(lit_8@ =~= seq![108u8, 97u8, 115u8, 116u8, 45u8, 119u8, 105u8, 110u8, 100u8, 111u8, 119u8]);
    }
    if bytes_eq(a, lit_8.as_slice()) {
        let mut k: Vec<VKey> = Vec::new();
        k.push(VKey::L);
        proof {
            assert(k@ =~= seq![VKey::L]);
        }
        return Some(k);
    }
    let lit_9: [u8; 13] = [100, 101, 116, 97, 99, 104, 45, 99, 108, 105, 101, 110, 116];  // "detach-client"
    proof {
        assert(lit_9@ =~= seq![100u8, 101u8, 116u8, 97u8, 99u8, 104u8, 45u8, 99u8, 108u8, 105u8, 101u8, 110u8, 116u8]);
    }
    if bytes_eq(a, lit_9.as_slice()) {
        let mut k: Vec<VKey> = Vec::new();
        k.push(VKey::D);
        proof {
            assert(k@ =~= seq![VKey::D]);
        }
        return Some(k);
    }
    let lit_10: [u8; 15] = [115, 112, 108, 105, 116, 45, 119, 105, 110, 100, 111, 119, 32, 45, 104];  // "split-window -h"
    proof {
        assert(lit_10@ =~= seq![115u8, 112u8, 108u8, 105u8, 116u8, 45u8, 119u8, 105u8, 110u8, 100u8, 111u8, 119u8, 32u8, 45u8, 104u8]);
    }
    if bytes_eq(a, lit_10.as_slice()) {
        let mut k: Vec<VKey> = Vec::new();
        k.push(VKey::Shift);
        k.push(VKey::D5);
        proof {
            assert(k@ =~= seq![VKey::Shift, VKey::D5]);
        }
        return Some(k);
    }
    let lit_11: [u8; 15] = [115, 112, 108, 105, 116, 45, 119, 105, 110, 100, 111, 119, 32, 45, 118];  // "split-window -v"
    proof {
        assert(lit_11@ =~= seq![115u8, 112u8, 108u8, 105u8, 116u8, 45u8, 119u8, 105u8, 110u8, 100u8, 111u8, 119u8, 32u8, 45u8, 118u8]);
    }
    if bytes_eq(a, lit_11.as_slice()) {
        let mut k: Vec<VKey> = Vec::new();
        k.push(VKey::Shift);
        k.push(VKey::Quote);
        proof {
            assert(k@ =~= seq![VKey::Shift, VKey::Quote]);
        }
        return Some(k);
    }
    None
}

/// Well-known OpenCode action names and their shipped default bindings.
/// The split-pane action bound to a key name the parser does not know maps
/// to nothing, as resolving it at run time would.
pub open spec fn spec_default_binding_for_opencode_action(a: Seq<u8>) -> Option<ActionBindingV> {
    if a == seq![115u8, 101u8, 115u8, 115u8, 105u8, 111u8, 110u8, 58u8, 112u8, 114u8, 101u8, 118u8] || a == seq![97u8, 112u8, 112u8, 58u8, 112u8, 114u8, 101u8, 118u8, 45u8, 115u8, 101u8, 115u8, 115u8, 105u8, 111u8, 110u8] || a == seq![97u8, 112u8, 112u8, 58u8, 115u8, 101u8, 115u8, 115u8, 105u8, 111u8, 110u8, 45u8, 112u8, 114u8, 101u8, 118u8] {
        Some(ActionBindingV::Combo(seq![VKey::Control, VKey::LeftBracket]))
    } else if a == seq![115u8, 101u8, 115u8, 115u8, 105u8, 111u8, 110u8, 58u8, 110u8, 101u8, 120u8, 116u8] || a == seq![97u8, 112u8, 112u8, 58u8, 110u8, 101u8, 120u8, 116u8, 45u8, 115u8, 101u8, 115u8, 115u8, 105u8, 111u8, 110u8] || a == seq![97u8, 112u8, 112u8, 58u8, 115u8, 101u8, 115u8, 115u8, 105u8, 111u8, 110u8, 45u8, 110u8, 101u8, 120u8, 116u8] {
        Some(ActionBindingV::Combo(seq![VKey::Control, VKey::RightBracket]))
    } else if a == seq![97u8, 112u8, 112u8, 58u8, 110u8, 101u8, 119u8, 45u8, 115u8, 101u8, 115u8, 115u8, 105u8, 111u8, 110u8] || a == seq![97u8, 112u8, 112u8, 58u8, 115u8, 101u8, 115u8, 115u8, 105u8, 111u8, 110u8, 45u8, 110u8, 101u8, 119u8] {
        Some(ActionBindingV::LeaderKey(seq![VKey::N]))
    } else if a == seq![97u8, 112u8, 112u8, 58u8, 116u8, 111u8, 103u8, 103u8, 108u8, 101u8, 45u8, 115u8, 101u8, 115u8, 115u8, 105u8, 111u8, 110u8, 45u8, 108u8, 105u8, 115u8, 116u8] {
        Some(ActionBindingV::Combo(seq![VKey::Control, VKey::Shift, VKey::S]))
    } else {
        None
    }
}

/// The shipped default binding for a well-known OpenCode action name.
pub fn default_binding_for_opencode_action(action: &str) -> (r: Option<ActionBinding>)
    ensures
        match r {
            Some(b) => spec_default_binding_for_opencode_action(action.spec_bytes()) == Some(b@),
            None => spec_default_binding_for_opencode_action(action.spec_bytes()) is None,
        },
{
    let a = action.as_bytes();
    let lit_oc0: [u8; 12] = [115, 101, 115, 115, 105, 111, 110, 58, 112, 114, 101, 118];  // "session:prev"
    proof {
        assert(lit_oc0@ =~= seq![115u8, 101u8, 115u8, 115u8, 105u8, 111u8, 110u8, 58u8, 112u8, 114u8, 101u8, 118u8]);
    }
    let lit_oc1: [u8; 16] = [97, 112, 112, 58, 112, 114, 101, 118, 45, 115, 101, 115, 115, 105, 111, 110];  // "app:prev-session"
    proof {
        assert(lit_oc1@ =~= seq![97u8, 112u8, 112u8, 58u8, 112u8, 114u8, 101u8, 118u8, 45u8, 115u8, 101u8, 115u8, 115u8, 105u8, 111u8, 110u8]);
    }
    let lit_oc2: [u8; 16] = [97, 112, 112, 58, 115, 101, 115, 115, 105, 111, 110, 45, 112, 114, 101, 118];  // "app:session-prev"
    proof {
        assert(lit_oc2@ =~= seq![97u8, 112u8, 112u8, 58u8, 115u8, 101u8, 115u8, 115u8, 105u8, 111u8, 110u8, 45u8, 112u8, 114u8, 101u8, 118u8]);
    }
    if bytes_eq(a, lit_oc0.as_slice()) || bytes_eq(a, lit_oc1.as_slice()) || bytes_eq(a, lit_oc2.as_slice()) {
        let mut k: Vec<VKey> = Vec::new();
        k.push(VKey::Control);
        k.push(VKey::LeftBracket);
        proof {
            assert(k@ =~= seq![VKey::Control, VKey::LeftBracket]);
        }
        return Some(ActionBinding::Combo(k));
    }
    let lit_oc3: [u8; 12] = [115, 101, 115, 115, 105, 111, 110, 58, 110, 101, 120, 116];  // "session:next"
    proof {
        assert(lit_oc3@ =~= seq![115u8, 101u8, 115u8, 115u8, 105u8, 111u8, 110u8, 58u8, 110u8, 101u8, 120u8, 116u8]);
    }
    let lit_oc4: [u8; 16] = [97, 112, 112, 58, 110, 101, 120, 116, 45, 115, 101, 115, 115, 105, 111, 110];  // "app:next-session"
    proof {
        assert(lit_oc4@ =~= seq![97u8, 112u8, 112u8, 58u8, 110u8, 101u8, 120u8, 116u8, 45u8, 115u8, 101u8, 115u8, 115u8, 105u8, 111u8, 110u8]);
    }
    let lit_oc5: [u8; 16] = [97, 112, 112, 58, 115, 101, 115, 115, 105, 111, 110, 45, 110, 101, 120, 116];  // "app:session-next"
    proof {
        assert(lit_oc5@ =~= seq![97u8, 112u8, 112u8, 58u8, 115u8, 101u8, 115u8, 115u8, 105u8, 111u8, 110u8, 45u8, 110u8, 101u8, 120u8, 116u8]);
    }
    if bytes_eq(a, lit_oc3.as_slice()) || bytes_eq(a, lit_oc4.as_slice()) || bytes_eq(a, lit_oc5.as_slice()) {
        let mut k: Vec<VKey> = Vec::new();
        k.push(VKey::Control);
        k.push(VKey::RightBracket);
        proof {
            assert(k@ =~= seq![VKey::Control, VKey::RightBracket]);
        }
        return Some(ActionBinding::Combo(k));
    }
    let lit_oc6: [u8; 15] = [97, 112, 112, 58, 110, 101, 119, 45, 115, 101, 115, 115, 105, 111, 110];  // "app:new-session"
    proof {
        assert(lit_oc6@ =~= seq![97u8, 112u8, 112u8, 58u8, 110u8, 101u8, 119u8, 45u8, 115u8, 101u8, 115u8, 115u8, 105u8, 111u8, 110u8]);
    }
    let lit_oc7: [u8; 15] = [97, 112, 112, 58, 115, 101, 115, 115, 105, 111, 110, 45, 110, 101, 119];  // "app:session-new"
    proof {
        assert(lit_oc7@ =~= seq![97u8, 112u8, 112u8, 58u8, 115u8, 101u8, 115u8, 115u8, 105u8, 111u8, 110u8, 45u8, 110u8, 101u8, 119u8]);
    }
    if bytes_eq(a, lit_oc6.as_slice()) || bytes_eq(a, lit_oc7.as_slice()) {
        let mut k: Vec<VKey> = Vec::new();
        k.push(VKey::N);
        proof {
            assert(k@ =~= seq![VKey::N]);
        }
        return Some(ActionBinding::LeaderKey(k));
    }
    let lit_oc8: [u8; 23] = [97, 112, 112, 58, 116, 111, 103, 103, 108, 101, 45, 115, 101, 115, 115, 105, 111, 110, 45, 108, 105, 115, 116];  // "app:toggle-session-list"
    proof {
        assert(lit_oc8@ =~= seq![97u8, 112u8, 112u8, 58u8, 116u8, 111u8, 103u8, 103u8, 108u8, 101u8, 45u8, 115u8, 101u8, 115u8, 115u8, 105u8, 111u8, 110u8, 45u8, 108u8, 105u8, 115u8, 116u8]);
    }
    if bytes_eq(a, lit_oc8.as_slice()) {
        let mut k: Vec<VKey> = Vec::new();
        k.push(VKey::Control);
        k.push(VKey::Shift);
        k.push(VKey::S);
        proof {
            assert(k@ =~= seq![VKey::Control, VKey::Shift, VKey::S]);
        }
        return Some(ActionBinding::Combo(k));
    }
    None
}

/// Well-known Windows Terminal action names and their stock key combos.
/// `splitRight` ships bound to a plus key the combo vocabulary does not
/// name, so it resolves to nothing.
pub open spec fn spec_default_key_for_wt_action(a: Seq<u8>) -> Option<Seq<VKey>> {
    if a == seq![110u8, 101u8, 119u8, 84u8, 97u8, 98u8] {  // "newTab"
        Some(seq![VKey::Control, VKey::Shift, VKey::D1])
    } else if a == seq![112u8, 114u8, 101u8, 118u8, 84u8, 97u8, 98u8] {  // "prevTab"
        Some(seq![VKey::Control, VKey::Shift, VKey::Tab])
    } else if a == seq![110u8, 101u8, 120u8, 116u8, 84u8, 97u8, 98u8] {  // "nextTab"
        Some(seq![VKey::Control, VKey::Tab])
    } else if a == seq![99u8, 108u8, 111u8, 115u8, 101u8, 84u8, 97u8, 98u8] {  // "closeTab"
        Some(seq![VKey::Control, VKey::Shift, VKey::W])
    } else if a == seq![100u8, 117u8, 112u8, 108u8, 105u8, 99u8, 97u8, 116u8, 101u8, 84u8, 97u8, 98u8] {  // "duplicateTab"
        Some(seq![VKey::Control, VKey::Shift, VKey::D])
    } else if a == seq![110u8, 101u8, 119u8, 87u8, 105u8, 110u8, 100u8, 111u8, 119u8] {  // "newWindow"
        Some(seq![VKey::Control, VKey::Shift, VKey::N])
    } else if a == seq![102u8, 105u8, 110u8, 100u8] {  // "find"
        Some(seq![VKey::Control, VKey::Shift, VKey::F])
    } else if a == seq![115u8, 112u8, 108u8, 105u8, 116u8, 68u8, 111u8, 119u8, 110u8] {  // "splitDown"
        Some(seq![VKey::Alt, VKey::Shift, VKey::Minus])
    } else {
        None
    }
}

/// The stock key combo for a well-known Windows Terminal action name.
pub fn default_key_for_wt_action(action: &str) -> (r: Option<Vec<VKey>>)
    ensures
        match r {
            Some(k) => spec_default_key_for_wt_action(action.spec_bytes()) == Some(k@),
            None => spec_default_key_for_wt_action(action.spec_bytes()) is None,
        },
{
    let a = action.as_bytes();
    let lit_wt0: [u8; 6] = [110, 101, 119, 84, 97, 98];  // "newTab"
    proof {
        assert(lit_wt0@ =~= seq![110u8, 101u8, 119u8, 84u8, 97u8, 98u8]);
    }
    if bytes_eq(a, lit_wt0.as_slice()) {
        let mut k: Vec<VKey> = Vec::new();
        k.push(VKey::Control);
        k.push(VKey::Shift);
        k.push(VKey::D1);
        proof {
            assert(k@ =~= seq![VKey::Control, VKey::Shift, VKey::D1]);
        }
        return Some(k);
    }
    let lit_wt1: [u8; 7] = [112, 114, 101, 118, 84, 97, 98];  // "prevTab"
    proof {
        assert(lit_wt1@ =~= seq![112u8, 114u8, 101u8, 118u8, 84u8, 97u8, 98u8]);
    }
    if bytes_eq(a, lit_wt1.as_slice()) {
        let mut k: Vec<VKey> = Vec::new();
        k.push(VKey::Control);
        k.push(VKey::Shift);
        k.push(VKey::Tab);
        proof {
            assert(k@ =~= seq![VKey::Control, VKey::Shift, VKey::Tab]);
        }
        return Some(k);
    }
    let lit_wt2: [u8; 7] = [110, 101, 120, 116, 84, 97, 98];  // "nextTab"
    proof {
        assert(lit_wt2@ =~= seq![110u8, 101u8, 120u8, 116u8, 84u8, 97u8, 98u8]);
    }
    if bytes_eq(a, lit_wt2.as_slice()) {
        let mut k: Vec<VKey> = Vec::new();
        k.push(VKey::Control);
        k.push(VKey::Tab);
        proof {
            assert(k@ =~= seq![VKey::Control, VKey::Tab]);
        }
        return Some(k);
    }
    let lit_wt3: [u8; 8] = [99, 108, 111, 115, 101, 84, 97, 98];  // "closeTab"
    proof {
        assert(lit_wt3@ =~= seq![99u8, 108u8, 111u8, 115u8, 101u8, 84u8, 97u8, 98u8]);
    }
    if bytes_eq(a, lit_wt3.as_slice()) {
        let mut k: Vec<VKey> = Vec::new();
        k.push(VKey::Control);
        k.push(VKey::Shift);
        k.push(VKey::W);
        proof {
            assert(k@ =~= seq![VKey::Control, VKey::Shift, VKey::W]);
        }
        return Some(k);
    }
    let lit_wt4: [u8; 12] = [100, 117, 112, 108, 105, 99, 97, 116, 101, 84, 97, 98];  // "duplicateTab"
    proof {
        assert(lit_wt4@ =~= seq![100u8, 117u8, 112u8, 108u8, 105u8, 99u8, 97u8, 116u8, 101u8, 84u8, 97u8, 98u8]);
    }
    if bytes_eq(a, lit_wt4.as_slice()) {
        let mut k: Vec<VKey> = Vec::new();
        k.push(VKey::Control);
        k.push(VKey::Shift);
        k.push(VKey::D);
        proof {
            assert(k@ =~= seq![VKey::Control, VKey::Shift, VKey::D]);
        }
        return Some(k);
    }
    let lit_wt5: [u8; 9] = [110, 101, 119, 87, 105, 110, 100, 111, 119];  // "newWindow"
    proof {
        assert(lit_wt5@ =~= seq![110u8, 101u8, 119u8, 87u8, 105u8, 110u8, 100u8, 111u8, 119u8]);
    }
    if bytes_eq(a, lit_wt5.as_slice()) {
        let mut k: Vec<VKey> = Vec::new();
        k.push(VKey::Control);
        k.push(VKey::Shift);
        k.push(VKey::N);
        proof {
            assert(k@ =~= seq![VKey::Control, VKey::Shift, VKey::N]);
        }
        return Some(k);
    }
    let lit_wt6: [u8; 4] = [102, 105, 110, 100];  // "find"
    proof {
        assert(lit_wt6@ =~= seq![102u8, 105u8, 110u8, 100u8]);
    }
    if bytes_eq(a, lit_wt6.as_slice()) {
        let mut k: Vec<VKey> = Vec::new();
        k.push(VKey::Control);
        k.push(VKey::Shift);
        k.push(VKey::F);
        proof {
            assert(k@ =~= seq![VKey::Control, VKey::Shift, VKey::F]);
        }
        return Some(k);
    }
    let lit_wt7: [u8; 9] = [115, 112, 108, 105, 116, 68, 111, 119, 110];  // "splitDown"
    proof {
        assert(lit_wt7@ =~= seq![115u8, 112u8, 108u8, 105u8, 116u8, 68u8, 111u8, 119u8, 110u8]);
    }
    if bytes_eq(a, lit_wt7.as_slice()) {
        let mut k: Vec<VKey> = Vec::new();
        k.push(VKey::Alt);
        k.push(VKey::Shift);
        k.push(VKey::Minus);
        proof {
            assert(k@ =~= seq![VKey::Alt, VKey::Shift, VKey::Minus]);
        }
        return Some(k);
    }
    None
}

/// The combo a tmux button configuration value resolves to: empty means
/// unmapped; otherwise the auto-detected binding wins, then the stock tmux
/// default for the action name, then a direct key combo parse.
pub open spec fn spec_resolve_button(
    v: Seq<u8>,
    det: Option<Seq<crate::keys::BindingEntryV>>,
) -> Option<Seq<VKey>> {
    if v.len() == 0 {
        None
    } else {
        let from_det = match det {
            Some(es) => crate::keys::spec_binding_lookup(es, v),
            None => None,
        };
        if from_det is Some {
            from_det
        } else if spec_default_key_for_action(v) is Some {
            spec_default_key_for_action(v)
        } else {
            crate::keys::spec_parse_key_combo(v)
        }
    }
}

/// The detected binding table, viewed, when detection ran.
pub open spec fn spec_det_view(detected: Option<&TmuxDetected>) -> Option<
    Seq<crate::keys::BindingEntryV>,
> {
    match detected {
        Some(d) => Some(crate::keys::spec_bindings_view(d.actions@)),
        None => None,
    }
}

/// Resolve a tmux button configuration value to a key combo.
pub fn resolve_button(value: &str, detected: Option<&TmuxDetected>) -> (r: Option<Vec<VKey>>)
    ensures
        match r {
            Some(k) => spec_resolve_button(value.spec_bytes(), spec_det_view(detected)) == Some(
                k@,
            ),
            None => spec_resolve_button(value.spec_bytes(), spec_det_view(detected)) is None,
        },
{
    if value.as_bytes().len() == 0 {
        return None;
    }
    match detected {
        Some(det) => {
            let found = det.key_for_action(value);
            if found.is_some() {
                return found;
            }
        },
        None => {},
    }
    let by_name = default_key_for_action(value);
    if by_name.is_some() {
        return by_name;
    }
    parse_key_combo(value)
}

/// The stock fallback prefix, Control+B.
pub open spec fn spec_fallback_prefix() -> Seq<VKey> {
    seq![VKey::Control, VKey::B]
}

/// The resolved prefix: the detected one when auto-detection ran and found
/// one; else the configured string, parsed; else Control+B.
pub open spec fn spec_resolved_prefix(
    auto: bool,
    det_prefix: Option<Seq<VKey>>,
    cfg_prefix: Seq<u8>,
) -> Seq<VKey> {
    if auto && det_prefix is Some {
        det_prefix->0
    } else {
        match crate::keys::spec_parse_key_combo(cfg_prefix) {
            Some(k) => k,
            None => spec_fallback_prefix(),
        }
    }
}

/// The detected prefix, viewed, when detection ran.
pub open spec fn spec_det_prefix_view(detected: Option<&TmuxDetected>) -> Option<Seq<VKey>> {
    match detected {
        Some(d) => spec_opt_keys(d.prefix),
        None => None,
    }
}

fn parse_prefix_fallback(s: &str) -> (r: Vec<VKey>)
    ensures
        r@ == (match crate::keys::spec_parse_key_combo(s.spec_bytes()) {
            Some(k) => k,
            None => spec_fallback_prefix(),
        }),
{
    match parse_key_combo(s) {
        Some(k) => k,
        None => {
            let mut p: Vec<VKey> = Vec::new();
            p.push(VKey::Control);
            p.push(VKey::B);
            proof {
                assert(p@ =~= spec_fallback_prefix());
            }
            p
        },
    }
}

impl TmuxState {
    /// Resolve the tmux table from configuration and detection: the prefix
    /// prefers the detected one under auto-detection, and each button value
    /// resolves through detected bindings, stock defaults, then a direct
    /// combo parse. With auto-detection off, detection is ignored.
    pub fn from_config(cfg: &TmuxConfig, detected: Option<&TmuxDetected>) -> (r: TmuxState)
        ensures
            ({
                let det = if cfg.auto_detect {
                    spec_det_view(detected)
                } else {
                    None::<Seq<crate::keys::BindingEntryV>>
                };
                let detp = if cfg.auto_detect {
                    spec_det_prefix_view(detected)
                } else {
                    None::<Seq<VKey>>
                };
                &&& r@.prefix == spec_resolved_prefix(
                    cfg.auto_detect,
                    detp,
                    vstd::utf8::encode_utf8(cfg.prefix@),
                )
                &&& r@.l1 == spec_resolve_button(vstd::utf8::encode_utf8(cfg.l1@), det)
                &&& r@.r1 == spec_resolve_button(vstd::utf8::encode_utf8(cfg.r1@), det)
                &&& r@.l2 == spec_resolve_button(vstd::utf8::encode_utf8(cfg.l2@), det)
                &&& r@.r2 == spec_resolve_button(vstd::utf8::encode_utf8(cfg.r2@), det)
                &&& r@.l3 == spec_resolve_button(vstd::utf8::encode_utf8(cfg.l3@), det)
                &&& r@.r3 == spec_resolve_button(vstd::utf8::encode_utf8(cfg.r3@), det)
                &&& r@.square == spec_resolve_button(vstd::utf8::encode_utf8(cfg.square@), det)
                &&& r@.share == spec_resolve_button(vstd::utf8::encode_utf8(cfg.share@), det)
                &&& r@.options == spec_resolve_button(vstd::utf8::encode_utf8(cfg.options@), det)
                &&& r@.touchpad == spec_resolve_button(
                    vstd::utf8::encode_utf8(cfg.touchpad@),
                    det,
                )
            }),
    {
        let prefix: Vec<VKey> = if cfg.auto_detect {
            match detected {
                Some(d) => match &d.prefix {
                    Some(p) => clone_keys(p),
                    None => parse_prefix_fallback(cfg.prefix.as_str()),
                },
                None => parse_prefix_fallback(cfg.prefix.as_str()),
            }
        } else {
            parse_prefix_fallback(cfg.prefix.as_str())
        };
        let det = if cfg.auto_detect {
            detected
        } else {
            None
        };
        TmuxState {
            prefix,
            l1: resolve_button(cfg.l1.as_str(), det),
            r1: resolve_button(cfg.r1.as_str(), det),
            l2: resolve_button(cfg.l2.as_str(), det),
            r2: resolve_button(cfg.r2.as_str(), det),
            l3: resolve_button(cfg.l3.as_str(), det),
            r3: resolve_button(cfg.r3.as_str(), det),
            square: resolve_button(cfg.square.as_str(), det),
            share: resolve_button(cfg.share.as_str(), det),
            options: resolve_button(cfg.options.as_str(), det),
            touchpad: resolve_button(cfg.touchpad.as_str(), det),
        }
    }
}

/// Resolved Windows Terminal button mappings.
pub struct WtState {
    pub square: Option<Vec<VKey>>,
    pub l1: Option<Vec<VKey>>,
    pub r1: Option<Vec<VKey>>,
    pub l2: Option<Vec<VKey>>,
    pub r2: Option<Vec<VKey>>,
    pub l3: Option<Vec<VKey>>,
    pub r3: Option<Vec<VKey>>,
    pub share: Option<Vec<VKey>>,
    pub options: Option<Vec<VKey>>,
}

/// Spec view of the Windows Terminal table.
pub struct WtStateV {
    pub square: Option<Seq<VKey>>,
    pub l1: Option<Seq<VKey>>,
    pub r1: Option<Seq<VKey>>,
    pub l2: Option<Seq<VKey>>,
    pub r2: Option<Seq<VKey>>,
    pub l3: Option<Seq<VKey>>,
    pub r3: Option<Seq<VKey>>,
    pub share: Option<Seq<VKey>>,
    pub options: Option<Seq<VKey>>,
}

impl View for WtState {
    type V = WtStateV;

    open spec fn view(&self) -> WtStateV {
        WtStateV {
            square: spec_opt_keys(self.square),
            l1: spec_opt_keys(self.l1),
            r1: spec_opt_keys(self.r1),
            l2: spec_opt_keys(self.l2),
            r2: spec_opt_keys(self.r2),
            l3: spec_opt_keys(self.l3),
            r3: spec_opt_keys(self.r3),
            share: spec_opt_keys(self.share),
            options: spec_opt_keys(self.options),
        }
    }
}

/// The combo a Windows Terminal button value resolves to: empty means
/// unmapped; otherwise the detected binding, the stock default for the
/// action name, then a direct combo parse.
pub open spec fn spec_resolve_wt_button(
    v: Seq<u8>,
    det: Option<Seq<crate::keys::BindingEntryV>>,
) -> Option<Seq<VKey>> {
    if v.len() == 0 {
        None
    } else {
        let from_det = match det {
            Some(es) => crate::keys::spec_binding_lookup(es, v),
            None => None,
        };
        if from_det is Some {
            from_det
        } else if spec_default_key_for_wt_action(v) is Some {
            spec_default_key_for_wt_action(v)
        } else {
            crate::keys::spec_parse_key_combo(v)
        }
    }
}

/// The detected Windows Terminal table, viewed, when detection ran.
pub open spec fn spec_wt_det_view(detected: Option<&WtDetected>) -> Option<
    Seq<crate::keys::BindingEntryV>,
> {
    match detected {
        Some(d) => Some(crate::keys::spec_bindings_view(d.actions@)),
        None => None,
    }
}

/// Resolve a Windows Terminal button configuration value.
pub fn resolve_wt_button(value: &str, detected: Option<&WtDetected>) -> (r: Option<Vec<VKey>>)
    ensures
        match r {
            Some(k) => spec_resolve_wt_button(value.spec_bytes(), spec_wt_det_view(detected))
                == Some(k@),
            None => spec_resolve_wt_button(value.spec_bytes(), spec_wt_det_view(detected))
                is None,
        },
{
    if value.as_bytes().len() == 0 {
        return None;
    }
    match detected {
        Some(det) => {
            let found = det.key_for_action(value);
            if found.is_some() {
                return found;
            }
        },
        None => {},
    }
    let by_name = default_key_for_wt_action(value);
    if by_name.is_some() {
        return by_name;
    }
    parse_key_combo(value)
}

impl WtState {
    /// Resolve the Windows Terminal table from configuration and
    /// detection. With auto-detection off, detection is ignored.
    pub fn from_config(cfg: &WtConfig, detected: Option<&WtDetected>) -> (r: WtState)
        ensures
            ({
                let det = if cfg.auto_detect {
                    spec_wt_det_view(detected)
                } else {
                    None::<Seq<crate::keys::BindingEntryV>>
                };
                &&& r@.square == spec_resolve_wt_button(vstd::utf8::encode_utf8(cfg.square@), det)
                &&& r@.l1 == spec_resolve_wt_button(vstd::utf8::encode_utf8(cfg.l1@), det)
                &&& r@.r1 == spec_resolve_wt_button(vstd::utf8::encode_utf8(cfg.r1@), det)
                &&& r@.l2 == spec_resolve_wt_button(vstd::utf8::encode_utf8(cfg.l2@), det)
                &&& r@.r2 == spec_resolve_wt_button(vstd::utf8::encode_utf8(cfg.r2@), det)
                &&& r@.l3 == spec_resolve_wt_button(vstd::utf8::encode_utf8(cfg.l3@), det)
                &&& r@.r3 == spec_resolve_wt_button(vstd::utf8::encode_utf8(cfg.r3@), det)
                &&& r@.share == spec_resolve_wt_button(vstd::utf8::encode_utf8(cfg.share@), det)
                &&& r@.options == spec_resolve_wt_button(
                    vstd::utf8::encode_utf8(cfg.options@),
                    det,
                )
            }),
    {
        let det = if cfg.auto_detect {
            detected
        } else {
            None
        };
        WtState {
            square: resolve_wt_button(cfg.square.as_str(), det),
            l1: resolve_wt_button(cfg.l1.as_str(), det),
            r1: resolve_wt_button(cfg.r1.as_str(), det),
            l2: resolve_wt_button(cfg.l2.as_str(), det),
            r2: resolve_wt_button(cfg.r2.as_str(), det),
            l3: resolve_wt_button(cfg.l3.as_str(), det),
            r3: resolve_wt_button(cfg.r3.as_str(), det),
            share: resolve_wt_button(cfg.share.as_str(), det),
            options: resolve_wt_button(cfg.options.as_str(), det),
        }
    }
}

/// Resolved OpenCode button mappings: the leader combo and, per button,
/// a direct combo or a leader sequence.
pub struct OpenCodeState {
    pub leader: Vec<VKey>,
    pub l1: Option<ActionBinding>,
    pub r1: Option<ActionBinding>,
    pub l2: Option<ActionBinding>,
    pub r2: Option<ActionBinding>,
    pub l3: Option<ActionBinding>,
    pub r3: Option<ActionBinding>,
    pub square: Option<ActionBinding>,
    pub share: Option<ActionBinding>,
    pub options: Option<ActionBinding>,
    pub touchpad: Option<ActionBinding>,
}

/// An optional binding, viewed.
pub open spec fn spec_opt_binding(o: Option<ActionBinding>) -> Option<ActionBindingV> {
    match o {
        Some(ref b) => Some(b@),
        None => None,
    }
}

/// The binding an OpenCode button value resolves to: empty means unmapped;
/// otherwise the detected binding, the shipped default for the action
/// name, then a direct binding parse.
pub open spec fn spec_resolve_opencode_button(
    v: Seq<u8>,
    det: Option<Seq<crate::opencode_detect::OcEntryV>>,
) -> Option<ActionBindingV> {
    if v.len() == 0 {
        None
    } else {
        let from_det = match det {
            Some(es) => crate::opencode_detect::spec_oc_lookup(es, v),
            None => None,
        };
        if from_det is Some {
            from_det
        } else if spec_default_binding_for_opencode_action(v) is Some {
            spec_default_binding_for_opencode_action(v)
        } else {
            crate::opencode_detect::spec_parse_opencode_binding(v)
        }
    }
}

/// The detected OpenCode table, viewed, when detection ran.
pub open spec fn spec_oc_det_view(detected: Option<&OpenCodeDetected>) -> Option<
    Seq<crate::opencode_detect::OcEntryV>,
> {
    match detected {
        Some(d) => Some(crate::opencode_detect::spec_oc_view(d.actions@)),
        None => None,
    }
}

/// Resolve an OpenCode button configuration value.
pub fn resolve_opencode_button(value: &str, detected: Option<&OpenCodeDetected>) -> (r: Option<
    ActionBinding,
>)
    ensures
        match r {
            Some(b) => spec_resolve_opencode_button(
                value.spec_bytes(),
                spec_oc_det_view(detected),
            ) == Some(b@),
            None => spec_resolve_opencode_button(
                value.spec_bytes(),
                spec_oc_det_view(detected),
            ) is None,
        },
{
    if value.as_bytes().len() == 0 {
        return None;
    }
    match detected {
        Some(det) => {
            let found = det.binding_for_action(value);
            if found.is_some() {
                return found;
            }
        },
        None => {},
    }
    let by_name = default_binding_for_opencode_action(value);
    if by_name.is_some() {
        return by_name;
    }
    crate::opencode_detect::parse_opencode_binding(value)
}

/// The stock fallback leader, Control+X.
pub open spec fn spec_fallback_leader() -> Seq<VKey> {
    seq![VKey::Control, VKey::X]
}

/// The leader combo the OpenCode table resolves to: the detected leader
/// under auto-detection when there is one, else the configured combo,
/// falling back to Control+X when it does not parse.
pub open spec fn spec_resolve_opencode_leader(
    auto_detect: bool,
    leader_cfg: Seq<u8>,
    detected: Option<&OpenCodeDetected>,
) -> Seq<VKey> {
    let fallback = match crate::keys::spec_parse_key_combo(leader_cfg) {
        Some(k) => k,
        None => spec_fallback_leader(),
    };
    if auto_detect {
        match detected {
            Some(d) => match d.leader {
                Some(p) => p@,
                None => fallback,
            },
            None => fallback,
        }
    } else {
        fallback
    }
}

fn parse_leader_fallback(s: &str) -> (r: Vec<VKey>)
    ensures
        r@ == (match crate::keys::spec_parse_key_combo(s.spec_bytes()) {
            Some(k) => k,
            None => spec_fallback_leader(),
        }),
{
    match parse_key_combo(s) {
        Some(k) => k,
        None => {
            let mut p: Vec<VKey> = Vec::new();
            p.push(VKey::Control);
            p.push(VKey::X);
            proof {
                assert(p@ =~= spec_fallback_leader());
            }
            p
        },
    }
}

impl OpenCodeState {
    /// Resolve the OpenCode table from configuration and detection: the
    /// leader prefers the detected one under auto-detection; each button
    /// resolves through detected bindings, shipped defaults, then a direct
    /// binding parse. With auto-detection off, detection is ignored.
    pub fn from_config(cfg: &OpenCodeConfig, detected: Option<&OpenCodeDetected>) -> (r:
        OpenCodeState)
        ensures
            ({
                let det = if cfg.auto_detect {
                    spec_oc_det_view(detected)
                } else {
                    None::<Seq<crate::opencode_detect::OcEntryV>>
                };
                &&& r.leader@ == spec_resolve_opencode_leader(
                    cfg.auto_detect,
                    vstd::utf8::encode_utf8(cfg.leader@),
                    detected,
                )
                &&& spec_opt_binding(r.l1) == spec_resolve_opencode_button(
                    vstd::utf8::encode_utf8(cfg.l1@),
                    det,
                )
                &&& spec_opt_binding(r.r1) == spec_resolve_opencode_button(
                    vstd::utf8::encode_utf8(cfg.r1@),
                    det,
                )
                &&& spec_opt_binding(r.l2) == spec_resolve_opencode_button(
                    vstd::utf8::encode_utf8(cfg.l2@),
                    det,
                )
                &&& spec_opt_binding(r.r2) == spec_resolve_opencode_button(
                    vstd::utf8::encode_utf8(cfg.r2@),
                    det,
                )
                &&& spec_opt_binding(r.l3) == spec_resolve_opencode_button(
                    vstd::utf8::encode_utf8(cfg.l3@),
                    det,
                )
                &&& spec_opt_binding(r.r3) == spec_resolve_opencode_button(
                    vstd::utf8::encode_utf8(cfg.r3@),
                    det,
                )
                &&& spec_opt_binding(r.square) == spec_resolve_opencode_button(
                    vstd::utf8::encode_utf8(cfg.square@),
                    det,
                )
                &&& spec_opt_binding(r.share) == spec_resolve_opencode_button(
                    vstd::utf8::encode_utf8(cfg.share@),
                    det,
                )
                &&& spec_opt_binding(r.options) == spec_resolve_opencode_button(
                    vstd::utf8::encode_utf8(cfg.options@),
                    det,
                )
                &&& spec_opt_binding(r.touchpad) == spec_resolve_opencode_button(
                    vstd::utf8::encode_utf8(cfg.touchpad@),
                    det,
                )
            }),
    {
        let leader: Vec<VKey> = if cfg.auto_detect {
            match detected {
                Some(d) => match &d.leader {
                    Some(p) => clone_keys(p),
                    None => parse_leader_fallback(cfg.leader.as_str()),
                },
                None => parse_leader_fallback(cfg.leader.as_str()),
            }
        } else {
            parse_leader_fallback(cfg.leader.as_str())
        };
        let det = if cfg.auto_detect {
            detected
        } else {
            None
        };
        OpenCodeState {
            leader,
            l1: resolve_opencode_button(cfg.l1.as_str(), det),
            r1: resolve_opencode_button(cfg.r1.as_str(), det),
            l2: resolve_opencode_button(cfg.l2.as_str(), det),
            r2: resolve_opencode_button(cfg.r2.as_str(), det),
            l3: resolve_opencode_button(cfg.l3.as_str(), det),
            r3: resolve_opencode_button(cfg.r3.as_str(), det),
            square: resolve_opencode_button(cfg.square.as_str(), det),
            share: resolve_opencode_button(cfg.share.as_str(), det),
            options: resolve_opencode_button(cfg.options.as_str(), det),
            touchpad: resolve_opencode_button(cfg.touchpad.as_str(), det),
        }
    }
}

// ── Frame processing ─────────────────────────────────────────────────

/// The axis delta from center after the dead zone: deflections smaller
/// than the dead zone count as zero.
pub open spec fn spec_dz(v: u8, dz: u8) -> int {
    let d = v as int - 128;
    if (if d < 0 { -d } else { d }) < dz {
        0
    } else {
        d
    }
}

/// Clamp to the stick's nominal range.
pub open spec fn spec_clamp127(d: int) -> int {
    if d < -127 {
        -127
    } else if d > 127 {
        127
    } else {
        d
    }
}

/// Truncated extraction of whole pixels from a thousandths accumulator:
/// the emitted pixels and the remainder that stays.
pub open spec fn spec_extract(acc: int) -> (int, int) {
    let emit = if acc >= 0 {
        acc / 1000
    } else {
        -((-acc) / 1000)
    };
    (emit, acc - emit * 1000)
}

/// Sub-pixel conservation: extraction loses nothing — the emitted pixels
/// times 1000 plus the remainder is exactly the accumulator, and the
/// remainder is a strict sub-pixel.
pub proof fn lemma_extract_conserves(acc: int)
    ensures
        spec_extract(acc).0 * 1000 + spec_extract(acc).1 == acc,
        -1000 < spec_extract(acc).1 < 1000,
{
    if acc >= 0 {
        vstd::arithmetic::div_mod::lemma_fundamental_div_mod(acc, 1000);
        vstd::arithmetic::div_mod::lemma_mod_bound(acc, 1000);
    } else {
        vstd::arithmetic::div_mod::lemma_fundamental_div_mod(-acc, 1000);
        vstd::arithmetic::div_mod::lemma_mod_bound(-acc, 1000);
    }
}

/// One axis of the cursor accumulator after `n` stick frames at a
/// constant per-frame velocity of `v` thousandths, and the total pixels
/// emitted on that axis over the run: each frame adds `v`, whole pixels
/// leave, the sub-pixel remainder stays.
pub open spec fn spec_stick_iter(acc0: int, v: int, n: nat) -> (int, int)
    decreases n,
{
    if n == 0 {
        (acc0, 0)
    } else {
        let prev = spec_stick_iter(acc0, v, (n - 1) as nat);
        let a = prev.0 + v;
        (spec_extract(a).1, prev.1 + spec_extract(a).0)
    }
}

/// Sub-pixel motion over a whole run: after `n` frames at constant
/// velocity `v`, the pixels emitted times 1000 plus the remaining
/// accumulator equal the starting accumulator plus the accumulated input
/// exactly, and the remainder is a strict sub-pixel. So the cumulative
/// emission stays within one pixel of the exact total, for every `n`:
/// the fraction is carried between frames, never lost.
pub proof fn lemma_stick_iter_conserves(acc0: int, v: int, n: nat)
    ensures
        spec_stick_iter(acc0, v, n).1 * 1000 + spec_stick_iter(acc0, v, n).0 == acc0 + n * v,
        n > 0 ==> -1000 < spec_stick_iter(acc0, v, n).0 < 1000,
    decreases n,
{
    if n == 0 {
        assert(n * v == 0) by (nonlinear_arith)
            requires
                n == 0,
        ;
    } else {
        lemma_stick_iter_conserves(acc0, v, (n - 1) as nat);
        let prev = spec_stick_iter(acc0, v, (n - 1) as nat);
        let a = prev.0 + v;
        let e = spec_extract(a).0;
        let r = spec_extract(a).1;
        lemma_extract_conserves(a);
        assert(e * 1000 + r == a);
        assert(spec_stick_iter(acc0, v, n) == (r, prev.1 + e));
        assert(prev.1 * 1000 + prev.0 == acc0 + (n - 1) * v);
        assert((prev.1 + e) * 1000 == prev.1 * 1000 + e * 1000) by (nonlinear_arith);
        assert(n * v == (n - 1) * v + v) by (nonlinear_arith)
            requires
                n >= 1,
        ;
        assert((prev.1 + e) * 1000 + r == acc0 + n * v);
    }
}

/// The dx of a frame's stick contribution: the emitted motion's dx, zero
/// when nothing was emitted.
pub open spec fn spec_emitted_dx(actions: Seq<ActionV>) -> int {
    if actions.len() == 0 {
        0
    } else {
        match actions[0] {
            ActionV::MouseMove { dx, dy } => dx,
            _ => 0,
        }
    }
}

/// The dy of a frame's stick contribution: the emitted motion's dy, zero
/// when nothing was emitted.
pub open spec fn spec_emitted_dy(actions: Seq<ActionV>) -> int {
    if actions.len() == 0 {
        0
    } else {
        match actions[0] {
            ActionV::MouseMove { dx, dy } => dy,
            _ => 0,
        }
    }
}

/// One stick frame past the dead zone is one step of the iterated
/// extraction on each axis: with per-frame velocities `vx` and `vy` in
/// thousandths, the new accumulators are the sub-pixel remainders and the
/// emitted motion is the whole-pixel parts (zero when no pixel was
/// ready). With `lemma_stick_iter_conserves`, a constant deflection held
/// over any number of frames emits a pixel total within one pixel of the
/// exact scaled motion.
pub proof fn lemma_stick_step_extracts(
    dz: u8,
    sens: u32,
    acc_x: int,
    acc_y: int,
    input: UnifiedInput,
)
    requires
        spec_dz(input.left_stick.0, dz) != 0 || spec_dz(input.left_stick.1, dz) != 0,
    ensures
        ({
            let vx = spec_scale_trunc(spec_clamp127(spec_dz(input.left_stick.0, dz)), sens as int, 127);
            let vy = spec_scale_trunc(spec_clamp127(spec_dz(input.left_stick.1, dz)), sens as int, 127);
            let step = spec_stick_step(true, true, dz, sens, acc_x, acc_y, input);
            &&& step.1 == spec_extract(acc_x + vx).1
            &&& step.2 == spec_extract(acc_y + vy).1
            &&& spec_emitted_dx(step.0) == spec_extract(acc_x + vx).0
            &&& spec_emitted_dy(step.0) == spec_extract(acc_y + vy).0
        }),
{
    reveal(spec_stick_step);
}

/// What the touchpad contributes this frame: relative motion while contact
/// zero is active and the stick is not the cursor source, then a click on
/// the pad's rising edge. The click fires in every mouse mode.
#[verifier::opaque]
pub open spec fn spec_touchpad_actions(
    enabled: bool,
    stick_active: bool,
    sens: u32,
    prev_touch: Option<(u16, u16)>,
    prev_click: bool,
    input: UnifiedInput,
) -> Seq<ActionV> {
    if !enabled {
        Seq::empty()
    } else {
        let tp = input.touchpad[0];
        let mv: Seq<ActionV> = if tp.active && !stick_active && prev_touch is Some {
            let (px, py) = prev_touch->0;
            let dx = spec_scale_trunc(tp.x as int - px as int, sens as int, 1000);
            let dy = spec_scale_trunc(tp.y as int - py as int, sens as int, 1000);
            if dx != 0 || dy != 0 {
                seq![ActionV::MouseMove { dx: dx, dy: dy }]
            } else {
                Seq::empty()
            }
        } else {
            Seq::empty()
        };
        let click: Seq<ActionV> = if input.buttons.touchpad && !prev_click {
            seq![ActionV::MouseClick]
        } else {
            Seq::empty()
        };
        mv + click
    }
}

/// The remembered touch position after the frame: the current contact
/// while touching in touchpad mode, cleared otherwise so a later touch
/// cannot produce a phantom jump.
#[verifier::opaque]
pub open spec fn spec_touchpad_prev(
    enabled: bool,
    stick_active: bool,
    prev_touch: Option<(u16, u16)>,
    input: UnifiedInput,
) -> Option<(u16, u16)> {
    if !enabled {
        prev_touch
    } else {
        let tp = input.touchpad[0];
        if tp.active && !stick_active {
            Some((tp.x, tp.y))
        } else {
            None
        }
    }
}

/// What the left stick contributes this frame and the accumulators after
/// it: below the dead zone the accumulators reset; otherwise the clamped
/// velocity in thousandths is added and whole pixels are extracted.
#[verifier::opaque]
pub open spec fn spec_stick_step(
    enabled: bool,
    stick_active: bool,
    dz: u8,
    sens: u32,
    acc_x: int,
    acc_y: int,
    input: UnifiedInput,
) -> (Seq<ActionV>, int, int) {
    if !enabled || !stick_active {
        (Seq::empty(), acc_x, acc_y)
    } else {
        let dxr = spec_dz(input.left_stick.0, dz);
        let dyr = spec_dz(input.left_stick.1, dz);
        if dxr == 0 && dyr == 0 {
            (Seq::empty(), 0, 0)
        } else {
            let ax = acc_x + spec_scale_trunc(spec_clamp127(dxr), sens as int, 127);
            let ay = acc_y + spec_scale_trunc(spec_clamp127(dyr), sens as int, 127);
            let ex = spec_extract(ax).0;
            let ey = spec_extract(ay).0;
            if ex != 0 || ey != 0 {
                (
                    seq![ActionV::MouseMove { dx: ex, dy: ey }],
                    spec_extract(ax).1,
                    spec_extract(ay).1,
                )
            } else {
                (Seq::empty(), ax, ay)
            }
        }
    }
}

/// The always-active face buttons, on rising edges: cross taps Return,
/// circle taps Escape, triangle taps Tab.
#[verifier::opaque]
pub open spec fn spec_face_actions(prev: ButtonState, cur: ButtonState) -> Seq<ActionV> {
    let a: Seq<ActionV> = if cur.cross && !prev.cross {
        seq![ActionV::KeyCombo(seq![VKey::Return])]
    } else {
        Seq::empty()
    };
    let b: Seq<ActionV> = if cur.circle && !prev.circle {
        seq![ActionV::KeyCombo(seq![VKey::Escape])]
    } else {
        Seq::empty()
    };
    let c: Seq<ActionV> = if cur.triangle && !prev.triangle {
        seq![ActionV::KeyCombo(seq![VKey::Tab])]
    } else {
        Seq::empty()
    };
    a + b + c
}

/// The profile after the system button: a rising edge cycles it when the
/// tmux profile is available.
#[verifier::opaque]
pub open spec fn spec_next_profile(
    profile: Profile,
    tmux_available: bool,
    prev_ps: bool,
    cur_ps: bool,
) -> Profile {
    if cur_ps && !prev_ps && tmux_available {
        match profile {
            Profile::Default => Profile::Tmux,
            Profile::Tmux => Profile::Default,
        }
    } else {
        profile
    }
}

/// The announcement a profile switch emits.
#[verifier::opaque]
pub open spec fn spec_profile_actions(
    profile: Profile,
    tmux_available: bool,
    prev_ps: bool,
    cur_ps: bool,
) -> Seq<ActionV> {
    if cur_ps && !prev_ps && tmux_available {
        match profile {
            Profile::Default => seq![ActionV::Custom("profile:tmux"@)],
            Profile::Tmux => seq![ActionV::Custom("profile:default"@)],
        }
    } else {
        Seq::empty()
    }
}

/// A tap of an optional combo on a rising edge.
#[verifier::opaque]
pub open spec fn spec_combo_if(edge: bool, keys: Option<Seq<VKey>>) -> Seq<ActionV> {
    if edge && keys is Some {
        seq![ActionV::KeyCombo(keys->0)]
    } else {
        Seq::empty()
    }
}

/// A prefix-then-key sequence of an optional combo on a rising edge.
#[verifier::opaque]
pub open spec fn spec_tmux_seq_if(edge: bool, prefix: Seq<VKey>, keys: Option<Seq<VKey>>) -> Seq<
    ActionV,
> {
    if edge && keys is Some {
        seq![ActionV::KeySequence(seq![prefix, keys->0])]
    } else {
        Seq::empty()
    }
}

/// The L2 hold: key-down of Control+Win on press, key-up on release.
#[verifier::opaque]
pub open spec fn spec_l2_hold(prev: bool, cur: bool) -> Seq<ActionV> {
    if cur && !prev {
        seq![ActionV::KeyDown(seq![VKey::Control, VKey::Win])]
    } else if !cur && prev {
        seq![ActionV::KeyUp(seq![VKey::Control, VKey::Win])]
    } else {
        Seq::empty()
    }
}

/// The profile-dependent button dispatch for this frame, in emission
/// order. Default sends the Windows Terminal combos on Square/L1/R1 and
/// fixed combos on R2/L3/R3; Tmux sends prefix sequences on its mapped
/// buttons; both hold Control+Win on L2.
#[verifier::opaque]
pub open spec fn spec_dispatch_default(wt: WtStateV, prev: ButtonState, cur: ButtonState) -> Seq<
    ActionV,
> {
    spec_combo_if(cur.square && !prev.square, wt.square) + spec_combo_if(
        cur.l1 && !prev.l1,
        wt.l1,
    ) + spec_combo_if(cur.r1 && !prev.r1, wt.r1) + spec_l2_hold(prev.l2, cur.l2) + spec_combo_if(
        cur.r2 && !prev.r2,
        Some(seq![VKey::Control, VKey::C]),
    ) + spec_combo_if(cur.l3 && !prev.l3, Some(seq![VKey::Control, VKey::T])) + spec_combo_if(
        cur.r3 && !prev.r3,
        Some(seq![VKey::Control, VKey::P]),
    )
}

#[verifier::opaque]
pub open spec fn spec_dispatch_tmux(tmux: TmuxStateV, prev: ButtonState, cur: ButtonState) -> Seq<
    ActionV,
> {
    spec_tmux_seq_if(cur.l1 && !prev.l1, tmux.prefix, tmux.l1) + spec_tmux_seq_if(
        cur.r1 && !prev.r1,
        tmux.prefix,
        tmux.r1,
    ) + spec_tmux_seq_if(cur.square && !prev.square, tmux.prefix, tmux.square) + spec_l2_hold(
        prev.l2,
        cur.l2,
    ) + spec_tmux_seq_if(cur.r2 && !prev.r2, tmux.prefix, tmux.r2) + spec_combo_if(
        cur.l3 && !prev.l3,
        Some(seq![VKey::Control, VKey::T]),
    ) + spec_combo_if(cur.r3 && !prev.r3, Some(seq![VKey::Control, VKey::P])) + spec_tmux_seq_if(
        cur.share && !prev.share,
        tmux.prefix,
        tmux.share,
    ) + spec_tmux_seq_if(cur.options && !prev.options, tmux.prefix, tmux.options)
}

#[verifier::opaque]
pub open spec fn spec_dispatch_actions(
    profile: Profile,
    wt: WtStateV,
    tmux: TmuxStateV,
    prev: ButtonState,
    cur: ButtonState,
) -> Seq<ActionV> {
    match profile {
        Profile::Default => spec_dispatch_default(wt, prev, cur),
        Profile::Tmux => spec_dispatch_tmux(tmux, prev, cur),
    }
}

/// Whether a hat direction includes up / down / left / right.
pub open spec fn spec_up_held(d: DPad) -> bool {
    d == DPad::Up || d == DPad::UpLeft || d == DPad::UpRight
}

pub open spec fn spec_down_held(d: DPad) -> bool {
    d == DPad::Down || d == DPad::DownLeft || d == DPad::DownRight
}

pub open spec fn spec_left_held(d: DPad) -> bool {
    d == DPad::Left || d == DPad::UpLeft || d == DPad::DownLeft
}

pub open spec fn spec_right_held(d: DPad) -> bool {
    d == DPad::Right || d == DPad::UpRight || d == DPad::DownRight
}

/// One direction timer stepped by a frame: a fresh press arms it without
/// firing, a held press runs the confirm-and-repeat clock, a release
/// disarms it.
#[verifier::opaque]
pub open spec fn spec_dpad_step(t: RepeatTimer, held: bool, prev_held: bool, now: u64) -> (
    RepeatTimer,
    bool,
) {
    if held && !prev_held {
        (
            RepeatTimer {
                pending_since: Some(now),
                pressed_at: t.pressed_at,
                last_fired: t.last_fired,
            },
            false,
        )
    } else if held {
        spec_on_hold(t, now)
    } else {
        (
            RepeatTimer { pending_since: None, pressed_at: None, last_fired: t.last_fired },
            false,
        )
    }
}

/// The action a direction step emits.
#[verifier::opaque]
pub open spec fn spec_dpad_actions(fired: bool, key: VKey) -> Seq<ActionV> {
    if fired {
        seq![ActionV::KeyCombo(seq![key])]
    } else {
        Seq::empty()
    }
}

/// The scroll rate-limit interval for a gated deflection magnitude: from
/// 200 ms near the dead zone down to 30 ms at full deflection.
pub open spec fn spec_scroll_interval(maxd: int) -> int {
    let q = if maxd > 127 {
        127
    } else {
        maxd
    };
    200 - (170 * q) / 127
}

/// The wheel delta for a gated axis deflection: the clamped deflection
/// over full scale, times the sensitivity, times the 120-unit notch,
/// truncated toward zero.
pub open spec fn spec_wheel(c: int, sens: u32) -> int {
    spec_scale_trunc(spec_clamp127(c) * 120, sens as int, 127000)
}

/// What the right stick contributes this frame and the new rate-limit
/// stamp: nothing with the stick inside the dead zone (and the stamp
/// cleared); nothing while the interval since the last emission has not
/// passed; otherwise one scroll action with the computed wheel deltas.
#[verifier::opaque]
pub open spec fn spec_scroll_step(
    dz: u8,
    sens: u32,
    horizontal: bool,
    last: Option<u64>,
    stick: (u8, u8),
    now: u64,
) -> (Seq<ActionV>, Option<u64>) {
    let dx0 = spec_dz(stick.0, dz);
    let dy = spec_dz(stick.1, dz);
    let dx = if horizontal {
        dx0
    } else {
        0
    };
    if dx == 0 && dy == 0 {
        (Seq::empty(), None::<u64>)
    } else {
        let adx = if dx < 0 { -dx } else { dx };
        let ady = if dy < 0 { -dy } else { dy };
        let maxd = if adx > ady { adx } else { ady };
        let interval = spec_scroll_interval(maxd);
        if last matches Some(l) && spec_since(now, l) < interval {
            (Seq::empty(), last)
        } else {
            let vertical = if dy != 0 { spec_wheel(-dy, sens) } else { 0 };
            let horiz = if dx != 0 { spec_wheel(dx, sens) } else { 0 };
            if vertical != 0 || horiz != 0 {
                (seq![ActionV::Scroll { horizontal: horiz, vertical: vertical }], Some(now))
            } else {
                (Seq::empty(), last)
            }
        }
    }
}

/// Scroll rate limit: the interval is never below 30 ms and never above
/// 200 ms, and a scroll is emitted only when no emission happened within
/// the interval.
pub proof fn lemma_scroll_rate_limit(maxd: int)
    requires
        maxd >= 0,
    ensures
        30 <= spec_scroll_interval(maxd) <= 200,
{
    let q = if maxd > 127 { 127int } else { maxd };
    assert(0 <= q <= 127);
    assert(170 * q <= 21590);
    vstd::arithmetic::div_mod::lemma_div_is_ordered(170 * q, 21590, 127);
    vstd::arithmetic::div_mod::lemma_div_pos_is_pos(170 * q, 127);
    assert(21590int / 127 == 170);
}

/// The rate stamp after a run of scroll frames at one stick position,
/// each folded through the scroll step.
pub open spec fn spec_scroll_run_stamp(
    dz: u8,
    sens: u32,
    horizontal: bool,
    last: Option<u64>,
    stick: (u8, u8),
    times: Seq<u64>,
) -> Option<u64>
    decreases times.len(),
{
    if times.len() == 0 {
        last
    } else {
        spec_scroll_run_stamp(
            dz,
            sens,
            horizontal,
            spec_scroll_step(dz, sens, horizontal, last, stick, times[0]).1,
            stick,
            times.skip(1),
        )
    }
}

/// The gated deflection magnitude the interval is computed from.
pub open spec fn spec_scroll_maxd(dz: u8, horizontal: bool, stick: (u8, u8)) -> int {
    let dx0 = spec_dz(stick.0, dz);
    let dy = spec_dz(stick.1, dz);
    let dx = if horizontal {
        dx0
    } else {
        0
    };
    let adx = if dx < 0 {
        -dx
    } else {
        dx
    };
    let ady = if dy < 0 {
        -dy
    } else {
        dy
    };
    if adx > ady {
        adx
    } else {
        ady
    }
}

/// Scroll rate limit across frames: after an emission at `l`, a whole run
/// of frames at a deflection held out of the dead zone, each sooner than
/// the deflection's interval after `l`, emits nothing and keeps the stamp
/// at `l`. So two emissions at a held deflection are at least the
/// interval apart, however many frames the poll loop puts between them.
pub proof fn lemma_scroll_run_suppressed(
    dz: u8,
    sens: u32,
    horizontal: bool,
    stick: (u8, u8),
    l: u64,
    times: Seq<u64>,
)
    requires
        ({
            let dx0 = spec_dz(stick.0, dz);
            let dy = spec_dz(stick.1, dz);
            let dx = if horizontal {
                dx0
            } else {
                0
            };
            !(dx == 0 && dy == 0)
        }),
        forall|i: int|
            0 <= i < times.len() ==> spec_since(#[trigger] times[i], l) < spec_scroll_interval(
                spec_scroll_maxd(dz, horizontal, stick),
            ),
    ensures
        spec_scroll_run_stamp(dz, sens, horizontal, Some(l), stick, times) == Some(l),
        forall|i: int|
            0 <= i < times.len() ==> spec_scroll_step(
                dz,
                sens,
                horizontal,
                Some(l),
                stick,
                #[trigger] times[i],
            ).0.len() == 0,
    decreases times.len(),
{
    reveal(spec_scroll_step);
    if times.len() > 0 {
        assert(spec_scroll_step(dz, sens, horizontal, Some(l), stick, times[0]) == (
            Seq::<ActionV>::empty(),
            Some(l),
        ));
        assert(forall|i: int|
            0 <= i < times.skip(1).len() ==> #[trigger] times.skip(1)[i] == times[i + 1]);
        lemma_scroll_run_suppressed(dz, sens, horizontal, stick, l, times.skip(1));
    }
}

/// Main mapper state: previous frame's buttons, the four direction
/// timers, the scroll and cursor accumulators, the mouse-mode switch, and
/// the resolved profile tables. Sensitivities are integer thousandths.
pub struct MapperState {
    pub prev: ButtonState,
    pub repeat_up: RepeatTimer,
    pub repeat_down: RepeatTimer,
    pub repeat_left: RepeatTimer,
    pub repeat_right: RepeatTimer,
    pub last_scroll_at: Option<u64>,
    pub scroll_dead_zone: u8,
    pub scroll_sensitivity_milli: u32,
    pub scroll_horizontal: bool,
    pub stick_mouse_enabled: bool,
    pub stick_mouse_sensitivity_milli: u32,
    pub stick_mouse_dead_zone: u8,
    pub stick_acc_x_milli: i32,
    pub stick_acc_y_milli: i32,
    /// false: touchpad touch moves the cursor; true: the left stick does.
    /// The touchpad click fires in both modes.
    pub mouse_stick_active: bool,
    pub prev_touch: Option<(u16, u16)>,
    pub touchpad_enabled: bool,
    pub touchpad_sensitivity_milli: u32,
    pub active_profile: Profile,
    pub tmux_available: bool,
    pub tmux: TmuxState,
    pub opencode: OpenCodeState,
    pub wt: WtState,
}

impl MapperState {
    /// Sensitivities small enough for exact arithmetic, accumulators
    /// strictly sub-pixel.
    pub open spec fn wf(self) -> bool {
        &&& self.scroll_sensitivity_milli <= 1_000_000
        &&& self.stick_mouse_sensitivity_milli <= 1_000_000
        &&& self.touchpad_sensitivity_milli <= 1_000_000
        &&& -1000 < self.stick_acc_x_milli < 1000
        &&& -1000 < self.stick_acc_y_milli < 1000
    }
}

fn combo1(k: VKey) -> (r: Vec<VKey>)
    ensures
        r@ == seq![k],
{
    let mut v: Vec<VKey> = Vec::new();
    v.push(k);
    proof {
        assert(v@ =~= seq![k]);
    }
    v
}

fn combo2(a: VKey, b: VKey) -> (r: Vec<VKey>)
    ensures
        r@ == seq![a, b],
{
    let mut v: Vec<VKey> = Vec::new();
    v.push(a);
    v.push(b);
    proof {
        assert(v@ =~= seq![a, b]);
    }
    v
}

/// A prefix-then-keys sequence action.
fn tmux_sequence(prefix: &Vec<VKey>, keys: &Vec<VKey>) -> (r: Action)
    ensures
        r@ == ActionV::KeySequence(seq![prefix@, keys@]),
{
    let mut seqs: Vec<Vec<VKey>> = Vec::new();
    seqs.push(clone_keys(prefix));
    seqs.push(clone_keys(keys));
    let r = Action::KeySequence(seqs);
    proof {
        assert(r@->KeySequence_0 =~= seq![prefix@, keys@]);
    }
    r
}

fn step_touchpad(
    enabled: bool,
    stick_active: bool,
    sens: u32,
    prev_touch: &mut Option<(u16, u16)>,
    prev_click: bool,
    input: &UnifiedInput,
    actions: &mut Vec<Action>,
)
    requires
        sens <= 1_000_000,
    ensures
        spec_actions_view(final(actions)@) == spec_actions_view(old(actions)@)
            + spec_touchpad_actions(
            enabled,
            stick_active,
            sens,
            *old(prev_touch),
            prev_click,
            *input,
        ),
        *final(prev_touch) == spec_touchpad_prev(enabled, stick_active, *old(prev_touch), *input),
{
    proof {
        reveal(spec_touchpad_actions);
        reveal(spec_touchpad_prev);
    }
    let ghost a0 = spec_actions_view(actions@);
    let ghost a_tp = spec_touchpad_actions(
        enabled,
        stick_active,
        sens,
        *prev_touch,
        prev_click,
        *input,
    );
    if enabled {
        let tp = input.touchpad[0];
        if tp.active && !stick_active {
            match *prev_touch {
                Some((px, py)) => {
                    let raw_dx = tp.x as i32 - px as i32;
                    let raw_dy = tp.y as i32 - py as i32;
                    let dx = scale_milli(raw_dx, sens, 1000);
                    let dy = scale_milli(raw_dy, sens, 1000);
                    if dx != 0 || dy != 0 {
                        actions.push(Action::MouseMove { dx, dy });
                    }
                },
                None => {},
            }
            *prev_touch = Some((tp.x, tp.y));
        } else {
            *prev_touch = None;
        }
        if input.buttons.touchpad && !prev_click {
            actions.push(Action::MouseClick);
        }
    }
    proof {
        assert(spec_actions_view(actions@) =~= a0 + a_tp);
    }
}

fn step_stick(
    enabled: bool,
    stick_active: bool,
    dz: u8,
    sens: u32,
    acc_x: &mut i32,
    acc_y: &mut i32,
    input: &UnifiedInput,
    actions: &mut Vec<Action>,
)
    requires
        sens <= 1_000_000,
        -1000 < *old(acc_x) < 1000,
        -1000 < *old(acc_y) < 1000,
    ensures
        ({
            let st = spec_stick_step(
                enabled,
                stick_active,
                dz,
                sens,
                *old(acc_x) as int,
                *old(acc_y) as int,
                *input,
            );
            &&& spec_actions_view(final(actions)@) == spec_actions_view(old(actions)@) + st.0
            &&& *final(acc_x) as int == st.1
            &&& *final(acc_y) as int == st.2
        }),
        -1000 < *final(acc_x) < 1000,
        -1000 < *final(acc_y) < 1000,
{
    proof {
        reveal(spec_stick_step);
    }
    let ghost a0 = spec_actions_view(actions@);
    let ghost st = spec_stick_step(
        enabled,
        stick_active,
        dz,
        sens,
        *acc_x as int,
        *acc_y as int,
        *input,
    );
    if enabled && stick_active {
        let dx_raw = dz_axis(input.left_stick.0, dz);
        let dy_raw = dz_axis(input.left_stick.1, dz);
        if dx_raw == 0 && dy_raw == 0 {
            *acc_x = 0;
            *acc_y = 0;
        } else {
            let cx = clamp127(dx_raw);
            let cy = clamp127(dy_raw);
            let vx = scale_milli(cx, sens, 127);
            let vy = scale_milli(cy, sens, 127);
            proof {
                lemma_vel_bound(cx as int, sens as int);
                lemma_vel_bound(cy as int, sens as int);
            }
            let ax = *acc_x + vx;
            let ay = *acc_y + vy;
            let (ex, rx) = extract_pixels(ax);
            let (ey, ry) = extract_pixels(ay);
            if ex != 0 || ey != 0 {
                actions.push(Action::MouseMove { dx: ex, dy: ey });
                *acc_x = rx;
                *acc_y = ry;
            } else {
                *acc_x = ax;
                *acc_y = ay;
            }
        }
    }
    proof {
        assert(spec_actions_view(actions@) =~= a0 + st.0);
    }
}

fn step_face(prev: ButtonState, cur: ButtonState, actions: &mut Vec<Action>)
    ensures
        spec_actions_view(final(actions)@) == spec_actions_view(old(actions)@) + spec_face_actions(
            prev,
            cur,
        ),
{
    proof {
        reveal(spec_face_actions);
    }
    let ghost a0 = spec_actions_view(actions@);
    if cur.cross && !prev.cross {
        actions.push(Action::KeyCombo(combo1(VKey::Return)));
    }
    if cur.circle && !prev.circle {
        actions.push(Action::KeyCombo(combo1(VKey::Escape)));
    }
    if cur.triangle && !prev.triangle {
        actions.push(Action::KeyCombo(combo1(VKey::Tab)));
    }
    proof {
        assert(spec_actions_view(actions@) =~= a0 + spec_face_actions(prev, cur));
    }
}

fn step_profile(
    profile: &mut Profile,
    tmux_available: bool,
    prev_ps: bool,
    cur_ps: bool,
    actions: &mut Vec<Action>,
)
    ensures
        spec_actions_view(final(actions)@) == spec_actions_view(old(actions)@)
            + spec_profile_actions(*old(profile), tmux_available, prev_ps, cur_ps),
        *final(profile) == spec_next_profile(*old(profile), tmux_available, prev_ps, cur_ps),
{
    proof {
        reveal(spec_profile_actions);
        reveal(spec_next_profile);
    }
    let ghost a0 = spec_actions_view(actions@);
    let ghost ap = spec_profile_actions(*profile, tmux_available, prev_ps, cur_ps);
    if cur_ps && !prev_ps && tmux_available {
        match *profile {
            Profile::Default => {
                *profile = Profile::Tmux;
                actions.push(Action::Custom("profile:tmux".to_owned()));
            },
            Profile::Tmux => {
                *profile = Profile::Default;
                actions.push(Action::Custom("profile:default".to_owned()));
            },
        }
    }
    proof {
        assert(spec_actions_view(actions@) =~= a0 + ap);
    }
}

/// Concatenating seven pieces one at a time equals appending their sum.
proof fn lemma_concat7(
    a0: Seq<ActionV>,
    p1: Seq<ActionV>,
    p2: Seq<ActionV>,
    p3: Seq<ActionV>,
    p4: Seq<ActionV>,
    p5: Seq<ActionV>,
    p6: Seq<ActionV>,
    p7: Seq<ActionV>,
)
    ensures
        a0 + p1 + p2 + p3 + p4 + p5 + p6 + p7 == a0 + (p1 + p2 + p3 + p4 + p5 + p6 + p7),
{
    assert(a0 + p1 + p2 + p3 + p4 + p5 + p6 + p7 =~= a0 + (p1 + p2 + p3 + p4 + p5 + p6 + p7));
}

/// Concatenating nine pieces one at a time equals appending their sum.
proof fn lemma_concat9(
    a0: Seq<ActionV>,
    p1: Seq<ActionV>,
    p2: Seq<ActionV>,
    p3: Seq<ActionV>,
    p4: Seq<ActionV>,
    p5: Seq<ActionV>,
    p6: Seq<ActionV>,
    p7: Seq<ActionV>,
    p8: Seq<ActionV>,
    p9: Seq<ActionV>,
)
    ensures
        a0 + p1 + p2 + p3 + p4 + p5 + p6 + p7 + p8 + p9 == a0 + (p1 + p2 + p3 + p4 + p5 + p6 + p7
            + p8 + p9),
{
    assert(a0 + p1 + p2 + p3 + p4 + p5 + p6 + p7 + p8 + p9 =~= a0 + (p1 + p2 + p3 + p4 + p5 + p6
        + p7 + p8 + p9));
}

fn push_combo_if(edge: bool, keys: &Option<Vec<VKey>>, actions: &mut Vec<Action>)
    ensures
        spec_actions_view(final(actions)@) == spec_actions_view(old(actions)@) + spec_combo_if(
            edge,
            spec_opt_keys(*keys),
        ),
{
    proof {
        reveal(spec_combo_if);
    }
    let ghost a0 = spec_actions_view(actions@);
    if edge {
        match keys {
            Some(k) => {
                actions.push(Action::KeyCombo(clone_keys(k)));
            },
            None => {},
        }
    }
    proof {
        assert(spec_actions_view(actions@) =~= a0 + spec_combo_if(edge, spec_opt_keys(*keys)));
    }
}

fn push_combo2_if(edge: bool, a: VKey, b: VKey, actions: &mut Vec<Action>)
    ensures
        spec_actions_view(final(actions)@) == spec_actions_view(old(actions)@) + spec_combo_if(
            edge,
            Some(seq![a, b]),
        ),
{
    proof {
        reveal(spec_combo_if);
    }
    let ghost a0 = spec_actions_view(actions@);
    if edge {
        actions.push(Action::KeyCombo(combo2(a, b)));
    }
    proof {
        assert(spec_actions_view(actions@) =~= a0 + spec_combo_if(edge, Some(seq![a, b])));
    }
}

fn push_l2_hold(prev: bool, cur: bool, actions: &mut Vec<Action>)
    ensures
        spec_actions_view(final(actions)@) == spec_actions_view(old(actions)@) + spec_l2_hold(
            prev,
            cur,
        ),
{
    proof {
        reveal(spec_l2_hold);
    }
    let ghost a0 = spec_actions_view(actions@);
    if cur && !prev {
        actions.push(Action::KeyDown(combo2(VKey::Control, VKey::Win)));
    } else if !cur && prev {
        actions.push(Action::KeyUp(combo2(VKey::Control, VKey::Win)));
    }
    proof {
        assert(spec_actions_view(actions@) =~= a0 + spec_l2_hold(prev, cur));
    }
}

fn push_tmux_if(edge: bool, prefix: &Vec<VKey>, keys: &Option<Vec<VKey>>, actions: &mut Vec<
    Action,
>)
    ensures
        spec_actions_view(final(actions)@) == spec_actions_view(old(actions)@) + spec_tmux_seq_if(
            edge,
            prefix@,
            spec_opt_keys(*keys),
        ),
{
    proof {
        reveal(spec_tmux_seq_if);
    }
    let ghost a0 = spec_actions_view(actions@);
    if edge {
        match keys {
            Some(k) => {
                actions.push(tmux_sequence(prefix, k));
            },
            None => {},
        }
    }
    proof {
        assert(spec_actions_view(actions@) =~= a0 + spec_tmux_seq_if(
            edge,
            prefix@,
            spec_opt_keys(*keys),
        ));
    }
}

fn step_dispatch_default(wt: &WtState, prev: ButtonState, cur: ButtonState, actions: &mut Vec<
    Action,
>)
    ensures
        spec_actions_view(final(actions)@) == spec_actions_view(old(actions)@)
            + spec_dispatch_default(wt@, prev, cur),
{
    let ghost a0 = spec_actions_view(actions@);
    let ghost p1 = spec_combo_if(cur.square && !prev.square, wt@.square);
    let ghost p2 = spec_combo_if(cur.l1 && !prev.l1, wt@.l1);
    let ghost p3 = spec_combo_if(cur.r1 && !prev.r1, wt@.r1);
    let ghost p4 = spec_l2_hold(prev.l2, cur.l2);
    let ghost p5 = spec_combo_if(cur.r2 && !prev.r2, Some(seq![VKey::Control, VKey::C]));
    let ghost p6 = spec_combo_if(cur.l3 && !prev.l3, Some(seq![VKey::Control, VKey::T]));
    let ghost p7 = spec_combo_if(cur.r3 && !prev.r3, Some(seq![VKey::Control, VKey::P]));
    push_combo_if(cur.square && !prev.square, &wt.square, actions);
    push_combo_if(cur.l1 && !prev.l1, &wt.l1, actions);
    push_combo_if(cur.r1 && !prev.r1, &wt.r1, actions);
    push_l2_hold(prev.l2, cur.l2, actions);
    push_combo2_if(cur.r2 && !prev.r2, VKey::Control, VKey::C, actions);
    push_combo2_if(cur.l3 && !prev.l3, VKey::Control, VKey::T, actions);
    push_combo2_if(cur.r3 && !prev.r3, VKey::Control, VKey::P, actions);
    proof {
        reveal(spec_dispatch_default);
        assert(spec_actions_view(actions@) == a0 + p1 + p2 + p3 + p4 + p5 + p6 + p7);
        lemma_concat7(a0, p1, p2, p3, p4, p5, p6, p7);
        assert(spec_dispatch_default(wt@, prev, cur) == p1 + p2 + p3 + p4 + p5 + p6 + p7);
    }
}

fn step_dispatch_tmux(tmux: &TmuxState, prev: ButtonState, cur: ButtonState, actions: &mut Vec<
    Action,
>)
    ensures
        spec_actions_view(final(actions)@) == spec_actions_view(old(actions)@)
            + spec_dispatch_tmux(tmux@, prev, cur),
{
    let ghost a0 = spec_actions_view(actions@);
    let ghost p1 = spec_tmux_seq_if(cur.l1 && !prev.l1, tmux@.prefix, tmux@.l1);
    let ghost p2 = spec_tmux_seq_if(cur.r1 && !prev.r1, tmux@.prefix, tmux@.r1);
    let ghost p3 = spec_tmux_seq_if(cur.square && !prev.square, tmux@.prefix, tmux@.square);
    let ghost p4 = spec_l2_hold(prev.l2, cur.l2);
    let ghost p5 = spec_tmux_seq_if(cur.r2 && !prev.r2, tmux@.prefix, tmux@.r2);
    let ghost p6 = spec_combo_if(cur.l3 && !prev.l3, Some(seq![VKey::Control, VKey::T]));
    let ghost p7 = spec_combo_if(cur.r3 && !prev.r3, Some(seq![VKey::Control, VKey::P]));
    let ghost p8 = spec_tmux_seq_if(cur.share && !prev.share, tmux@.prefix, tmux@.share);
    let ghost p9 = spec_tmux_seq_if(cur.options && !prev.options, tmux@.prefix, tmux@.options);
    push_tmux_if(cur.l1 && !prev.l1, &tmux.prefix, &tmux.l1, actions);
    push_tmux_if(cur.r1 && !prev.r1, &tmux.prefix, &tmux.r1, actions);
    push_tmux_if(cur.square && !prev.square, &tmux.prefix, &tmux.square, actions);
    push_l2_hold(prev.l2, cur.l2, actions);
    push_tmux_if(cur.r2 && !prev.r2, &tmux.prefix, &tmux.r2, actions);
    push_combo2_if(cur.l3 && !prev.l3, VKey::Control, VKey::T, actions);
    push_combo2_if(cur.r3 && !prev.r3, VKey::Control, VKey::P, actions);
    push_tmux_if(cur.share && !prev.share, &tmux.prefix, &tmux.share, actions);
    push_tmux_if(cur.options && !prev.options, &tmux.prefix, &tmux.options, actions);
    proof {
        reveal(spec_dispatch_tmux);
        assert(spec_actions_view(actions@) == a0 + p1 + p2 + p3 + p4 + p5 + p6 + p7 + p8 + p9);
        lemma_concat9(a0, p1, p2, p3, p4, p5, p6, p7, p8, p9);
        assert(spec_dispatch_tmux(tmux@, prev, cur) == p1 + p2 + p3 + p4 + p5 + p6 + p7 + p8 + p9);
    }
}

fn step_dispatch(
    profile: Profile,
    wt: &WtState,
    tmux: &TmuxState,
    prev: ButtonState,
    cur: ButtonState,
    actions: &mut Vec<Action>,
)
    ensures
        spec_actions_view(final(actions)@) == spec_actions_view(old(actions)@)
            + spec_dispatch_actions(profile, wt@, tmux@, prev, cur),
{
    proof {
        reveal(spec_dispatch_actions);
    }
    match profile {
        Profile::Default => step_dispatch_default(wt, prev, cur, actions),
        Profile::Tmux => step_dispatch_tmux(tmux, prev, cur, actions),
    }
}

fn step_dpad(
    timer: &mut RepeatTimer,
    held: bool,
    prev_held: bool,
    now: u64,
    key: VKey,
    actions: &mut Vec<Action>,
)
    ensures
        ({
            let step = spec_dpad_step(*old(timer), held, prev_held, now);
            &&& *final(timer) == step.0
            &&& spec_actions_view(final(actions)@) == spec_actions_view(old(actions)@)
                + spec_dpad_actions(step.1, key)
        }),
{
    proof {
        reveal(spec_dpad_step);
        reveal(spec_dpad_actions);
    }
    let ghost a0 = spec_actions_view(actions@);
    let ghost step = spec_dpad_step(*timer, held, prev_held, now);
    if held && !prev_held {
        timer.on_press(now);
    } else if held {
        if timer.on_hold(now) {
            actions.push(Action::KeyCombo(combo1(key)));
        }
    } else {
        timer.on_release();
    }
    proof {
        assert(spec_actions_view(actions@) =~= a0 + spec_dpad_actions(step.1, key));
    }
}

fn step_scroll(
    dz: u8,
    sens: u32,
    horizontal_on: bool,
    last: &mut Option<u64>,
    stick: (u8, u8),
    now: u64,
    actions: &mut Vec<Action>,
)
    requires
        sens <= 1_000_000,
    ensures
        ({
            let sc = spec_scroll_step(dz, sens, horizontal_on, *old(last), stick, now);
            &&& spec_actions_view(final(actions)@) == spec_actions_view(old(actions)@) + sc.0
            &&& *final(last) == sc.1
        }),
{
    proof {
        reveal(spec_scroll_step);
    }
    let ghost a0 = spec_actions_view(actions@);
    let ghost sc = spec_scroll_step(dz, sens, horizontal_on, *last, stick, now);
    let dx0 = dz_axis(stick.0, dz);
    let dy = dz_axis(stick.1, dz);
    let dx = if horizontal_on {
        dx0
    } else {
        0
    };
    if dx == 0 && dy == 0 {
        *last = None;
    } else {
        let adx = if dx < 0 {
            -dx
        } else {
            dx
        };
        let ady = if dy < 0 {
            -dy
        } else {
            dy
        };
        let maxd = if adx > ady {
            adx
        } else {
            ady
        };
        let q: i32 = if maxd > 127 {
            127
        } else {
            maxd
        };
        let interval: u64 = 200 - ((170 * (q as u64)) / 127);
        let limited = match *last {
            Some(l) => {
                let since = if now >= l {
                    now - l
                } else {
                    0
                };
                since < interval
            },
            None => false,
        };
        if !limited {
            let vertical = if dy != 0 {
                wheel_delta(-dy, sens)
            } else {
                0
            };
            let horizontal = if dx != 0 {
                wheel_delta(dx, sens)
            } else {
                0
            };
            if vertical != 0 || horizontal != 0 {
                actions.push(Action::Scroll { horizontal, vertical });
                *last = Some(now);
            }
        }
    }
    proof {
        assert(spec_actions_view(actions@) =~= a0 + sc.0);
    }
}

impl MapperState {
    /// Given one input frame at `now_ms` (milliseconds, monotone), emit the
    /// frame's actions and advance the mapper. The returned list and every
    /// state change are pinned, per phase, by `spec_update`.
    #[verifier::rlimit(100)]
    #[verifier::spinoff_prover]
    pub fn update(&mut self, input: &UnifiedInput, now_ms: u64) -> (actions: Vec<Action>)
        requires
            old(self).wf(),
        ensures
            final(self).wf(),
            ({
                let m0 = *old(self);
                let cur = input.buttons;
                let st = spec_stick_step(
                    m0.stick_mouse_enabled,
                    m0.mouse_stick_active,
                    m0.stick_mouse_dead_zone,
                    m0.stick_mouse_sensitivity_milli,
                    m0.stick_acc_x_milli as int,
                    m0.stick_acc_y_milli as int,
                    *input,
                );
                let prof = spec_next_profile(
                    m0.active_profile,
                    m0.tmux_available,
                    m0.prev.ps,
                    cur.ps,
                );
                let up = spec_dpad_step(m0.repeat_up, spec_up_held(cur.dpad), spec_up_held(m0.prev.dpad), now_ms);
                let down = spec_dpad_step(m0.repeat_down, spec_down_held(cur.dpad), spec_down_held(m0.prev.dpad), now_ms);
                let left = spec_dpad_step(m0.repeat_left, spec_left_held(cur.dpad), spec_left_held(m0.prev.dpad), now_ms);
                let right = spec_dpad_step(m0.repeat_right, spec_right_held(cur.dpad), spec_right_held(m0.prev.dpad), now_ms);
                let sc = spec_scroll_step(
                    m0.scroll_dead_zone,
                    m0.scroll_sensitivity_milli,
                    m0.scroll_horizontal,
                    m0.last_scroll_at,
                    input.right_stick,
                    now_ms,
                );
                &&& spec_actions_view(actions@) == spec_touchpad_actions(
                    m0.touchpad_enabled,
                    m0.mouse_stick_active,
                    m0.touchpad_sensitivity_milli,
                    m0.prev_touch,
                    m0.prev.touchpad,
                    *input,
                ) + st.0 + spec_face_actions(m0.prev, cur) + spec_profile_actions(
                    m0.active_profile,
                    m0.tmux_available,
                    m0.prev.ps,
                    cur.ps,
                ) + spec_dispatch_actions(prof, m0.wt@, m0.tmux@, m0.prev, cur)
                    + spec_dpad_actions(up.1, VKey::Up) + spec_dpad_actions(down.1, VKey::Down)
                    + spec_dpad_actions(left.1, VKey::Left) + spec_dpad_actions(
                    right.1,
                    VKey::Right,
                ) + sc.0
                &&& *final(self) == MapperState {
                    prev: cur,
                    repeat_up: up.0,
                    repeat_down: down.0,
                    repeat_left: left.0,
                    repeat_right: right.0,
                    last_scroll_at: sc.1,
                    stick_acc_x_milli: st.1 as i32,
                    stick_acc_y_milli: st.2 as i32,
                    prev_touch: spec_touchpad_prev(
                        m0.touchpad_enabled,
                        m0.mouse_stick_active,
                        m0.prev_touch,
                        *input,
                    ),
                    active_profile: prof,
                    ..m0
                }
            }),
    {
        let ghost m0 = *self;
        let cur = input.buttons;
        let ghost a_tp = spec_touchpad_actions(
            m0.touchpad_enabled,
            m0.mouse_stick_active,
            m0.touchpad_sensitivity_milli,
            m0.prev_touch,
            m0.prev.touchpad,
            *input,
        );
        let ghost st = spec_stick_step(
            m0.stick_mouse_enabled,
            m0.mouse_stick_active,
            m0.stick_mouse_dead_zone,
            m0.stick_mouse_sensitivity_milli,
            m0.stick_acc_x_milli as int,
            m0.stick_acc_y_milli as int,
            *input,
        );
        let ghost a_face = spec_face_actions(m0.prev, cur);
        let ghost a_prof = spec_profile_actions(
            m0.active_profile,
            m0.tmux_available,
            m0.prev.ps,
            cur.ps,
        );
        let ghost prof = spec_next_profile(m0.active_profile, m0.tmux_available, m0.prev.ps, cur.ps);
        let ghost a_disp = spec_dispatch_actions(prof, m0.wt@, m0.tmux@, m0.prev, cur);
        let ghost up = spec_dpad_step(m0.repeat_up, spec_up_held(cur.dpad), spec_up_held(m0.prev.dpad), now_ms);
        let ghost down = spec_dpad_step(m0.repeat_down, spec_down_held(cur.dpad), spec_down_held(m0.prev.dpad), now_ms);
        let ghost left = spec_dpad_step(m0.repeat_left, spec_left_held(cur.dpad), spec_left_held(m0.prev.dpad), now_ms);
        let ghost right = spec_dpad_step(m0.repeat_right, spec_right_held(cur.dpad), spec_right_held(m0.prev.dpad), now_ms);
        let ghost sc = spec_scroll_step(
            m0.scroll_dead_zone,
            m0.scroll_sensitivity_milli,
            m0.scroll_horizontal,
            m0.last_scroll_at,
            input.right_stick,
            now_ms,
        );
        let mut actions: Vec<Action> = Vec::new();
        proof {
            assert(spec_actions_view(actions@) =~= Seq::<ActionV>::empty());
        }
        step_touchpad(
            self.touchpad_enabled,
            self.mouse_stick_active,
            self.touchpad_sensitivity_milli,
            &mut self.prev_touch,
            self.prev.touchpad,
            input,
            &mut actions,
        );
        proof {
            assert(spec_actions_view(actions@) == a_tp);
        }
        step_stick(
            self.stick_mouse_enabled,
            self.mouse_stick_active,
            self.stick_mouse_dead_zone,
            self.stick_mouse_sensitivity_milli,
            &mut self.stick_acc_x_milli,
            &mut self.stick_acc_y_milli,
            input,
            &mut actions,
        );
        proof {
            assert(spec_actions_view(actions@) == a_tp + st.0);
        }
        step_face(self.prev, cur, &mut actions);
        proof {
            assert(spec_actions_view(actions@) == a_tp + st.0 + a_face);
        }
        step_profile(
            &mut self.active_profile,
            self.tmux_available,
            self.prev.ps,
            cur.ps,
            &mut actions,
        );
        proof {
            assert(spec_actions_view(actions@) == a_tp + st.0 + a_face + a_prof);
            assert(self.active_profile == prof);
        }
        step_dispatch(self.active_profile, &self.wt, &self.tmux, self.prev, cur, &mut actions);
        proof {
            assert(spec_actions_view(actions@) == a_tp + st.0 + a_face + a_prof + a_disp);
        }
        let up_held = matches!(cur.dpad, DPad::Up | DPad::UpLeft | DPad::UpRight);
        let down_held = matches!(cur.dpad, DPad::Down | DPad::DownLeft | DPad::DownRight);
        let left_held = matches!(cur.dpad, DPad::Left | DPad::UpLeft | DPad::DownLeft);
        let right_held = matches!(cur.dpad, DPad::Right | DPad::UpRight | DPad::DownRight);
        let prev_up = matches!(self.prev.dpad, DPad::Up | DPad::UpLeft | DPad::UpRight);
        let prev_down = matches!(self.prev.dpad, DPad::Down | DPad::DownLeft | DPad::DownRight);
        let prev_left = matches!(self.prev.dpad, DPad::Left | DPad::UpLeft | DPad::DownLeft);
        let prev_right = matches!(self.prev.dpad, DPad::Right | DPad::UpRight | DPad::DownRight);
        step_dpad(&mut self.repeat_up, up_held, prev_up, now_ms, VKey::Up, &mut actions);
        proof {
            assert(spec_actions_view(actions@) == a_tp + st.0 + a_face + a_prof + a_disp
                + spec_dpad_actions(up.1, VKey::Up));
        }
        step_dpad(&mut self.repeat_down, down_held, prev_down, now_ms, VKey::Down, &mut actions);
        proof {
            assert(spec_actions_view(actions@) == a_tp + st.0 + a_face + a_prof + a_disp
                + spec_dpad_actions(up.1, VKey::Up) + spec_dpad_actions(down.1, VKey::Down));
        }
        step_dpad(&mut self.repeat_left, left_held, prev_left, now_ms, VKey::Left, &mut actions);
        proof {
            assert(spec_actions_view(actions@) == a_tp + st.0 + a_face + a_prof + a_disp
                + spec_dpad_actions(up.1, VKey::Up) + spec_dpad_actions(down.1, VKey::Down)
                + spec_dpad_actions(left.1, VKey::Left));
        }
        step_dpad(
            &mut self.repeat_right,
            right_held,
            prev_right,
            now_ms,
            VKey::Right,
            &mut actions,
        );
        proof {
            assert(spec_actions_view(actions@) == a_tp + st.0 + a_face + a_prof + a_disp
                + spec_dpad_actions(up.1, VKey::Up) + spec_dpad_actions(down.1, VKey::Down)
                + spec_dpad_actions(left.1, VKey::Left) + spec_dpad_actions(right.1, VKey::Right));
        }
        step_scroll(
            self.scroll_dead_zone,
            self.scroll_sensitivity_milli,
            self.scroll_horizontal,
            &mut self.last_scroll_at,
            input.right_stick,
            now_ms,
            &mut actions,
        );
        self.prev = cur;
        proof {
            let du = spec_dpad_actions(up.1, VKey::Up);
            let dd = spec_dpad_actions(down.1, VKey::Down);
            let dl = spec_dpad_actions(left.1, VKey::Left);
            let dr = spec_dpad_actions(right.1, VKey::Right);
            assert(spec_actions_view(actions@) == a_tp + st.0 + a_face + a_prof + a_disp + du + dd
                + dl + dr + sc.0);
        }
        actions
    }
}

/// A clamped stick velocity stays within one sensitivity unit.
proof fn lemma_vel_bound(c: int, sens: int)
    requires
        -127 <= c <= 127,
        0 <= sens <= 1_000_000,
    ensures
        -1_000_000 <= spec_scale_trunc(c, sens, 127) <= 1_000_000,
{
    if c >= 0 {
        vstd::arithmetic::mul::lemma_mul_inequality(c, 127, sens);
        vstd::arithmetic::div_mod::lemma_div_is_ordered(c * sens, 127 * sens, 127);
        vstd::arithmetic::div_mod::lemma_div_by_multiple(sens, 127);
        assert(127 * sens == sens * 127) by (nonlinear_arith);
        vstd::arithmetic::div_mod::lemma_div_pos_is_pos(c * sens, 127);
        assert(c * sens >= 0) by (nonlinear_arith)
            requires
                c >= 0 && sens >= 0,
        ;
    } else {
        vstd::arithmetic::mul::lemma_mul_inequality(-c, 127, sens);
        vstd::arithmetic::div_mod::lemma_div_is_ordered((-c) * sens, 127 * sens, 127);
        vstd::arithmetic::div_mod::lemma_div_by_multiple(sens, 127);
        assert(127 * sens == sens * 127) by (nonlinear_arith);
        vstd::arithmetic::div_mod::lemma_div_pos_is_pos((-c) * sens, 127);
        assert((-c) * sens >= 0) by (nonlinear_arith)
            requires
                c < 0 && sens >= 0,
        ;
    }
}

/// The axis delta after the dead zone.
fn dz_axis(v: u8, dz: u8) -> (r: i32)
    ensures
        r as int == spec_dz(v, dz),
        -128 <= r <= 127,
{
    let d = v as i32 - 128;
    let a = if d < 0 {
        -d
    } else {
        d
    };
    if a < dz as i32 {
        0
    } else {
        d
    }
}

fn clamp127(d: i32) -> (r: i32)
    ensures
        r as int == spec_clamp127(d as int),
        -127 <= r <= 127,
{
    if d < -127 {
        -127
    } else if d > 127 {
        127
    } else {
        d
    }
}

fn extract_pixels(acc: i32) -> (r: (i32, i32))
    requires
        -2_000_000 <= acc <= 2_000_000,
    ensures
        r.0 as int == spec_extract(acc as int).0,
        r.1 as int == spec_extract(acc as int).1,
        -1000 < r.1 < 1000,
{
    proof {
        lemma_extract_conserves(acc as int);
    }
    if acc >= 0 {
        let e = acc / 1000;
        (e, acc - e * 1000)
    } else {
        let e = (-acc) / 1000;
        proof {
            vstd::arithmetic::div_mod::lemma_div_pos_is_pos((-acc) as int, 1000);
            vstd::arithmetic::div_mod::lemma_div_is_ordered((-acc) as int, 0x7FFF_FFFF, 1000);
        }
        (-e, acc + e * 1000)
    }
}

/// One wheel delta for a gated deflection.
fn wheel_delta(c: i32, sens: u32) -> (r: i32)
    requires
        -128 <= c <= 128,
        sens <= 1_000_000,
    ensures
        r as int == spec_wheel(c as int, sens),
{
    let cl = clamp127(c);
    scale_milli(cl * 120, sens, 127_000)
}

impl Default for MapperState {
    /// The stock mapper: 20-unit scroll dead zone, unit scroll speed with
    /// horizontal on, stick-mouse at 8 pixels per frame behind a 15-unit
    /// dead zone, touchpad at 1.5, Default profile with tmux available.
    fn default() -> (r: Self)
        ensures
            r.wf(),
            r.prev == crate::input::spec_buttons_default(),
            r.active_profile == Profile::Default,
            r.tmux_available,
            r.mouse_stick_active == false,
            r.scroll_dead_zone == 20,
            r.scroll_sensitivity_milli == 1000,
            r.scroll_horizontal,
            r.stick_mouse_enabled,
            r.stick_mouse_sensitivity_milli == 8000,
            r.stick_mouse_dead_zone == 15,
            r.stick_acc_x_milli == 0,
            r.stick_acc_y_milli == 0,
            r.prev_touch is None,
            r.last_scroll_at is None,
            r.touchpad_enabled,
            r.touchpad_sensitivity_milli == 1500,
            r.tmux@ == spec_tmux_state_default(),
            r.wt@.square == Some(seq![VKey::Control, VKey::Shift, VKey::D1]),
            r.wt@.l1 == Some(seq![VKey::Control, VKey::Shift, VKey::Tab]),
            r.wt@.r1 == Some(seq![VKey::Control, VKey::Tab]),
            r.wt@.l2 is None,
            r.wt@.r2 is None,
            r.repeat_up == (RepeatTimer { pending_since: None, pressed_at: None, last_fired: None }),
            r.repeat_down == r.repeat_up,
            r.repeat_left == r.repeat_up,
            r.repeat_right == r.repeat_up,
    {
        let mut sq: Vec<VKey> = Vec::new();
        sq.push(VKey::Control);
        sq.push(VKey::Shift);
        sq.push(VKey::D1);
        let mut l1: Vec<VKey> = Vec::new();
        l1.push(VKey::Control);
        l1.push(VKey::Shift);
        l1.push(VKey::Tab);
        let mut r1: Vec<VKey> = Vec::new();
        r1.push(VKey::Control);
        r1.push(VKey::Tab);
        proof {
            assert(sq@ =~= seq![VKey::Control, VKey::Shift, VKey::D1]);
            assert(l1@ =~= seq![VKey::Control, VKey::Shift, VKey::Tab]);
            assert(r1@ =~= seq![VKey::Control, VKey::Tab]);
        }
        MapperState {
            prev: crate::input::ButtonState::default(),
            repeat_up: RepeatTimer::default(),
            repeat_down: RepeatTimer::default(),
            repeat_left: RepeatTimer::default(),
            repeat_right: RepeatTimer::default(),
            last_scroll_at: None,
            scroll_dead_zone: 20,
            scroll_sensitivity_milli: 1000,
            scroll_horizontal: true,
            stick_mouse_enabled: true,
            stick_mouse_sensitivity_milli: 8000,
            stick_mouse_dead_zone: 15,
            stick_acc_x_milli: 0,
            stick_acc_y_milli: 0,
            mouse_stick_active: false,
            prev_touch: None,
            touchpad_enabled: true,
            touchpad_sensitivity_milli: 1500,
            active_profile: Profile::Default,
            tmux_available: true,
            tmux: TmuxState::default(),
            opencode: OpenCodeState::from_config(
                &crate::config::OpenCodeConfig::default(),
                None,
            ),
            wt: WtState {
                square: Some(sq),
                l1: Some(l1),
                r1: Some(r1),
                l2: None,
                r2: None,
                l3: None,
                r3: None,
                share: None,
                options: None,
            },
        }
    }
}

impl MapperState {
    /// A mapper with configuration-driven settings, binding tables resolved
    /// through the detected configurations. Sensitivities above one
    /// thousand pixels per unit are not meaningful and are rejected so the
    /// frame arithmetic stays exact.
    pub fn new(
        scroll: &ScrollConfig,
        stick_mouse: &StickMouseConfig,
        touchpad: &TouchpadConfig,
        tmux: &TmuxConfig,
        tmux_detected: Option<&TmuxDetected>,
        opencode: &OpenCodeConfig,
        opencode_detected: Option<&OpenCodeDetected>,
        wt: &WtConfig,
        wt_detected: Option<&WtDetected>,
        mouse_stick_active: bool,
    ) -> (r: MapperState)
        requires
            scroll.sensitivity_milli <= 1_000_000,
            stick_mouse.sensitivity_milli <= 1_000_000,
            touchpad.sensitivity_milli <= 1_000_000,
        ensures
            r.wf(),
            r.prev == crate::input::spec_buttons_default(),
            r.active_profile == Profile::Default,
            r.tmux_available == tmux.enabled,
            r.mouse_stick_active == mouse_stick_active,
            r.scroll_dead_zone == scroll.dead_zone,
            r.scroll_sensitivity_milli == scroll.sensitivity_milli,
            r.scroll_horizontal == scroll.horizontal,
            r.stick_mouse_enabled == stick_mouse.enabled,
            r.stick_mouse_sensitivity_milli == stick_mouse.sensitivity_milli,
            r.stick_mouse_dead_zone == stick_mouse.dead_zone,
            r.stick_acc_x_milli == 0,
            r.stick_acc_y_milli == 0,
            r.prev_touch is None,
            r.last_scroll_at is None,
            r.touchpad_enabled == touchpad.enabled,
            r.touchpad_sensitivity_milli == touchpad.sensitivity_milli,
    {
        MapperState {
            prev: crate::input::ButtonState::default(),
            repeat_up: RepeatTimer::default(),
            repeat_down: RepeatTimer::default(),
            repeat_left: RepeatTimer::default(),
            repeat_right: RepeatTimer::default(),
            last_scroll_at: None,
            scroll_dead_zone: scroll.dead_zone,
            scroll_sensitivity_milli: scroll.sensitivity_milli,
            scroll_horizontal: scroll.horizontal,
            stick_mouse_enabled: stick_mouse.enabled,
            stick_mouse_sensitivity_milli: stick_mouse.sensitivity_milli,
            stick_mouse_dead_zone: stick_mouse.dead_zone,
            stick_acc_x_milli: 0,
            stick_acc_y_milli: 0,
            mouse_stick_active,
            prev_touch: None,
            touchpad_enabled: touchpad.enabled,
            touchpad_sensitivity_milli: touchpad.sensitivity_milli,
            active_profile: Profile::Default,
            tmux_available: tmux.enabled,
            tmux: TmuxState::from_config(tmux, tmux_detected),
            opencode: OpenCodeState::from_config(opencode, opencode_detected),
            wt: WtState::from_config(wt, wt_detected),
        }
    }

    /// The currently active profile.
    pub fn profile(&self) -> (r: Profile)
        ensures
            r == self.active_profile,
    {
        self.active_profile
    }
}

} // verus!
