//! Resolved configuration consumed by the core. Sensitivities are carried
//! in integer thousandths (milli-units) so the mapper's arithmetic stays
//! exact; the loader converts fractional settings at the boundary.

use vstd::prelude::*;

verus! {

/// RGB color.
#[derive(Debug, Clone, Copy, PartialEq, Eq, Structural)]
pub struct ColorConfig {
    pub r: u8,
    pub g: u8,
    pub b: u8,
}

/// Lightbar color per agent state, and the Working pulse period.
#[derive(Debug, Clone, Copy, PartialEq, Eq, Structural)]
pub struct LightbarConfig {
    pub idle: ColorConfig,
    pub working: ColorConfig,
    pub done: ColorConfig,
    pub error: ColorConfig,
    /// Full pulse cycle for the Working state, in milliseconds.
    pub pulse_period_ms: u64,
}

pub open spec fn spec_lightbar_default() -> LightbarConfig {
    LightbarConfig {
        idle: ColorConfig { r: 255u8, g: 140u8, b: 0u8 },
        working: ColorConfig { r: 0u8, g: 100u8, b: 255u8 },
        done: ColorConfig { r: 0u8, g: 255u8, b: 0u8 },
        error: ColorConfig { r: 0u8, g: 0u8, b: 0u8 },
        pulse_period_ms: 2000u64,
    }
}

impl Default for LightbarConfig {
    /// Orange idle, pulsing blue working, green done, dark error, 2 s pulse.
    fn default() -> (r: Self)
        ensures
            r == spec_lightbar_default(),
    {
        LightbarConfig {
            idle: ColorConfig { r: 255, g: 140, b: 0 },
            working: ColorConfig { r: 0, g: 100, b: 255 },
            done: ColorConfig { r: 0, g: 255, b: 0 },
            error: ColorConfig { r: 0, g: 0, b: 0 },
            pulse_period_ms: 2000,
        }
    }
}

/// Right-stick scroll settings.
#[derive(Debug, Clone, Copy, PartialEq, Eq, Structural)]
pub struct ScrollConfig {
    /// Dead zone radius around center (0-127).
    pub dead_zone: u8,
    /// Scroll speed multiplier in thousandths (1000 = normal).
    pub sensitivity_milli: u32,
    /// Enable horizontal scrolling.
    pub horizontal: bool,
}

impl Default for ScrollConfig {
    fn default() -> (r: Self)
        ensures
            r == (ScrollConfig { dead_zone: 20u8, sensitivity_milli: 1000u32, horizontal: true }),
    {
        ScrollConfig { dead_zone: 20, sensitivity_milli: 1000, horizontal: true }
    }
}

/// Left-stick mouse-cursor settings.
#[derive(Debug, Clone, Copy, PartialEq, Eq, Structural)]
pub struct StickMouseConfig {
    pub enabled: bool,
    /// Pixels per frame at full deflection, in thousandths.
    pub sensitivity_milli: u32,
    /// Dead zone radius around center (0-127).
    pub dead_zone: u8,
}

impl Default for StickMouseConfig {
    fn default() -> (r: Self)
        ensures
            r == (StickMouseConfig { enabled: true, sensitivity_milli: 8000u32, dead_zone: 15u8 }),
    {
        StickMouseConfig { enabled: true, sensitivity_milli: 8000, dead_zone: 15 }
    }
}

/// Touchpad relative-motion settings.
#[derive(Debug, Clone, Copy, PartialEq, Eq, Structural)]
pub struct TouchpadConfig {
    pub enabled: bool,
    /// Motion scale in thousandths (1500 = 1.5 pixels per touch unit).
    pub sensitivity_milli: u32,
}

impl Default for TouchpadConfig {
    fn default() -> (r: Self)
        ensures
            r == (TouchpadConfig { enabled: true, sensitivity_milli: 1500u32 }),
    {
        TouchpadConfig { enabled: true, sensitivity_milli: 1500 }
    }
}

/// Tmux profile settings: button values are tmux action names or direct
/// key combos; empty means unmapped.
#[derive(Debug, Clone)]
pub struct TmuxConfig {
    pub enabled: bool,
    pub auto_detect: bool,
    pub prefix: String,
    pub l1: String,
    pub r1: String,
    pub l2: String,
    pub r2: String,
    pub l3: String,
    pub r3: String,
    pub square: String,
    pub share: String,
    pub options: String,
    pub touchpad: String,
}

impl Default for TmuxConfig {
    /// Tmux enabled with auto-detection, the stock Ctrl+B prefix, window
    /// navigation on the shoulders, kill-window on R2, new-window on
    /// Square, everything else unmapped.
    fn default() -> (r: Self)
        ensures
            r.enabled,
            r.auto_detect,
            r.prefix@ == "Ctrl+B"@,
            r.l1@ == "previous-window"@,
            r.r1@ == "next-window"@,
            r.l2@ == ""@,
            r.r2@ == "kill-window"@,
            r.l3@ == ""@,
            r.r3@ == ""@,
            r.square@ == "new-window"@,
            r.share@ == ""@,
            r.options@ == ""@,
            r.touchpad@ == ""@,
    {
        TmuxConfig {
            enabled: true,
            auto_detect: true,
            prefix: "Ctrl+B".to_owned(),
            l1: "previous-window".to_owned(),
            r1: "next-window".to_owned(),
            l2: "".to_owned(),
            r2: "kill-window".to_owned(),
            l3: "".to_owned(),
            r3: "".to_owned(),
            square: "new-window".to_owned(),
            share: "".to_owned(),
            options: "".to_owned(),
            touchpad: "".to_owned(),
        }
    }
}

/// OpenCode keybind settings: a leader combo and per-button action names
/// or direct bindings; empty means unmapped.
#[derive(Debug, Clone)]
pub struct OpenCodeConfig {
    pub enabled: bool,
    pub auto_detect: bool,
    pub leader: String,
    pub l1: String,
    pub r1: String,
    pub l2: String,
    pub r2: String,
    pub l3: String,
    pub r3: String,
    pub square: String,
    pub share: String,
    pub options: String,
    pub touchpad: String,
}

impl Default for OpenCodeConfig {
    /// Auto-detection on, the stock Ctrl+X leader, no buttons mapped.
    fn default() -> (r: Self)
        ensures
            r.enabled,
            r.auto_detect,
            r.leader@ == "Ctrl+X"@,
            r.l1@ == ""@,
            r.r1@ == ""@,
            r.l2@ == ""@,
            r.r2@ == ""@,
            r.l3@ == ""@,
            r.r3@ == ""@,
            r.square@ == ""@,
            r.share@ == ""@,
            r.options@ == ""@,
            r.touchpad@ == ""@,
    {
        OpenCodeConfig {
            enabled: true,
            auto_detect: true,
            leader: "Ctrl+X".to_owned(),
            l1: "".to_owned(),
            r1: "".to_owned(),
            l2: "".to_owned(),
            r2: "".to_owned(),
            l3: "".to_owned(),
            r3: "".to_owned(),
            square: "".to_owned(),
            share: "".to_owned(),
            options: "".to_owned(),
            touchpad: "".to_owned(),
        }
    }
}

/// Windows Terminal shortcut settings: per-button action names or direct
/// key combos; empty means unmapped.
#[derive(Debug, Clone)]
pub struct WtConfig {
    pub enabled: bool,
    pub auto_detect: bool,
    pub square: String,
    pub l1: String,
    pub r1: String,
    pub l2: String,
    pub r2: String,
    pub l3: String,
    pub r3: String,
    pub share: String,
    pub options: String,
}

impl Default for WtConfig {
    /// Auto-detection on; new tab on Square, tab navigation on the
    /// shoulders, the rest unmapped.
    fn default() -> (r: Self)
        ensures
            r.enabled,
            r.auto_detect,
            r.square@ == "newTab"@,
            r.l1@ == "prevTab"@,
            r.r1@ == "nextTab"@,
            r.l2@ == ""@,
            r.r2@ == ""@,
            r.l3@ == ""@,
            r.r3@ == ""@,
            r.share@ == ""@,
            r.options@ == ""@,
    {
        WtConfig {
            enabled: true,
            auto_detect: true,
            square: "newTab".to_owned(),
            l1: "prevTab".to_owned(),
            r1: "nextTab".to_owned(),
            l2: "".to_owned(),
            r2: "".to_owned(),
            l3: "".to_owned(),
            r3: "".to_owned(),
            share: "".to_owned(),
            options: "".to_owned(),
        }
    }
}

/// Codex session poller settings.
#[derive(Debug, Clone, Copy, PartialEq, Eq, Structural)]
pub struct CodexConfig {
    pub enabled: bool,
    /// Seconds a task must run before completion counts as done.
    pub done_threshold_s: u64,
}

impl Default for CodexConfig {
    fn default() -> (r: Self)
        ensures
            r == (CodexConfig { enabled: true, done_threshold_s: 600u64 }),
    {
        CodexConfig { enabled: true, done_threshold_s: 600 }
    }
}

/// Button mapping names.
#[derive(Debug, Clone)]
pub struct ButtonConfig {
    pub cross: String,
    pub circle: String,
    pub square: String,
    pub triangle: String,
    pub l1: String,
    pub r1: String,
    pub dpad_up: String,
    pub dpad_down: String,
    pub dpad_left: String,
    pub dpad_right: String,
}

impl Default for ButtonConfig {
    fn default() -> (r: Self)
        ensures
            r.cross@ == "Enter"@,
            r.circle@ == "Escape"@,
            r.square@ == "new_session"@,
            r.triangle@ == "Tab"@,
            r.l1@ == "Shift+Alt+Tab"@,
            r.r1@ == "Alt+Tab"@,
            r.dpad_up@ == "Up"@,
            r.dpad_down@ == "Down"@,
            r.dpad_left@ == "Left"@,
            r.dpad_right@ == "Right"@,
    {
        ButtonConfig {
            cross: "Enter".to_owned(),
            circle: "Escape".to_owned(),
            square: "new_session".to_owned(),
            triangle: "Tab".to_owned(),
            l1: "Shift+Alt+Tab".to_owned(),
            r1: "Alt+Tab".to_owned(),
            dpad_up: "Up".to_owned(),
            dpad_down: "Down".to_owned(),
            dpad_left: "Left".to_owned(),
            dpad_right: "Right".to_owned(),
        }
    }
}

/// Top-level configuration, resolved to plain values.
#[derive(Debug, Clone)]
pub struct Config {
    pub lightbar: LightbarConfig,
    pub buttons: ButtonConfig,
    pub scroll: ScrollConfig,
    pub stick_mouse: StickMouseConfig,
    pub touchpad: TouchpadConfig,
    pub tmux: TmuxConfig,
    pub opencode: OpenCodeConfig,
    pub wt: WtConfig,
    pub codex: CodexConfig,
    /// Directory where agent state files are written.
    pub state_dir: String,
    pub poll_interval_ms: u64,
    /// Seconds after Done before auto-transitioning to Idle (0 disables).
    pub idle_timeout_s: u64,
    /// Seconds before a Working file is considered stale (crashed agent).
    pub stale_timeout_s: u64,
    /// Seconds an agent must be idle before the attention rumble (0
    /// disables).
    pub idle_reminder_s: u64,
    /// Agents that disappear after working less than this many seconds are
    /// treated as subagents.
    pub subagent_filter_s: u64,
}

impl Default for Config {
    /// Two-hertz polling, 30 s auto-idle, 10 min staleness, 8 min idle
    /// reminder, 60 s subagent filter; the state directory is left for the
    /// host to fill in.
    fn default() -> (r: Self)
        ensures
            r.lightbar == spec_lightbar_default(),
            r.scroll == (ScrollConfig { dead_zone: 20u8, sensitivity_milli: 1000u32, horizontal: true }),
            r.stick_mouse == (StickMouseConfig {
                enabled: true,
                sensitivity_milli: 8000u32,
                dead_zone: 15u8,
            }),
            r.touchpad == (TouchpadConfig { enabled: true, sensitivity_milli: 1500u32 }),
            r.codex == (CodexConfig { enabled: true, done_threshold_s: 600u64 }),
            r.state_dir@ == ""@,
            r.poll_interval_ms == 500,
            r.idle_timeout_s == 30,
            r.stale_timeout_s == 600,
            r.idle_reminder_s == 480,
            r.subagent_filter_s == 60,
            r.tmux.enabled,
            r.buttons.cross@ == "Enter"@,
    {
        Config {
            lightbar: LightbarConfig::default(),
            buttons: ButtonConfig::default(),
            scroll: ScrollConfig::default(),
            stick_mouse: StickMouseConfig::default(),
            touchpad: TouchpadConfig::default(),
            tmux: TmuxConfig::default(),
            opencode: OpenCodeConfig::default(),
            wt: WtConfig::default(),
            codex: CodexConfig::default(),
            state_dir: "".to_owned(),
            poll_interval_ms: 500,
            idle_timeout_s: 30,
            stale_timeout_s: 600,
            idle_reminder_s: 480,
            subagent_filter_s: 60,
        }
    }
}

} // verus!
