//! Verified core of a daemon that drives a Sony game controller as a
//! productivity peripheral: HID report framing and parsing, output report
//! building, input mapping, and multi-agent state aggregation.

pub mod bytes;
pub mod codex;
pub mod config;
pub mod controller;
pub mod crc32;
pub mod hid;
pub mod input;
pub mod keys;
pub mod lightbar;
pub mod mapper;
pub mod opencode_detect;
pub mod output;
pub mod rumble;
pub mod state;
pub mod tmux_detect;
pub mod tray;
pub mod update;
pub mod wt_detect;

use vstd::prelude::*;

verus! {

} // verus!
