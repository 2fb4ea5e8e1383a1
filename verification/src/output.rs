//! Output report builder: desired controller state to byte-exact HID reports.
//!
//! Buffers are zero-initialized, the per-layout flag and payload bytes are
//! set, and Bluetooth variants end with a CRC-32 (seed 0xA2) over all
//! preceding bytes in the last four bytes.

use vstd::prelude::*;

use crate::controller::{ConnectionType, ControllerType};
use crate::crc32;

verus! {

/// Desired output state to send to the controller.
#[derive(Debug, Clone, Copy, PartialEq, Eq, Structural)]
pub struct OutputState {
    pub lightbar_r: u8,
    pub lightbar_g: u8,
    pub lightbar_b: u8,
    pub rumble_left: u8,
    pub rumble_right: u8,
    /// Player indicator LED bitmask (DualSense only). Bits 0-4 are the five
    /// dots left to right (bit 2 the center dot), bit 5 is instant mode.
    pub player_leds: u8,
    /// Microphone mute indicator: 0 = off, 1 = on. Carried in the state for
    /// the scheduler; the report layouts below do not place it.
    pub mute_led: u8,
}

pub open spec fn spec_output_default() -> OutputState {
    OutputState {
        lightbar_r: 0u8,
        lightbar_g: 0u8,
        lightbar_b: 0u8,
        rumble_left: 0u8,
        rumble_right: 0u8,
        player_leds: 0u8,
        mute_led: 0u8,
    }
}

impl Default for OutputState {
    /// Everything dark and still.
    fn default() -> (r: Self)
        ensures
            r == spec_output_default(),
    {
        OutputState {
            lightbar_r: 0,
            lightbar_g: 0,
            lightbar_b: 0,
            rumble_left: 0,
            rumble_right: 0,
            player_leds: 0,
            mute_led: 0,
        }
    }
}

/// `body` with its last four bytes replaced by the little-endian CRC-32
/// (seed 0xA2) of everything before them.
pub open spec fn spec_stamped(body: Seq<u8>) -> Seq<u8> {
    let n = body.len() - 4;
    body.take(n) + crc32::spec_u32_le_bytes(crc32::spec_crc(crc32::SEED_OUTPUT, body.take(n)))
}

/// DualSense USB output report: 48 bytes, report id 0x02, rumble enable
/// 0x0F, LED/lightbar enable 0x55, motors at 3/4 (right first), lightbar
/// setup at 39/42/43, player LEDs at 44, RGB at 45..47.
pub open spec fn spec_dualsense_usb_report(s: OutputState) -> Seq<u8> {
    Seq::new(
        48,
        |i: int|
            if i == 0 {
                0x02u8
            } else if i == 1 {
                0x0Fu8
            } else if i == 2 {
                0x55u8
            } else if i == 3 {
                s.rumble_right
            } else if i == 4 {
                s.rumble_left
            } else if i == 39 {
                0x02u8
            } else if i == 42 {
                0x02u8
            } else if i == 44 {
                s.player_leds
            } else if i == 45 {
                s.lightbar_r
            } else if i == 46 {
                s.lightbar_g
            } else if i == 47 {
                s.lightbar_b
            } else {
                0u8
            },
    )
}

/// DualSense Bluetooth output report before stamping: 78 bytes, report id
/// 0x31, fixed data tag 0x02, then the USB layout shifted by one.
pub open spec fn spec_dualsense_bt_body(s: OutputState) -> Seq<u8> {
    Seq::new(
        78,
        |i: int|
            if i == 0 {
                0x31u8
            } else if i == 1 {
                0x02u8
            } else if i == 2 {
                0x0Fu8
            } else if i == 3 {
                0x55u8
            } else if i == 4 {
                s.rumble_right
            } else if i == 5 {
                s.rumble_left
            } else if i == 40 {
                0x02u8
            } else if i == 43 {
                0x02u8
            } else if i == 45 {
                s.player_leds
            } else if i == 46 {
                s.lightbar_r
            } else if i == 47 {
                s.lightbar_g
            } else if i == 48 {
                s.lightbar_b
            } else {
                0u8
            },
    )
}

/// DS4 USB output report: 32 bytes, report id 0x05, rumble + lightbar
/// enable 0x07, motors at 4/5 (right first), RGB at 6..8.
pub open spec fn spec_ds4_usb_report(s: OutputState) -> Seq<u8> {
    Seq::new(
        32,
        |i: int|
            if i == 0 {
                0x05u8
            } else if i == 1 {
                0x07u8
            } else if i == 4 {
                s.rumble_right
            } else if i == 5 {
                s.rumble_left
            } else if i == 6 {
                s.lightbar_r
            } else if i == 7 {
                s.lightbar_g
            } else if i == 8 {
                s.lightbar_b
            } else {
                0u8
            },
    )
}

/// DS4 Bluetooth output report before stamping: 79 bytes, report id 0x11,
/// HID output flag 0x80, enable flags 0xF7, motors at 6/7, RGB at 8..10.
pub open spec fn spec_ds4_bt_body(s: OutputState) -> Seq<u8> {
    Seq::new(
        79,
        |i: int|
            if i == 0 {
                0x11u8
            } else if i == 1 {
                0x80u8
            } else if i == 3 {
                0xF7u8
            } else if i == 6 {
                s.rumble_right
            } else if i == 7 {
                s.rumble_left
            } else if i == 8 {
                s.lightbar_r
            } else if i == 9 {
                s.lightbar_g
            } else if i == 10 {
                s.lightbar_b
            } else {
                0u8
            },
    )
}

/// The report sent for each (model, transport): the USB layouts verbatim,
/// the Bluetooth layouts CRC-stamped in their last four bytes.
pub open spec fn spec_build_report(
    ct: ControllerType,
    conn: ConnectionType,
    s: OutputState,
) -> Seq<u8> {
    if ct == ControllerType::DualSense || ct == ControllerType::DualSenseEdge {
        if conn == ConnectionType::Usb {
            spec_dualsense_usb_report(s)
        } else {
            spec_stamped(spec_dualsense_bt_body(s))
        }
    } else {
        if conn == ConnectionType::Usb {
            spec_ds4_usb_report(s)
        } else {
            spec_stamped(spec_ds4_bt_body(s))
        }
    }
}

fn zero_vec(n: usize) -> (r: Vec<u8>)
    ensures
        r@ == Seq::new(n as nat, |i: int| 0u8),
{
    let mut v: Vec<u8> = Vec::new();
    let mut i: usize = 0;
    while i < n
        invariant
            i <= n,
            v@ =~= Seq::new(i as nat, |k: int| 0u8),
        decreases n - i,
    {
        v.push(0);
        proof {
            assert(v@ =~= Seq::new((i + 1) as nat, |k: int| 0u8));
        }
        i += 1;
    }
    proof {
        assert(v@ =~= Seq::new(n as nat, |k: int| 0u8));
    }
    v
}

fn build_dualsense_usb(state: &OutputState) -> (r: Vec<u8>)
    ensures
        r@ == spec_dualsense_usb_report(*state),
{
    let mut buf = zero_vec(48);
    buf.set(0, 0x02);
    buf.set(1, 0x0F);
    buf.set(2, 0x55);
    buf.set(3, state.rumble_right);
    buf.set(4, state.rumble_left);
    buf.set(39, 0x02);
    buf.set(42, 0x02);
    buf.set(44, state.player_leds);
    buf.set(45, state.lightbar_r);
    buf.set(46, state.lightbar_g);
    buf.set(47, state.lightbar_b);
    proof {
        assert(buf@ =~= spec_dualsense_usb_report(*state));
    }
    buf
}

fn build_dualsense_bt(state: &OutputState) -> (r: Vec<u8>)
    ensures
        r@ == spec_stamped(spec_dualsense_bt_body(*state)),
        crc32::spec_crc_valid(crc32::SEED_OUTPUT, r@),
{
    let mut buf = zero_vec(78);
    buf.set(0, 0x31);
    buf.set(1, 0x02);
    buf.set(2, 0x0F);
    buf.set(3, 0x55);
    buf.set(4, state.rumble_right);
    buf.set(5, state.rumble_left);
    buf.set(40, 0x02);
    buf.set(43, 0x02);
    buf.set(45, state.player_leds);
    buf.set(46, state.lightbar_r);
    buf.set(47, state.lightbar_g);
    buf.set(48, state.lightbar_b);
    proof {
        assert(buf@ =~= spec_dualsense_bt_body(*state));
    }
    let ghost body = buf@;
    crc32::stamp(crc32::SEED_OUTPUT, &mut buf, 74);
    proof {
        assert(buf@ =~= spec_stamped(body));
        assert(buf@.take(74) =~= body.take(74));
        crc32::lemma_stamp_validate_roundtrip(crc32::SEED_OUTPUT, body, buf@, 74);
        assert(buf@.take(78) =~= buf@);
    }
    buf
}

fn build_ds4_usb(state: &OutputState) -> (r: Vec<u8>)
    ensures
        r@ == spec_ds4_usb_report(*state),
{
    let mut buf = zero_vec(32);
    buf.set(0, 0x05);
    buf.set(1, 0x07);
    buf.set(4, state.rumble_right);
    buf.set(5, state.rumble_left);
    buf.set(6, state.lightbar_r);
    buf.set(7, state.lightbar_g);
    buf.set(8, state.lightbar_b);
    proof {
        assert(buf@ =~= spec_ds4_usb_report(*state));
    }
    buf
}

fn build_ds4_bt(state: &OutputState) -> (r: Vec<u8>)
    ensures
        r@ == spec_stamped(spec_ds4_bt_body(*state)),
        crc32::spec_crc_valid(crc32::SEED_OUTPUT, r@),
{
    let mut buf = zero_vec(79);
    buf.set(0, 0x11);
    buf.set(1, 0x80);
    buf.set(3, 0xF7);
    buf.set(6, state.rumble_right);
    buf.set(7, state.rumble_left);
    buf.set(8, state.lightbar_r);
    buf.set(9, state.lightbar_g);
    buf.set(10, state.lightbar_b);
    proof {
        assert(buf@ =~= spec_ds4_bt_body(*state));
    }
    let ghost body = buf@;
    crc32::stamp(crc32::SEED_OUTPUT, &mut buf, 75);
    proof {
        assert(buf@ =~= spec_stamped(body));
        assert(buf@.take(75) =~= body.take(75));
        crc32::lemma_stamp_validate_roundtrip(crc32::SEED_OUTPUT, body, buf@, 75);
        assert(buf@.take(79) =~= buf@);
    }
    buf
}

/// Build the byte-exact output report for the given model and transport.
/// `bt_seq` is kept for wire-format evolution; the current layouts use a
/// fixed data tag instead of a sequence counter, so it is left unchanged.
pub fn build_report(
    ct: ControllerType,
    conn: ConnectionType,
    state: &OutputState,
    bt_seq: &mut u8,
) -> (r: Vec<u8>)
    ensures
        r@ == spec_build_report(ct, conn, *state),
        *final(bt_seq) == *old(bt_seq),
{
    let is_dualsense = ct.is_dualsense();
    if is_dualsense {
        if conn == ConnectionType::Usb {
            build_dualsense_usb(state)
        } else {
            build_dualsense_bt(state)
        }
    } else {
        if conn == ConnectionType::Usb {
            build_ds4_usb(state)
        } else {
            build_ds4_bt(state)
        }
    }
}

/// Every Bluetooth output report carries valid CRC framing: validating a
/// freshly built Bluetooth report with the output seed always succeeds.
pub proof fn lemma_bt_reports_crc_valid(ct: ControllerType, s: OutputState)
    ensures
        crc32::spec_crc_valid(
            crc32::SEED_OUTPUT,
            spec_build_report(ct, ConnectionType::Bluetooth, s),
        ),
{
    let body = if ct == ControllerType::DualSense || ct == ControllerType::DualSenseEdge {
        spec_dualsense_bt_body(s)
    } else {
        spec_ds4_bt_body(s)
    };
    let n = body.len() - 4;
    let stamped = spec_stamped(body);
    assert(stamped.len() == body.len());
    assert(stamped.take(n) =~= body.take(n));
    crc32::lemma_u32_le_reassemble(crc32::spec_crc(crc32::SEED_OUTPUT, body.take(n)));
    assert(stamped.take(stamped.len() - 4) =~= stamped.take(n));
}

} // verus!
