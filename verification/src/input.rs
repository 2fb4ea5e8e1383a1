//! Input report parsing: raw HID bytes to a unified input record.
//!
//! Byte layouts differ per (model, transport):
//!
//! - DualSense USB: sticks at +0..+3, triggers at +4/+5, buttons at +7..+9,
//!   touch contacts at +32..+39; a report-id byte may be prepended.
//! - DualSense Bluetooth (extended mode, report id 0x31): same payload after
//!   a one-byte header; the last four bytes are a CRC-32.
//! - DS4 USB: sticks at +0..+3, buttons at +4..+6, triggers at +7/+8.
//! - DS4 Bluetooth (extended mode, report id 0x11): DS4 layout after a
//!   two-byte header; the last four bytes are a CRC-32.

use vstd::prelude::*;

use crate::controller::{ConnectionType, ControllerType};
use crate::crc32;

verus! {

/// A single capacitive touch contact on the DualSense touchpad.
/// Coordinates are touchpad units: x in 0..=1919*, y in 0..=1079*
/// (*nominal hardware range; the wire format admits 12 bits).
#[derive(Debug, Clone, Copy, PartialEq, Eq, Structural)]
pub struct TouchPoint {
    pub active: bool,
    pub x: u16,
    pub y: u16,
}

impl Default for TouchPoint {
    /// The inactive contact at the origin.
    fn default() -> (r: Self)
        ensures
            r == spec_touch_point_default(),
    {
        TouchPoint { active: false, x: 0, y: 0 }
    }
}

pub open spec fn spec_touch_point_default() -> TouchPoint {
    TouchPoint { active: false, x: 0, y: 0 }
}

/// D-pad direction decoded from the 4-bit hat field.
#[derive(Debug, Clone, Copy, PartialEq, Eq, Structural)]
pub enum DPad {
    Neutral,
    Up,
    UpRight,
    Right,
    DownRight,
    Down,
    DownLeft,
    Left,
    UpLeft,
}

impl Default for DPad {
    /// The released hat.
    fn default() -> (r: Self)
        ensures
            r == DPad::Neutral,
    {
        DPad::Neutral
    }
}

/// All digital button states of one frame.
#[derive(Debug, Clone, Copy, PartialEq, Eq, Structural)]
pub struct ButtonState {
    pub cross: bool,
    pub circle: bool,
    pub square: bool,
    pub triangle: bool,
    pub l1: bool,
    pub r1: bool,
    pub l2: bool,
    pub r2: bool,
    pub share: bool,
    pub options: bool,
    pub l3: bool,
    pub r3: bool,
    pub ps: bool,
    pub touchpad: bool,
    pub mute: bool,
    pub dpad: DPad,
}

pub open spec fn spec_buttons_default() -> ButtonState {
    ButtonState {
        cross: false,
        circle: false,
        square: false,
        triangle: false,
        l1: false,
        r1: false,
        l2: false,
        r2: false,
        share: false,
        options: false,
        l3: false,
        r3: false,
        ps: false,
        touchpad: false,
        mute: false,
        dpad: DPad::Neutral,
    }
}

impl Default for ButtonState {
    /// All buttons released.
    fn default() -> (r: Self)
        ensures
            r == spec_buttons_default(),
    {
        ButtonState {
            cross: false,
            circle: false,
            square: false,
            triangle: false,
            l1: false,
            r1: false,
            l2: false,
            r2: false,
            share: false,
            options: false,
            l3: false,
            r3: false,
            ps: false,
            touchpad: false,
            mute: false,
            dpad: DPad::Neutral,
        }
    }
}

/// Normalized input from any supported controller.
#[derive(Debug, Clone, Copy)]
pub struct UnifiedInput {
    pub left_stick: (u8, u8),
    pub right_stick: (u8, u8),
    pub l2_analog: u8,
    pub r2_analog: u8,
    pub buttons: ButtonState,
    /// Touchpad contacts (DualSense only; DS4 parsing leaves both inactive).
    pub touchpad: [TouchPoint; 2],
}

/// Sticks centered, triggers released, no buttons, no touch contacts.
pub open spec fn spec_input_default() -> UnifiedInput {
    UnifiedInput {
        left_stick: (128u8, 128u8),
        right_stick: (128u8, 128u8),
        l2_analog: 0u8,
        r2_analog: 0u8,
        buttons: spec_buttons_default(),
        touchpad: [spec_touch_point_default(), spec_touch_point_default()],
    }
}

impl Default for UnifiedInput {
    fn default() -> (r: Self)
        ensures
            r == spec_input_default(),
    {
        let r = UnifiedInput {
            left_stick: (128, 128),
            right_stick: (128, 128),
            l2_analog: 0,
            r2_analog: 0,
            buttons: ButtonState::default(),
            touchpad: [TouchPoint::default(), TouchPoint::default()],
        };
        proof {
            assert(r.touchpad@ =~= spec_input_default().touchpad@);
            assert(r.touchpad == spec_input_default().touchpad);
        }
        r
    }
}

/// Parse failure: the report was shorter than the layout requires.
#[derive(Debug, Clone, Copy, PartialEq, Eq, Structural)]
pub enum ParseError {
    TooShort { expected: usize, got: usize },
}

/// The compass direction encoded in the 4-bit hat field: 0..=7 are the
/// eight directions clockwise from Up, 8..=15 mean released.
pub open spec fn spec_decode_hat(hat: u8) -> DPad {
    let v = hat & 0x0F;
    if v == 0 {
        DPad::Up
    } else if v == 1 {
        DPad::UpRight
    } else if v == 2 {
        DPad::Right
    } else if v == 3 {
        DPad::DownRight
    } else if v == 4 {
        DPad::Down
    } else if v == 5 {
        DPad::DownLeft
    } else if v == 6 {
        DPad::Left
    } else if v == 7 {
        DPad::UpLeft
    } else {
        DPad::Neutral
    }
}

/// Decode the 4-bit hat switch value into a D-pad direction.
pub fn decode_hat(hat: u8) -> (r: DPad)
    ensures
        r == spec_decode_hat(hat),
{
    match hat & 0x0F {
        0 => DPad::Up,
        1 => DPad::UpRight,
        2 => DPad::Right,
        3 => DPad::DownRight,
        4 => DPad::Down,
        5 => DPad::DownLeft,
        6 => DPad::Left,
        7 => DPad::UpLeft,
        _ => DPad::Neutral,
    }
}

/// Hat decode totality: every byte decodes; values whose low nibble is
/// 8 or above decode to Neutral, values 0..=7 each to a distinct compass
/// direction, never Neutral.
pub proof fn lemma_hat_decode_totality(v: u8)
    ensures
        (v & 0x0F) >= 8 ==> spec_decode_hat(v) == DPad::Neutral,
        (v & 0x0F) < 8 ==> spec_decode_hat(v) != DPad::Neutral,
        forall|w: u8|
            (w & 0x0F) < 8 && (v & 0x0F) < 8 && (w & 0x0F) != (v & 0x0F)
                ==> spec_decode_hat(v) != spec_decode_hat(w),
{
    assert((v & 0x0F) < 16) by (bit_vector);
}

/// The button block decoded from its three bytes: `b0` holds the hat in the
/// low nibble and square/cross/circle/triangle in the high nibble, `b1` the
/// shoulder/stick/menu buttons, `b2` the system buttons.
pub open spec fn spec_parse_buttons(b0: u8, b1: u8, b2: u8) -> ButtonState {
    ButtonState {
        dpad: spec_decode_hat((b0 & 0x0F) as u8),
        square: b0 & 0x10 != 0,
        cross: b0 & 0x20 != 0,
        circle: b0 & 0x40 != 0,
        triangle: b0 & 0x80 != 0,
        l1: b1 & 0x01 != 0,
        r1: b1 & 0x02 != 0,
        l2: b1 & 0x04 != 0,
        r2: b1 & 0x08 != 0,
        share: b1 & 0x10 != 0,
        options: b1 & 0x20 != 0,
        l3: b1 & 0x40 != 0,
        r3: b1 & 0x80 != 0,
        ps: b2 & 0x01 != 0,
        touchpad: b2 & 0x02 != 0,
        mute: b2 & 0x04 != 0,
    }
}

fn parse_buttons(b0: u8, b1: u8, b2: u8) -> (r: ButtonState)
    ensures
        r == spec_parse_buttons(b0, b1, b2),
{
    ButtonState {
        dpad: decode_hat(b0 & 0x0F),
        square: b0 & 0x10 != 0,
        cross: b0 & 0x20 != 0,
        circle: b0 & 0x40 != 0,
        triangle: b0 & 0x80 != 0,
        l1: b1 & 0x01 != 0,
        r1: b1 & 0x02 != 0,
        l2: b1 & 0x04 != 0,
        r2: b1 & 0x08 != 0,
        share: b1 & 0x10 != 0,
        options: b1 & 0x20 != 0,
        l3: b1 & 0x40 != 0,
        r3: b1 & 0x80 != 0,
        ps: b2 & 0x01 != 0,
        touchpad: b2 & 0x02 != 0,
        mute: b2 & 0x04 != 0,
    }
}

/// One touch contact decoded from its four bytes: the contact byte's bit 7
/// is the inactive flag (0 = touching); x is 12 bits split over the second
/// byte and the low nibble of the third; y is 12 bits split over the high
/// nibble of the third byte and the fourth.
pub open spec fn spec_touch_point(contact: u8, x_lo: u8, mid: u8, y_hi: u8) -> TouchPoint {
    TouchPoint {
        active: contact & 0x80 == 0,
        x: ((x_lo as u16) | (((mid & 0x0F) as u16) << 8)) as u16,
        y: (((mid >> 4) as u16) | ((y_hi as u16) << 4)) as u16,
    }
}

/// The two touch contacts read at `data[off + 32 .. off + 40]`; both
/// inactive defaults when the buffer is too short.
pub open spec fn spec_parse_touch_points(data: Seq<u8>, off: int) -> [TouchPoint; 2] {
    if data.len() < off + 40 {
        [spec_touch_point_default(), spec_touch_point_default()]
    } else {
        [
            spec_touch_point(data[off + 32], data[off + 33], data[off + 34], data[off + 35]),
            spec_touch_point(data[off + 36], data[off + 37], data[off + 38], data[off + 39]),
        ]
    }
}

fn touch_point_at(data: &[u8], base: usize) -> (r: TouchPoint)
    requires
        base + 4 <= data.len(),
    ensures
        r == spec_touch_point(
            data@[base as int],
            data@[base + 1],
            data@[base + 2],
            data@[base + 3],
        ),
{
    let contact = data[base];
    let x_lo = data[base + 1] as u16;
    let mid = data[base + 2];
    let y_hi = data[base + 3] as u16;
    TouchPoint {
        active: contact & 0x80 == 0,
        x: x_lo | (((mid & 0x0F) as u16) << 8),
        y: ((mid >> 4) as u16) | (y_hi << 4),
    }
}

/// Parse the two DualSense touchpad contacts starting at `data[off + 32]`.
/// Returns two inactive defaults when the buffer is too short.
pub fn parse_touch_points(data: &[u8], off: usize) -> (r: [TouchPoint; 2])
    requires
        off <= usize::MAX - 40,
    ensures
        r@ == spec_parse_touch_points(data@, off as int)@,
{
    if data.len() < off + 40 {
        let r = [TouchPoint::default(), TouchPoint::default()];
        proof {
            assert(r@ =~= spec_parse_touch_points(data@, off as int)@);
        }
        return r;
    }
    let r = [touch_point_at(data, off + 32), touch_point_at(data, off + 36)];
    proof {
        assert(r@ =~= spec_parse_touch_points(data@, off as int)@);
    }
    r
}

/// Report-id offset of a DualSense USB report: the platform may leave the
/// report-id byte 0x01 prepended on a full 64-byte read.
pub open spec fn spec_dualsense_usb_off(data: Seq<u8>) -> int {
    if data.len() == 64 && data[0] == 1 {
        1
    } else {
        0
    }
}

/// Header offset of a DualSense Bluetooth report: report id 0x31 plus one
/// header byte when the id is present, one header byte otherwise.
pub open spec fn spec_dualsense_bt_off(data: Seq<u8>) -> int {
    if data.len() >= 2 && data[0] == 0x31 {
        2
    } else {
        1
    }
}

/// Report-id offset of a DS4 USB report.
pub open spec fn spec_ds4_usb_off(data: Seq<u8>) -> int {
    if data.len() == 64 && data[0] == 1 {
        1
    } else {
        0
    }
}

/// Header offset of a DS4 Bluetooth report: report id 0x11 plus two header
/// bytes when the id is present, two header bytes otherwise.
pub open spec fn spec_ds4_bt_off(data: Seq<u8>) -> int {
    if data.len() >= 3 && data[0] == 0x11 {
        3
    } else {
        2
    }
}

/// A DualSense-layout record read at offset `off`: sticks at +0..+3,
/// triggers at +4/+5, buttons at +7..+9, touch contacts at +32..+39.
pub open spec fn spec_dualsense_record(data: Seq<u8>, off: int) -> UnifiedInput {
    UnifiedInput {
        left_stick: (data[off], data[off + 1]),
        right_stick: (data[off + 2], data[off + 3]),
        l2_analog: data[off + 4],
        r2_analog: data[off + 5],
        buttons: spec_parse_buttons(data[off + 7], data[off + 8], data[off + 9]),
        touchpad: spec_parse_touch_points(data, off),
    }
}

/// A DS4-layout record read at offset `off`: sticks at +0..+3, buttons at
/// +4..+6, triggers at +7/+8, no touch contacts.
pub open spec fn spec_ds4_record(data: Seq<u8>, off: int) -> UnifiedInput {
    UnifiedInput {
        left_stick: (data[off], data[off + 1]),
        right_stick: (data[off + 2], data[off + 3]),
        buttons: spec_parse_buttons(data[off + 4], data[off + 5], data[off + 6]),
        l2_analog: data[off + 7],
        r2_analog: data[off + 8],
        touchpad: [spec_touch_point_default(), spec_touch_point_default()],
    }
}

/// What `parse` returns for each (model, transport) and buffer: the record
/// at the transport's offset, or `TooShort` naming the least length the
/// layout requires.
pub open spec fn spec_parse(ct: ControllerType, conn: ConnectionType, data: Seq<u8>) -> Result<
    UnifiedInput,
    ParseError,
> {
    if ct == ControllerType::DualSense || ct == ControllerType::DualSenseEdge {
        let off = if conn == ConnectionType::Usb {
            spec_dualsense_usb_off(data)
        } else {
            spec_dualsense_bt_off(data)
        };
        if data.len() < off + 10 {
            Err(ParseError::TooShort { expected: (off + 10) as usize, got: data.len() as usize })
        } else {
            Ok(spec_dualsense_record(data, off))
        }
    } else {
        let off = if conn == ConnectionType::Usb {
            spec_ds4_usb_off(data)
        } else {
            spec_ds4_bt_off(data)
        };
        if data.len() < off + 9 {
            Err(ParseError::TooShort { expected: (off + 9) as usize, got: data.len() as usize })
        } else {
            Ok(spec_ds4_record(data, off))
        }
    }
}

fn parse_dualsense_record(data: &[u8], off: usize) -> (r: UnifiedInput)
    requires
        off + 10 <= data.len(),
        off <= 3,
    ensures
        r == spec_dualsense_record(data@, off as int),
{
    let r = UnifiedInput {
        left_stick: (data[off], data[off + 1]),
        right_stick: (data[off + 2], data[off + 3]),
        l2_analog: data[off + 4],
        r2_analog: data[off + 5],
        buttons: parse_buttons(data[off + 7], data[off + 8], data[off + 9]),
        touchpad: parse_touch_points(data, off),
    };
    proof {
        assert(r.touchpad@ =~= spec_dualsense_record(data@, off as int).touchpad@);
        assert(r.touchpad == spec_dualsense_record(data@, off as int).touchpad);
    }
    r
}

fn parse_ds4_record(data: &[u8], off: usize) -> (r: UnifiedInput)
    requires
        off + 9 <= data.len(),
    ensures
        r == spec_ds4_record(data@, off as int),
{
    let r = UnifiedInput {
        left_stick: (data[off], data[off + 1]),
        right_stick: (data[off + 2], data[off + 3]),
        buttons: parse_buttons(data[off + 4], data[off + 5], data[off + 6]),
        l2_analog: data[off + 7],
        r2_analog: data[off + 8],
        touchpad: [TouchPoint::default(), TouchPoint::default()],
    };
    proof {
        assert(r.touchpad@ =~= spec_ds4_record(data@, off as int).touchpad@);
        assert(r.touchpad == spec_ds4_record(data@, off as int).touchpad);
    }
    r
}

/// Parse a raw HID input report for the given model and transport into a
/// unified record, or report how short the buffer fell.
pub fn parse(ct: ControllerType, conn: ConnectionType, data: &[u8]) -> (r: Result<
    UnifiedInput,
    ParseError,
>)
    ensures
        r == spec_parse(ct, conn, data@),
{
    let is_dualsense = ct.is_dualsense();
    if is_dualsense {
        let off: usize = if conn == ConnectionType::Usb {
            if data.len() == 64 && data[0] == 1 {
                1
            } else {
                0
            }
        } else {
            if data.len() >= 2 && data[0] == 0x31 {
                2
            } else {
                1
            }
        };
        if data.len() < off + 10 {
            Err(ParseError::TooShort { expected: off + 10, got: data.len() })
        } else {
            Ok(parse_dualsense_record(data, off))
        }
    } else {
        let off: usize = if conn == ConnectionType::Usb {
            if data.len() == 64 && data[0] == 1 {
                1
            } else {
                0
            }
        } else {
            if data.len() >= 3 && data[0] == 0x11 {
                3
            } else {
                2
            }
        };
        if data.len() < off + 9 {
            Err(ParseError::TooShort { expected: off + 9, got: data.len() })
        } else {
            Ok(parse_ds4_record(data, off))
        }
    }
}

/// Validate the CRC-32 framing of a full raw Bluetooth input report (seed
/// 0xA1). Call this before `parse`; the model does not change the seed.
pub fn validate_bt_crc(ct: ControllerType, raw: &[u8]) -> (r: bool)
    ensures
        r == crc32::spec_crc_valid(crc32::SEED_INPUT, raw@),
{
    let _ = ct;
    crc32::validate(crc32::SEED_INPUT, raw)
}

/// The transport-correct report-id byte for each (model, transport).
pub open spec fn spec_report_id(ct: ControllerType, conn: ConnectionType) -> u8 {
    if ct == ControllerType::DualSense || ct == ControllerType::DualSenseEdge {
        if conn == ConnectionType::Usb {
            0x01
        } else {
            0x31
        }
    } else {
        if conn == ConnectionType::Usb {
            0x01
        } else {
            0x11
        }
    }
}

/// Payload offset of a full-length report whose report id is present.
pub open spec fn spec_full_report_off(ct: ControllerType, conn: ConnectionType) -> int {
    if ct == ControllerType::DualSense || ct == ControllerType::DualSenseEdge {
        if conn == ConnectionType::Usb {
            1
        } else {
            2
        }
    } else {
        if conn == ConnectionType::Usb {
            1
        } else {
            3
        }
    }
}

/// Offset of the hat/face-buttons byte within the payload of each model.
pub open spec fn spec_hat_byte_off(ct: ControllerType) -> int {
    if ct == ControllerType::DualSense || ct == ControllerType::DualSenseEdge {
        7
    } else {
        4
    }
}

/// The canonical resting report for a (model, transport): the correct
/// report id, the sticks centered at 128, the hat nibble released (8), the
/// touch contact bytes flagged inactive (0x80), and every other byte zero.
/// USB reports are 64 bytes, Bluetooth reports 78.
pub open spec fn spec_neutral_report(ct: ControllerType, conn: ConnectionType) -> Seq<u8> {
    let len = if conn == ConnectionType::Usb {
        64
    } else {
        78
    };
    let off = spec_full_report_off(ct, conn);
    Seq::new(
        len,
        |i: int|
            if i == 0 {
                spec_report_id(ct, conn)
            } else if off <= i < off + 4 {
                128u8
            } else if i == off + spec_hat_byte_off(ct) {
                8u8
            } else if i == off + 32 || i == off + 36 {
                0x80u8
            } else {
                0u8
            },
    )
}

/// Dispatch parity: for every model and transport, the canonical resting
/// report — transport-correct preamble, centered sticks, released hat,
/// inactive touch contacts, zeroes elsewhere — parses to the default
/// record: sticks at 128, all buttons false, all touch points inactive.
pub proof fn lemma_dispatch_parity(ct: ControllerType, conn: ConnectionType)
    ensures
        spec_parse(ct, conn, spec_neutral_report(ct, conn)) == Ok::<
            UnifiedInput,
            ParseError,
        >(spec_input_default()),
{
    let data = spec_neutral_report(ct, conn);
    let off = spec_full_report_off(ct, conn);
    assert(data.len() == if conn == ConnectionType::Usb { 64int } else { 78int });
    assert(data[0] == spec_report_id(ct, conn));
    assert((8u8 & 0x0Fu8) == 8u8) by (bit_vector);
    assert(spec_decode_hat(8) == DPad::Neutral);
    assert((8u8 & 0x10u8) == 0u8) by (bit_vector);
    assert((8u8 & 0x20u8) == 0u8) by (bit_vector);
    assert((8u8 & 0x40u8) == 0u8) by (bit_vector);
    assert((8u8 & 0x80u8) == 0u8) by (bit_vector);
    assert((0u8 & 0x0Fu8) == 0u8) by (bit_vector);
    assert((0u8 & 0x01u8) == 0u8) by (bit_vector);
    assert((0u8 & 0x02u8) == 0u8) by (bit_vector);
    assert((0u8 & 0x04u8) == 0u8) by (bit_vector);
    assert((0u8 & 0x08u8) == 0u8) by (bit_vector);
    assert((0u8 & 0x10u8) == 0u8) by (bit_vector);
    assert((0u8 & 0x20u8) == 0u8) by (bit_vector);
    assert((0u8 & 0x40u8) == 0u8) by (bit_vector);
    assert((0u8 & 0x80u8) == 0u8) by (bit_vector);
    assert((0x80u8 & 0x80u8) == 0x80u8) by (bit_vector);
    assert(((0u8 & 0x0Fu8) as u16) << 8 == 0u16) by (bit_vector);
    assert((0u8 >> 4u8) == 0u8) by (bit_vector);
    assert((0u16 << 4u16) == 0u16) by (bit_vector);
    assert((0u16 | 0u16) == 0u16) by (bit_vector);
    if ct == ControllerType::DualSense || ct == ControllerType::DualSenseEdge {
        assert(spec_parse(ct, conn, data) is Ok);
        let r = spec_parse(ct, conn, data)->Ok_0;
        assert(r.buttons =~= spec_buttons_default());
        assert(data.len() >= off + 40);
        assert(r.touchpad[0] == spec_touch_point(data[off + 32], data[off + 33], data[off + 34], data[off + 35]));
        assert(r.touchpad[0] =~= spec_touch_point_default());
        assert(r.touchpad[1] =~= spec_touch_point_default());
        assert(r.touchpad@ =~= spec_input_default().touchpad@);
        assert(r =~= spec_input_default());
    } else {
        assert(spec_parse(ct, conn, data) is Ok);
        let r = spec_parse(ct, conn, data)->Ok_0;
        assert(r.buttons =~= spec_buttons_default());
        assert(r.touchpad@ =~= spec_input_default().touchpad@);
        assert(r =~= spec_input_default());
    }
}

} // verus!
