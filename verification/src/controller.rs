//! Controller identification: USB vendor/product matching and connection
//! kind detection from the HID device path.

use vstd::prelude::*;
use vstd::string::StringSliceAdditionalSpecFns;

verus! {

#[derive(Debug, Clone, Copy, PartialEq, Eq, Structural)]
pub enum ControllerType {
    DualSense,
    DualSenseEdge,
    Ds4V1,
    Ds4V2,
}

#[derive(Debug, Clone, Copy, PartialEq, Eq, Structural)]
pub enum ConnectionType {
    Usb,
    Bluetooth,
}

/// Known USB vendor/product pairs.
pub const SONY_VID: u16 = 0x054C;
pub const DUALSENSE_PID: u16 = 0x0CE6;
pub const DUALSENSE_EDGE_PID: u16 = 0x0DF2;
pub const DS4_V1_PID: u16 = 0x05C4;
pub const DS4_V2_PID: u16 = 0x09CC;

/// HID usage page and usage for gamepad collections.
pub const GAMEPAD_USAGE_PAGE: u16 = 0x01;
pub const GAMEPAD_USAGE: u16 = 0x05;

/// The model sold under a given vendor/product pair, if it is one of the
/// four supported Sony controllers.
pub open spec fn spec_identify(vid: u16, pid: u16) -> Option<ControllerType> {
    if vid != SONY_VID {
        None
    } else if pid == DUALSENSE_PID {
        Some(ControllerType::DualSense)
    } else if pid == DUALSENSE_EDGE_PID {
        Some(ControllerType::DualSenseEdge)
    } else if pid == DS4_V1_PID {
        Some(ControllerType::Ds4V1)
    } else if pid == DS4_V2_PID {
        Some(ControllerType::Ds4V2)
    } else {
        None
    }
}

/// Identify the controller model from a vendor/product pair.
/// Only the Sony vendor id with the four known product ids is accepted.
pub fn identify(vid: u16, pid: u16) -> (r: Option<ControllerType>)
    ensures
        r == spec_identify(vid, pid),
{
    if vid != SONY_VID {
        return None;
    }
    match pid {
        DUALSENSE_PID => Some(ControllerType::DualSense),
        DUALSENSE_EDGE_PID => Some(ControllerType::DualSenseEdge),
        DS4_V1_PID => Some(ControllerType::Ds4V1),
        DS4_V2_PID => Some(ControllerType::Ds4V2),
        _ => None,
    }
}

/// ASCII lowercase of one byte.
pub open spec fn spec_lower_byte(b: u8) -> u8 {
    if 65 <= b <= 90 {
        (b + 32) as u8
    } else {
        b
    }
}

/// `needle` occurs at position `i` of `haystack`, after lowercasing the
/// haystack.
pub open spec fn spec_matches_lower_at(haystack: Seq<u8>, needle: Seq<u8>, i: int) -> bool {
    &&& 0 <= i
    &&& i + needle.len() <= haystack.len()
    &&& forall|j: int| 0 <= j < needle.len() ==> spec_lower_byte(haystack[i + j]) == needle[j]
}

/// `needle` occurs somewhere in `haystack`, after lowercasing the haystack.
pub open spec fn spec_contains_lower(haystack: Seq<u8>, needle: Seq<u8>) -> bool {
    exists|i: int| spec_matches_lower_at(haystack, needle, i)
}

/// The lowercased path contains either the Bluetooth HID service GUID
/// fragment or the HID-over-Bluetooth token.
pub open spec fn spec_is_bluetooth_path(path: Seq<u8>) -> bool {
    ||| spec_contains_lower(path, seq![38u8, 48u8, 48u8, 48u8, 53u8])
    ||| spec_contains_lower(path, seq![123u8, 48u8, 48u8, 48u8, 48u8, 49u8, 49u8, 50u8, 52u8])
}

fn matches_lower_at(haystack: &[u8], needle: &[u8], i: usize) -> (r: bool)
    requires
        i + needle.len() <= haystack.len(),
    ensures
        r == spec_matches_lower_at(haystack@, needle@, i as int),
{
    let mut j: usize = 0;
    while j < needle.len()
        invariant
            j <= needle.len(),
            i + needle.len() <= haystack.len(),
            forall|k: int| 0 <= k < j ==> spec_lower_byte(haystack@[i + k]) == needle@[k],
        decreases needle.len() - j,
    {
        let b = haystack[i + j];
        let lower = if 65 <= b && b <= 90 {
            b + 32
        } else {
            b
        };
        if lower != needle[j] {
            return false;
        }
        j += 1;
    }
    true
}

fn contains_lower(haystack: &[u8], needle: &[u8]) -> (r: bool)
    ensures
        r == spec_contains_lower(haystack@, needle@),
{
    if needle.len() > haystack.len() {
        assert(forall|i: int| !spec_matches_lower_at(haystack@, needle@, i));
        return false;
    }
    let last = haystack.len() - needle.len();
    let mut i: usize = 0;
    while i <= last
        invariant
            i <= last + 1,
            last == haystack.len() - needle.len(),
            needle.len() <= haystack.len(),
            forall|k: int| 0 <= k < i ==> !spec_matches_lower_at(haystack@, needle@, k),
        decreases last + 1 - i,
    {
        if matches_lower_at(haystack, needle, i) {
            return true;
        }
        i += 1;
    }
    assert(forall|k: int| !spec_matches_lower_at(haystack@, needle@, k));
    false
}

/// Detect the connection kind from a HID device path: Bluetooth when the
/// lowercased path holds a Bluetooth HID marker, USB otherwise (USB is the
/// safe default — no CRC framing).
pub fn detect_connection(path: &str) -> (r: ConnectionType)
    ensures
        r == (if spec_is_bluetooth_path(path.spec_bytes()) {
            ConnectionType::Bluetooth
        } else {
            ConnectionType::Usb
        }),
{
    let bytes = path.as_bytes();
    let bt_token: [u8; 5] = [38, 48, 48, 48, 53];
    let bt_guid: [u8; 9] = [123, 48, 48, 48, 48, 49, 49, 50, 52];
    proof {
        assert(bt_token@ =~= seq![38u8, 48u8, 48u8, 48u8, 53u8]);
        assert(bt_guid@ =~= seq![123u8, 48u8, 48u8, 48u8, 48u8, 49u8, 49u8, 50u8, 52u8]);
    }
    if contains_lower(bytes, bt_token.as_slice()) || contains_lower(bytes, bt_guid.as_slice()) {
        ConnectionType::Bluetooth
    } else {
        ConnectionType::Usb
    }
}

impl ControllerType {
    /// True for the DualSense family.
    pub fn is_dualsense(self) -> (r: bool)
        ensures
            r == (self == ControllerType::DualSense || self == ControllerType::DualSenseEdge),
    {
        matches!(self, ControllerType::DualSense | ControllerType::DualSenseEdge)
    }

    /// True for the DualShock 4 family.
    pub fn is_ds4(self) -> (r: bool)
        ensures
            r == (self == ControllerType::Ds4V1 || self == ControllerType::Ds4V2),
    {
        matches!(self, ControllerType::Ds4V1 | ControllerType::Ds4V2)
    }

    /// Human-readable model name.
    pub fn name(self) -> (r: &'static str)
        ensures
            self == ControllerType::DualSense ==> r@ == "DualSense"@,
            self == ControllerType::DualSenseEdge ==> r@ == "DualSense Edge"@,
            self == ControllerType::Ds4V1 ==> r@ == "DualShock 4 v1"@,
            self == ControllerType::Ds4V2 ==> r@ == "DualShock 4 v2"@,
    {
        match self {
            ControllerType::DualSense => "DualSense",
            ControllerType::DualSenseEdge => "DualSense Edge",
            ControllerType::Ds4V1 => "DualShock 4 v1",
            ControllerType::Ds4V2 => "DualShock 4 v2",
        }
    }
}

} // verus!
