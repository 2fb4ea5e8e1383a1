//! Device selection: classify an enumerated HID device list into supported
//! controllers, USB entries first. Talking to the HID stack (enumeration,
//! opening, reading, writing) is the host's business; it hands the plain
//! device attributes in and gets the ordered candidate list back.

use vstd::prelude::*;

use crate::controller::{
    spec_identify, spec_is_bluetooth_path, ConnectionType, ControllerType, GAMEPAD_USAGE,
    GAMEPAD_USAGE_PAGE,
};
use vstd::string::StringSliceAdditionalSpecFns;

verus! {

/// A discovered controller: its model, transport, and platform path.
pub struct ControllerInfo {
    pub controller_type: ControllerType,
    pub connection_type: ConnectionType,
    pub path: String,
}

/// One enumerated HID device, as plain attributes.
pub struct DeviceDesc {
    pub usage_page: u16,
    pub usage: u16,
    pub vendor_id: u16,
    pub product_id: u16,
    pub path: String,
}

/// A device the daemon can drive: a gamepad collection with a supported
/// vendor/product pair.
pub open spec fn spec_supported(d: DeviceDesc) -> bool {
    &&& d.usage_page == GAMEPAD_USAGE_PAGE
    &&& d.usage == GAMEPAD_USAGE
    &&& spec_identify(d.vendor_id, d.product_id) is Some
}

/// The transport a device's path names.
pub open spec fn spec_conn_of(d: DeviceDesc) -> ConnectionType {
    if spec_is_bluetooth_path(vstd::utf8::encode_utf8(d.path@)) {
        ConnectionType::Bluetooth
    } else {
        ConnectionType::Usb
    }
}

/// The sublist of `devices` that are supported controllers on transport
/// `conn`, in enumeration order.
pub open spec fn spec_classified(devices: Seq<DeviceDesc>, conn: ConnectionType) -> Seq<DeviceDesc>
    decreases devices.len(),
{
    if devices.len() == 0 {
        Seq::empty()
    } else {
        let init = spec_classified(devices.drop_last(), conn);
        if spec_supported(devices.last()) && spec_conn_of(devices.last()) == conn {
            init.push(devices.last())
        } else {
            init
        }
    }
}

/// `info` is the classification of the enumerated device `d`: the model
/// its vendor/product pair names, the transport its path names, and the
/// path itself.
pub open spec fn spec_classifies(info: ControllerInfo, d: DeviceDesc) -> bool {
    &&& spec_supported(d)
    &&& Some(info.controller_type) == spec_identify(d.vendor_id, d.product_id)
    &&& info.connection_type == spec_conn_of(d)
    &&& info.path@ == d.path@
}

/// Every entry of the classified sublist is a supported device on the
/// named transport.
pub proof fn lemma_classified_supported(devices: Seq<DeviceDesc>, conn: ConnectionType)
    ensures
        forall|i: int|
            0 <= i < spec_classified(devices, conn).len() ==> spec_supported(
                #[trigger] spec_classified(devices, conn)[i],
            ) && spec_conn_of(spec_classified(devices, conn)[i]) == conn,
    decreases devices.len(),
{
    if devices.len() > 0 {
        lemma_classified_supported(devices.drop_last(), conn);
    }
}

/// Classify an enumerated device list: exactly the supported gamepad
/// collections come back, each with the model its vendor/product pair
/// names, the transport its path names, and its path; USB entries first
/// in enumeration order, then Bluetooth entries in enumeration order, so
/// the first candidate is always the preferred transport.
pub fn classify_controllers(devices: Vec<DeviceDesc>) -> (r: Vec<ControllerInfo>)
    ensures
        ({
            let usb = spec_classified(devices@, ConnectionType::Usb);
            let bt = spec_classified(devices@, ConnectionType::Bluetooth);
            &&& r@.len() == usb.len() + bt.len()
            &&& forall|i: int| 0 <= i < usb.len() ==> spec_classifies(#[trigger] r@[i], usb[i])
            &&& forall|i: int|
                usb.len() <= i < r@.len() ==> spec_classifies(#[trigger] r@[i], bt[i - usb.len()])
        }),
        forall|i: int, j: int|
            0 <= i < j < r@.len() && #[trigger] r@[i].connection_type
                == ConnectionType::Bluetooth ==> #[trigger] r@[j].connection_type
                == ConnectionType::Bluetooth,
{
    let ghost dv = devices@;
    let mut usb: Vec<ControllerInfo> = Vec::new();
    let mut bt: Vec<ControllerInfo> = Vec::new();
    let mut i: usize = 0;
    while i < devices.len()
        invariant
            i <= devices.len(),
            dv == devices@,
            usb@.len() == spec_classified(dv.take(i as int), ConnectionType::Usb).len(),
            bt@.len() == spec_classified(dv.take(i as int), ConnectionType::Bluetooth).len(),
            forall|k: int|
                0 <= k < usb@.len() ==> spec_classifies(
                    #[trigger] usb@[k],
                    spec_classified(dv.take(i as int), ConnectionType::Usb)[k],
                ),
            forall|k: int|
                0 <= k < bt@.len() ==> spec_classifies(
                    #[trigger] bt@[k],
                    spec_classified(dv.take(i as int), ConnectionType::Bluetooth)[k],
                ),
        decreases devices.len() - i,
    {
        proof {
            assert(dv.take(i + 1).drop_last() =~= dv.take(i as int));
            assert(dv.take(i + 1).last() == dv[i as int]);
        }
        let d = &devices[i];
        if d.usage_page == GAMEPAD_USAGE_PAGE && d.usage == GAMEPAD_USAGE {
            match crate::controller::identify(d.vendor_id, d.product_id) {
                Some(ct) => {
                    let conn = crate::controller::detect_connection(d.path.as_str());
                    let info = ControllerInfo {
                        controller_type: ct,
                        connection_type: conn,
                        path: clone_string(&d.path),
                    };
                    if conn == ConnectionType::Usb {
                        usb.push(info);
                    } else {
                        bt.push(info);
                    }
                },
                None => {
                    proof {
                        assert(!spec_supported(dv[i as int]));
                    }
                },
            }
        } else {
            proof {
                assert(!spec_supported(dv[i as int]));
            }
        }
        i += 1;
    }
    proof {
        assert(dv.take(devices@.len() as int) =~= dv);
    }
    let ghost usb_s = spec_classified(dv, ConnectionType::Usb);
    let ghost bt_s = spec_classified(dv, ConnectionType::Bluetooth);
    let mut out = usb;
    let ghost n_usb = out@.len();
    let mut j: usize = 0;
    while j < bt.len()
        invariant
            j <= bt.len(),
            out@.len() == n_usb + j,
            n_usb == usb_s.len(),
            bt@.len() == bt_s.len(),
            forall|k: int| 0 <= k < n_usb ==> spec_classifies(#[trigger] out@[k], usb_s[k]),
            forall|k: int| 0 <= k < bt@.len() ==> spec_classifies(#[trigger] bt@[k], bt_s[k]),
            forall|k: int|
                n_usb <= k < out@.len() ==> spec_classifies(#[trigger] out@[k], bt_s[k - n_usb]),
        decreases bt.len() - j,
    {
        let b = &bt[j];
        out.push(
            ControllerInfo {
                controller_type: b.controller_type,
                connection_type: b.connection_type,
                path: clone_string(&b.path),
            },
        );
        j += 1;
    }
    proof {
        lemma_classified_supported(dv, ConnectionType::Usb);
        lemma_classified_supported(dv, ConnectionType::Bluetooth);
        assert forall|i: int, j: int|
            0 <= i < j < out@.len() && #[trigger] out@[i].connection_type
                == ConnectionType::Bluetooth implies #[trigger] out@[j].connection_type
            == ConnectionType::Bluetooth by {
            assert(i >= n_usb);
        }
    }
    out
}

fn clone_string(s: &String) -> (r: String)
    ensures
        r@ == s@,
{
    s.as_str().to_owned()
}

/// Whether any enumerated device is a supported controller on USB.
pub fn has_usb_controller(devices: &Vec<DeviceDesc>) -> (r: bool)
    ensures
        r == exists|i: int|
            0 <= i < devices@.len() && spec_supported(#[trigger] devices@[i]) && spec_conn_of(
                devices@[i],
            ) == ConnectionType::Usb,
{
    let mut i: usize = 0;
    while i < devices.len()
        invariant
            i <= devices.len(),
            forall|k: int|
                0 <= k < i ==> !(spec_supported(#[trigger] devices@[k]) && spec_conn_of(
                    devices@[k],
                ) == ConnectionType::Usb),
        decreases devices.len() - i,
    {
        let d = &devices[i];
        if d.usage_page == GAMEPAD_USAGE_PAGE && d.usage == GAMEPAD_USAGE
            && crate::controller::identify(d.vendor_id, d.product_id).is_some()
            && crate::controller::detect_connection(d.path.as_str()) == ConnectionType::Usb {
            return true;
        }
        i += 1;
    }
    false
}

} // verus!
