//! Picking the controller's private vendor interface out of the HID interfaces
//! that the system lists.

use vstd::prelude::*;

verus! {

/// USB vendor ID of GameSir.
pub const VENDOR_ID: u16 = 0x3537;

/// Usage page of the controller's private vendor interface.
///
/// The product ID changes depending on whether the receiver is idle or paired to
/// a controller (0575 <-> 10c6), so it cannot be matched on: only this
/// usage page / usage combination stays stable across both states.
pub const USAGE_PAGE: u16 = 0xfff0;

/// Usage of the controller's private vendor interface.
pub const USAGE: u16 = 0x0040;

/// What the selection reads of one listed HID interface.
#[derive(Debug, Clone, Copy, PartialEq, Eq, Structural)]
pub struct InterfaceInfo {
    pub vendor_id: u16,
    pub product_id: u16,
    pub usage_page: u16,
    pub usage: u16,
}

/// Whether an interface is the private vendor interface of a device of
/// `vendor_id`.
pub open spec fn is_vendor_interface(info: InterfaceInfo, vendor_id: u16) -> bool {
    info.vendor_id == vendor_id && info.usage_page == USAGE_PAGE && info.usage == USAGE
}

/// `found` is the position of the first private vendor interface of the GameSir
/// vendor in `devices`, or `None` when there is none.
pub open spec fn is_first_g7pro(devices: Seq<InterfaceInfo>, found: Option<usize>) -> bool {
    match found {
        Some(i) => i < devices.len() && is_vendor_interface(devices[i as int], VENDOR_ID)
            && forall|j: int| 0 <= j < i ==> !is_vendor_interface(#[trigger] devices[j], VENDOR_ID),
        None => forall|j: int|
            0 <= j < devices.len() ==> !is_vendor_interface(#[trigger] devices[j], VENDOR_ID),
    }
}

/// The positions in `devices` of the private vendor interfaces of `vendor_id`,
/// in list order.
pub fn get_devices_by_vendor(devices: &[InterfaceInfo], vendor_id: u16) -> (found: Vec<usize>)
    ensures
        forall|k: int|
            0 <= k < found@.len() ==> #[trigger] found@[k] < devices@.len()
                && is_vendor_interface(devices@[found@[k] as int], vendor_id),
        forall|k1: int, k2: int| 0 <= k1 < k2 < found@.len() ==> found@[k1] < found@[k2],
        forall|j: int|
            0 <= j < devices@.len() && is_vendor_interface(#[trigger] devices@[j], vendor_id)
                ==> exists|k: int| 0 <= k < found@.len() && found@[k] == j,
{
    let mut found: Vec<usize> = Vec::new();
    let mut i: usize = 0;
    while i < devices.len()
        invariant
            i <= devices@.len(),
            forall|k: int|
                0 <= k < found@.len() ==> #[trigger] found@[k] < i && is_vendor_interface(
                    devices@[found@[k] as int],
                    vendor_id,
                ),
            forall|k1: int, k2: int| 0 <= k1 < k2 < found@.len() ==> found@[k1] < found@[k2],
            forall|j: int|
                0 <= j < i && is_vendor_interface(#[trigger] devices@[j], vendor_id) ==> exists|
                    k: int,
                | 0 <= k < found@.len() && found@[k] == j,
        decreases devices@.len() - i,
    {
        let device = devices[i];
        let ghost before = found@;
        if device.vendor_id == vendor_id && device.usage_page == USAGE_PAGE && device.usage
            == USAGE {
            found.push(i);
            assert(found@[found@.len() - 1] == i);
        }
        assert forall|j: int|
            0 <= j < i + 1 && is_vendor_interface(#[trigger] devices@[j], vendor_id) implies exists|
            k: int,
        | 0 <= k < found@.len() && found@[k] == j by {
            if j < i {
                let k = choose|k: int| 0 <= k < before.len() && before[k] == j;
                assert(found@[k] == j);
            } else {
                assert(found@[found@.len() - 1] == j);
            }
        }
        i = i + 1;
    }
    found
}

/// The position of the first private vendor interface of the GameSir vendor, or
/// `None` when the list has none.
pub fn find_g7pro(devices: &[InterfaceInfo]) -> (found: Option<usize>)
    ensures
        is_first_g7pro(devices@, found),
{
    let all = get_devices_by_vendor(devices, VENDOR_ID);
    if all.len() == 0 {
        None
    } else {
        let first = all[0];
        assert forall|j: int| 0 <= j < first implies !is_vendor_interface(
            #[trigger] devices@[j],
            VENDOR_ID,
        ) by {
            if is_vendor_interface(devices@[j], VENDOR_ID) {
                let k = choose|k: int| 0 <= k < all@.len() && all@[k] == j;
                if k > 0 {
                    assert(all@[0] < all@[k]);
                }
            }
        }
        Some(first)
    }
}

/// The interface chosen does not depend on product IDs: two lists that differ
/// only there lead to the same choice.
pub proof fn lemma_choice_ignores_product_id(
    a: Seq<InterfaceInfo>,
    b: Seq<InterfaceInfo>,
    found_a: Option<usize>,
    found_b: Option<usize>,
)
    requires
        a.len() == b.len(),
        forall|j: int|
            0 <= j < a.len() ==> #[trigger] a[j].vendor_id == b[j].vendor_id && a[j].usage_page
                == b[j].usage_page && a[j].usage == b[j].usage,
        is_first_g7pro(a, found_a),
        is_first_g7pro(b, found_b),
    ensures
        found_a == found_b,
{
    assert(forall|j: int|
        0 <= j < a.len() ==> (is_vendor_interface(#[trigger] a[j], VENDOR_ID)
            <==> is_vendor_interface(b[j], VENDOR_ID)));
    match (found_a, found_b) {
        (Some(i), Some(k)) => {
            if i < k {
                assert(is_vendor_interface(b[i as int], VENDOR_ID));
            } else if k < i {
                assert(is_vendor_interface(a[k as int], VENDOR_ID));
            }
        },
        (Some(i), None) => {
            assert(is_vendor_interface(b[i as int], VENDOR_ID));
        },
        (None, Some(k)) => {
            assert(is_vendor_interface(a[k as int], VENDOR_ID));
        },
        (None, None) => {},
    }
}

/// The interface sought is GameSir's (vendor 0x3537) with usage page 0xfff0 and
/// usage 0x0040, whatever its product ID.
pub proof fn lemma_vendor_interface_fields(info: InterfaceInfo)
    ensures
        VENDOR_ID == 0x3537,
        is_vendor_interface(info, VENDOR_ID) <==> (info.vendor_id == 0x3537 && info.usage_page
            == 0xfff0 && info.usage == 0x0040),
{
}

} // verus!
