use vstd::prelude::*;

use crate::ble::utils::ble_id::BleId;

verus! {

/// The advertisement types of a BLE advertisement.
#[derive(Debug, PartialEq, Eq, Structural, Clone, Copy)]
pub enum AdvType {
    /// undirected, connectable advertising
    Ind,
    /// directed, connectable advertising
    DirectInd,
    /// undirected, scannable advertising
    ScanInd,
    /// undirected, non-connectable advertising
    NonconnInd,
}

/// Whether a device advertising this way accepts connections.
pub fn adv_type_is_connectable(adv_type: &AdvType) -> (res: bool)
    ensures
        res == (*adv_type == AdvType::Ind || *adv_type == AdvType::DirectInd),
{
    match adv_type {
        AdvType::Ind => true,
        AdvType::DirectInd => true,
        AdvType::ScanInd => false,
        AdvType::NonconnInd => false,
    }
}

/// Whether one of the ids equals `id` (as 128-bit UUIDs).
pub fn contains_id(ids: &Vec<BleId>, id: &BleId) -> (res: bool)
    ensures
        res == exists|i: int| 0 <= i < ids@.len() && ids@[i].uuid128() == id.uuid128(),
{
    let mut i: usize = 0;
    while i < ids.len()
        invariant
            i <= ids@.len(),
            forall|j: int| 0 <= j < i ==> ids@[j].uuid128() != id.uuid128(),
        decreases ids@.len() - i,
    {
        if ids[i] == *id {
            return true;
        }
        i = i + 1;
    }
    false
}

/// The position of the first entry whose id equals `id`, if any.
pub fn find_service_data<T>(list: &Vec<(BleId, T)>, id: &BleId) -> (res: Option<usize>)
    ensures
        match res {
            Some(k) => k < list@.len() && list@[k as int].0.uuid128() == id.uuid128() && forall|
                j: int,
            | 0 <= j < k ==> list@[j].0.uuid128() != id.uuid128(),
            None => forall|j: int| 0 <= j < list@.len() ==> list@[j].0.uuid128() != id.uuid128(),
        },
{
    let mut i: usize = 0;
    while i < list.len()
        invariant
            i <= list@.len(),
            forall|j: int| 0 <= j < i ==> list@[j].0.uuid128() != id.uuid128(),
        decreases list@.len() - i,
    {
        if list[i].0 == *id {
            return Some(i);
        }
        i = i + 1;
    }
    None
}

} // verus!
