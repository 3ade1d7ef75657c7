//! Scanning the present devices of the adapter class for the one that
//! matches a component identifier and an adapter identifier. This is the
//! verification step behind opening, existence checks and deletion.

use vstd::prelude::*;
use crate::error::TapError;
use crate::ident::{AdapterIdentifier, pack_identifier};
use crate::strcase::{eq_ignore_case, eq_ignore_ascii_case};

verus! {

/// What one enumerated present device reports. Each field is `None` when
/// the corresponding read failed or the value is not (yet) populated; such
/// a device is skipped, never an error.
#[derive(Clone, Debug, PartialEq, Eq)]
pub struct DeviceRecord {
    /// The device's hardware-identifier registry property.
    pub hardware_id: Option<String>,
    /// The interface-type value under the device's driver registry key.
    pub if_type: Option<u32>,
    /// The index value under the device's driver registry key.
    pub net_luid_index: Option<u32>,
}

/// Whether a present device matches: its hardware identifier equals the
/// component identifier up to ASCII case, both registry values are present,
/// and they pack into exactly the adapter identifier sought.
pub open spec fn record_matches(
    r: DeviceRecord,
    component_id: Seq<char>,
    ident: AdapterIdentifier,
) -> bool {
    &&& match r.hardware_id {
        Some(h) => eq_ignore_case(h@, component_id),
        None => false,
    }
    &&& match (r.if_type, r.net_luid_index) {
        (Some(t), Some(x)) => pack_identifier(t as u64, x as u64) == ident.value,
        _ => false,
    }
}

/// Whether any enumerated device matches.
pub open spec fn some_record_matches(
    records: Seq<DeviceRecord>,
    component_id: Seq<char>,
    ident: AdapterIdentifier,
) -> bool {
    exists|i: int| 0 <= i < records.len() && record_matches(records[i], component_id, ident)
}

/// Finds the first present device matching the component identifier and the
/// adapter identifier. Reports `NotFound`, and only then, when no device
/// matches.
pub fn find_interface(
    records: &Vec<DeviceRecord>,
    component_id: &str,
    ident: &AdapterIdentifier,
) -> (r: Result<usize, TapError>)
    ensures
        match r {
            Ok(i) => {
                &&& i < records@.len()
                &&& record_matches(records@[i as int], component_id@, *ident)
                &&& forall|j: int|
                    0 <= j < i ==> !record_matches(records@[j], component_id@, *ident)
            },
            Err(e) => e == TapError::NotFound,
        },
        r is Err <==> !some_record_matches(records@, component_id@, *ident),
{
    let n = records.len();
    let mut i: usize = 0;
    while i < n
        invariant
            i <= n,
            n == records@.len(),
            forall|j: int| 0 <= j < i ==> !record_matches(records@[j], component_id@, *ident),
        decreases n - i,
    {
        let rec = &records[i];
        let id_matches = match &rec.hardware_id {
            Some(h) => eq_ignore_ascii_case(h.as_str(), component_id),
            None => false,
        };
        if id_matches {
            match (&rec.if_type, &rec.net_luid_index) {
                (Some(t), Some(x)) => {
                    let packed = AdapterIdentifier::combine(*t, *x);
                    if packed.value == ident.value {
                        return Ok(i);
                    }
                },
                _ => {},
            }
        }
        i = i + 1;
    }
    Err(TapError::NotFound)
}

/// Checks that the given adapter identifier names an existing, present
/// device of the given component: `Ok` exactly when some enumerated device
/// matches, `NotFound` otherwise.
pub fn check_interface(
    records: &Vec<DeviceRecord>,
    component_id: &str,
    ident: &AdapterIdentifier,
) -> (r: Result<(), TapError>)
    ensures
        r is Ok <==> some_record_matches(records@, component_id@, *ident),
        r is Err ==> r == Result::<(), TapError>::Err(TapError::NotFound),
{
    match find_interface(records, component_id, ident) {
        Ok(_) => Ok(()),
        Err(e) => Err(e),
    }
}

/// Whether the given adapter identifier names a present device of the given
/// component.
pub fn interface_exists(
    records: &Vec<DeviceRecord>,
    component_id: &str,
    ident: &AdapterIdentifier,
) -> (r: bool)
    ensures
        r == some_record_matches(records@, component_id@, *ident),
{
    match find_interface(records, component_id, ident) {
        Ok(_) => true,
        Err(_) => false,
    }
}

/// Decides which enumerated device the removal step must be invoked on: the
/// first matching device. Reports `NotFound`, and only then, when no device
/// matches; no removal is performed in that case.
pub fn delete_interface(
    records: &Vec<DeviceRecord>,
    component_id: &str,
    ident: &AdapterIdentifier,
) -> (r: Result<usize, TapError>)
    ensures
        match r {
            Ok(i) => {
                &&& i < records@.len()
                &&& record_matches(records@[i as int], component_id@, *ident)
                &&& forall|j: int|
                    0 <= j < i ==> !record_matches(records@[j], component_id@, *ident)
            },
            Err(e) => e == TapError::NotFound,
        },
        r is Err <==> !some_record_matches(records@, component_id@, *ident),
{
    find_interface(records, component_id, ident)
}

/// Deletion followed by an existence check reports absent: once the one
/// matching device is removed from the enumeration, no device matches the
/// identifier any more. The adapter identifier is the sole key of a device,
/// so at most one enumerated device matches it.
pub proof fn lemma_delete_then_absent(
    records: Seq<DeviceRecord>,
    component_id: Seq<char>,
    ident: AdapterIdentifier,
    i: int,
)
    requires
        0 <= i < records.len(),
        record_matches(records[i], component_id, ident),
        forall|j: int|
            0 <= j < records.len() && j != i ==> !record_matches(records[j], component_id, ident),
    ensures
        !some_record_matches(records.remove(i), component_id, ident),
{
    records.remove_ensures(i);
    assert forall|k: int| 0 <= k < records.remove(i).len() implies !record_matches(
        records.remove(i)[k],
        component_id,
        ident,
    ) by {
        if k < i {
            assert(records.remove(i)[k] == records[k]);
        } else {
            assert(records.remove(i)[k] == records[k + 1]);
        }
    }
}

} // verus!
