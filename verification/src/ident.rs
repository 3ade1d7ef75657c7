//! The stable 64-bit adapter identifier and its bit-packed layout.

use vstd::prelude::*;

verus! {

/// The packed 64-bit value: reserved bits 0..=23, the index value in
/// bits 24..=47, the interface-type tag in bits 48..=63. Inputs wider than
/// their field are truncated to the field width.
pub open spec fn pack_identifier(if_type: u64, index: u64) -> u64 {
    ((if_type & 0xFFFF) << 48) | ((index & 0xFFFFFF) << 24)
}

/// The interface-type tag: bits 48..=63 of the packed value.
pub open spec fn identifier_if_type(value: u64) -> u64 {
    (value >> 48) & 0xFFFF
}

/// The index value: bits 24..=47 of the packed value.
pub open spec fn identifier_index(value: u64) -> u64 {
    (value >> 24) & 0xFFFFFF
}

/// The reserved sub-field: bits 0..=23 of the packed value.
pub open spec fn identifier_reserved(value: u64) -> u64 {
    value & 0xFFFFFF
}

/// A stable 64-bit value naming one network adapter instance. Equality of the
/// full 64-bit value is the identity test for "is this the same adapter".
#[derive(Clone, Copy, Debug, PartialEq, Eq, Structural)]
pub struct AdapterIdentifier {
    pub value: u64,
}

impl AdapterIdentifier {
    /// Combines the two integers read from the device's registry state into
    /// the packed identifier, truncating each to its field width.
    pub fn combine(if_type: u32, index: u32) -> (r: Self)
        ensures
            r.value == pack_identifier(if_type as u64, index as u64),
    {
        AdapterIdentifier {
            value: (((if_type as u64) & 0xFFFF) << 48) | (((index as u64) & 0xFFFFFF) << 24),
        }
    }

    /// Builds an identifier from an already-packed 64-bit value, as handed
    /// back by the OS alias translation.
    pub fn from_value(value: u64) -> (r: Self)
        ensures
            r.value == value,
    {
        AdapterIdentifier { value }
    }

    /// The interface-type tag stored in bits 48..=63.
    pub fn if_type(&self) -> (r: u64)
        ensures
            r == identifier_if_type(self.value),
    {
        (self.value >> 48) & 0xFFFF
    }

    /// The index value stored in bits 24..=47.
    pub fn net_luid_index(&self) -> (r: u64)
        ensures
            r == identifier_index(self.value),
    {
        (self.value >> 24) & 0xFFFFFF
    }

    /// The reserved sub-field, bits 0..=23.
    pub fn reserved(&self) -> (r: u64)
        ensures
            r == identifier_reserved(self.value),
    {
        self.value & 0xFFFFFF
    }

    /// Whether two identifiers name the same adapter: full 64-bit equality.
    pub fn same_adapter(&self, other: &Self) -> (r: bool)
        ensures
            r == (self.value == other.value),
    {
        self.value == other.value
    }
}

/// Packing two field-width values and extracting the sub-fields yields the
/// original pair exactly, and leaves the reserved bits zero.
pub proof fn lemma_identifier_round_trip(if_type: u64, index: u64)
    requires
        if_type < 0x10000,
        index < 0x1000000,
    ensures
        identifier_if_type(pack_identifier(if_type, index)) == if_type,
        identifier_index(pack_identifier(if_type, index)) == index,
        identifier_reserved(pack_identifier(if_type, index)) == 0,
{
    assert((((if_type & 0xFFFF) << 48) | ((index & 0xFFFFFF) << 24)) >> 48 & 0xFFFF == if_type
        && (((if_type & 0xFFFF) << 48) | ((index & 0xFFFFFF) << 24)) >> 24 & 0xFFFFFF == index
        && (((if_type & 0xFFFF) << 48) | ((index & 0xFFFFFF) << 24)) & 0xFFFFFF == 0) by (bit_vector)
        requires
            if_type < 0x10000,
            index < 0x1000000,
    ;
}

} // verus!
