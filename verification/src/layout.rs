//! The layout of an interface's table.
//!
//! Every interface begins with the three entries for identity and
//! reference counting. After them come the properties in the order in
//! which the interface declares them, each with two entries: its getter
//! and then its setter.
use vstd::prelude::*;

verus! {

/// The number of entries that every table begins with.
pub const RESERVED_ENTRIES: u32 = 3;

/// The largest place whose entries still have 32-bit numbers.
pub const LAST_PLACE: u32 = 0x7FFF_FFFD;

/// The entry of the getter of the property at `place` in declared order.
pub open spec fn getter_slot(place: u32) -> int {
    RESERVED_ENTRIES + 2 * place
}

/// The entry of the setter of the property at `place` in declared order.
pub open spec fn setter_slot(place: u32) -> int {
    RESERVED_ENTRIES + 2 * place + 1
}

/// The entry of the getter of the property at `place`.
pub fn getter(place: u32) -> (slot: u32)
    requires
        place <= LAST_PLACE,
    ensures
        slot == getter_slot(place),
{
    RESERVED_ENTRIES + 2 * place
}

/// The entry of the setter of the property at `place`.
pub fn setter(place: u32) -> (slot: u32)
    requires
        place <= LAST_PLACE,
    ensures
        slot == setter_slot(place),
{
    RESERVED_ENTRIES + 2 * place + 1
}

/// No two entries coincide, and none is a reserved one: a getter is never
/// a setter, and two properties share neither.
pub proof fn law_entries_apart(p: u32, q: u32)
    ensures
        getter_slot(p) != setter_slot(q),
        p != q ==> getter_slot(p) != getter_slot(q) && setter_slot(p) != setter_slot(q),
        getter_slot(p) >= RESERVED_ENTRIES && setter_slot(p) >= RESERVED_ENTRIES,
{
}

} // verus!
