//! Volatile register cells.
//!
//! Every hardware register of the MMIO block is held in one of the `volatile`
//! crate's wrapper types, so that an access is a volatile load or store that
//! the compiler can neither elide nor reorder.  The wrappers below are the
//! only places where those cells are touched; each states what the access
//! returns or stores in terms of the cell's content.

use vstd::prelude::*;

verus! {

#[verifier::external_type_specification]
#[verifier::external_body]
#[verifier::reject_recursive_types(T)]
pub struct ExVolatile<T: Copy>(volatile::Volatile<T>);

#[verifier::external_type_specification]
#[verifier::external_body]
#[verifier::reject_recursive_types(T)]
pub struct ExReadOnly<T: Copy>(volatile::ReadOnly<T>);

#[verifier::external_type_specification]
#[verifier::external_body]
#[verifier::reject_recursive_types(T)]
pub struct ExWriteOnly<T: Copy>(volatile::WriteOnly<T>);

/// The word held by a read-only register cell.
pub uninterp spec fn ro_value(cell: volatile::ReadOnly<u32>) -> u32;

/// The word held by a write-only register cell.
pub uninterp spec fn wo_value(cell: volatile::WriteOnly<u32>) -> u32;

/// The word held by a read/write register cell.
pub uninterp spec fn rw_value(cell: volatile::Volatile<u32>) -> u32;

/// Relies on volatile::ReadOnly::new: wraps the given value; never panics.
#[verifier::external_body]
pub(crate) fn ro_new(value: u32) -> (cell: volatile::ReadOnly<u32>)
    ensures
        ro_value(cell) == value,
{
    volatile::ReadOnly::new(value)
}

/// Relies on volatile::ReadOnly::read: a volatile load of the wrapped value;
/// never panics.
#[verifier::external_body]
pub(crate) fn ro_read(cell: &volatile::ReadOnly<u32>) -> (value: u32)
    ensures
        value == ro_value(*cell),
{
    cell.read()
}

/// Relies on volatile::WriteOnly::new: wraps the given value; never panics.
#[verifier::external_body]
pub(crate) fn wo_new(value: u32) -> (cell: volatile::WriteOnly<u32>)
    ensures
        wo_value(cell) == value,
{
    volatile::WriteOnly::new(value)
}

/// Relies on volatile::WriteOnly::write: a volatile store of the given value;
/// never panics.
#[verifier::external_body]
pub(crate) fn wo_write(cell: &mut volatile::WriteOnly<u32>, value: u32)
    ensures
        wo_value(*final(cell)) == value,
{
    cell.write(value)
}

/// Relies on volatile::Volatile::new: wraps the given value; never panics.
#[verifier::external_body]
pub(crate) fn rw_new(value: u32) -> (cell: volatile::Volatile<u32>)
    ensures
        rw_value(cell) == value,
{
    volatile::Volatile::new(value)
}

/// Relies on volatile::Volatile::read: a volatile load of the wrapped value;
/// never panics.
#[verifier::external_body]
pub(crate) fn rw_read(cell: &volatile::Volatile<u32>) -> (value: u32)
    ensures
        value == rw_value(*cell),
{
    cell.read()
}

/// Relies on volatile::Volatile::write: a volatile store of the given value;
/// never panics.
#[verifier::external_body]
pub(crate) fn rw_write(cell: &mut volatile::Volatile<u32>, value: u32)
    ensures
        rw_value(*final(cell)) == value,
{
    cell.write(value)
}

} // verus!
