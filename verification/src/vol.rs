//! Volatile register cells.
//!
//! Every hardware register in this crate is held as a `volatile::Volatile`
//! cell, so that each read and write of a register goes through a volatile
//! access that the compiler may not cache, reorder or elide. The word a cell
//! holds is named by the spec function `vol_u32`, and the three wrappers
//! below are the only ways the crate touches a cell.

use vstd::prelude::*;

verus! {

#[verifier::external_type_specification]
#[verifier::external_body]
#[verifier::reject_recursive_types(T)]
pub struct ExVolatile<T: Copy>(volatile::Volatile<T>);

/// The word currently held by a volatile register cell.
pub uninterp spec fn vol_u32(v: volatile::Volatile<u32>) -> u32;

/// Relies on volatile::Volatile::new: the cell starts out holding `x`.
#[verifier::external_body]
pub(crate) fn vol_new_u32(x: u32) -> (r: volatile::Volatile<u32>)
    ensures
        vol_u32(r) == x,
{
    volatile::Volatile::new(x)
}

/// Relies on volatile::Volatile::read: a volatile read returns the held word.
#[verifier::external_body]
pub(crate) fn vol_read_u32(v: &volatile::Volatile<u32>) -> (r: u32)
    ensures
        r == vol_u32(*v),
{
    v.read()
}

/// Relies on volatile::Volatile::write: a volatile write replaces the held word.
#[verifier::external_body]
pub(crate) fn vol_write_u32(v: &mut volatile::Volatile<u32>, x: u32)
    ensures
        vol_u32(*final(v)) == x,
{
    v.write(x)
}

} // verus!
