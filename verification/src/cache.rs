//! The atom-count cache: a lazily computed, memoized outcome per trajectory
//! handle.
//!
//! The first resolution stores either the count or the status code of the
//! failed lookup; every later query returns the stored outcome unchanged, so
//! the expensive scan of the underlying resource runs at most once per
//! handle, even when it fails.  The cell itself is `lazy_init::Lazy`, the
//! same once-cell the file-backed trajectories use.

use crate::ErrorCode;
use vstd::prelude::*;

verus! {

#[verifier::external_type_specification]
#[verifier::external_body]
#[verifier::reject_recursive_types(T)]
pub struct ExLazy<T>(lazy_init::Lazy<T>);

/// What a cell holds: `None` until a first value is stored, then forever
/// `Some` of that value.
pub uninterp spec fn lazy_contents(cell: lazy_init::Lazy<Result<u32, ErrorCode>>) -> Option<
    Result<u32, ErrorCode>,
>;

/// Relies on `lazy_init::Lazy::new`: a fresh cell is uninitialized.
#[verifier::external_body]
fn lazy_count_new() -> (r: lazy_init::Lazy<Result<u32, ErrorCode>>)
    ensures
        lazy_contents(r) is None,
{
    lazy_init::Lazy::new()
}

/// Relies on `lazy_init::Lazy::get`: returns `Some` of the stored value
/// exactly when the cell has been initialized.
#[verifier::external_body]
fn lazy_count_get(cell: &lazy_init::Lazy<Result<u32, ErrorCode>>) -> (r: Option<
    Result<u32, ErrorCode>,
>)
    ensures
        r == lazy_contents(*cell),
{
    cell.get().copied()
}

/// Relies on `lazy_init::Lazy::get_or_create`: stores the closure's value if
/// the cell is uninitialized, and returns a reference to the stored value
/// either way; the stored value never changes afterwards.
#[verifier::external_body]
fn lazy_count_put(
    cell: &mut lazy_init::Lazy<Result<u32, ErrorCode>>,
    value: Result<u32, ErrorCode>,
) -> (r: Result<u32, ErrorCode>)
    ensures
        lazy_contents(*old(cell)) is None ==> lazy_contents(*final(cell)) == Some(value) && r
            == value,
        lazy_contents(*old(cell)) matches Some(w) ==> lazy_contents(*final(cell)) == Some(w) && r
            == w,
{
    *cell.get_or_create(|| value)
}

/// A memoized atom-count outcome: either the count or the status code of the
/// failed lookup, computed at most once per handle.
pub struct AtomCountCache {
    cell: lazy_init::Lazy<Result<u32, ErrorCode>>,
}

impl AtomCountCache {
    /// The outcome stored so far, if any.
    pub closed spec fn stored(self) -> Option<Result<u32, ErrorCode>> {
        lazy_contents(self.cell)
    }

    /// A fresh cache with nothing stored.
    pub fn new() -> (r: AtomCountCache)
        ensures
            r.stored() is None,
    {
        AtomCountCache { cell: lazy_count_new() }
    }

    /// The outcome stored so far, without resolving anything.
    pub fn get(&self) -> (r: Option<Result<u32, ErrorCode>>)
        ensures
            r == self.stored(),
    {
        lazy_count_get(&self.cell)
    }

    /// Store `value` if nothing is stored yet; return the stored outcome.
    ///
    /// Once an outcome has been stored — a count or an error alike — every
    /// later call returns it unchanged, whatever `value` is offered.
    pub fn get_or_store(&mut self, value: Result<u32, ErrorCode>) -> (r: Result<u32, ErrorCode>)
        ensures
            old(self).stored() is None ==> final(self).stored() == Some(value) && r == value,
            old(self).stored() matches Some(w) ==> final(self).stored() == Some(w) && r == w,
            final(self).stored() == Some(r),
    {
        lazy_count_put(&mut self.cell, value)
    }
}

} // verus!
