//! Declarations of the `lock_api` types that the `parking_lot` binding
//! holds; they stay opaque.
use vstd::prelude::*;

verus! {

/// `parking_lot::RawRwLock`, the raw lock under `parking_lot::RwLock`; opaque.
#[verifier::external_type_specification]
#[verifier::external_body]
pub struct ExRawRwLock(::parking_lot::RawRwLock);

/// `lock_api::RwLock`, of which `parking_lot::RwLock` is an instance; opaque.
#[verifier::external_type_specification]
#[verifier::external_body]
#[verifier::reject_recursive_types(R)]
#[verifier::reject_recursive_types(T)]
pub struct ExLockApiRwLock<R, T: ?Sized>(::lock_api::RwLock<R, T>);

} // verus!
