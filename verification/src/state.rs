//! The catalog as one shared value behind a lock.

use vstd::prelude::*;
use crate::catalog::MusicDatabase;

verus! {

/// `std::sync::Mutex`, carried as an opaque value: nothing is claimed of
/// what it holds or of its methods.
#[verifier::external_type_specification]
#[verifier::external_body]
#[verifier::reject_recursive_types(T)]
pub struct ExMutex<T: ?Sized>(std::sync::Mutex<T>);

/// The catalog of a running program: every operation takes the lock for
/// as long as it reads or changes the catalog.
pub struct MusicState(pub std::sync::Mutex<MusicDatabase>);

} // verus!
