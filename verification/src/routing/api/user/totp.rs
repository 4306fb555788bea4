//! TOTP routes: the path of a recovery key.
use vstd::prelude::*;

verus! {

/// The recovery key named in a route's path.
pub struct RecoveryKeyPath {
    pub key_id: String,
}

} // verus!
