use vstd::prelude::*;

verus! {

/// The identity descriptor that a credential is issued for.
pub struct User {
    pub id: String,
}

} // verus!
