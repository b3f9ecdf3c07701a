use vstd::prelude::*;

verus! {

/// The account that the session signs in with.
pub struct Credentials {
    pub username: String,
    pub password: String,
}

} // verus!
