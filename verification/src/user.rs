use vstd::prelude::*;

verus! {

/// Credentials presented on login.
#[derive(Clone, Debug)]
pub struct UserCredentials {
    pub email: String,
    pub password: String,
}

/// Fields supplied when registering a new user.
#[derive(Clone, Debug)]
pub struct UserCreate {
    pub username: String,
    pub email: String,
    pub password: String,
}

} // verus!
