pub mod models;

use vstd::prelude::*;

verus! {

/// The content a new user is created with.
#[derive(Clone, Debug, PartialEq)]
pub struct CreateUser {
    pub username: String,
}

} // verus!
