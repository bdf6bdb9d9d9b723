//! User records as they are stored in the database.

use vstd::prelude::*;

use crate::record::RecordId;

verus! {

#[derive(Clone, Debug, PartialEq)]
pub struct DBUser {
    pub id: RecordId,
    pub username: String,
}

/// The event of a user's data changing.
#[derive(Clone, Debug, PartialEq)]
pub struct DBUserChanged {
    pub user: RecordId,
    pub data: DBUser,
}

} // verus!
