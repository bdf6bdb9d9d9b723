//! User values as clients send and receive them.

use vstd::prelude::*;
use vstd::std_specs::convert::FromSpecImpl;

use crate::record::RecordId;

use super::db::{DBUser, DBUserChanged};

verus! {

#[derive(Clone, Debug, PartialEq)]
pub struct User {
    pub id: RecordId,
    pub username: String,
}

impl From<DBUser> for User {
    fn from(db: DBUser) -> (r: Self)
        ensures
            r.id == db.id,
            r.username == db.username,
    {
        Self { id: db.id, username: db.username }
    }
}

impl FromSpecImpl<DBUser> for User {
    open spec fn obeys_from_spec() -> bool {
        true
    }

    open spec fn from_spec(db: DBUser) -> User {
        User { id: db.id, username: db.username }
    }
}

/// The content a new user is created with.
#[derive(Clone, Debug, PartialEq)]
pub struct CreateUser {
    pub username: String,
}

#[derive(Clone, Debug, PartialEq)]
pub struct UserChanged {
    pub user: RecordId,
    pub data: User,
}

impl From<DBUserChanged> for UserChanged {
    fn from(db: DBUserChanged) -> (r: Self)
        ensures
            r.user == db.user,
            r.data.id == db.data.id,
            r.data.username == db.data.username,
    {
        Self { user: db.user, data: db.data.into() }
    }
}

impl FromSpecImpl<DBUserChanged> for UserChanged {
    open spec fn obeys_from_spec() -> bool {
        true
    }

    open spec fn from_spec(db: DBUserChanged) -> UserChanged {
        UserChanged { user: db.user, data: User { id: db.data.id, username: db.data.username } }
    }
}

} // verus!
