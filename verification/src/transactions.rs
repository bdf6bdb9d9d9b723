//! Transactions: the events a user has gathered, and whether they are done.

use vstd::prelude::*;

use crate::events::Event;
use crate::record::RecordId;
use crate::users::messages::User;

verus! {

#[derive(Clone, Debug, PartialEq)]
pub struct Transaction {
    pub id: RecordId,
    pub user: RecordId,
    pub events: Vec<Event>,
    pub finished: bool,
}

/// The content a new transaction is created with.
#[derive(Clone, Debug, PartialEq)]
pub struct TransactionInput {
    pub user: RecordId,
    pub events: Vec<Event>,
    pub finished: bool,
}

impl TransactionInput {
    /// A user's new transaction: it belongs to the user, holds no events
    /// yet and is not finished.
    pub fn for_user(user: &User) -> (t: TransactionInput)
        ensures
            t.user == user.id,
            t.events@.len() == 0,
            !t.finished,
    {
        TransactionInput { user: user.id.clone(), events: Vec::new(), finished: false }
    }
}

impl Transaction {
    /// Adds an event at the end of the transaction; nothing else changes.
    pub fn append_event(&mut self, event: Event)
        ensures
            final(self).events@ == old(self).events@.push(event),
            final(self).id == old(self).id,
            final(self).user == old(self).user,
            final(self).finished == old(self).finished,
    {
        self.events.push(event);
    }
}

/// What an update writes back: the transaction that was found, with the
/// event added at its end; nothing when no transaction was found.
pub fn with_event(found: Option<Transaction>, event: Event) -> (r: Option<Transaction>)
    ensures
        match found {
            None => r is None,
            Some(t) => r matches Some(u) && u.events@ == t.events@.push(event) && u.id == t.id
                && u.user == t.user && u.finished == t.finished,
        },
{
    match found {
        None => None,
        Some(t) => {
            let mut t = t;
            t.append_event(event);
            Some(t)
        },
    }
}

} // verus!
