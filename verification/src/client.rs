//! What the database hands back when records are created or selected.

use vstd::prelude::*;

use crate::record::RecordId;

verus! {

/// A created record, as far as this service reads it: its identifier.
#[derive(Clone, Debug, PartialEq)]
pub struct Record {
    pub id: RecordId,
}

/// The first of the records that a create or select statement returned, if
/// it returned any.
pub fn first_record<T>(records: Vec<T>) -> (r: Option<T>)
    ensures
        records@.len() == 0 ==> r is None,
        records@.len() > 0 ==> r == Some(records@[0]),
{
    let mut records = records;
    if records.len() == 0 {
        None
    } else {
        Some(records.remove(0))
    }
}

} // verus!
