pub mod models;

use vstd::prelude::*;

use crate::record::RecordId;

verus! {

/// A chat record as this service reads it back: only its identifier.
#[derive(Clone, Debug, PartialEq)]
pub struct Chat {
    pub id: RecordId,
}

} // verus!
