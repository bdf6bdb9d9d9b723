//! Getting a record, or creating it when there is none.

use vstd::prelude::*;

verus! {

/// What to do after looking a record up.
#[derive(Clone, Debug, PartialEq)]
pub enum GetOrCreate<T> {
    /// The record exists: it is the result.
    Found(T),
    /// There is none: create it, and the creation's result is the result.
    Create,
}

/// A record that was found is kept; only when none was found is one created.
pub fn after_lookup<T>(found: Option<T>) -> (r: GetOrCreate<T>)
    ensures
        match found {
            Some(x) => r == GetOrCreate::Found(x),
            None => r == GetOrCreate::<T>::Create,
        },
{
    match found {
        Some(x) => GetOrCreate::Found(x),
        None => GetOrCreate::Create,
    }
}

} // verus!
