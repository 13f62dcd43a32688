//! The storage APIs used by a service endpoint.
//!
//! A service answers queries against the application's stored state.  The
//! surrounding plumbing — reading the stored blob from the key-value store,
//! decoding it into the application's own state type, decoding the query
//! argument and encoding the response — runs through engine- and
//! application-specific serialization and is supplied by the storage backend
//! implementing [`ServiceStateStorage`].  The one decision every backend
//! shares is verified here: which state an invocation starts from when the
//! store may not hold a blob yet.

use crate::runtime::QueryContext;
use vstd::prelude::*;

verus! {

/// The storage API a service queries the application state through.  A
/// backend loads the application state and runs the given query against it,
/// returning the encoded response, or the failure rendered to text.
pub trait ServiceStateStorage {
    /// Load the application state and run `argument` against it under
    /// `context`.
    fn handle_query(context: QueryContext, argument: Vec<u8>) -> Result<Vec<u8>, String>;
}

/// The state an invocation starts from: the blob the store holds when there
/// is one, and the application's default state otherwise — a store that has
/// never been written to must behave exactly like one holding the default.
pub fn state_bytes_or_default(stored: Option<Vec<u8>>, default_state: Vec<u8>) -> (state: Vec<u8>)
    ensures
        (match stored {
            Some(bytes) => state == bytes,
            None => state == default_state,
        }),
{
    match stored {
        Some(bytes) => bytes,
        None => default_state,
    }
}

} // verus!
