//! The shape of a handler response.
//!
//! A handler answers with a human-readable string on success and a
//! descriptive message on rejection; the contracts speak of both as
//! character sequences.

use vstd::prelude::*;

verus! {

/// A handler's result, with both strings read as character sequences.
pub open spec fn resp_view(r: Result<String, String>) -> Result<Seq<char>, Seq<char>> {
    match r {
        Ok(s) => Ok(s@),
        Err(e) => Err(e@),
    }
}

} // verus!
