//! The client's data model: errors, settings and the messages exchanged with
//! the server.
pub mod error;
pub mod file;
pub mod login;
pub mod settings;
pub mod share;
pub mod storage;

use vstd::prelude::*;

verus! {

/// The sample reply text the decoding check reads: empty, which no reply
/// decodes from.
pub fn get_json() -> (r: &'static str)
    ensures
        r@ == ""@,
{
    proof {
        reveal_strlit("");
    }
    ""
}

} // verus!
