//! Messages about file locks exchanged with the server.
use vstd::prelude::*;

verus! {

/// What kind of application holds a lock.
#[derive(Debug)]
pub struct ApplicationOwner {
    pub owner_type: String,
}

/// The lock that kept a file from being deleted.
#[derive(Debug)]
pub struct DeleteFileAck {
    pub owner: ApplicationOwner,
    pub path: String,
    pub token: String,
    pub file_type: String,
}

/// Locks to release.
#[derive(Debug)]
pub struct DeleteTokenReq {
    pub tokens: Vec<String>,
}

} // verus!
