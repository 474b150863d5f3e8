//! Messages about shares exchanged with the server.
use vstd::prelude::*;

use crate::proto::storage::Pagination;

verus! {

/// A share link the user made.
#[derive(Debug)]
pub struct Share {
    pub id: String,
    pub name: String,
    pub expired: bool,
    pub source_type: u8,
    pub unlocked: bool,
    pub url: String,
    pub visited: u64,
    pub created_at: String,
    pub owner: UserOwner,
}

/// The owner of a share.
#[derive(Debug)]
pub struct UserOwner {
    pub id: String,
    pub nickname: String,
    pub email: String,
    pub created_at: String,
}

/// A page of the user's shares.
#[derive(Debug)]
pub struct GetSharesAck {
    pub shares: Vec<Share>,
    pub pagination: Pagination,
}

/// A request for the user's shares.
#[derive(Debug)]
pub struct GetSharesReq {
    pub page_size: u64,
    pub order_direction: String,
}

/// The owner of a share, as the share's details give it.
#[derive(Debug)]
pub struct ShareOwner {
    pub id: String,
    pub email: String,
    pub nickname: String,
    pub created_at: String,
}

/// The details of a share.
#[derive(Debug)]
pub struct ShareInfo {
    pub id: String,
    pub name: String,
    pub visited: i32,
    pub unlocked: bool,
    pub source_type: i32,
    pub owner: Option<ShareOwner>,
    pub created_at: String,
    pub expired: bool,
    pub url: String,
    pub source_uri: String,
}

} // verus!
