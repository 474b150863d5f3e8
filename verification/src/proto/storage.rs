//! Messages about files and storage exchanged with the server.
use vstd::prelude::*;
use vstd::string::*;

use crate::path::{extension, extension_of};
use crate::text::{chars_of, eq_lowercase, fold_lower_seq};

verus! {

/// How much storage the user has and uses.
#[derive(Debug)]
pub struct GetCapacityAck {
    pub total: u64,
    pub used: u64,
}

/// A page of a folder listing.
#[derive(Debug)]
pub struct GetFilesReq {
    pub page: u64,
    pub page_size: u64,
    pub uri: String,
    pub order_by: String,
    pub order_direction: String,
}

/// A file in a listing. The metadata is a list of distinct keys with their
/// values (`file_item_well_formed`; `has_distinct_keys` checks it).
#[derive(Debug)]
pub struct FileItem {
    pub item_type: i32,
    pub id: String,
    pub name: String,
    pub created_at: String,
    pub updated_at: String,
    pub size: u64,
    pub metadata: Option<Vec<(String, String)>>,
    pub path: String,
    pub capability: String,
    pub owned: bool,
    pub shared: Option<bool>,
    pub primary_entity: String,
}

/// A tag on a file and its colour.
#[derive(Debug)]
pub struct FileTag {
    pub key: String,
    pub color: String,
}

/// Where a listing stands.
#[derive(Debug)]
pub struct Pagination {
    pub page: i32,
    pub page_size: i32,
    pub is_cursor: bool,
}

/// What may be done with a listed folder.
#[derive(Debug)]
pub struct Properties {
    pub capability: String,
    pub max_page_size: i32,
    pub order_by_options: Option<Vec<String>>,
    pub order_direction_options: Option<Vec<String>>,
}

/// A storage policy.
#[derive(Debug)]
pub struct StoragePolicy {
    pub id: String,
    pub name: String,
    pub policy_type: String,
    pub max_size: u64,
}

/// Download addresses for a batch of files.
#[derive(Debug)]
pub struct BatchUrlsAck {
    pub expires: String,
    pub urls: Vec<Url>,
}

/// One download address.
#[derive(Debug)]
pub struct Url {
    pub url: String,
}

/// A batch of file addresses.
#[derive(Debug)]
pub struct BatchUrisReq {
    pub uris: Vec<String>,
}

/// The address of a file's thumbnail.
#[derive(Debug)]
pub struct GetThumbURLAck {
    pub url: String,
}

/// A request to create a file or folder.
#[derive(Debug)]
pub struct CreateFileReq {
    pub file_type: String,
    pub err_on_conflict: bool,
    pub uri: String,
}

/// A created file or folder.
#[derive(Debug)]
pub struct FileInfo {
    pub file_type: String,
    pub id: String,
    pub size: u64,
    pub name: String,
    pub path: String,
    pub owned: bool,
    pub capability: String,
    pub primary_entity: String,
    pub created_at: String,
    pub updated_at: String,
    pub metadata: Option<Vec<(String, String)>>,
}

/// A rename.
#[derive(Debug)]
pub struct RenameReq {
    pub new_name: String,
    pub uri: String,
}

/// A request for the details of a file.
#[derive(Debug)]
pub struct GetFileInfoReq {
    pub uri: String,
    pub extended: bool,
}

/// Where and how a file is stored.
#[derive(Debug)]
pub struct ExtendedInfo {
    pub storage_policy: StoragePolicy,
    pub storage_used: i64,
    pub entities: Vec<Entity>,
}

/// A stored version of a file.
#[derive(Debug)]
pub struct Entity {
    pub id: String,
    pub size: i64,
    pub type_field: i32,
    pub created_at: String,
    pub storage_policy: StoragePolicy,
    pub created_by: CreatedBy,
}

/// Who created a stored version.
#[derive(Debug)]
pub struct CreatedBy {
    pub id: String,
    pub nickname: String,
    pub created_at: String,
}

/// A deletion.
#[derive(Debug)]
pub struct DeleteFileReq {
    pub unlink: bool,
    pub skip_soft_delete: bool,
    pub uris: Vec<String>,
}

/// A request to open an upload session.
#[derive(Debug)]
pub struct UploadSessionReq {
    pub uri: String,
    pub size: u64,
    pub policy_id: String,
    pub last_modified: u64,
    pub mime_type: String,
}

/// An open upload session.
#[derive(Debug)]
pub struct UploadSessionAck {
    pub session_id: String,
    pub upload_id: String,
    pub chunk_size: u64,
    pub expires: u64,
    pub storage_policy: StoragePolicy,
    pub uri: String,
    pub callback_secret: String,
}

/// A move or copy.
#[derive(Debug)]
pub struct MoveReq {
    pub copy: bool,
    pub uris: Vec<String>,
    pub dst: String,
}

/// Where a file can be fetched from.
#[derive(Debug)]
pub struct FileSrouce {
    pub file_url: String,
    pub link: String,
}

/// A share to create or update.
#[derive(Debug)]
pub struct ShareReq {
    pub downloads: Option<u64>,
    pub expire: Option<u64>,
    pub is_private: Option<bool>,
    pub uri: String,
}

/// A request for the source links of files.
#[derive(Debug)]
pub struct GetFileSourceReq {
    pub uris: Vec<String>,
}

/// Progress of a transfer.
#[derive(Debug, Clone)]
pub struct FileProgress {
    pub filename: String,
    pub total: usize,
    pub current: usize,
}

/// A download ready to start.
#[derive(Debug, Clone)]
pub struct Download {
    pub id: u32,
    pub file_path: String,
    pub url: String,
}

/// An upload ready to start.
#[derive(Debug, Clone)]
pub struct Upload {
    pub id: u32,
    pub filename: String,
    pub file_path: String,
    pub uri: String,
    pub upload_url: String,
}

/// The content type registered for a lower-case extension, if any.
pub open spec fn mime_for_ext(ext: Seq<char>) -> Option<Seq<char>> {
    if ext == "txt"@ {
        Some("text/plain"@)
    } else if ext == "jpg"@ {
        Some("image/jpeg"@)
    } else if ext == "png"@ {
        Some("image/png"@)
    } else if ext == "html"@ {
        Some("text/html"@)
    } else if ext == "json"@ {
        Some("application/json"@)
    } else if ext == "mp4"@ {
        Some("video/mp4"@)
    } else if ext == "mp3"@ {
        Some("audio/mpeg"@)
    } else if ext == "wav"@ {
        Some("audio/wav"@)
    } else {
        None
    }
}

/// The content type of a file by the extension of its name in lower case;
/// `octet-stream` for any other or no extension.
pub open spec fn mime_type_of(filename: Seq<char>) -> Seq<char> {
    match extension_of(filename) {
        Some(x) => match mime_for_ext(fold_lower_seq(x)) {
            Some(m) => m,
            None => "octet-stream"@,
        },
        None => "octet-stream"@,
    }
}

/// The content type of the file `filename` by its extension (see
/// `mime_type_of`).
pub fn get_mime_type(filename: &str) -> (r: String)
    ensures
        r@ == mime_type_of(filename@),
{
    proof {
        reveal_strlit("txt");
        reveal_strlit("jpg");
        reveal_strlit("png");
        reveal_strlit("html");
        reveal_strlit("json");
        reveal_strlit("mp4");
        reveal_strlit("mp3");
        reveal_strlit("wav");
    }
    let cs = chars_of(filename);
    match extension(&cs) {
        Some(x) => {
            if eq_lowercase(&x, "txt") {
                String::from_str("text/plain")
            } else if eq_lowercase(&x, "jpg") {
                String::from_str("image/jpeg")
            } else if eq_lowercase(&x, "png") {
                String::from_str("image/png")
            } else if eq_lowercase(&x, "html") {
                String::from_str("text/html")
            } else if eq_lowercase(&x, "json") {
                String::from_str("application/json")
            } else if eq_lowercase(&x, "mp4") {
                String::from_str("video/mp4")
            } else if eq_lowercase(&x, "mp3") {
                String::from_str("audio/mpeg")
            } else if eq_lowercase(&x, "wav") {
                String::from_str("audio/wav")
            } else {
                String::from_str("octet-stream")
            }
        },
        None => String::from_str("octet-stream"),
    }
}

} // verus!
