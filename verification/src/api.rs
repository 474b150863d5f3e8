//! The requests the client makes of the server's API, and how it reads the
//! replies.
use vstd::prelude::*;
use vstd::string::*;

use crate::hc::request::{
    no_headers, uri_host, uri_host_part, valid_header_name, valid_header_value, with_header_spec,
    HttpMethod, Request,
};
use crate::hc::url::{url_join, url_join_text};
use crate::proto::error::{ack_error, Ack, AppError};
use crate::proto::file::DeleteFileAck;
use crate::proto::login::{check_utc_datetime, is_utc_datetime_text, token_view, LoginAck, RefreshTokenReq, Token, User};
use crate::state::{stored_token, write_token, AppState};
use crate::store::db_entries;
use crate::text::{concat2, concat3};

verus! {

/// The JSON text `null`, which a request without data carries as its body.
pub open spec fn null_body() -> Seq<u8> {
    seq![110u8, 117u8, 108u8, 108u8]
}

/// The host the API base address names, empty when it names none.
pub open spec fn host_text(base: Seq<char>) -> Seq<char> {
    match uri_host_part(base) {
        Some(Some(h)) => h,
        _ => Seq::<char>::empty(),
    }
}

/// The bytes of an optional body.
pub open spec fn opt_body(b: Option<Vec<u8>>) -> Option<Seq<u8>> {
    match b {
        Some(v) => Some(v@),
        None => None,
    }
}

/// The headers of an API request without credentials: `host`.
pub open spec fn host_headers(base: Seq<char>) -> Map<Seq<char>, Seq<Seq<u8>>> {
    with_header_spec(no_headers(), "Host"@, host_text(base))
}

/// The credentials sent for an access token.
pub open spec fn bearer(access_token: Seq<char>) -> Seq<char> {
    "Bearer "@ + access_token
}

/// The headers of an API request with credentials: `host` and `authorization`.
pub open spec fn authorized_headers(base: Seq<char>, access_token: Seq<char>) -> Map<
    Seq<char>,
    Seq<Seq<u8>>,
> {
    with_header_spec(host_headers(base), "Authorization"@, bearer(access_token))
}

/// The refresh request for the session `token`: its refresh token; the
/// error as it is when there is no session.
pub fn refresh_req_for(token: Result<Token, AppError>) -> (r: Result<RefreshTokenReq, AppError>)
    ensures
        match token {
            Ok(t) => r matches Ok(req) && req.refresh_token@ == t.refresh_token@,
            Err(e) => r == Err::<RefreshTokenReq, AppError>(e),
        },
{
    match token {
        Ok(t) => Ok(RefreshTokenReq { refresh_token: t.refresh_token }),
        Err(e) => Err(e),
    }
}

impl AppState {
    /// What building an API request of `method` to `path` with `body` gives:
    /// an error when the base address does not parse as a URI; otherwise the
    /// request to the base address followed by `path`, with the `host` header
    /// and, when session tokens are stored, their access token as credentials
    /// (left out if reading them fails).
    pub open spec fn request_outcome(
        self,
        r: Result<Request, AppError>,
        method: HttpMethod,
        path: Seq<char>,
        body: Seq<u8>,
    ) -> bool {
        &&& (r is Ok <==> uri_host_part(self.base_url@) is Some)
        &&& (r matches Err(e) ==> e is Anyhow)
        &&& (r matches Ok(req) ==> {
            &&& req.spec_method() == method
            &&& req.spec_url() == self.base_url@ + path
            &&& req.spec_body() == Some(body)
            &&& match stored_token(db_entries(self.db)) {
                None => req.spec_headers() == host_headers(self.base_url@),
                Some(t) => req.spec_headers() == host_headers(self.base_url@) || req.spec_headers()
                    == authorized_headers(self.base_url@, t.0),
            }
        })
    }

    /// An API request of `method` to `url` (a path below the base address)
    /// carrying `body`, the JSON text of its data, with `token` as the
    /// session read from the store: its access token goes out as the
    /// credentials when there is one. An error when the base address does not
    /// parse as a URI.
    pub fn request_with_token(&self, method: HttpMethod, url: &str, body: Vec<u8>, token: Result<Token, AppError>) -> (r:
        Result<Request, AppError>)
        ensures
            r is Ok <==> uri_host_part(self.base_url@) is Some,
            r matches Err(e) ==> e is Anyhow,
            r matches Ok(req) ==> {
                &&& req.spec_method() == method
                &&& req.spec_url() == self.base_url@ + url@
                &&& req.spec_body() == Some(body@)
                &&& req.spec_headers() == match token {
                    Ok(t) => authorized_headers(self.base_url@, t.access_token@),
                    Err(_) => host_headers(self.base_url@),
                }
            },
    {
        let host = match uri_host(self.base_url.as_str()) {
            Ok(Some(h)) => h,
            Ok(None) => String::new(),
            Err(t) => return Err(AppError::Anyhow(t)),
        };
        let req = Request::new(method, self.base_url.as_str(), url);
        assert(req.spec_headers().dom() =~= Set::<Seq<char>>::empty());
        let req = req.with_header("Host", host.as_str());
        assert(req.spec_headers().dom().len() <= 1) by {
            if req.spec_headers() != no_headers() {
                assert(req.spec_headers().dom() =~= Set::<Seq<char>>::empty().insert(
                    crate::text::ascii_lower_seq("Host"@),
                ));
            }
        }
        let req = match token {
            Ok(tokens) => {
                let credentials = concat2("Bearer ", tokens.access_token.as_str());
                req.with_header("Authorization", credentials.as_str())
            },
            Err(_) => req,
        };
        Ok(req.with_body(body))
    }

    /// An API request of `method` to `url` (a path below the base address)
    /// carrying `body`, the JSON text of its data: `request_with_token` with
    /// the session `get_token_sync` reads.
    pub fn request_with_body(&self, method: HttpMethod, url: &str, body: Vec<u8>) -> (r: Result<
        Request,
        AppError,
    >)
        ensures
            self.request_outcome(r, method, url@, body@),
    {
        let token = self.get_token_sync();
        self.request_with_token(method, url, body, token)
    }

    /// An API request of `method` to `url` without data.
    pub fn request(&self, method: HttpMethod, url: &str) -> (r: Result<Request, AppError>)
        ensures
            self.request_outcome(r, method, url@, null_body()),
    {
        self.request_with_body(method, url, vec![110u8, 117u8, 108u8, 108u8])
    }

    /// An API request of `method` to `url` with the form-encoded query `query`.
    pub fn request_with_query(&self, method: HttpMethod, url: &str, query: &str) -> (r: Result<
        Request,
        AppError,
    >)
        ensures
            self.request_outcome(r, method, url@ + "?"@ + query@, null_body()),
    {
        let path = concat3(url, "?", query);
        self.request(method, path.as_str())
    }
}


impl AppState {
    /// Asks which ways of logging in the account with the form-encoded query
    /// `query` (its `email`) offers.
    pub fn prepare_request(&self, query: &str) -> (r: Result<Request, AppError>)
        ensures
            self.request_outcome(r, HttpMethod::Get, "/session/prepare"@ + "?"@ + query@, null_body()),
    {
        self.request_with_query(HttpMethod::Get, "/session/prepare", query)
    }

    /// Logs in with `body`, the JSON text of a `LoginReq`.
    pub fn login_request(&self, body: Vec<u8>) -> (r: Result<Request, AppError>)
        ensures
            self.request_outcome(r, HttpMethod::Post, "/session/token"@, body@),
    {
        self.request_with_body(HttpMethod::Post, "/session/token", body)
    }

    /// The refresh request for the stored session: `refresh_req_for` with
    /// the tokens `get_token` reads. A failure to read the session tokens is
    /// an `Anyhow` error.
    pub fn refresh_token_req(&self) -> (r: Result<RefreshTokenReq, AppError>)
        ensures
            r matches Ok(req) ==> stored_token(db_entries(self.db)) is Some && req.refresh_token@
                == stored_token(db_entries(self.db)).unwrap().2,
            stored_token(db_entries(self.db)) is None ==> r is Err,
            r matches Err(e) ==> e is Anyhow,
    {
        refresh_req_for(self.get_token())
    }

    /// Asks for fresh tokens with `body`, the JSON text of a `RefreshTokenReq`.
    pub fn refresh_token_request(&self, body: Vec<u8>) -> (r: Result<Request, AppError>)
        ensures
            self.request_outcome(r, HttpMethod::Post, "/session/token/refresh"@, body@),
    {
        self.request_with_body(HttpMethod::Post, "/session/token/refresh", body)
    }

    /// Asks how much storage the user has and uses.
    pub fn get_capacity_request(&self) -> (r: Result<Request, AppError>)
        ensures
            self.request_outcome(r, HttpMethod::Get, "/user/capacity"@, null_body()),
    {
        self.request(HttpMethod::Get, "/user/capacity")
    }

    /// Asks for the source links of files named by the form-encoded `query`.
    pub fn get_file_source_request(&self, query: &str) -> (r: Result<Request, AppError>)
        ensures
            self.request_outcome(r, HttpMethod::Put, "/file/source"@ + "?"@ + query@, null_body()),
    {
        self.request_with_query(HttpMethod::Put, "/file/source", query)
    }

    /// Releases the locks named by the form-encoded `query`.
    pub fn delete_lock_request(&self, query: &str) -> (r: Result<Request, AppError>)
        ensures
            self.request_outcome(r, HttpMethod::Delete, "/file/token"@ + "?"@ + query@, null_body()),
    {
        self.request_with_query(HttpMethod::Delete, "/file/token", query)
    }

    /// Restores files from the trash; `body` is the JSON text of a `BatchUrisReq`.
    pub fn restore_file_request(&self, body: Vec<u8>) -> (r: Result<Request, AppError>)
        ensures
            self.request_outcome(r, HttpMethod::Post, "/file/restore"@, body@),
    {
        self.request_with_body(HttpMethod::Post, "/file/restore", body)
    }

    /// Lists a folder; `query` is the form-encoded `GetFilesReq`.
    pub fn get_files_request(&self, query: &str) -> (r: Result<Request, AppError>)
        ensures
            self.request_outcome(r, HttpMethod::Get, "/file"@ + "?"@ + query@, null_body()),
    {
        self.request_with_query(HttpMethod::Get, "/file", query)
    }

    /// Moves or copies files; `body` is the JSON text of a `MoveReq`.
    pub fn move_file_request(&self, body: Vec<u8>) -> (r: Result<Request, AppError>)
        ensures
            self.request_outcome(r, HttpMethod::Post, "/file/move"@, body@),
    {
        self.request_with_body(HttpMethod::Post, "/file/move", body)
    }

    /// Deletes files; `query` is the form-encoded `DeleteFileReq`.
    pub fn delete_file_request(&self, query: &str) -> (r: Result<Request, AppError>)
        ensures
            self.request_outcome(r, HttpMethod::Delete, "/file"@ + "?"@ + query@, null_body()),
    {
        self.request_with_query(HttpMethod::Delete, "/file", query)
    }

    /// Renames a file; `body` is the JSON text of a `RenameReq`.
    pub fn rename_request(&self, body: Vec<u8>) -> (r: Result<Request, AppError>)
        ensures
            self.request_outcome(r, HttpMethod::Post, "/file/rename"@, body@),
    {
        self.request_with_body(HttpMethod::Post, "/file/rename", body)
    }

    /// Creates a folder; `body` is the JSON text of a `CreateFileReq`.
    pub fn create_folder_request(&self, body: Vec<u8>) -> (r: Result<Request, AppError>)
        ensures
            self.request_outcome(r, HttpMethod::Post, "/file/create"@, body@),
    {
        self.request_with_body(HttpMethod::Post, "/file/create", body)
    }

    /// Asks for the details of a file; `query` is the form-encoded query
    /// (`uri`, `extended`).
    pub fn get_file_info_request(&self, query: &str) -> (r: Result<Request, AppError>)
        ensures
            self.request_outcome(r, HttpMethod::Get, "/file/info"@ + "?"@ + query@, null_body()),
    {
        self.request_with_query(HttpMethod::Get, "/file/info", query)
    }

    /// Opens an upload session; `body` is the JSON text of an `UploadSessionReq`.
    pub fn upload_file_session_request(&self, body: Vec<u8>) -> (r: Result<Request, AppError>)
        ensures
            self.request_outcome(r, HttpMethod::Put, "/file/upload"@, body@),
    {
        self.request_with_body(HttpMethod::Put, "/file/upload", body)
    }

    /// Shares a file; `body` is the JSON text of a `ShareReq`.
    pub fn share_file_request(&self, body: Vec<u8>) -> (r: Result<Request, AppError>)
        ensures
            self.request_outcome(r, HttpMethod::Put, "/share"@, body@),
    {
        self.request_with_body(HttpMethod::Put, "/share", body)
    }

    /// Lists the user's shares; `query` is the form-encoded query
    /// (`page_size`, `order_direction`).
    pub fn get_shares_request(&self, query: &str) -> (r: Result<Request, AppError>)
        ensures
            self.request_outcome(r, HttpMethod::Get, "/share"@ + "?"@ + query@, null_body()),
    {
        self.request_with_query(HttpMethod::Get, "/share", query)
    }

    /// Deletes the share `id`.
    pub fn delete_share_request(&self, id: &str) -> (r: Result<Request, AppError>)
        ensures
            self.request_outcome(r, HttpMethod::Delete, "/share/"@ + id@, null_body()),
    {
        let path = concat2("/share/", id);
        self.request(HttpMethod::Delete, path.as_str())
    }

    /// Updates the share `id`; `body` is the JSON text of a `ShareReq`.
    pub fn update_share_request(&self, id: &str, body: Vec<u8>) -> (r: Result<Request, AppError>)
        ensures
            self.request_outcome(r, HttpMethod::Post, "/share/"@ + id@, body@),
    {
        let path = concat2("/share/", id);
        self.request_with_body(HttpMethod::Post, path.as_str(), body)
    }

    /// Asks for the details of the share `id`; `query` is the form-encoded
    /// query (`owner_extended`).
    pub fn get_share_info_request(&self, id: &str, query: &str) -> (r: Result<Request, AppError>)
        ensures
            self.request_outcome(r, HttpMethod::Get, "/share/info/"@ + id@ + "?"@ + query@, null_body()),
    {
        let path = concat2("/share/info/", id);
        let r = self.request_with_query(HttpMethod::Get, path.as_str(), query);
        assert(path@ + "?"@ + query@ == "/share/info/"@ + id@ + "?"@ + query@);
        r
    }

    /// What building a request resolved against the base address gives:
    /// an error when `input` does not resolve against it; otherwise a request
    /// to the resolved address with credentials when session tokens are
    /// stored (left out if reading them fails), and an error when the
    /// credentials are not a valid header value. The request is owed whenever
    /// `input` resolves and no stored token has credentials that are not a
    /// valid header value.
    pub open spec fn resolved_outcome(
        self,
        r: Result<Request, AppError>,
        method: HttpMethod,
        input: Seq<char>,
        suffix: Seq<char>,
        body: Option<Seq<u8>>,
    ) -> bool {
        &&& (url_join_text(self.base_url@, input) is None ==> r matches Err(AppError::Anyhow(_)))
        &&& (url_join_text(self.base_url@, input) is Some && (stored_token(db_entries(self.db)) is None
            || valid_header_value(bearer(stored_token(db_entries(self.db)).unwrap().0))) ==> r is Ok)
        &&& (r matches Ok(req) ==> {
            &&& url_join_text(self.base_url@, input) is Some
            &&& req.spec_method() == method
            &&& req.spec_url() == url_join_text(self.base_url@, input).unwrap() + suffix
            &&& req.spec_body() == body
            &&& match stored_token(db_entries(self.db)) {
                None => req.spec_headers() == no_headers(),
                Some(t) => req.spec_headers() == no_headers() || (valid_header_value(bearer(t.0))
                    && req.spec_headers() == with_header_spec(
                    no_headers(),
                    "Authorization"@,
                    bearer(t.0),
                )),
            }
        })
        &&& (r matches Err(e) ==> e is Anyhow || e is Serde)
    }

    /// A request of `method` to `input` resolved against the base address,
    /// followed by `suffix`, with `token`, the session read from the store,
    /// as its credentials when there is one: an error when `input` does not
    /// resolve, or when the credentials are not a valid header value.
    pub fn resolved_request_with_token(
        &self,
        method: HttpMethod,
        input: &str,
        suffix: &str,
        body: Option<Vec<u8>>,
        token: Result<Token, AppError>,
    ) -> (r: Result<Request, AppError>)
        ensures
            url_join_text(self.base_url@, input@) is None ==> r matches Err(AppError::Anyhow(_)),
            url_join_text(self.base_url@, input@) matches Some(u) ==> match token {
                Ok(t) => if valid_header_value(bearer(t.access_token@)) {
                    r matches Ok(req) && req.spec_method() == method && req.spec_url() == u + suffix@
                        && req.spec_body() == opt_body(body) && req.spec_headers() == with_header_spec(
                        no_headers(),
                        "Authorization"@,
                        bearer(t.access_token@),
                    )
                } else {
                    r matches Err(AppError::Serde(_))
                },
                Err(_) => r matches Ok(req) && req.spec_method() == method && req.spec_url() == u
                    + suffix@ && req.spec_body() == opt_body(body) && req.spec_headers() == no_headers(),
            },
    {
        proof {
            reveal_strlit("Authorization");
            reveal_strlit("Bearer ");
        }
        let url = match url_join(self.base_url.as_str(), input) {
            Ok(u) => u,
            Err(t) => return Err(AppError::Anyhow(t)),
        };
        let req = Request::new(method, url.as_str(), suffix);
        assert(req.spec_headers().dom() =~= Set::<Seq<char>>::empty());
        let req = match token {
            Ok(tokens) => {
                let credentials = concat2("Bearer ", tokens.access_token.as_str());
                assert(valid_header_name("Authorization"@));
                match req.try_with_header("Authorization", credentials.as_str()) {
                    Ok(r) => r,
                    Err(t) => return Err(AppError::Serde(t)),
                }
            },
            Err(_) => req,
        };
        match body {
            Some(b) => Ok(req.with_body(b)),
            None => Ok(req),
        }
    }

    /// A request of `method` to `input` resolved against the base address,
    /// followed by `suffix`: `resolved_request_with_token` with the session
    /// `get_token_sync` reads.
    fn resolved_request(&self, method: HttpMethod, input: &str, suffix: &str, body: Option<Vec<u8>>) -> (r:
        Result<Request, AppError>)
        ensures
            self.resolved_outcome(r, method, input@, suffix@, opt_body(body)),
    {
        let token = self.get_token_sync();
        self.resolved_request_with_token(method, input, suffix, body, token)
    }

    /// Asks for download addresses; `body` is the JSON text of a
    /// `BatchUrisReq`. The address is `/file/url` resolved against the base
    /// address (which replaces the base address's path).
    pub fn batch_urls_request(&self, body: Vec<u8>) -> (r: Result<Request, AppError>)
        ensures
            self.resolved_outcome(r, HttpMethod::Post, "/file/url"@, Seq::<char>::empty(), Some(body@)),
    {
        proof {
            reveal_strlit("");
        }
        self.resolved_request(HttpMethod::Post, "/file/url", "", Some(body))
    }

    /// Asks for the thumbnail address of a file; `query` is the form-encoded
    /// query (`uri`). The address is `/file/thumb` resolved against the base
    /// address, then `?` and the query.
    pub fn get_thumb_url_request(&self, query: &str) -> (r: Result<Request, AppError>)
        ensures
            self.resolved_outcome(r, HttpMethod::Get, "/file/thumb"@, "?"@ + query@, None),
    {
        let suffix = concat2("?", query);
        self.resolved_request(HttpMethod::Get, "/file/thumb", suffix.as_str(), None)
    }

    /// Finishes a login from the server's reply. On success the session
    /// tokens are stored and the user comes back with the outcome of storing
    /// them (which the caller may ignore); a reply whose token expiry times
    /// do not read as UTC date-times is refused as undecodable; a failed login
    /// gives the server's code and message. Only a successful reply touches
    /// the store.
    pub fn complete_login(&mut self, ack: Ack<LoginAck>) -> (r: Result<(User, Result<(), AppError>), AppError>)
        ensures
            ack.code == 0 && ack.data is Some && is_utc_datetime_text(
                ack.data.unwrap().token.access_expires@,
            ) && is_utc_datetime_text(ack.data.unwrap().token.refresh_expires@) ==> (r matches Ok(
                (u, w),
            ) && u == ack.data.unwrap().user && (w is Ok ==> db_entries(final(self).db)
                == write_token(db_entries(old(self).db), token_view(ack.data.unwrap().token)))
                && (w matches Err(e) ==> e is Anyhow)),
            ack.code == 0 && ack.data is Some && !(is_utc_datetime_text(
                ack.data.unwrap().token.access_expires@,
            ) && is_utc_datetime_text(ack.data.unwrap().token.refresh_expires@)) ==> (r matches Err(
                AppError::Serde(_),
            ) && final(self).db == old(self).db),
            !(ack.code == 0 && ack.data is Some) ==> r == Err::<(User, Result<(), AppError>), AppError>(
                ack_error(ack),
            ),
            !(ack.code == 0 && ack.data is Some) ==> final(self).db == old(self).db,
            final(self).ct == old(self).ct,
            final(self).base_url == old(self).base_url,
    {
        if ack.code == 0 {
            if let Some(data) = ack.data {
                match check_utc_datetime(data.token.access_expires.as_str()) {
                    Ok(()) => {},
                    Err(t) => return Err(AppError::Serde(t)),
                }
                match check_utc_datetime(data.token.refresh_expires.as_str()) {
                    Ok(()) => {},
                    Err(t) => return Err(AppError::Serde(t)),
                }
                let stored = self.set_token(data.token);
                return Ok((data.user, stored));
            }
        }
        Err(AppError::Message(ack.code, ack.msg))
    }
}

/// The outcome of a deletion: nothing for success, the lock that kept a file
/// from being deleted for code 40073, the server's code and message otherwise.
pub fn delete_file_result(ack: Ack<DeleteFileAck>) -> (r: Result<Option<DeleteFileAck>, AppError>)
    ensures
        ack.code == 0 ==> r matches Ok(None),
        ack.code == 40073 ==> r == Ok::<Option<DeleteFileAck>, AppError>(ack.data),
        ack.code != 0 && ack.code != 40073 ==> r == Err::<Option<DeleteFileAck>, AppError>(ack_error(ack)),
{
    if ack.code == 0 {
        Ok(None)
    } else if ack.code == 40073 {
        Ok(ack.data)
    } else {
        Err(AppError::Message(ack.code, ack.msg))
    }
}

} // verus!
