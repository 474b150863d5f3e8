//! Errors of the client, the payload they are reported as, and the server's
//! reply envelope.
use vstd::prelude::*;
use vstd::string::*;

use crate::text::{concat2, concat3, decimal, i64_to_decimal, signed_decimal, u64_to_decimal};

verus! {

/// Everything that can go wrong in a client operation. Errors that come from
/// other libraries carry the text that those libraries display for them.
#[derive(Debug, Clone, PartialEq, Eq)]
pub enum AppError {
    Unauthorized,
    NoData,
    HttpStatus(u16),
    Io(String),
    Anyhow(String),
    Requesst(String),
    Serde(String),
    Message(i64, String),
    Other(String),
}

/// The text an error displays.
pub open spec fn error_text(e: AppError) -> Seq<char> {
    match e {
        AppError::Unauthorized => "unauthorized"@,
        AppError::NoData => "success, no data"@,
        AppError::HttpStatus(s) => "http status: "@ + decimal(s as nat),
        AppError::Io(t) => "io: "@ + t@,
        AppError::Anyhow(t) => t@,
        AppError::Requesst(t) => "request error: "@ + t@,
        AppError::Serde(t) => "serde error: "@ + t@,
        AppError::Message(code, msg) => "code:"@ + signed_decimal(code as int) + ", msg:"@ + msg@,
        AppError::Other(t) => t@,
    }
}

impl AppError {
    /// The text this error displays.
    pub fn display_text(&self) -> (r: String)
        ensures
            r@ == error_text(*self),
    {
        proof {
            reveal_strlit("unauthorized");
            reveal_strlit("success, no data");
            reveal_strlit("http status: ");
            reveal_strlit("io: ");
            reveal_strlit("request error: ");
            reveal_strlit("serde error: ");
            reveal_strlit("code:");
            reveal_strlit(", msg:");
        }
        match self {
            AppError::Unauthorized => String::from_str("unauthorized"),
            AppError::NoData => String::from_str("success, no data"),
            AppError::HttpStatus(s) => {
                let d = u64_to_decimal(*s as u64);
                concat2("http status: ", d.as_str())
            },
            AppError::Io(t) => concat2("io: ", t.as_str()),
            AppError::Anyhow(t) => t.clone(),
            AppError::Requesst(t) => concat2("request error: ", t.as_str()),
            AppError::Serde(t) => concat2("serde error: ", t.as_str()),
            AppError::Message(code, msg) => {
                let d = i64_to_decimal(*code);
                let r = concat3("code:", d.as_str(), ", msg:");
                r.concat(msg.as_str())
            },
            AppError::Other(t) => t.clone(),
        }
    }
}

/// What an error is reported to the user interface as.
#[derive(Debug, Clone, PartialEq, Eq)]
pub struct ErrorPayload {
    msg: String,
    code: Option<i64>,
}

/// The message of the payload an error is reported as.
pub open spec fn payload_msg(e: AppError) -> Seq<char> {
    match e {
        AppError::Unauthorized => "need login"@,
        AppError::NoData => "no data"@,
        AppError::HttpStatus(_) => "http status"@,
        AppError::Io(t) => "io error: "@ + t@,
        AppError::Requesst(t) => "request error: "@ + t@,
        AppError::Serde(t) => "json error: "@ + t@,
        AppError::Anyhow(t) => "error: "@ + t@,
        AppError::Other(t) => "error: "@ + t@,
        AppError::Message(_, msg) => msg@,
    }
}

/// The code of the payload an error is reported as.
pub open spec fn payload_code(e: AppError) -> i64 {
    match e {
        AppError::Unauthorized => 401,
        AppError::NoData => 200,
        AppError::HttpStatus(s) => s as i64,
        AppError::Io(_) => 400,
        AppError::Requesst(_) => 400,
        AppError::Serde(_) => 400,
        AppError::Anyhow(_) => 500,
        AppError::Other(_) => 500,
        AppError::Message(code, _) => code,
    }
}

impl ErrorPayload {
    /// The payload that `error` is reported as.
    pub fn from(error: &AppError) -> (r: ErrorPayload)
        ensures
            r.spec_msg() == payload_msg(*error),
            r.spec_code() == Some(payload_code(*error)),
    {
        proof {
            reveal_strlit("need login");
            reveal_strlit("no data");
            reveal_strlit("http status");
            reveal_strlit("io error: ");
            reveal_strlit("request error: ");
            reveal_strlit("json error: ");
            reveal_strlit("error: ");
        }
        match error {
            AppError::Unauthorized => ErrorPayload { msg: String::from_str("need login"), code: Some(401) },
            AppError::NoData => ErrorPayload { msg: String::from_str("no data"), code: Some(200) },
            AppError::HttpStatus(s) => ErrorPayload {
                msg: String::from_str("http status"),
                code: Some(*s as i64),
            },
            AppError::Io(t) => ErrorPayload { msg: concat2("io error: ", t.as_str()), code: Some(400) },
            AppError::Requesst(t) => ErrorPayload {
                msg: concat2("request error: ", t.as_str()),
                code: Some(400),
            },
            AppError::Serde(t) => ErrorPayload { msg: concat2("json error: ", t.as_str()), code: Some(400) },
            AppError::Anyhow(t) => ErrorPayload { msg: concat2("error: ", t.as_str()), code: Some(500) },
            AppError::Other(t) => ErrorPayload { msg: concat2("error: ", t.as_str()), code: Some(500) },
            AppError::Message(code, msg) => ErrorPayload { msg: msg.clone(), code: Some(*code) },
        }
    }

    pub closed spec fn spec_msg(&self) -> Seq<char> {
        self.msg@
    }

    pub closed spec fn spec_code(&self) -> Option<i64> {
        self.code
    }

    /// The message shown to the user.
    pub fn msg(&self) -> (r: &String)
        ensures
            r@ == self.spec_msg(),
    {
        &self.msg
    }

    /// The code shown to the user, if any.
    pub fn code(&self) -> (r: Option<i64>)
        ensures
            r == self.spec_code(),
    {
        self.code
    }
}

/// The envelope the server wraps every reply in: `code` 0 means success.
#[derive(Debug, Clone)]
pub struct Ack<T> {
    pub code: i64,
    pub data: Option<T>,
    pub msg: String,
    pub correlation_id: Option<String>,
}

/// The error a failed reply stands for.
pub open spec fn ack_error<T>(ack: Ack<T>) -> AppError {
    AppError::Message(ack.code, ack.msg)
}

impl<T> Ack<T> {
    /// The data of a successful reply; `NoData` when a successful reply carries
    /// none; the server's code and message otherwise.
    pub fn get_data(self) -> (r: Result<T, AppError>)
        ensures
            self.code == 0 && self.data.is_some() ==> r == Ok::<T, AppError>(self.data.unwrap()),
            self.code == 0 && self.data.is_none() ==> r == Err::<T, AppError>(AppError::NoData),
            self.code != 0 ==> r == Err::<T, AppError>(ack_error(self)),
    {
        if self.code == 0 {
            if let Some(data) = self.data {
                return Ok(data);
            }
            return Err(AppError::NoData);
        }
        Err(AppError::Message(self.code, self.msg))
    }

    /// The data of a successful reply, or the server's code and message.
    /// A successful reply must carry data.
    pub fn expect_data(self) -> (r: Result<T, AppError>)
        requires
            self.code == 0 ==> self.data.is_some(),
        ensures
            self.code == 0 ==> r == Ok::<T, AppError>(self.data.unwrap()),
            self.code != 0 ==> r == Err::<T, AppError>(ack_error(self)),
    {
        if self.code == 0 {
            match self.data {
                Some(d) => Ok(d),
                None => Err(AppError::NoData),
            }
        } else {
            Err(AppError::Message(self.code, self.msg))
        }
    }

    /// `true` for a successful reply, whatever data it carries; the server's
    /// code and message otherwise.
    pub fn succeeded(self) -> (r: Result<bool, AppError>)
        ensures
            self.code == 0 ==> r == Ok::<bool, AppError>(true),
            self.code != 0 ==> r == Err::<bool, AppError>(ack_error(self)),
    {
        if self.code == 0 {
            Ok(true)
        } else {
            Err(AppError::Message(self.code, self.msg))
        }
    }
}

} // verus!
