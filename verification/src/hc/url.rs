//! Addresses of the server's API.
use vstd::prelude::*;
use vstd::string::*;

use crate::text::concat3;

verus! {

/// `addr`, the API prefix, `path` and, when given, `?` and the encoded query.
pub open spec fn api_query_url(addr: Seq<char>, path: Seq<char>, query: Option<Seq<char>>) -> Seq<char> {
    match query {
        Some(q) => addr + "/api/v4"@ + path + "?"@ + q,
        None => addr + "/api/v4"@ + path,
    }
}

/// The API address of `path` on the server at `addr`, with the query string
/// `query` (already form-encoded) when one is given.
pub fn get_api_query_url(addr: &str, path: &str, query: Option<&str>) -> (r: String)
    ensures
        r@ == api_query_url(addr@, path@, match query { Some(q) => Some(q@), None => None }),
{
    proof {
        reveal_strlit("/api/v4");
        reveal_strlit("?");
    }
    let base = concat3(addr, "/api/v4", path);
    match query {
        Some(q) => {
            let r = base.concat("?");
            r.concat(q)
        },
        None => base,
    }
}

/// The API address of `path` on the server at `addr`.
pub fn get_api_url(addr: &str, path: &str) -> (r: String)
    ensures
        r@ == addr@ + "/api/v4"@ + path@,
{
    get_api_query_url(addr, path, None)
}

} // verus!

verus! {

/// The address `input` resolves to against `base` (`url::Url::parse(base)`,
/// then `Url::join(input)`, as text); `None` when either step fails.
pub uninterp spec fn url_join_text(base: Seq<char>, input: Seq<char>) -> Option<Seq<char>>;

/// Resolves `input` against the absolute address `base` with the url crate
/// (`Url::parse`, then `Url::join`). On failure, the error's text, about which
/// nothing is stated.
#[verifier::external_body]
pub(crate) fn url_join(base: &str, input: &str) -> (r: Result<String, String>)
    ensures
        r is Ok <==> url_join_text(base@, input@) is Some,
        r matches Ok(s) ==> url_join_text(base@, input@) == Some(s@),
{
    match url::Url::parse(base) {
        Ok(u) => match u.join(input) {
            Ok(j) => Ok(j.to_string()),
            Err(e) => Err(e.to_string()),
        },
        Err(e) => Err(e.to_string()),
    }
}

} // verus!
