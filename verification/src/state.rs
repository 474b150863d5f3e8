//! The client's state: its store of settings and tokens, the kind of client
//! in use and the API base address.
use vstd::prelude::*;
use vstd::string::*;
use vstd::utf8::{decode_utf8, encode_utf8, valid_utf8};

use crate::proto::error::AppError;
use crate::proto::login::{check_utc_datetime, is_utc_datetime_text, token_view, Token};
use crate::proto::settings::{
    default_p2p_addr, mode_code, mode_from_code, with_scheme, ClientType, NetworkMode, NetworkSettings,
};
use crate::store::{db_entries, db_get, db_insert, db_remove, entry_at, utf8_to_string};
use crate::text::{concat2, decimal, parse_u32, parse_u32_spec, starts_with, str_eq, u64_to_decimal};

verus! {

/// The client's state.
pub struct AppState {
    pub db: sled::Db,
    pub ct: ClientType,
    pub base_url: String,
}

/// The bytes of an optional value, as a sequence.
pub open spec fn opt_bytes(e: Option<Vec<u8>>) -> Option<Seq<u8>> {
    match e {
        Some(v) => Some(v@),
        None => None,
    }
}

/// The text an entry holds: empty when there is none, `None` when its bytes
/// are not UTF-8.
pub open spec fn entry_text(entry: Option<Seq<u8>>) -> Option<Seq<char>> {
    match entry {
        None => Some(Seq::<char>::empty()),
        Some(b) => if valid_utf8(b) {
            Some(decode_utf8(b))
        } else {
            None
        },
    }
}

/// The settings as four values: address, IPv6 address, Iroh endpoint, mode.
pub open spec fn settings_view(s: NetworkSettings) -> (Seq<char>, Seq<char>, Seq<char>, NetworkMode) {
    (s.addr@, s.addr6@, s.iroh_endpoint@, s.mode)
}

/// The network settings four entries hold (address, IPv6 address, Iroh
/// endpoint, mode), or `None` when one of them is not UTF-8 text. Missing
/// entries read as empty; the mode as `mode_from_code`.
pub open spec fn settings_from_entries(
    a: Option<Seq<u8>>,
    b: Option<Seq<u8>>,
    c: Option<Seq<u8>>,
    m: Option<Seq<u8>>,
) -> Option<(Seq<char>, Seq<char>, Seq<char>, NetworkMode)> {
    let a = entry_text(a);
    let b = entry_text(b);
    let c = entry_text(c);
    let m = entry_text(m);
    if a is Some && b is Some && c is Some && m is Some {
        Some((a.unwrap(), b.unwrap(), c.unwrap(), mode_from_code(m.unwrap())))
    } else {
        None
    }
}

/// The network settings the store holds under `addr`, `addr6`,
/// `iroh_endpoint` and `mode` (see `settings_from_entries`).
pub open spec fn stored_settings(e: Map<Seq<u8>, Seq<u8>>) -> Option<
    (Seq<char>, Seq<char>, Seq<char>, NetworkMode),
> {
    settings_from_entries(
        entry_at(e, "addr"@),
        entry_at(e, "addr6"@),
        entry_at(e, "iroh_endpoint"@),
        entry_at(e, "mode"@),
    )
}

/// Sets `key` to the UTF-8 bytes of `value` when a value is given.
pub open spec fn put_opt(e: Map<Seq<u8>, Seq<u8>>, key: Seq<char>, value: Option<Seq<char>>) -> Map<
    Seq<u8>,
    Seq<u8>,
> {
    match value {
        Some(v) => e.insert(encode_utf8(key), encode_utf8(v)),
        None => e,
    }
}

/// The entries after storing network settings: each given address, then the mode.
pub open spec fn write_settings(
    e: Map<Seq<u8>, Seq<u8>>,
    addr: Option<Seq<char>>,
    addr6: Option<Seq<char>>,
    iroh_endpoint: Option<Seq<char>>,
    mode: NetworkMode,
) -> Map<Seq<u8>, Seq<u8>> {
    put_opt(
        put_opt(put_opt(e, "addr"@, addr), "addr6"@, addr6),
        "iroh_endpoint"@,
        iroh_endpoint,
    ).insert(encode_utf8("mode"@), encode_utf8(mode_code(mode)))
}

/// The text of an optional string.
pub open spec fn opt_text(s: Option<String>) -> Option<Seq<char>> {
    match s {
        Some(v) => Some(v@),
        None => None,
    }
}

/// The text held by a present, UTF-8 entry.
pub open spec fn present_text(entry: Option<Seq<u8>>) -> Option<Seq<char>> {
    match entry {
        Some(b) => if valid_utf8(b) {
            Some(decode_utf8(b))
        } else {
            None
        },
        None => None,
    }
}

/// The session tokens four entries hold (access token, access expiry,
/// refresh token, refresh expiry): all four present as UTF-8 text, and both
/// expiry texts readable as UTC date-times; `None` otherwise.
pub open spec fn token_from_entries(
    at: Option<Seq<u8>>,
    ae: Option<Seq<u8>>,
    rt: Option<Seq<u8>>,
    re: Option<Seq<u8>>,
) -> Option<(Seq<char>, Seq<char>, Seq<char>, Seq<char>)> {
    let at = present_text(at);
    let ae = present_text(ae);
    let rt = present_text(rt);
    let re = present_text(re);
    if at is Some && ae is Some && rt is Some && re is Some && is_utc_datetime_text(ae.unwrap())
        && is_utc_datetime_text(re.unwrap()) {
        Some((at.unwrap(), ae.unwrap(), rt.unwrap(), re.unwrap()))
    } else {
        None
    }
}

/// The session tokens the store holds under `access_token`,
/// `access_expires`, `refresh_token` and `refresh_expires` (see
/// `token_from_entries`).
pub open spec fn stored_token(e: Map<Seq<u8>, Seq<u8>>) -> Option<
    (Seq<char>, Seq<char>, Seq<char>, Seq<char>),
> {
    token_from_entries(
        entry_at(e, "access_token"@),
        entry_at(e, "access_expires"@),
        entry_at(e, "refresh_token"@),
        entry_at(e, "refresh_expires"@),
    )
}

/// The entries after storing the session tokens.
pub open spec fn write_token(e: Map<Seq<u8>, Seq<u8>>, t: (Seq<char>, Seq<char>, Seq<char>, Seq<char>)) -> Map<
    Seq<u8>,
    Seq<u8>,
> {
    e.insert(encode_utf8("access_token"@), encode_utf8(t.0)).insert(
        encode_utf8("access_expires"@),
        encode_utf8(t.1),
    ).insert(encode_utf8("refresh_token"@), encode_utf8(t.2)).insert(
        encode_utf8("refresh_expires"@),
        encode_utf8(t.3),
    )
}

/// The identifier an `id` entry stands for: the stored number, 1 when there
/// is no entry or it does not read as a `u32`; `None` when the entry is not
/// UTF-8 text.
pub open spec fn id_from_entry(entry: Option<Seq<u8>>) -> Option<u32> {
    match entry {
        None => Some(1u32),
        Some(b) => if valid_utf8(b) {
            match parse_u32_spec(decode_utf8(b)) {
                Some(n) => Some(n),
                None => Some(1u32),
            }
        } else {
            None
        },
    }
}

/// The identifier the next call of `gen_id` hands out (see `id_from_entry`).
pub open spec fn stored_id(e: Map<Seq<u8>, Seq<u8>>) -> Option<u32> {
    id_from_entry(entry_at(e, "id"@))
}

/// The identifier after `id`, wrapping at the top of the `u32` range.
pub open spec fn next_id(id: u32) -> u32 {
    if id == u32::MAX {
        0
    } else {
        (id + 1) as u32
    }
}

/// The entries without each of `keys`, removed in order.
pub open spec fn remove_keys(e: Map<Seq<u8>, Seq<u8>>, keys: Seq<Seq<char>>) -> Map<Seq<u8>, Seq<u8>>
    decreases keys.len(),
{
    if keys.len() == 0 {
        e
    } else {
        remove_keys(e, keys.drop_last()).remove(encode_utf8(keys.last()))
    }
}

/// The texts of a list of string slices.
pub open spec fn texts(keys: Seq<&str>) -> Seq<Seq<char>> {
    keys.map_values(|k: &str| k@)
}

/// The keys removed when logging out.
pub open spec fn logout_keys() -> Seq<Seq<char>> {
    seq!["access_token"@, "access_token_ttl"@, "refresh_token"@, "refresh_token_ttl"@]
}

/// Whether every present entry among `keys` is UTF-8 text.
pub open spec fn keys_readable(e: Map<Seq<u8>, Seq<u8>>, keys: Seq<Seq<char>>) -> bool {
    forall|i: int| 0 <= i < keys.len() ==> #[trigger] entry_text(entry_at(e, keys[i])) is Some
}

/// The key-text pairs of the present entries among `keys`, in key order.
pub open spec fn present_pairs(e: Map<Seq<u8>, Seq<u8>>, keys: Seq<Seq<char>>) -> Seq<
    (Seq<char>, Seq<char>),
>
    decreases keys.len(),
{
    if keys.len() == 0 {
        Seq::empty()
    } else {
        let rest = present_pairs(e, keys.drop_last());
        match present_text(entry_at(e, keys.last())) {
            Some(t) => rest.push((keys.last(), t)),
            None => rest,
        }
    }
}

/// The texts of a list of string pairs.
pub open spec fn pair_texts(v: Seq<(String, String)>) -> Seq<(Seq<char>, Seq<char>)> {
    v.map_values(|p: (String, String)| (p.0@, p.1@))
}

/// The API base address the settings give: the selected HTTP address, with
/// `https://` in front unless it starts with `http`, followed by `/api/v4`.
pub open spec fn base_url_for(s: NetworkSettings, ipv6_reachable: bool) -> Seq<char> {
    with_scheme(s.selected_http_addr(ipv6_reachable)) + "/api/v4"@
}

/// The Iroh endpoint to connect to for the settings: in P2P mode, the
/// configured endpoint unless it is empty or the default marker.
pub open spec fn iroh_endpoint_for(s: NetworkSettings) -> Option<Seq<char>> {
    if s.mode == NetworkMode::P2P && s.iroh_endpoint@.len() > 0 && s.iroh_endpoint@
        != default_p2p_addr() {
        Some(s.iroh_endpoint@)
    } else {
        None
    }
}

/// The text an entry read from the store holds, or the error for bytes that
/// are not UTF-8.
fn stored_text(entry: Option<Vec<u8>>) -> (r: Result<String, AppError>)
    ensures
        match entry_text(opt_bytes(entry)) {
            Some(t) => r matches Ok(s) && s@ == t,
            None => r matches Err(AppError::Anyhow(_)),
        },
{
    match entry {
        None => Ok(String::new()),
        Some(b) => match utf8_to_string(b) {
            Ok(s) => Ok(s),
            Err(t) => Err(AppError::Anyhow(t)),
        },
    }
}

/// The text of an entry that may be absent: `None` when it is, the error
/// for bytes that are not UTF-8.
fn present_entry_text(entry: Option<Vec<u8>>) -> (r: Result<Option<String>, AppError>)
    ensures
        match entry {
            None => r matches Ok(None),
            Some(b) => if valid_utf8(b@) {
                r matches Ok(Some(s)) && s@ == decode_utf8(b@)
            } else {
                r matches Err(AppError::Anyhow(_))
            },
        },
{
    match entry {
        None => Ok(None),
        Some(b) => match utf8_to_string(b) {
            Ok(s) => Ok(Some(s)),
            Err(t) => Err(AppError::Anyhow(t)),
        },
    }
}

/// The network settings that the entries read under `addr`, `addr6`,
/// `iroh_endpoint` and `mode` hold (see `settings_from_entries`); an entry
/// that is not UTF-8 text is an error.
pub fn settings_from_reads(
    addr: Option<Vec<u8>>,
    addr6: Option<Vec<u8>>,
    iroh_endpoint: Option<Vec<u8>>,
    mode: Option<Vec<u8>>,
) -> (r: Result<NetworkSettings, AppError>)
    ensures
        match settings_from_entries(opt_bytes(addr), opt_bytes(addr6), opt_bytes(iroh_endpoint), opt_bytes(mode)) {
            Some(v) => r matches Ok(s) && settings_view(s) == v,
            None => r matches Err(AppError::Anyhow(_)),
        },
{
    let addr = match stored_text(addr) {
        Ok(s) => s,
        Err(e) => return Err(e),
    };
    let addr6 = match stored_text(addr6) {
        Ok(s) => s,
        Err(e) => return Err(e),
    };
    let iroh_endpoint = match stored_text(iroh_endpoint) {
        Ok(s) => s,
        Err(e) => return Err(e),
    };
    let mode = match stored_text(mode) {
        Ok(s) => s,
        Err(e) => return Err(e),
    };
    Ok(NetworkSettings { addr, addr6, iroh_endpoint, mode: NetworkMode::from_code(mode.as_str()) })
}

/// The session tokens that the entries read under `access_token`,
/// `access_expires`, `refresh_token` and `refresh_expires` hold (see
/// `token_from_entries`); anything else is an error.
pub fn token_from_reads(
    access_token: Option<Vec<u8>>,
    access_expires: Option<Vec<u8>>,
    refresh_token: Option<Vec<u8>>,
    refresh_expires: Option<Vec<u8>>,
) -> (r: Result<Token, AppError>)
    ensures
        match token_from_entries(
            opt_bytes(access_token),
            opt_bytes(access_expires),
            opt_bytes(refresh_token),
            opt_bytes(refresh_expires),
        ) {
            Some(v) => r matches Ok(t) && token_view(t) == v,
            None => r matches Err(AppError::Anyhow(_)),
        },
{
    let at = match present_entry_text(access_token) {
        Ok(v) => v,
        Err(e) => return Err(e),
    };
    let ae = match present_entry_text(access_expires) {
        Ok(v) => v,
        Err(e) => return Err(e),
    };
    let rt = match present_entry_text(refresh_token) {
        Ok(v) => v,
        Err(e) => return Err(e),
    };
    let re = match present_entry_text(refresh_expires) {
        Ok(v) => v,
        Err(e) => return Err(e),
    };
    match (at, ae, rt, re) {
        (Some(at), Some(ae), Some(rt), Some(re)) => {
            match check_utc_datetime(ae.as_str()) {
                Ok(()) => {},
                Err(t) => return Err(AppError::Anyhow(t)),
            }
            match check_utc_datetime(re.as_str()) {
                Ok(()) => {},
                Err(t) => return Err(AppError::Anyhow(t)),
            }
            Ok(Token { access_token: at, access_expires: ae, refresh_token: rt, refresh_expires: re })
        },
        _ => Err(AppError::Anyhow(String::from_str("get tokens error: incomplete token entries"))),
    }
}

/// The identifier that the entry read under `id` stands for (see
/// `id_from_entry`); an entry that is not UTF-8 text is an error.
pub fn next_id_from(entry: Option<Vec<u8>>) -> (r: Result<u32, AppError>)
    ensures
        match id_from_entry(opt_bytes(entry)) {
            Some(n) => r == Ok::<u32, AppError>(n),
            None => r matches Err(AppError::Anyhow(_)),
        },
{
    let stored = match present_entry_text(entry) {
        Ok(v) => v,
        Err(e) => return Err(e),
    };
    match stored {
        Some(s) => match parse_u32(s.as_str()) {
            Some(n) => Ok(n),
            None => Ok(1),
        },
        None => Ok(1),
    }
}

/// The key-text pair that the entry read under `key` gives: `None` when the
/// entry is absent, an error when it is not UTF-8 text.
pub fn pair_from_read(key: &str, entry: Option<Vec<u8>>) -> (r: Result<Option<(String, String)>, AppError>)
    ensures
        match entry {
            None => r matches Ok(None),
            Some(b) => if valid_utf8(b@) {
                r matches Ok(Some(p)) && p.0@ == key@ && p.1@ == decode_utf8(b@)
            } else {
                r matches Err(AppError::Anyhow(_))
            },
        },
{
    match present_entry_text(entry) {
        Ok(Some(t)) => Ok(Some((String::from_str(key), t))),
        Ok(None) => Ok(None),
        Err(e) => Err(e),
    }
}

/// Stores `value` under `key`, mapping a store failure to an error.
fn write_text(db: &mut sled::Db, key: &str, value: &str) -> (r: Result<(), AppError>)
    ensures
        r is Ok ==> db_entries(*final(db)) == db_entries(*old(db)).insert(
            encode_utf8(key@),
            encode_utf8(value@),
        ),
        r matches Err(e) ==> e is Anyhow,
{
    match db_insert(db, key, value) {
        Ok(()) => Ok(()),
        Err(t) => Err(AppError::Anyhow(t)),
    }
}

impl AppState {
    /// A fresh state over the opened store: the plain HTTP client and no base
    /// address yet.
    pub fn new(db: sled::Db) -> (r: AppState)
        ensures
            r.db == db,
            r.ct == ClientType::Reqwest,
            r.base_url@ == Seq::<char>::empty(),
    {
        AppState { db, ct: ClientType::Reqwest, base_url: String::new() }
    }

    /// Reads the entry under `key` from the store: its bytes, `None` when
    /// there is none; a failed read is an error.
    pub fn read_entry(&self, key: &str) -> (r: Result<Option<Vec<u8>>, AppError>)
        ensures
            r matches Ok(v) ==> opt_bytes(v) == entry_at(db_entries(self.db), key@),
            r matches Err(e) ==> e is Anyhow,
    {
        match db_get(&self.db, key) {
            Ok(v) => Ok(v),
            Err(t) => Err(AppError::Anyhow(t)),
        }
    }

    /// The network settings in the store: the entries under `addr`, `addr6`,
    /// `iroh_endpoint` and `mode`, read in that order with `read_entry` and
    /// given to `settings_from_reads`. Missing entries read as empty text
    /// and a missing or unknown mode as `Auto`; an entry that is not UTF-8
    /// text, or a failed read, is an error.
    pub fn get_network_settings(&self) -> (r: Result<NetworkSettings, AppError>)
        ensures
            r matches Ok(s) ==> stored_settings(db_entries(self.db)) == Some(settings_view(s)),
            stored_settings(db_entries(self.db)) is None ==> r is Err,
            r matches Err(e) ==> e is Anyhow,
    {
        let addr = match self.read_entry("addr") {
            Ok(v) => v,
            Err(e) => return Err(e),
        };
        let addr6 = match self.read_entry("addr6") {
            Ok(v) => v,
            Err(e) => return Err(e),
        };
        let iroh_endpoint = match self.read_entry("iroh_endpoint") {
            Ok(v) => v,
            Err(e) => return Err(e),
        };
        let mode = match self.read_entry("mode") {
            Ok(v) => v,
            Err(e) => return Err(e),
        };
        settings_from_reads(addr, addr6, iroh_endpoint, mode)
    }

    /// Stores the given addresses (those that are `Some`) and the mode.
    pub fn set_addr(
        &mut self,
        addr: Option<String>,
        addr6: Option<String>,
        iroh_endpoint: Option<String>,
        mode: NetworkMode,
    ) -> (r: Result<(), AppError>)
        ensures
            r is Ok ==> db_entries(final(self).db) == write_settings(
                db_entries(old(self).db),
                opt_text(addr),
                opt_text(addr6),
                opt_text(iroh_endpoint),
                mode,
            ),
            r matches Err(e) ==> e is Anyhow,
            final(self).ct == old(self).ct,
            final(self).base_url == old(self).base_url,
    {
        if let Some(value) = &addr {
            match write_text(&mut self.db, "addr", value.as_str()) {
                Ok(()) => {},
                Err(e) => return Err(e),
            }
        }
        if let Some(value) = &addr6 {
            match write_text(&mut self.db, "addr6", value.as_str()) {
                Ok(()) => {},
                Err(e) => return Err(e),
            }
        }
        if let Some(value) = &iroh_endpoint {
            match write_text(&mut self.db, "iroh_endpoint", value.as_str()) {
                Ok(()) => {},
                Err(e) => return Err(e),
            }
        }
        let code = mode.code();
        write_text(&mut self.db, "mode", code.as_str())
    }

    /// The session tokens in the store: the entries under `access_token`,
    /// `access_expires`, `refresh_token` and `refresh_expires`, read in that
    /// order with `read_entry` and given to `token_from_reads`. All four must
    /// be present UTF-8 text and both expiry texts must read as UTC
    /// date-times.
    pub fn get_token_sync(&self) -> (r: Result<Token, AppError>)
        ensures
            r matches Ok(t) ==> stored_token(db_entries(self.db)) == Some(token_view(t)),
            stored_token(db_entries(self.db)) is None ==> r is Err,
            r matches Err(e) ==> e is Anyhow,
    {
        let at = match self.read_entry("access_token") {
            Ok(v) => v,
            Err(e) => return Err(e),
        };
        let ae = match self.read_entry("access_expires") {
            Ok(v) => v,
            Err(e) => return Err(e),
        };
        let rt = match self.read_entry("refresh_token") {
            Ok(v) => v,
            Err(e) => return Err(e),
        };
        let re = match self.read_entry("refresh_expires") {
            Ok(v) => v,
            Err(e) => return Err(e),
        };
        token_from_reads(at, ae, rt, re)
    }

    /// The session tokens in the store (see `get_token_sync`): a failure,
    /// whether of a store read or of the entries, is an `Anyhow` error.
    pub fn get_token(&self) -> (r: Result<Token, AppError>)
        ensures
            r matches Ok(t) ==> stored_token(db_entries(self.db)) == Some(token_view(t)),
            stored_token(db_entries(self.db)) is None ==> r is Err,
            r matches Err(e) ==> e is Anyhow,
    {
        self.get_token_sync()
    }

    /// Stores the session tokens. Their expiry times must read as UTC
    /// date-times (they stand for date-times, and are read back as such).
    pub fn set_token(&mut self, token: Token) -> (r: Result<(), AppError>)
        requires
            is_utc_datetime_text(token.access_expires@),
            is_utc_datetime_text(token.refresh_expires@),
        ensures
            r is Ok ==> db_entries(final(self).db) == write_token(db_entries(old(self).db), token_view(token)),
            r matches Err(e) ==> e is Anyhow,
            final(self).ct == old(self).ct,
            final(self).base_url == old(self).base_url,
    {
        match write_text(&mut self.db, "access_token", token.access_token.as_str()) {
            Ok(()) => {},
            Err(e) => return Err(e),
        }
        match write_text(&mut self.db, "access_expires", token.access_expires.as_str()) {
            Ok(()) => {},
            Err(e) => return Err(e),
        }
        match write_text(&mut self.db, "refresh_token", token.refresh_token.as_str()) {
            Ok(()) => {},
            Err(e) => return Err(e),
        }
        write_text(&mut self.db, "refresh_expires", token.refresh_expires.as_str())
    }

    /// Hands out the next identifier for a transfer and stores its successor:
    /// the entry under `id` is read with `read_entry` and given to
    /// `next_id_from`, and the successor is written back under `id`.
    pub fn gen_id(&mut self) -> (r: Result<u32, AppError>)
        ensures
            r matches Ok(id) ==> stored_id(db_entries(old(self).db)) == Some(id) && db_entries(
                final(self).db,
            ) == db_entries(old(self).db).insert(
                encode_utf8("id"@),
                encode_utf8(decimal(next_id(id) as nat)),
            ),
            stored_id(db_entries(old(self).db)) is None ==> r is Err,
            r matches Err(e) ==> e is Anyhow,
            final(self).ct == old(self).ct,
            final(self).base_url == old(self).base_url,
    {
        let entry = match self.read_entry("id") {
            Ok(v) => v,
            Err(e) => return Err(e),
        };
        let id: u32 = match next_id_from(entry) {
            Ok(n) => n,
            Err(e) => return Err(e),
        };
        let next: u32 = id.wrapping_add(1);
        let text = u64_to_decimal(next as u64);
        match write_text(&mut self.db, "id", text.as_str()) {
            Ok(()) => Ok(id),
            Err(e) => Err(e),
        }
    }

    /// The present entries among `keys` as key-text pairs, in key order: each
    /// key's entry is read with `read_entry` and given to `pair_from_read`.
    pub fn get_settings(&self, keys: &Vec<&str>) -> (r: Result<Vec<(String, String)>, AppError>)
        ensures
            r matches Ok(v) ==> keys_readable(db_entries(self.db), texts(keys@)) && pair_texts(v@)
                == present_pairs(db_entries(self.db), texts(keys@)),
            !keys_readable(db_entries(self.db), texts(keys@)) ==> r is Err,
            r matches Err(e) ==> e is Anyhow,
    {
        let ghost e = db_entries(self.db);
        let ghost ks = texts(keys@);
        let mut out: Vec<(String, String)> = Vec::new();
        let mut i: usize = 0;
        while i < keys.len()
            invariant
                e == db_entries(self.db),
                ks == texts(keys@),
                i <= keys.len(),
                keys_readable(e, ks.take(i as int)),
                pair_texts(out@) == present_pairs(e, ks.take(i as int)),
            decreases keys.len() - i,
        {
            let key = keys[i];
            assert(ks.take(i + 1).drop_last() =~= ks.take(i as int));
            assert(ks[i as int] == key@);
            let read = match self.read_entry(key) {
                Ok(v) => Ok(v),
                Err(err) => Err(err),
            };
            let pair = match read {
                Ok(v) => pair_from_read(key, v),
                Err(err) => Err(err),
            };
            match pair {
                Ok(Some(p)) => {
                    out.push(p);
                    assert(pair_texts(out@) =~= present_pairs(e, ks.take(i + 1)));
                },
                Ok(None) => {
                    assert(pair_texts(out@) =~= present_pairs(e, ks.take(i + 1)));
                },
                Err(err) => {
                    proof {
                        if keys_readable(e, ks) {
                            assert(entry_text(entry_at(e, ks[i as int])) is Some);
                        }
                    }
                    return Err(err);
                },
            }
            assert forall|j: int| 0 <= j < i + 1 implies #[trigger] entry_text(
                entry_at(e, ks.take(i + 1)[j]),
            ) is Some by {
                if j < i {
                    assert(ks.take(i + 1)[j] == ks.take(i as int)[j]);
                }
            }
            i = i + 1;
        }
        assert(ks.take(keys.len() as int) =~= ks);
        Ok(out)
    }

    /// Deletes the entries under `keys`, in order.
    pub fn delete_settings(&mut self, keys: &Vec<&str>) -> (r: Result<(), AppError>)
        ensures
            r is Ok ==> db_entries(final(self).db) == remove_keys(db_entries(old(self).db), texts(keys@)),
            r matches Err(e) ==> e is Anyhow,
            final(self).ct == old(self).ct,
            final(self).base_url == old(self).base_url,
    {
        let ghost ks = texts(keys@);
        let mut i: usize = 0;
        while i < keys.len()
            invariant
                ks == texts(keys@),
                i <= keys.len(),
                db_entries(self.db) == remove_keys(db_entries(old(self).db), ks.take(i as int)),
                self.ct == old(self).ct,
                self.base_url == old(self).base_url,
            decreases keys.len() - i,
        {
            let key = keys[i];
            assert(ks.take(i + 1).drop_last() =~= ks.take(i as int));
            assert(ks[i as int] == key@);
            match db_remove(&mut self.db, key) {
                Ok(()) => {},
                Err(t) => return Err(AppError::Anyhow(t)),
            }
            i = i + 1;
        }
        assert(ks.take(keys.len() as int) =~= ks);
        Ok(())
    }

    /// Forgets the session: deletes the stored access and refresh tokens
    /// (and the `_ttl` entries beside them).
    pub fn logout(&mut self) -> (r: Result<(), AppError>)
        ensures
            r is Ok ==> db_entries(final(self).db) == remove_keys(db_entries(old(self).db), logout_keys()),
            r matches Err(e) ==> e is Anyhow,
            final(self).ct == old(self).ct,
            final(self).base_url == old(self).base_url,
    {
        let mut keys: Vec<&str> = Vec::new();
        keys.push("access_token");
        keys.push("access_token_ttl");
        keys.push("refresh_token");
        keys.push("refresh_token_ttl");
        assert(texts(keys@) =~= logout_keys());
        self.delete_settings(&keys)
    }

    /// Sets the API base address from the settings and tells which Iroh
    /// endpoint, if any, the client is to connect to.
    pub fn init_base_url(&mut self, settings: &NetworkSettings, ipv6_reachable: bool) -> (r: Option<String>)
        ensures
            final(self).base_url@ == base_url_for(*settings, ipv6_reachable),
            opt_text(r) == iroh_endpoint_for(*settings),
            final(self).db == old(self).db,
            final(self).ct == old(self).ct,
    {
        proof {
            reveal_strlit("https://");
            reveal_strlit("http");
            reveal_strlit("/api/v4");
            reveal_strlit("iroh://p2p");
        }
        let http_addr = settings.select_http_addr(ipv6_reachable);
        let full = if starts_with(http_addr.as_str(), "http") {
            http_addr.clone()
        } else {
            concat2("https://", http_addr.as_str())
        };
        self.base_url = full.concat("/api/v4");
        if settings.mode == NetworkMode::P2P && !settings.iroh_endpoint.as_str().is_empty() && !str_eq(
            settings.iroh_endpoint.as_str(),
            "iroh://p2p",
        ) {
            Some(settings.iroh_endpoint.clone())
        } else {
            None
        }
    }

    /// Points the state at the configured server, as at start: the base
    /// address as `init_base_url` sets it and, in P2P mode, the client kind
    /// `client_type` gives (other modes keep the one the state has). Gives
    /// the Iroh endpoint to connect to, if any.
    pub fn apply_settings(&mut self, settings: &NetworkSettings, ipv6_reachable: bool) -> (r: Option<String>)
        ensures
            final(self).base_url@ == base_url_for(*settings, ipv6_reachable),
            opt_text(r) == iroh_endpoint_for(*settings),
            final(self).db == old(self).db,
            final(self).ct == (if settings.mode != NetworkMode::P2P {
                old(self).ct
            } else if settings.spec_addr(ipv6_reachable) != default_p2p_addr() {
                ClientType::Iroh
            } else {
                ClientType::Reqwest
            }),
    {
        let endpoint = self.init_base_url(settings, ipv6_reachable);
        if settings.mode == NetworkMode::P2P {
            self.ct = settings.client_type(ipv6_reachable);
        }
        endpoint
    }
}

impl AppState {
    /// Stores new network settings (the addresses that are given, and the
    /// mode), reads them back, points the base address at the server they
    /// select and picks the client kind for them. Gives the settings read
    /// back and the Iroh endpoint to connect to, if any.
    pub fn set_network_settings(
        &mut self,
        addr: Option<String>,
        addr6: Option<String>,
        iroh_endpoint: Option<String>,
        mode: NetworkMode,
        ipv6_reachable: bool,
    ) -> (r: Result<(NetworkSettings, Option<String>), AppError>)
        ensures
            r is Ok ==> db_entries(final(self).db) == write_settings(
                db_entries(old(self).db),
                opt_text(addr),
                opt_text(addr6),
                opt_text(iroh_endpoint),
                mode,
            ),
            r matches Ok((s, ep)) ==> {
                &&& stored_settings(db_entries(final(self).db)) == Some(settings_view(s))
                &&& final(self).base_url@ == base_url_for(s, ipv6_reachable)
                &&& opt_text(ep) == iroh_endpoint_for(s)
                &&& final(self).ct == if s.mode == NetworkMode::P2P && s.spec_addr(ipv6_reachable)
                    != default_p2p_addr() {
                    ClientType::Iroh
                } else {
                    ClientType::Reqwest
                }
            },
            addr is Some && addr6 is Some && iroh_endpoint is Some ==> (r matches Ok((s, _))
                ==> settings_view(s) == (addr.unwrap()@, addr6.unwrap()@, iroh_endpoint.unwrap()@, mode)),
            r matches Err(e) ==> e is Anyhow,
    {
        match self.set_addr(addr, addr6, iroh_endpoint, mode) {
            Ok(()) => {},
            Err(e) => return Err(e),
        }
        let settings = match self.get_network_settings() {
            Ok(s) => s,
            Err(e) => return Err(e),
        };
        let endpoint = self.init_base_url(&settings, ipv6_reachable);
        self.ct = settings.client_type(ipv6_reachable);
        proof {
            if addr is Some && addr6 is Some && iroh_endpoint is Some {
                crate::laws::law_settings_round_trip(
                    db_entries(old(self).db),
                    addr.unwrap()@,
                    addr6.unwrap()@,
                    iroh_endpoint.unwrap()@,
                    mode,
                );
            }
        }
        Ok((settings, endpoint))
    }
}

} // verus!
