//! Properties of the library that span several operations.
use vstd::prelude::*;
use vstd::string::*;
use vstd::utf8::{decode_utf8, valid_utf8, encode_scalar, encode_utf8, encode_utf8_decode_utf8, encode_utf8_valid_utf8};

use crate::client::pool::{fresh_at, fresh_only, is_fresh, take_fresh, ClientWrapper};
use crate::hc::pool::returned;
use crate::iroh::{
    address_from_bytes, base64_standard_decoded, decoded_address, is_white_space, percent_decoded, proxy_path, proxy_target,
    scheme_prefix, strip_leading, url_path_text, url_query_text,
    trim_end_ws, trim_start_ws, trim_ws, UriDecodeError,
};
use crate::proto::settings::{mode_code, mode_from_code, NetworkMode, NetworkSettings};
use crate::state::{
    logout_keys, next_id, present_pairs, remove_keys, stored_id, stored_settings, stored_token,
    write_settings, write_token,
};
use crate::store::entry_at;
use crate::text::{decimal, has_prefix, lemma_decimal_value, parse_u32_spec};

verus! {

broadcast use {encode_utf8_decode_utf8, encode_utf8_valid_utf8};

/// Different keys are stored under different bytes.
proof fn lemma_keys_distinct(a: Seq<char>, b: Seq<char>)
    requires
        a != b,
    ensures
        encode_utf8(a) != encode_utf8(b),
{
    if encode_utf8(a) == encode_utf8(b) {
        assert(decode_utf8(encode_utf8(a)) == decode_utf8(encode_utf8(b)));
    }
}

/// Reading back the text of a mode gives the mode.
pub proof fn lemma_mode_code_round_trip(m: NetworkMode)
    ensures
        mode_from_code(mode_code(m)) == m,
{
    reveal_strlit("1");
    reveal_strlit("2");
    reveal_strlit("3");
    reveal_strlit("4");
    assert("1"@[0] == '1' && "2"@[0] == '2' && "3"@[0] == '3' && "4"@[0] == '4');
    assert("1"@ != "2"@ && "1"@ != "3"@ && "1"@ != "4"@);
    assert("2"@ != "3"@ && "2"@ != "4"@ && "3"@ != "4"@);
}

/// Storing network settings with every address given and then reading them
/// gives back exactly what was stored.
pub proof fn law_settings_round_trip(
    e: Map<Seq<u8>, Seq<u8>>,
    addr: Seq<char>,
    addr6: Seq<char>,
    iroh_endpoint: Seq<char>,
    mode: NetworkMode,
)
    ensures
        stored_settings(write_settings(e, Some(addr), Some(addr6), Some(iroh_endpoint), mode)) == Some(
            (addr, addr6, iroh_endpoint, mode),
        ),
{
    reveal_strlit("addr");
    reveal_strlit("addr6");
    reveal_strlit("iroh_endpoint");
    reveal_strlit("mode");
    lemma_keys_distinct("addr"@, "addr6"@);
    lemma_keys_distinct("addr"@, "iroh_endpoint"@);
    lemma_keys_distinct("addr"@, "mode"@);
    lemma_keys_distinct("addr6"@, "iroh_endpoint"@);
    lemma_keys_distinct("addr6"@, "mode"@);
    lemma_keys_distinct("iroh_endpoint"@, "mode"@);
    lemma_mode_code_round_trip(mode);
    let w = write_settings(e, Some(addr), Some(addr6), Some(iroh_endpoint), mode);
    assert(entry_at(w, "addr"@) == Some(encode_utf8(addr)));
    assert(entry_at(w, "addr6"@) == Some(encode_utf8(addr6)));
    assert(entry_at(w, "iroh_endpoint"@) == Some(encode_utf8(iroh_endpoint)));
    assert(entry_at(w, "mode"@) == Some(encode_utf8(mode_code(mode))));
}

/// Storing only a mode keeps the stored addresses and replaces the mode.
pub proof fn law_settings_keep_unset_addresses(
    e: Map<Seq<u8>, Seq<u8>>,
    mode: NetworkMode,
)
    requires
        stored_settings(e) is Some,
    ensures
        stored_settings(write_settings(e, None, None, None, mode)) == Some(
            (stored_settings(e).unwrap().0, stored_settings(e).unwrap().1, stored_settings(e).unwrap().2, mode),
        ),
{
    reveal_strlit("addr");
    reveal_strlit("addr6");
    reveal_strlit("iroh_endpoint");
    reveal_strlit("mode");
    lemma_keys_distinct("addr"@, "mode"@);
    lemma_keys_distinct("addr6"@, "mode"@);
    lemma_keys_distinct("iroh_endpoint"@, "mode"@);
    lemma_mode_code_round_trip(mode);
    let w = write_settings(e, None, None, None, mode);
    assert(entry_at(w, "addr"@) == entry_at(e, "addr"@));
    assert(entry_at(w, "addr6"@) == entry_at(e, "addr6"@));
    assert(entry_at(w, "iroh_endpoint"@) == entry_at(e, "iroh_endpoint"@));
    assert(entry_at(w, "mode"@) == Some(encode_utf8(mode_code(mode))));
}

/// Storing session tokens and then reading them gives back the same tokens.
/// Their expiry texts read as UTC date-times, as `set_token` requires.
pub proof fn law_token_round_trip(
    e: Map<Seq<u8>, Seq<u8>>,
    t: (Seq<char>, Seq<char>, Seq<char>, Seq<char>),
)
    requires
        crate::proto::login::is_utc_datetime_text(t.1),
        crate::proto::login::is_utc_datetime_text(t.3),
    ensures
        stored_token(write_token(e, t)) == Some(t),
{
    reveal_strlit("access_token");
    reveal_strlit("access_expires");
    reveal_strlit("refresh_token");
    reveal_strlit("refresh_expires");
    lemma_keys_distinct("access_token"@, "access_expires"@);
    lemma_keys_distinct("access_token"@, "refresh_token"@);
    lemma_keys_distinct("access_token"@, "refresh_expires"@);
    lemma_keys_distinct("access_expires"@, "refresh_token"@);
    lemma_keys_distinct("access_expires"@, "refresh_expires"@);
    lemma_keys_distinct("refresh_token"@, "refresh_expires"@);
    let w = write_token(e, t);
    assert(entry_at(w, "access_token"@) == Some(encode_utf8(t.0)));
    assert(entry_at(w, "access_expires"@) == Some(encode_utf8(t.1)));
    assert(entry_at(w, "refresh_token"@) == Some(encode_utf8(t.2)));
    assert(entry_at(w, "refresh_expires"@) == Some(encode_utf8(t.3)));
}

/// After logging out, no session tokens can be read from the store.
pub proof fn law_logout_forgets_token(e: Map<Seq<u8>, Seq<u8>>)
    ensures
        stored_token(remove_keys(e, logout_keys())) is None,
{
    let ks = logout_keys();
    let r = remove_keys(e, ks);
    assert(ks.drop_last().drop_last().drop_last().drop_last() =~= Seq::<Seq<char>>::empty());
    assert(ks.drop_last().drop_last().drop_last().last() == "access_token"@);
    assert(ks.drop_last().last() == "refresh_token"@);
    reveal_with_fuel(remove_keys, 5);
    assert(!r.contains_key(encode_utf8("refresh_token"@)));
    assert(entry_at(r, "refresh_token"@) is None);
}

/// Identifiers handed out one after the other are consecutive: after an
/// identifier below the maximum is handed out, the next one is its successor.
pub proof fn law_ids_consecutive(e: Map<Seq<u8>, Seq<u8>>, id: u32)
    requires
        stored_id(e) == Some(id),
        id < u32::MAX,
    ensures
        stored_id(e.insert(encode_utf8("id"@), encode_utf8(decimal(next_id(id) as nat)))) == Some(
            (id + 1) as u32,
        ),
{
    let d = decimal((id + 1) as nat);
    lemma_decimal_value((id + 1) as nat);
    assert(!(d.len() > 0 && d[0] == '+'));
    assert(parse_u32_spec(d) == Some((id + 1) as u32));
}

/// A pool hands clients out in the order they were returned: after a client
/// is returned to a pool with room, the next one handed out is the oldest
/// pooled client, or the returned one when the pool was empty; and the pool
/// never grows past its maximum.
pub proof fn law_pool_first_in_first_out<C>(pool: Seq<C>, max_size: nat, client: C)
    requires
        pool.len() < max_size,
    ensures
        returned(pool, max_size, client).len() == pool.len() + 1,
        returned(pool, max_size, client).len() <= max_size,
        returned(pool, max_size, client)[0] == if pool.len() > 0 {
            pool[0]
        } else {
            client
        },
        returned(pool, max_size, client).drop_first() == if pool.len() > 0 {
            pool.drop_first().push(client)
        } else {
            Seq::<C>::empty()
        },
{
    assert(returned(pool, max_size, client).drop_first() =~= if pool.len() > 0 {
        pool.drop_first().push(client)
    } else {
        Seq::<C>::empty()
    });
}

/// A client handed out of the peer pool at `now` is fresh at `now`, it was
/// pooled, and the pool that stays behind is what followed it: nothing is
/// duplicated, and only stale clients are dropped on the way.
pub proof fn law_handed_out_client_is_fresh<C>(pool: Seq<ClientWrapper<C>>, now: u64, max_idle_time: u64)
    ensures
        take_fresh(pool, now, max_idle_time).0 matches Some(w) ==> is_fresh(w, now, max_idle_time),
        exists|k: int|
            0 <= k <= pool.len() && #[trigger] pool.skip(k) == take_fresh(pool, now, max_idle_time).1
                && (forall|j: int| 0 <= j < k - 1 ==> !is_fresh(#[trigger] pool[j], now, max_idle_time))
                && (take_fresh(pool, now, max_idle_time).0 matches Some(w) ==> k > 0 && w == pool[k - 1]),
        take_fresh(pool, now, max_idle_time).0 is None ==> take_fresh(pool, now, max_idle_time).1.len()
            == 0 && forall|j: int| 0 <= j < pool.len() ==> !is_fresh(#[trigger] pool[j], now, max_idle_time),
    decreases pool.len(),
{
    if pool.len() == 0 {
        assert(pool.skip(0) =~= pool);
    } else if is_fresh(pool[0], now, max_idle_time) {
        assert(pool.skip(1) =~= pool.drop_first());
    } else {
        let rest = pool.drop_first();
        law_handed_out_client_is_fresh(rest, now, max_idle_time);
        let k = choose|k: int|
            0 <= k <= rest.len() && #[trigger] rest.skip(k) == take_fresh(rest, now, max_idle_time).1
                && (forall|j: int| 0 <= j < k - 1 ==> !is_fresh(#[trigger] rest[j], now, max_idle_time))
                && (take_fresh(rest, now, max_idle_time).0 matches Some(w) ==> k > 0 && w == rest[k - 1]);
        assert(pool.skip(k + 1) =~= rest.skip(k));
        assert forall|j: int| 0 <= j < k + 1 - 1 implies !is_fresh(#[trigger] pool[j], now, max_idle_time) by {
            if j > 0 {
                assert(pool[j] == rest[j - 1]);
            }
        }
        if take_fresh(rest, now, max_idle_time).0 is None {
            assert forall|j: int| 0 <= j < pool.len() implies !is_fresh(#[trigger] pool[j], now, max_idle_time) by {
                if j > 0 {
                    assert(pool[j] == rest[j - 1]);
                }
            }
        }
    }
}

/// Removing expired clients keeps exactly the fresh ones: every client left
/// is fresh, every fresh client stays, and doing it again changes nothing.
pub proof fn law_remove_expired_keeps_fresh<C>(pool: Seq<ClientWrapper<C>>, now: u64, max_idle_time: u64)
    ensures
        forall|i: int|
            0 <= i < fresh_only(pool, now, max_idle_time).len() ==> is_fresh(
                #[trigger] fresh_only(pool, now, max_idle_time)[i],
                now,
                max_idle_time,
            ),
        forall|i: int|
            0 <= i < pool.len() && is_fresh(#[trigger] pool[i], now, max_idle_time) ==> fresh_only(
                pool,
                now,
                max_idle_time,
            ).contains(pool[i]),
        fresh_only(fresh_only(pool, now, max_idle_time), now, max_idle_time) == fresh_only(
            pool,
            now,
            max_idle_time,
        ),
{
    let p = fresh_at::<C>(now, max_idle_time);
    let f = pool.filter(p);
    assert forall|i: int| 0 <= i < f.len() implies is_fresh(#[trigger] f[i], now, max_idle_time) by {
        pool.lemma_filter_pred(p, i);
    }
    assert forall|i: int| 0 <= i < pool.len() && is_fresh(#[trigger] pool[i], now, max_idle_time) implies f.contains(
        pool[i],
    ) by {
        pool.lemma_filter_contains(p, i);
    }
    lemma_filter_all_kept(f, p);
}

/// Filtering a sequence whose elements all pass leaves it as it is.
proof fn lemma_filter_all_kept<A>(s: Seq<A>, p: spec_fn(A) -> bool)
    requires
        forall|i: int| 0 <= i < s.len() ==> p(#[trigger] s[i]),
    ensures
        s.filter(p) == s,
    decreases s.len(),
{
    reveal(Seq::filter);
    if s.len() > 0 {
        let d = s.drop_last();
        assert forall|i: int| 0 <= i < d.len() implies p(#[trigger] d[i]) by {
            assert(d[i] == s[i]);
        }
        lemma_filter_all_kept(d, p);
        assert(s.filter(p) =~= d.push(s.last()));
        assert(d.push(s.last()) =~= s);
    }
}

/// Text without `%` comes out of percent-decoding unchanged.
pub proof fn law_percent_decoding_keeps_plain_text(s: Seq<u8>)
    requires
        forall|i: int| 0 <= i < s.len() ==> s[i] != 37,
    ensures
        percent_decoded(s) == s,
    decreases s.len(),
{
    if s.len() > 0 {
        let rest = s.skip(1);
        assert forall|i: int| 0 <= i < rest.len() implies rest[i] != 37 by {
            assert(rest[i] == s[i + 1]);
        }
        law_percent_decoding_keeps_plain_text(rest);
        assert(seq![s[0]] + rest =~= s);
    }
}

/// After every leading copy of a non-empty prefix is removed, what is left
/// does not start with it, and it is what follows some number of copies.
pub proof fn law_strip_leading_removes_every_copy(s: Seq<char>, p: Seq<char>)
    requires
        p.len() > 0,
    ensures
        !has_prefix(strip_leading(s, p), p),
        exists|k: nat| k * p.len() <= s.len() && #[trigger] s.skip((k * p.len()) as int) == strip_leading(s, p),
    decreases s.len(),
{
    if has_prefix(s, p) {
        let rest = s.skip(p.len() as int);
        law_strip_leading_removes_every_copy(rest, p);
        let k = choose|k: nat| k * p.len() <= rest.len() && #[trigger] rest.skip((k * p.len()) as int)
            == strip_leading(rest, p);
        assert((k + 1) * p.len() == k * p.len() + p.len()) by (nonlinear_arith);
        assert(s.skip(((k + 1) * p.len()) as int) =~= rest.skip((k * p.len()) as int));
    } else {
        assert(s.skip((0 * p.len()) as int) =~= s);
    }
}

/// Trimming leaves neither leading nor trailing white space, and trimming
/// again changes nothing.
pub proof fn law_trim_removes_surrounding_white_space(s: Seq<char>)
    ensures
        trim_ws(s).len() > 0 ==> !is_white_space(trim_ws(s)[0]) && !is_white_space(trim_ws(s).last()),
        trim_ws(trim_ws(s)) == trim_ws(s),
{
    lemma_trim_start_front(s);
    let f = trim_start_ws(s);
    lemma_trim_end_back(f);
    lemma_trim_end_keeps_front(f);
    let t = trim_end_ws(f);
    lemma_trim_end_back(t);
    lemma_trim_end_keeps_front(t);
}

/// What is left after trimming the front does not start with white space.
proof fn lemma_trim_start_front(s: Seq<char>)
    ensures
        trim_start_ws(s).len() > 0 ==> !is_white_space(trim_start_ws(s)[0]),
    decreases s.len(),
{
    if s.len() > 0 && is_white_space(s[0]) {
        lemma_trim_start_front(s.drop_first());
    }
}

/// What is left after trimming the back does not end with white space, and
/// trimming the back again changes nothing.
proof fn lemma_trim_end_back(s: Seq<char>)
    ensures
        trim_end_ws(s).len() > 0 ==> !is_white_space(trim_end_ws(s).last()),
        trim_end_ws(trim_end_ws(s)) == trim_end_ws(s),
    decreases s.len(),
{
    if s.len() > 0 && is_white_space(s.last()) {
        lemma_trim_end_back(s.drop_last());
    }
}

/// Trimming the back of text that does not start with white space keeps its
/// first character, and the front stays trimmed.
proof fn lemma_trim_end_keeps_front(s: Seq<char>)
    requires
        s.len() > 0 ==> !is_white_space(s[0]),
    ensures
        trim_end_ws(s).len() > 0 ==> trim_end_ws(s)[0] == s[0],
        trim_start_ws(trim_end_ws(s)) == trim_end_ws(s),
    decreases s.len(),
{
    if s.len() > 0 && is_white_space(s.last()) {
        if s.len() > 1 {
            lemma_trim_end_keeps_front(s.drop_last());
        }
    }
}

/// Outside P2P mode every address requests go to starts with `http`.
pub proof fn law_http_addresses_have_a_scheme(settings: NetworkSettings, ipv6_reachable: bool)
    requires
        settings.mode != NetworkMode::P2P,
    ensures
        has_prefix(settings.spec_addr(ipv6_reachable), "http"@),
{
    reveal_strlit("http");
    reveal_strlit("https://");
    let a = settings.selected_http_addr(ipv6_reachable);
    if !has_prefix(a, "http"@) {
        assert((("https://"@ + a).take(4)) =~= "http"@);
    }
}


/// `t` with every `%` written as the escape `%25`.
pub open spec fn escape_percent(t: Seq<char>) -> Seq<char>
    decreases t.len(),
{
    if t.len() == 0 {
        Seq::empty()
    } else {
        (if t[0] == '%' {
            seq!['%', '2', '5']
        } else {
            seq![t[0]]
        }) + escape_percent(t.drop_first())
    }
}

/// The UTF-8 encoding of two texts one after the other is the two encodings
/// one after the other.
proof fn lemma_encode_utf8_concat(a: Seq<char>, b: Seq<char>)
    ensures
        encode_utf8(a + b) == encode_utf8(a) + encode_utf8(b),
    decreases a.len(),
{
    if a.len() == 0 {
        assert(a + b =~= b);
        assert(encode_utf8(a) =~= Seq::<u8>::empty());
        assert(encode_utf8(a) + encode_utf8(b) =~= encode_utf8(b));
    } else {
        assert((a + b).drop_first() =~= a.drop_first() + b);
        assert((a + b)[0] == a[0]);
        lemma_encode_utf8_concat(a.drop_first(), b);
        assert(encode_utf8(a + b) =~= encode_utf8(a) + encode_utf8(b));
    }
}

/// Bytes with their top bit set are not `%`.
proof fn lemma_high_bytes_are_not_percent(x: u8)
    by (bit_vector)
    ensures
        (0x80u8 | x) != 37u8,
        (0xC0u8 | x) != 37u8,
        (0xE0u8 | x) != 37u8,
        (0xF0u8 | x) != 37u8,
{
}

/// A one-byte encoding is the scalar itself.
proof fn lemma_width_1_byte(s: u32)
    by (bit_vector)
    requires
        s <= 0x7F,
    ensures
        (s & 0x7F) as u8 == s,
{
}

/// The UTF-8 encoding of a character other than `%` holds no `%` byte.
proof fn lemma_encoding_has_no_percent(c: char)
    requires
        c != '%',
    ensures
        forall|i: int| 0 <= i < encode_scalar(c as u32).len() ==> #[trigger] encode_scalar(c as u32)[i] != 37u8,
{
    let s = c as u32;
    vstd::utf8::char_is_scalar(c);
    if vstd::utf8::has_width_1_encoding(s) {
        lemma_width_1_byte(s);
        vstd::utf8::char_u32_cast(c, s);
        vstd::utf8::char_u32_cast('%', 37u32);
    } else {
        lemma_high_bytes_are_not_percent(((s >> 6) & 0x1F) as u8);
        lemma_high_bytes_are_not_percent(((s >> 12) & 0x0F) as u8);
        lemma_high_bytes_are_not_percent(((s >> 18) & 0x7) as u8);
        lemma_high_bytes_are_not_percent((s & 0x3F) as u8);
        lemma_high_bytes_are_not_percent(((s >> 6) & 0x3F) as u8);
        lemma_high_bytes_are_not_percent(((s >> 12) & 0x3F) as u8);
    }
}

/// Bytes without `%` come out of percent-decoding unchanged, whatever
/// follows them.
proof fn lemma_plain_prefix_decodes_to_itself(p: Seq<u8>, x: Seq<u8>)
    requires
        forall|i: int| 0 <= i < p.len() ==> p[i] != 37u8,
    ensures
        percent_decoded(p + x) == p + percent_decoded(x),
    decreases p.len(),
{
    if p.len() == 0 {
        assert(p + x =~= x);
        assert(p + percent_decoded(x) =~= percent_decoded(x));
    } else {
        assert((p + x)[0] == p[0]);
        assert((p + x).skip(1) =~= p.skip(1) + x);
        lemma_plain_prefix_decodes_to_itself(p.skip(1), x);
        assert(seq![p[0]] + (p.skip(1) + percent_decoded(x)) =~= p + percent_decoded(x));
    }
}

/// Percent-decoding the encoding of `escape_percent(t)` gives the encoding
/// of `t`.
proof fn lemma_escaped_text_decodes_once(t: Seq<char>)
    ensures
        percent_decoded(encode_utf8(escape_percent(t))) == encode_utf8(t),
    decreases t.len(),
{
    if t.len() > 0 {
        let rest = t.drop_first();
        lemma_escaped_text_decodes_once(rest);
        let c = t[0];
        let tail = encode_utf8(escape_percent(rest));
        if c == '%' {
            let head = seq!['%', '2', '5'];
            lemma_encode_utf8_concat(head, escape_percent(rest));
            reveal_with_fuel(encode_utf8, 4);
            lemma_width_1_byte(37u32);
            lemma_width_1_byte(50u32);
            lemma_width_1_byte(53u32);
            assert(head.drop_first().drop_first().drop_first() =~= Seq::<char>::empty());
            assert(encode_utf8(head) =~= seq![37u8, 50u8, 53u8]);
            let s = seq![37u8, 50u8, 53u8] + tail;
            assert(s.skip(3) =~= tail);
            assert(s[0] == 37u8 && s[1] == 50u8 && s[2] == 53u8);
            assert(percent_decoded(s) == seq![37u8] + percent_decoded(tail));
            assert(encode_utf8(t) == encode_scalar(37u32) + encode_utf8(rest));
            assert(encode_scalar(37u32) =~= seq![37u8]);
        } else {
            let head = seq![c];
            lemma_encode_utf8_concat(head, escape_percent(rest));
            assert(head.drop_first() =~= Seq::<char>::empty());
            reveal_with_fuel(encode_utf8, 2);
            assert(head[0] == c);
            assert(encode_utf8(head.drop_first()) =~= Seq::<u8>::empty());
            assert(encode_utf8(head) =~= encode_scalar(c as u32));
            lemma_encoding_has_no_percent(c);
            lemma_plain_prefix_decodes_to_itself(encode_scalar(c as u32), tail);
        }
    }
}

/// An address is percent-decoded exactly once: whatever text `t` is, bytes
/// that spell `t` with each `%` escaped as `%25` carry the address `t`
/// itself (so `%2520` gives `%20`, never a space).
pub proof fn law_address_decodes_percent_once(t: Seq<char>)
    ensures
        address_from_bytes(encode_utf8(escape_percent(t))) == Ok::<Seq<char>, UriDecodeError>(t),
{
    lemma_escaped_text_decodes_once(t);
}

/// A scheme address whose base64 payload spells `t` with each `%` escaped
/// decodes to `t`.
pub proof fn law_encoded_address_decodes_percent_once(encoded: Seq<char>, t: Seq<char>)
    requires
        base64_standard_decoded(trim_ws(encoded)) == Some(encode_utf8(escape_percent(t))),
    ensures
        decoded_address(encoded) == Ok::<Seq<char>, UriDecodeError>(t),
{
    law_address_decodes_percent_once(t);
}


/// Listing settings gives a pair for every requested key whose entry is
/// text, whatever the text (empty included): the key with its text.
pub proof fn law_settings_list_every_present_key(e: Map<Seq<u8>, Seq<u8>>, keys: Seq<Seq<char>>, i: int, b: Seq<u8>)
    requires
        0 <= i < keys.len(),
        entry_at(e, keys[i]) == Some(b),
        valid_utf8(b),
    ensures
        present_pairs(e, keys).contains((keys[i], decode_utf8(b))),
    decreases keys.len(),
{
    let init = keys.drop_last();
    let rest = present_pairs(e, init);
    if i == keys.len() - 1 {
        assert(present_pairs(e, keys) == rest.push((keys[i], decode_utf8(b))));
        assert(present_pairs(e, keys)[rest.len() as int] == (keys[i], decode_utf8(b)));
    } else {
        assert(init[i] == keys[i]);
        law_settings_list_every_present_key(e, init, i, b);
        let j = choose|j: int| 0 <= j < rest.len() && rest[j] == (keys[i], decode_utf8(b));
        assert(present_pairs(e, keys)[j] == rest[j]);
    }
}

/// Whether `p` is the pair of a requested key and the text of its entry.
pub open spec fn pair_of_entry(e: Map<Seq<u8>, Seq<u8>>, keys: Seq<Seq<char>>, p: (Seq<char>, Seq<char>)) -> bool {
    exists|i: int|
        0 <= i < keys.len() && keys[i] == p.0 && (#[trigger] entry_at(e, keys[i]) matches Some(b) && valid_utf8(b)
            && decode_utf8(b) == p.1)
}

/// Every pair that listing settings gives is a requested key with the text
/// of its entry, and there are no more pairs than keys.
pub proof fn law_settings_list_only_entries(e: Map<Seq<u8>, Seq<u8>>, keys: Seq<Seq<char>>)
    ensures
        present_pairs(e, keys).len() <= keys.len(),
        forall|j: int| 0 <= j < present_pairs(e, keys).len() ==> pair_of_entry(e, keys, #[trigger] present_pairs(e, keys)[j]),
    decreases keys.len(),
{
    if keys.len() > 0 {
        let init = keys.drop_last();
        law_settings_list_only_entries(e, init);
        let rest = present_pairs(e, init);
        assert forall|j: int| 0 <= j < present_pairs(e, keys).len() implies pair_of_entry(e, keys, #[trigger] present_pairs(e, keys)[j]) by {
            if j < rest.len() {
                assert(present_pairs(e, keys)[j] == rest[j]);
                assert(pair_of_entry(e, init, rest[j]));
                let i = choose|i: int|
                    0 <= i < init.len() && init[i] == rest[j].0 && (#[trigger] entry_at(e, init[i]) matches Some(b)
                        && valid_utf8(b) && decode_utf8(b) == rest[j].1);
                assert(keys[i] == init[i]);
            } else {
                let i = keys.len() - 1;
                assert(keys[i] == keys.last());
            }
        }
    }
}

/// Writing text `v` under key `k` and then listing the settings `[k]` gives
/// exactly `[(k, v)]`, for every `v`, the empty text included.
pub proof fn law_setting_listed_after_write(e: Map<Seq<u8>, Seq<u8>>, k: Seq<char>, v: Seq<char>)
    ensures
        present_pairs(e.insert(encode_utf8(k), encode_utf8(v)), seq![k]) == seq![(k, v)],
{
    let w = e.insert(encode_utf8(k), encode_utf8(v));
    assert(entry_at(w, k) == Some(encode_utf8(v)));
    let ks = seq![k];
    assert(ks.drop_last() =~= Seq::<Seq<char>>::empty());
    assert(ks.last() == k);
    assert(present_pairs(w, ks.drop_last()) =~= Seq::<(Seq<char>, Seq<char>)>::empty());
    assert(valid_utf8(encode_utf8(v)) && decode_utf8(encode_utf8(v)) == v);
    assert(present_pairs(w, ks) == Seq::<(Seq<char>, Seq<char>)>::empty().push((k, v)));
    assert(present_pairs(w, ks) =~= seq![(k, v)]);
}


/// The API target of a scheme address that decodes to a URL is that URL's
/// path, `?`, and its whole query as the URL parser gives it (empty when it
/// has none), whatever the query holds; an address that does not decode, or
/// whose URL does not parse, is refused with 400.
pub proof fn law_proxy_target_keeps_path_and_query(uri: Seq<char>)
    ensures
        match decoded_address(strip_leading(uri, scheme_prefix())) {
            Ok(a) => match (url_path_text(a), url_query_text(a)) {
                (Some(p), Some(Some(q))) => proxy_target(uri) == Ok::<Seq<char>, u16>(p + seq!['?'] + q),
                (Some(p), Some(None)) => proxy_target(uri) == Ok::<Seq<char>, u16>(p + seq!['?']),
                _ => proxy_target(uri) == Err::<Seq<char>, u16>(400),
            },
            Err(_) => proxy_target(uri) == Err::<Seq<char>, u16>(400),
        },
{
    reveal_strlit("?");
    assert("?"@ =~= seq!['?']);
    if let Ok(a) = decoded_address(strip_leading(uri, scheme_prefix())) {
        if let (Some(p), Some(None)) = (url_path_text(a), url_query_text(a)) {
            assert(p + "?"@ + Seq::<char>::empty() =~= p + seq!['?']);
        }
    }
}


/// When every requested key has a text entry, listing the settings gives
/// one pair per key, in the order the keys were asked for.
pub proof fn law_settings_list_in_key_order(e: Map<Seq<u8>, Seq<u8>>, keys: Seq<Seq<char>>)
    requires
        forall|i: int| 0 <= i < keys.len() ==> (#[trigger] entry_at(e, keys[i]) matches Some(b) && valid_utf8(b)),
    ensures
        present_pairs(e, keys).len() == keys.len(),
        forall|i: int| 0 <= i < keys.len() ==> #[trigger] present_pairs(e, keys)[i] == (
            keys[i],
            decode_utf8(entry_at(e, keys[i]).unwrap()),
        ),
    decreases keys.len(),
{
    if keys.len() > 0 {
        let init = keys.drop_last();
        assert forall|i: int| 0 <= i < init.len() implies (#[trigger] entry_at(e, init[i]) matches Some(b) && valid_utf8(b)) by {
            assert(init[i] == keys[i]);
        }
        law_settings_list_in_key_order(e, init);
        let last = keys.len() - 1;
        assert(entry_at(e, keys[last]) matches Some(b) && valid_utf8(b));
        assert forall|i: int| 0 <= i < keys.len() implies #[trigger] present_pairs(e, keys)[i] == (
            keys[i],
            decode_utf8(entry_at(e, keys[i]).unwrap()),
        ) by {
            if i < last {
                assert(init[i] == keys[i]);
            }
        }
    }
}


/// The server path a scheme address asks the configured server for is the
/// decoded URL's whole path; an address that does not decode, or whose URL
/// does not parse, is refused with 400.
pub proof fn law_proxy_path_is_the_url_path(uri: Seq<char>)
    ensures
        match decoded_address(strip_leading(uri, scheme_prefix())) {
            Ok(a) => match url_path_text(a) {
                Some(p) => proxy_path(uri) == Ok::<Seq<char>, u16>(p),
                None => proxy_path(uri) == Err::<Seq<char>, u16>(400),
            },
            Err(_) => proxy_path(uri) == Err::<Seq<char>, u16>(400),
        },
{
}

} // verus!
