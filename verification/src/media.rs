//! Recognising photos and videos on the device and naming them for the
//! user interface.
use vstd::prelude::*;
use vstd::string::*;

use crate::path::{extension, extension_of};
use crate::text::{chars_of, concat2, eq_lowercase, fold_lower_seq, push_char};

verus! {

/// The MD5 digest of `data`.
pub uninterp spec fn md5_of(data: Seq<u8>) -> Seq<u8>;

/// Computes the MD5 digest of `data` with the md5 crate's `compute`: its
/// sixteen bytes.
#[verifier::external_body]
pub(crate) fn md5_digest(data: &[u8]) -> (r: [u8; 16])
    ensures
        r@ == md5_of(data@),
{
    md5::compute(data).0
}

/// The lower-case hexadecimal digit for `d` (below 16).
pub open spec fn hex_digit(d: nat) -> char {
    if d < 10 {
        ((d + 48) as u32) as char
    } else {
        ((d + 87) as u32) as char
    }
}

/// `bytes` written as two lower-case hexadecimal digits each.
pub open spec fn lower_hex(bytes: Seq<u8>) -> Seq<char>
    decreases bytes.len(),
{
    if bytes.len() == 0 {
        Seq::empty()
    } else {
        lower_hex(bytes.drop_last()) + seq![
            hex_digit((bytes.last() / 16) as nat),
            hex_digit((bytes.last() % 16) as nat),
        ]
    }
}

fn hex_char(d: u8) -> (c: char)
    requires
        d < 16,
    ensures
        c == hex_digit(d as nat),
{
    let cs: [char; 16] = ['0', '1', '2', '3', '4', '5', '6', '7', '8', '9', 'a', 'b', 'c', 'd', 'e', 'f'];
    assert(cs@[0] == '0' && cs@[1] == '1' && cs@[2] == '2' && cs@[3] == '3');
    assert(cs@[4] == '4' && cs@[5] == '5' && cs@[6] == '6' && cs@[7] == '7');
    assert(cs@[8] == '8' && cs@[9] == '9' && cs@[10] == 'a' && cs@[11] == 'b');
    assert(cs@[12] == 'c' && cs@[13] == 'd' && cs@[14] == 'e' && cs@[15] == 'f');
    cs[d as usize]
}

/// Writes `bytes` as lower-case hexadecimal (the `{:x}` form of a digest).
pub fn to_lower_hex(bytes: &[u8]) -> (r: String)
    ensures
        r@ == lower_hex(bytes@),
{
    let mut r = String::new();
    let mut i: usize = 0;
    while i < bytes.len()
        invariant
            i <= bytes@.len(),
            r@ == lower_hex(bytes@.take(i as int)),
        decreases bytes.len() - i,
    {
        let b = bytes[i];
        assert(bytes@.take(i + 1).drop_last() =~= bytes@.take(i as int));
        push_char(&mut r, hex_char(b / 16));
        push_char(&mut r, hex_char(b % 16));
        assert(r@ =~= lower_hex(bytes@.take(i + 1)));
        i = i + 1;
    }
    assert(bytes@.take(bytes@.len() as int) =~= bytes@);
    r
}

/// The identifier derived from a file's path: the lower-case hexadecimal
/// MD5 digest of the path's UTF-8 bytes.
pub fn generate_file_id(path: &str) -> (r: String)
    ensures
        r@ == lower_hex(md5_of(path.spec_bytes())),
{
    let digest = md5_digest(path.as_bytes());
    to_lower_hex(&digest)
}

/// Whether a lower-case extension is one of a photo.
pub open spec fn is_image_ext(x: Seq<char>) -> bool {
    x == "jpg"@ || x == "jpeg"@ || x == "png"@ || x == "gif"@ || x == "bmp"@ || x == "webp"@
}

/// Whether a lower-case extension is one of a video.
pub open spec fn is_video_ext(x: Seq<char>) -> bool {
    x == "mp4"@ || x == "mkv"@ || x == "avi"@ || x == "mov"@ || x == "webm"@ || x == "3gp"@
}

/// Whether the path's extension, in lower case, is one of a photo.
pub open spec fn is_image_path(p: Seq<char>) -> bool {
    match extension_of(p) {
        Some(x) => is_image_ext(fold_lower_seq(x)),
        None => false,
    }
}

/// Whether the path's extension, in lower case, is one of a video.
pub open spec fn is_video_path(p: Seq<char>) -> bool {
    match extension_of(p) {
        Some(x) => is_video_ext(fold_lower_seq(x)),
        None => false,
    }
}

/// Whether the file at `path` is a photo, by its extension.
pub fn is_image_file(path: &str) -> (r: bool)
    ensures
        r == is_image_path(path@),
{
    let cs = chars_of(path);
    match extension(&cs) {
        Some(x) => eq_lowercase(&x, "jpg") || eq_lowercase(&x, "jpeg")
            || eq_lowercase(&x, "png") || eq_lowercase(&x, "gif")
            || eq_lowercase(&x, "bmp") || eq_lowercase(&x, "webp"),
        None => false,
    }
}

/// Whether the file at `path` is a video, by its extension.
pub fn is_video_file(path: &str) -> (r: bool)
    ensures
        r == is_video_path(path@),
{
    let cs = chars_of(path);
    match extension(&cs) {
        Some(x) => eq_lowercase(&x, "mp4") || eq_lowercase(&x, "mkv")
            || eq_lowercase(&x, "avi") || eq_lowercase(&x, "mov")
            || eq_lowercase(&x, "webm") || eq_lowercase(&x, "3gp"),
        None => false,
    }
}

/// The content type of a photo or video by its lower-case extension.
pub open spec fn media_mime_for_ext(x: Seq<char>) -> Seq<char> {
    if x == "jpg"@ || x == "jpeg"@ {
        "image/jpeg"@
    } else if x == "png"@ {
        "image/png"@
    } else if x == "gif"@ {
        "image/gif"@
    } else if x == "bmp"@ {
        "image/bmp"@
    } else if x == "webp"@ {
        "image/webp"@
    } else if x == "mp4"@ {
        "video/mp4"@
    } else if x == "mkv"@ {
        "video/x-matroska"@
    } else if x == "avi"@ {
        "video/x-msvideo"@
    } else if x == "mov"@ {
        "video/quicktime"@
    } else if x == "webm"@ {
        "video/webm"@
    } else if x == "3gp"@ {
        "video/3gpp"@
    } else {
        "application/octet-stream"@
    }
}

/// The content type of a photo or video file by its path's extension,
/// in lower case; `application/octet-stream` otherwise.
pub open spec fn media_mime_of(p: Seq<char>) -> Seq<char> {
    match extension_of(p) {
        Some(x) => media_mime_for_ext(fold_lower_seq(x)),
        None => "application/octet-stream"@,
    }
}

/// The content type of the photo or video at `path` (see `media_mime_of`).
pub fn get_media_mime_type(path: &str) -> (r: String)
    ensures
        r@ == media_mime_of(path@),
{
    let cs = chars_of(path);
    match extension(&cs) {
        Some(x) => {
            if eq_lowercase(&x, "jpg") || eq_lowercase(&x, "jpeg") {
                String::from_str("image/jpeg")
            } else if eq_lowercase(&x, "png") {
                String::from_str("image/png")
            } else if eq_lowercase(&x, "gif") {
                String::from_str("image/gif")
            } else if eq_lowercase(&x, "bmp") {
                String::from_str("image/bmp")
            } else if eq_lowercase(&x, "webp") {
                String::from_str("image/webp")
            } else if eq_lowercase(&x, "mp4") {
                String::from_str("video/mp4")
            } else if eq_lowercase(&x, "mkv") {
                String::from_str("video/x-matroska")
            } else if eq_lowercase(&x, "avi") {
                String::from_str("video/x-msvideo")
            } else if eq_lowercase(&x, "mov") {
                String::from_str("video/quicktime")
            } else if eq_lowercase(&x, "webm") {
                String::from_str("video/webm")
            } else if eq_lowercase(&x, "3gp") {
                String::from_str("video/3gpp")
            } else {
                String::from_str("application/octet-stream")
            }
        },
        None => String::from_str("application/octet-stream"),
    }
}

/// What a scanned file is taken for.
#[derive(Debug, Clone, Copy, PartialEq, Eq, Structural)]
pub enum MediaKind {
    Image,
    Video,
}

/// How a scanned file at `path` is listed: as a photo when photos are
/// included and it is one, else as a video when videos are included and it is
/// one, else not at all.
pub fn classify_media(path: &str, include_images: bool, include_videos: bool) -> (r: Option<MediaKind>)
    ensures
        r == (if include_images && is_image_path(path@) {
            Some(MediaKind::Image)
        } else if include_videos && is_video_path(path@) {
            Some(MediaKind::Video)
        } else {
            None::<MediaKind>
        }),
{
    let is_image = include_images && is_image_file(path);
    let is_video = include_videos && is_video_file(path);
    if is_image {
        Some(MediaKind::Image)
    } else if is_video {
        Some(MediaKind::Video)
    } else {
        None
    }
}

/// The identifier a scanned file is listed under: `img-` or `vid-` and the
/// hexadecimal MD5 digest of its path.
pub fn media_id(path: &str, kind: MediaKind) -> (r: String)
    ensures
        r@ == (match kind {
            MediaKind::Image => "img-"@,
            MediaKind::Video => "vid-"@,
        }) + lower_hex(md5_of(path.spec_bytes())),
{
    let id = generate_file_id(path);
    match kind {
        MediaKind::Image => concat2("img-", id.as_str()),
        MediaKind::Video => concat2("vid-", id.as_str()),
    }
}

/// The address a scanned file is shown from.
pub fn media_uri(path: &str) -> (r: String)
    ensures
        r@ == "file://"@ + path@,
{
    concat2("file://", path)
}

/// The time a scanned file is dated by: its modification time when the file
/// system reports one, the current time otherwise (both as the caller's
/// clock values).
pub fn get_file_time(modified: Option<u64>, now: u64) -> (r: u64)
    ensures
        r == match modified {
            Some(t) => t,
            None => now,
        },
{
    match modified {
        Some(t) => t,
        None => now,
    }
}


/// `a` comes before `b` in byte order, the order of Rust's `str` and
/// `Vec<u8>`: at the first place where they differ the byte of `a` is
/// smaller, or `a` ends there and `b` goes on.
pub open spec fn bytes_lt(a: Seq<u8>, b: Seq<u8>) -> bool
    decreases a.len(),
{
    if b.len() == 0 {
        false
    } else if a.len() == 0 {
        true
    } else if a[0] != b[0] {
        a[0] < b[0]
    } else {
        bytes_lt(a.subrange(1, a.len() as int), b.subrange(1, b.len() as int))
    }
}

/// Byte order is asymmetric: no text comes both before and after another.
pub proof fn lemma_bytes_lt_asymmetric(a: Seq<u8>, b: Seq<u8>)
    ensures
        bytes_lt(a, b) ==> !bytes_lt(b, a),
    decreases a.len(),
{
    if a.len() > 0 && b.len() > 0 && a[0] == b[0] {
        lemma_bytes_lt_asymmetric(a.subrange(1, a.len() as int), b.subrange(1, b.len() as int));
    }
}

/// Where `a` comes before `c`, any `b` comes after `a` or before `c`.
pub proof fn lemma_bytes_lt_split(a: Seq<u8>, b: Seq<u8>, c: Seq<u8>)
    ensures
        bytes_lt(a, c) ==> bytes_lt(a, b) || bytes_lt(b, c),
    decreases a.len(),
{
    if a.len() > 0 && b.len() > 0 && c.len() > 0 && a[0] == b[0] && b[0] == c[0] {
        lemma_bytes_lt_split(
            a.subrange(1, a.len() as int),
            b.subrange(1, b.len() as int),
            c.subrange(1, c.len() as int),
        );
    }
}

/// Two different byte strings are ordered one way or the other.
pub proof fn lemma_bytes_lt_total(a: Seq<u8>, b: Seq<u8>)
    ensures
        a != b ==> bytes_lt(a, b) || bytes_lt(b, a),
    decreases a.len(),
{
    if a.len() > 0 && b.len() > 0 && a[0] == b[0] {
        let (ta, tb) = (a.subrange(1, a.len() as int), b.subrange(1, b.len() as int));
        lemma_bytes_lt_total(ta, tb);
        if ta == tb {
            assert(a =~= seq![a[0]] + ta);
            assert(b =~= seq![b[0]] + tb);
        }
    } else if a.len() == 0 && b.len() == 0 {
        assert(a =~= b);
    }
}

/// Whether `a` comes before `b` in byte order.
pub fn bytes_before(a: &Vec<u8>, b: &Vec<u8>) -> (r: bool)
    ensures
        r == bytes_lt(a@, b@),
{
    let mut i: usize = 0;
    assert(a@.subrange(0, a.len() as int) =~= a@);
    assert(b@.subrange(0, b.len() as int) =~= b@);
    while i < a.len() && i < b.len() && a[i] == b[i]
        invariant
            i <= a.len(),
            i <= b.len(),
            bytes_lt(a@, b@) == bytes_lt(a@.subrange(i as int, a.len() as int), b@.subrange(i as int, b.len() as int)),
        decreases a.len() - i,
    {
        assert(a@.subrange(i as int, a.len() as int).subrange(1, a.len() - i) =~= a@.subrange(i + 1, a.len() as int));
        assert(b@.subrange(i as int, b.len() as int).subrange(1, b.len() - i) =~= b@.subrange(i + 1, b.len() as int));
        i = i + 1;
    }
    if i < a.len() && i < b.len() {
        a[i] < b[i]
    } else {
        i == a.len() && i < b.len()
    }
}


/// `r` lists the indices `0..n` of `keys`, each once, from the latest key to
/// the earliest in byte order, indices with equal keys in their own order.
pub open spec fn newest_first_prefix(keys: Seq<Vec<u8>>, n: int, r: Seq<usize>) -> bool {
    &&& r.len() == n
    &&& forall|i: int| 0 <= i < r.len() ==> r[i] < n
    &&& forall|j: int, k: int| 0 <= j < k < r.len() ==> r[j] != r[k]
    &&& forall|j: int, k: int|
        0 <= j < k < r.len() ==> !bytes_lt(keys[r[j] as int]@, keys[r[k] as int]@)
    &&& forall|j: int, k: int|
        0 <= j < k < r.len() && keys[r[j] as int]@ == keys[r[k] as int]@ ==> r[j] < r[k]
}

/// `r` is the newest-first order of all of `keys`: a stable sort of the
/// indices by key, latest first.
pub open spec fn is_newest_first(keys: Seq<Vec<u8>>, r: Seq<usize>) -> bool {
    newest_first_prefix(keys, keys.len() as int, r)
}

/// The order in which items with the given date keys are listed, newest
/// first: the indices of `keys`, sorted by key from the latest to the
/// earliest in byte order, items with equal keys keeping their order.
pub fn newest_first(keys: &Vec<Vec<u8>>) -> (r: Vec<usize>)
    ensures
        is_newest_first(keys@, r@),
{
    let mut res: Vec<usize> = Vec::new();
    let mut n: usize = 0;
    while n < keys.len()
        invariant
            n <= keys.len(),
            newest_first_prefix(keys@, n as int, res@),
        decreases keys.len() - n,
    {
        let mut p: usize = res.len();
        while p > 0 && bytes_before(&keys[res[p - 1]], &keys[n])
            invariant
                p <= res.len(),
                n < keys.len(),
                newest_first_prefix(keys@, n as int, res@),
                forall|q: int| p <= q < res.len() ==> bytes_lt(keys@[res@[q] as int]@, keys@[n as int]@),
            decreases p,
        {
            p = p - 1;
        }
        let ghost old_res = res@;
        let ghost kn = keys@[n as int]@;
        proof {
            assert forall|q: int| 0 <= q < p implies !bytes_lt(keys@[old_res[q] as int]@, kn) by {
                if q < p - 1 {
                    lemma_bytes_lt_split(keys@[old_res[q] as int]@, keys@[old_res[p - 1] as int]@, kn);
                }
            }
        }
        res.insert(p, n);
        proof {
            let r = res@;
            assert forall|i: int| 0 <= i < r.len() implies r[i] < n + 1 by {
                if i > p {
                    assert(r[i] == old_res[i - 1]);
                }
            }
            assert forall|j: int, k: int| 0 <= j < k < r.len() implies r[j] != r[k]
                && !bytes_lt(keys@[r[j] as int]@, keys@[r[k] as int]@)
                && (keys@[r[j] as int]@ == keys@[r[k] as int]@ ==> r[j] < r[k]) by {
                if k < p {
                    assert(r[j] == old_res[j] && r[k] == old_res[k]);
                } else if k == p {
                    assert(r[j] == old_res[j]);
                } else if j < p {
                    assert(r[j] == old_res[j] && r[k] == old_res[k - 1]);
                } else if j == p {
                    assert(r[k] == old_res[k - 1]);
                    lemma_bytes_lt_asymmetric(keys@[old_res[k - 1] as int]@, kn);
                    lemma_bytes_lt_asymmetric(kn, kn);
                } else {
                    assert(r[j] == old_res[j - 1] && r[k] == old_res[k - 1]);
                }
            }
        }
        n = n + 1;
    }
    res
}


/// Whether `r` names the index `x`.
spec fn order_names(r: Seq<usize>, x: int) -> bool {
    exists|i: int| 0 <= i < r.len() && r[i] == x
}

/// An order of `n` distinct indices below `n` names every index below `n`.
proof fn lemma_order_covers(r: Seq<usize>, n: nat)
    requires
        r.len() == n,
        forall|i: int| 0 <= i < r.len() ==> r[i] < n,
        forall|j: int, k: int| 0 <= j < k < r.len() ==> r[j] != r[k],
    ensures
        forall|x: int| 0 <= x < n ==> #[trigger] order_names(r, x),
{
    broadcast use vstd::set::group_set_axioms, vstd::seq_lib::group_seq_properties;
    let s = r.map_values(|v: usize| v as int);
    assert forall|a: int, b: int| 0 <= a < s.len() && 0 <= b < s.len() && a != b implies s[a] != s[b] by {
        if a < b {
            assert(r[a] != r[b]);
        } else {
            assert(r[b] != r[a]);
        }
    }
    assert(s.no_duplicates());
    s.unique_seq_to_set();
    let range = vstd::set_lib::set_int_range(0, n as int);
    vstd::set_lib::lemma_int_range(0, n as int);
    assert(s.to_set().subset_of(range));
    vstd::set_lib::lemma_subset_equality(s.to_set(), range);
    assert forall|x: int| 0 <= x < n implies #[trigger] order_names(r, x) by {
        assert(range.contains(x));
        assert(s.to_set().contains(x));
        assert(s.contains(x));
        let i = choose|i: int| 0 <= i < s.len() && s[i] == x;
        assert(r[i] == x);
    }
}

/// Two newest-first orders of the same keys agree up to `i`.
proof fn lemma_newest_first_prefix_agrees(keys: Seq<Vec<u8>>, r1: Seq<usize>, r2: Seq<usize>, i: nat)
    requires
        is_newest_first(keys, r1),
        is_newest_first(keys, r2),
        i <= r1.len(),
    ensures
        forall|j: int| 0 <= j < i ==> r1[j] == r2[j],
    decreases i,
{
    if i > 0 {
        lemma_newest_first_prefix_agrees(keys, r1, r2, (i - 1) as nat);
        let p = i - 1;
        let a = r1[p];
        let b = r2[p];
        if a != b {
            lemma_order_covers(r1, keys.len());
            lemma_order_covers(r2, keys.len());
            assert(order_names(r1, b as int));
            assert(order_names(r2, a as int));
            let j = choose|j: int| 0 <= j < r1.len() && r1[j] == b as int;
            let j2 = choose|j: int| 0 <= j < r2.len() && r2[j] == a as int;
            if j < p {
                assert(r2[j] == b);
            }
            if j2 < p {
                assert(r1[j2] == a);
            }
            lemma_bytes_lt_total(keys[a as int]@, keys[b as int]@);
        }
    }
}

/// The newest-first order of a list of keys is determined by the keys: any
/// two orders that sort the indices latest first, keeping equal keys in
/// their own order, are the same.
pub proof fn law_newest_first_is_unique(keys: Seq<Vec<u8>>, r1: Seq<usize>, r2: Seq<usize>)
    requires
        is_newest_first(keys, r1),
        is_newest_first(keys, r2),
    ensures
        r1 == r2,
{
    lemma_newest_first_prefix_agrees(keys, r1, r2, r1.len());
    assert(r1 =~= r2);
}


/// Whether the lower-case extension `x` is one of the photo extensions:
/// jpg, jpeg, png, gif, bmp, webp.
pub open spec fn listed_image_ext(x: Seq<char>) -> bool {
    ||| x == seq!['j', 'p', 'g']
    ||| x == seq!['j', 'p', 'e', 'g']
    ||| x == seq!['p', 'n', 'g']
    ||| x == seq!['g', 'i', 'f']
    ||| x == seq!['b', 'm', 'p']
    ||| x == seq!['w', 'e', 'b', 'p']
}

/// Whether the lower-case extension `x` is one of the video extensions:
/// mp4, mkv, avi, mov, webm, 3gp.
pub open spec fn listed_video_ext(x: Seq<char>) -> bool {
    ||| x == seq!['m', 'p', '4']
    ||| x == seq!['m', 'k', 'v']
    ||| x == seq!['a', 'v', 'i']
    ||| x == seq!['m', 'o', 'v']
    ||| x == seq!['w', 'e', 'b', 'm']
    ||| x == seq!['3', 'g', 'p']
}

/// The texts of the media extensions and content types.
proof fn lemma_media_literals()
    ensures
        "jpg"@ == seq!['j', 'p', 'g'],
        "jpeg"@ == seq!['j', 'p', 'e', 'g'],
        "png"@ == seq!['p', 'n', 'g'],
        "gif"@ == seq!['g', 'i', 'f'],
        "bmp"@ == seq!['b', 'm', 'p'],
        "webp"@ == seq!['w', 'e', 'b', 'p'],
        "mp4"@ == seq!['m', 'p', '4'],
        "mkv"@ == seq!['m', 'k', 'v'],
        "avi"@ == seq!['a', 'v', 'i'],
        "mov"@ == seq!['m', 'o', 'v'],
        "webm"@ == seq!['w', 'e', 'b', 'm'],
        "3gp"@ == seq!['3', 'g', 'p'],
        "image/jpeg"@ == seq!['i', 'm', 'a', 'g', 'e', '/', 'j', 'p', 'e', 'g'],
        "image/png"@ == seq!['i', 'm', 'a', 'g', 'e', '/', 'p', 'n', 'g'],
        "image/gif"@ == seq!['i', 'm', 'a', 'g', 'e', '/', 'g', 'i', 'f'],
        "image/bmp"@ == seq!['i', 'm', 'a', 'g', 'e', '/', 'b', 'm', 'p'],
        "image/webp"@ == seq!['i', 'm', 'a', 'g', 'e', '/', 'w', 'e', 'b', 'p'],
        "video/mp4"@ == seq!['v', 'i', 'd', 'e', 'o', '/', 'm', 'p', '4'],
        "video/x-matroska"@ == seq!['v', 'i', 'd', 'e', 'o', '/', 'x', '-', 'm', 'a', 't', 'r', 'o', 's', 'k', 'a'],
        "video/x-msvideo"@ == seq!['v', 'i', 'd', 'e', 'o', '/', 'x', '-', 'm', 's', 'v', 'i', 'd', 'e', 'o'],
        "video/quicktime"@ == seq!['v', 'i', 'd', 'e', 'o', '/', 'q', 'u', 'i', 'c', 'k', 't', 'i', 'm', 'e'],
        "video/webm"@ == seq!['v', 'i', 'd', 'e', 'o', '/', 'w', 'e', 'b', 'm'],
        "video/3gpp"@ == seq!['v', 'i', 'd', 'e', 'o', '/', '3', 'g', 'p', 'p'],
        "application/octet-stream"@ == seq!['a', 'p', 'p', 'l', 'i', 'c', 'a', 't', 'i', 'o', 'n', '/', 'o', 'c', 't', 'e', 't', '-', 's', 't', 'r', 'e', 'a', 'm'],
{
    reveal_strlit("jpg");
    assert("jpg"@ =~= seq!['j', 'p', 'g']);
    reveal_strlit("jpeg");
    assert("jpeg"@ =~= seq!['j', 'p', 'e', 'g']);
    reveal_strlit("png");
    assert("png"@ =~= seq!['p', 'n', 'g']);
    reveal_strlit("gif");
    assert("gif"@ =~= seq!['g', 'i', 'f']);
    reveal_strlit("bmp");
    assert("bmp"@ =~= seq!['b', 'm', 'p']);
    reveal_strlit("webp");
    assert("webp"@ =~= seq!['w', 'e', 'b', 'p']);
    reveal_strlit("mp4");
    assert("mp4"@ =~= seq!['m', 'p', '4']);
    reveal_strlit("mkv");
    assert("mkv"@ =~= seq!['m', 'k', 'v']);
    reveal_strlit("avi");
    assert("avi"@ =~= seq!['a', 'v', 'i']);
    reveal_strlit("mov");
    assert("mov"@ =~= seq!['m', 'o', 'v']);
    reveal_strlit("webm");
    assert("webm"@ =~= seq!['w', 'e', 'b', 'm']);
    reveal_strlit("3gp");
    assert("3gp"@ =~= seq!['3', 'g', 'p']);
    reveal_strlit("image/jpeg");
    assert("image/jpeg"@ =~= seq!['i', 'm', 'a', 'g', 'e', '/', 'j', 'p', 'e', 'g']);
    reveal_strlit("image/png");
    assert("image/png"@ =~= seq!['i', 'm', 'a', 'g', 'e', '/', 'p', 'n', 'g']);
    reveal_strlit("image/gif");
    assert("image/gif"@ =~= seq!['i', 'm', 'a', 'g', 'e', '/', 'g', 'i', 'f']);
    reveal_strlit("image/bmp");
    assert("image/bmp"@ =~= seq!['i', 'm', 'a', 'g', 'e', '/', 'b', 'm', 'p']);
    reveal_strlit("image/webp");
    assert("image/webp"@ =~= seq!['i', 'm', 'a', 'g', 'e', '/', 'w', 'e', 'b', 'p']);
    reveal_strlit("video/mp4");
    assert("video/mp4"@ =~= seq!['v', 'i', 'd', 'e', 'o', '/', 'm', 'p', '4']);
    reveal_strlit("video/x-matroska");
    assert("video/x-matroska"@ =~= seq!['v', 'i', 'd', 'e', 'o', '/', 'x', '-', 'm', 'a', 't', 'r', 'o', 's', 'k', 'a']);
    reveal_strlit("video/x-msvideo");
    assert("video/x-msvideo"@ =~= seq!['v', 'i', 'd', 'e', 'o', '/', 'x', '-', 'm', 's', 'v', 'i', 'd', 'e', 'o']);
    reveal_strlit("video/quicktime");
    assert("video/quicktime"@ =~= seq!['v', 'i', 'd', 'e', 'o', '/', 'q', 'u', 'i', 'c', 'k', 't', 'i', 'm', 'e']);
    reveal_strlit("video/webm");
    assert("video/webm"@ =~= seq!['v', 'i', 'd', 'e', 'o', '/', 'w', 'e', 'b', 'm']);
    reveal_strlit("video/3gpp");
    assert("video/3gpp"@ =~= seq!['v', 'i', 'd', 'e', 'o', '/', '3', 'g', 'p', 'p']);
    reveal_strlit("application/octet-stream");
    assert("application/octet-stream"@ =~= seq!['a', 'p', 'p', 'l', 'i', 'c', 'a', 't', 'i', 'o', 'n', '/', 'o', 'c', 't', 'e', 't', '-', 's', 't', 'r', 'e', 'a', 'm']);
}

/// A file is a photo exactly when its extension, in any case, is jpg, jpeg,
/// png, gif, bmp or webp, and a video exactly when it is mp4, mkv, avi, mov,
/// webm or 3gp; a file without an extension is neither, and none is both.
pub proof fn law_media_kinds_by_extension(p: Seq<char>, include_images: bool, include_videos: bool)
    ensures
        is_image_path(p) <==> (extension_of(p) matches Some(x) && listed_image_ext(fold_lower_seq(x))),
        is_video_path(p) <==> (extension_of(p) matches Some(x) && listed_video_ext(fold_lower_seq(x))),
        !(is_image_path(p) && is_video_path(p)),
{
    lemma_media_literals();
    if let Some(x) = extension_of(p) {
        let y = fold_lower_seq(x);
        assert(is_image_ext(y) <==> listed_image_ext(y));
        assert(is_video_ext(y) <==> listed_video_ext(y));
    }
}

/// The content type of a photo or video follows its extension in any case:
/// jpg and jpeg give image/jpeg, png image/png, gif image/gif, bmp
/// image/bmp, webp image/webp, mp4 video/mp4, mkv video/x-matroska, avi
/// video/x-msvideo, mov video/quicktime, webm video/webm, 3gp video/3gpp;
/// any other extension, or none, gives application/octet-stream.
pub proof fn law_media_types_by_extension(p: Seq<char>)
    ensures
        media_mime_of(p) == match extension_of(p) {
            None => seq!['a', 'p', 'p', 'l', 'i', 'c', 'a', 't', 'i', 'o', 'n', '/', 'o', 'c', 't', 'e', 't', '-', 's', 't', 'r', 'e', 'a', 'm'],
            Some(x) => {
                let y = fold_lower_seq(x);
                if y == seq!['j', 'p', 'g'] || y == seq!['j', 'p', 'e', 'g'] {
                    seq!['i', 'm', 'a', 'g', 'e', '/', 'j', 'p', 'e', 'g']
                } else if y == seq!['p', 'n', 'g'] {
                    seq!['i', 'm', 'a', 'g', 'e', '/', 'p', 'n', 'g']
                } else if y == seq!['g', 'i', 'f'] {
                    seq!['i', 'm', 'a', 'g', 'e', '/', 'g', 'i', 'f']
                } else if y == seq!['b', 'm', 'p'] {
                    seq!['i', 'm', 'a', 'g', 'e', '/', 'b', 'm', 'p']
                } else if y == seq!['w', 'e', 'b', 'p'] {
                    seq!['i', 'm', 'a', 'g', 'e', '/', 'w', 'e', 'b', 'p']
                } else if y == seq!['m', 'p', '4'] {
                    seq!['v', 'i', 'd', 'e', 'o', '/', 'm', 'p', '4']
                } else if y == seq!['m', 'k', 'v'] {
                    seq!['v', 'i', 'd', 'e', 'o', '/', 'x', '-', 'm', 'a', 't', 'r', 'o', 's', 'k', 'a']
                } else if y == seq!['a', 'v', 'i'] {
                    seq!['v', 'i', 'd', 'e', 'o', '/', 'x', '-', 'm', 's', 'v', 'i', 'd', 'e', 'o']
                } else if y == seq!['m', 'o', 'v'] {
                    seq!['v', 'i', 'd', 'e', 'o', '/', 'q', 'u', 'i', 'c', 'k', 't', 'i', 'm', 'e']
                } else if y == seq!['w', 'e', 'b', 'm'] {
                    seq!['v', 'i', 'd', 'e', 'o', '/', 'w', 'e', 'b', 'm']
                } else if y == seq!['3', 'g', 'p'] {
                    seq!['v', 'i', 'd', 'e', 'o', '/', '3', 'g', 'p', 'p']
                } else {
                    seq!['a', 'p', 'p', 'l', 'i', 'c', 'a', 't', 'i', 'o', 'n', '/', 'o', 'c', 't', 'e', 't', '-', 's', 't', 'r', 'e', 'a', 'm']
                }
            },
        },
{
    lemma_media_literals();
}

} // verus!
