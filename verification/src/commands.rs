//! The decisions behind the user interface's commands: what to ask the
//! server, how to read its replies, and what to hand back.
use vstd::prelude::*;
use vstd::string::*;

use crate::hc::request::{no_headers, with_header_spec, HttpMethod, Request};
use crate::proto::error::{ack_error, Ack, AppError};
use crate::proto::share::GetSharesReq;
use crate::proto::storage::{
    BatchUrlsAck, CreateFileReq, DeleteFileReq, Download, FileItem, FileSrouce, FileTag, GetFilesReq,
    GetThumbURLAck, ShareReq, Upload, UploadSessionReq, };
use crate::state::pair_texts;
use crate::text::{concat2, concat3, has_prefix, starts_with, str_eq};

verus! {

/// The download addresses of a successful reply (none when it carries no
/// data); the server's code and message otherwise.
pub fn batch_urls_result(ack: Ack<BatchUrlsAck>) -> (r: Result<BatchUrlsAck, AppError>)
    ensures
        ack.code == 0 && ack.data is Some ==> r == Ok::<BatchUrlsAck, AppError>(ack.data.unwrap()),
        ack.code == 0 && ack.data is None ==> (r matches Ok(a) && a.expires@.len() == 0 && a.urls@.len()
            == 0),
        ack.code != 0 ==> r == Err::<BatchUrlsAck, AppError>(ack_error(ack)),
{
    if ack.code == 0 {
        if let Some(data) = ack.data {
            return Ok(data);
        }
        return Ok(BatchUrlsAck { expires: String::new(), urls: Vec::new() });
    }
    Err(AppError::Message(ack.code, ack.msg))
}

/// The thumbnail address of a successful reply (empty when it carries no
/// data); the server's code and message otherwise.
pub fn thumb_url_result(ack: Ack<GetThumbURLAck>) -> (r: Result<String, AppError>)
    ensures
        ack.code == 0 && ack.data is Some ==> (r matches Ok(u) && u@ == ack.data.unwrap().url@),
        ack.code == 0 && ack.data is None ==> (r matches Ok(u) && u@.len() == 0),
        ack.code != 0 ==> r == Err::<String, AppError>(ack_error(ack)),
{
    if ack.code == 0 {
        if let Some(data) = ack.data {
            return Ok(data.url);
        }
        return Ok(String::new());
    }
    Err(AppError::Message(ack.code, ack.msg))
}

/// The first source of a successful reply; the server's code and message when
/// the reply failed or lists no source. A successful reply must carry data.
pub fn file_source_result(ack: Ack<Vec<FileSrouce>>) -> (r: Result<FileSrouce, AppError>)
    requires
        ack.code == 0 ==> ack.data is Some,
    ensures
        ack.code == 0 && ack.data.unwrap()@.len() > 0 ==> r == Ok::<FileSrouce, AppError>(
            ack.data.unwrap()@[0],
        ),
        !(ack.code == 0 && ack.data.unwrap()@.len() > 0) ==> r == Err::<FileSrouce, AppError>(
            ack_error(ack),
        ),
{
    if ack.code == 0 {
        match ack.data {
            Some(mut v) => {
                if v.len() > 0 {
                    let first = v.remove(0);
                    return Ok(first);
                }
            },
            None => {},
        }
    }
    Err(AppError::Message(ack.code, ack.msg))
}

/// The transfer's identifier when the server accepted an upload; the server's
/// code and message otherwise.
pub fn upload_result(ack: Ack<String>, id: u32) -> (r: Result<u32, AppError>)
    ensures
        ack.code == 0 ==> r == Ok::<u32, AppError>(id),
        ack.code != 0 ==> r == Err::<u32, AppError>(ack_error(ack)),
{
    if ack.code == 0 {
        Ok(id)
    } else {
        Err(AppError::Message(ack.code, ack.msg))
    }
}

/// A new share of `uri`: private when asked, limited to `downloads` downloads
/// and to `expire` seconds when those are above zero.
pub fn share_file_req(downloads: u64, expire: u64, is_private: bool, uri: &str) -> (r: ShareReq)
    ensures
        r.uri@ == uri@,
        r.is_private == (if is_private { Some(true) } else { None::<bool> }),
        r.downloads == (if downloads > 0 { Some(downloads) } else { None::<u64> }),
        r.expire == (if expire > 0 { Some(expire) } else { None::<u64> }),
{
    let mut req = ShareReq { uri: String::from_str(uri), downloads: None, expire: None, is_private: None };
    if is_private {
        req.is_private = Some(true);
    }
    if downloads > 0 {
        req.downloads = Some(downloads);
    }
    if expire > 0 {
        req.expire = Some(expire);
    }
    req
}

/// An update of a share of `uri`: limited to `downloads` downloads and to
/// `expire` seconds when those are above zero; never private.
pub fn update_share_req(downloads: u8, expire: u64, uri: &str) -> (r: ShareReq)
    ensures
        r.uri@ == uri@,
        r.is_private is None,
        r.downloads == (if downloads > 0 { Some(downloads as u64) } else { None::<u64> }),
        r.expire == (if expire > 0 { Some(expire) } else { None::<u64> }),
{
    let mut req = ShareReq { downloads: None, expire: None, is_private: None, uri: String::from_str(uri) };
    if downloads > 0 {
        req.downloads = Some(downloads as u64);
    }
    if expire > 0 {
        req.expire = Some(expire);
    }
    req
}

/// A deletion of `uris`; a soft deletion keeps the files in the trash.
pub fn delete_file_req(unlink: bool, soft_delete: bool, uris: Vec<String>) -> (r: DeleteFileReq)
    ensures
        r.unlink == unlink,
        r.skip_soft_delete == !soft_delete,
        r.uris == uris,
{
    DeleteFileReq { unlink, skip_soft_delete: !soft_delete, uris }
}

/// The creation of a folder at `uri`, failing on a name conflict.
pub fn create_folder_req(uri: &str) -> (r: CreateFileReq)
    ensures
        r.file_type@ == "folder"@,
        r.err_on_conflict,
        r.uri@ == uri@,
{
    CreateFileReq { file_type: String::from_str("folder"), err_on_conflict: true, uri: String::from_str(uri) }
}

/// An upload session for a file of `size` bytes at `uri`, last modified at
/// `now` (seconds since the Unix epoch).
pub fn upload_session_req(mime_type: &str, uri: &str, size: u64, policy_id: &str, now: u64) -> (r:
    UploadSessionReq)
    ensures
        r.uri@ == uri@,
        r.size == size,
        r.policy_id@ == policy_id@,
        r.last_modified == now,
        r.mime_type@ == mime_type@,
{
    UploadSessionReq {
        uri: String::from_str(uri),
        size,
        policy_id: String::from_str(policy_id),
        last_modified: now,
        mime_type: String::from_str(mime_type),
    }
}

/// The first page of the user's shares, fifty at a time, in `order_direction`.
pub fn get_shares_req(order_direction: &str) -> (r: GetSharesReq)
    ensures
        r.page_size == 50,
        r.order_direction@ == order_direction@,
{
    GetSharesReq { page_size: 50, order_direction: String::from_str(order_direction) }
}

/// The address of a listing of `path`, narrowed to `category` when one is given.
pub open spec fn files_uri_spec(path: Seq<char>, category: Seq<char>) -> Seq<char> {
    if category.len() > 0 {
        path + "?category="@ + category
    } else {
        path
    }
}

/// The address of a listing of `path`, narrowed to `category` when one is given.
pub fn files_uri(path: &str, category: &str) -> (r: String)
    ensures
        r@ == files_uri_spec(path@, category@),
{
    if !category.is_empty() {
        concat3(path, "?category=", category)
    } else {
        String::from_str(path)
    }
}

/// The request for a page of the listing of `path` (narrowed to `category`).
pub fn get_files_req(
    path: &str,
    category: &str,
    page: u64,
    page_size: u64,
    order_by: &str,
    order: &str,
) -> (r: GetFilesReq)
    ensures
        r.page == page,
        r.page_size == page_size,
        r.uri@ == files_uri_spec(path@, category@),
        r.order_by@ == order_by@,
        r.order_direction@ == order@,
{
    GetFilesReq {
        page,
        page_size,
        uri: files_uri(path, category),
        order_by: String::from_str(order_by),
        order_direction: String::from_str(order),
    }
}

/// The address of a search for `name` below `path`.
pub fn search_files_uri(path: &str, name: &str) -> (r: String)
    ensures
        r@ == path@ + "?name="@ + name@ + "&name_op_or=&case_folding="@,
{
    let r = concat3(path, "?name=", name);
    r.concat("&name_op_or=&case_folding=")
}

/// The prefix that marks a metadata key as a tag.
pub open spec fn tag_prefix() -> Seq<char> {
    "tag:"@
}

/// The tags among a file's metadata, in order: each `tag:` key without its
/// prefix, with the entry's value as its colour.
pub open spec fn tags_of(md: Seq<(Seq<char>, Seq<char>)>) -> Seq<(Seq<char>, Seq<char>)>
    decreases md.len(),
{
    if md.len() == 0 {
        Seq::empty()
    } else {
        let rest = tags_of(md.drop_last());
        let (k, v) = md.last();
        if has_prefix(k, tag_prefix()) {
            rest.push((k.skip(4), v))
        } else {
            rest
        }
    }
}

/// The metadata entries of a file, as texts.
pub open spec fn metadata_of(f: FileItem) -> Seq<(Seq<char>, Seq<char>)> {
    match f.metadata {
        Some(m) => pair_texts(m@),
        None => Seq::empty(),
    }
}

/// The tags of a list of file tags, as key-colour texts.
pub open spec fn file_tag_texts(v: Seq<FileTag>) -> Seq<(Seq<char>, Seq<char>)> {
    v.map_values(|t: FileTag| (t.key@, t.color@))
}

/// Whether some file has the metadata key `k`, which is a tag key.
pub open spec fn is_tag_key_of(files: Seq<FileItem>, k: Seq<char>) -> bool {
    has_prefix(k, tag_prefix()) && exists|i: int, j: int|
        0 <= i < files.len() && 0 <= j < metadata_of(files[i]).len() && #[trigger] metadata_of(
            files[i],
        )[j].0 == k
}

/// Whether the keys of `md` are pairwise distinct.
pub open spec fn distinct_keys(md: Seq<(Seq<char>, Seq<char>)>) -> bool {
    forall|a: int, b: int| 0 <= a < b < md.len() ==> #[trigger] md[a].0 != #[trigger] md[b].0
}

/// Whether a listed file's metadata is a map: its keys are distinct, as the
/// keys of the JSON object it was read from are.
pub open spec fn file_item_well_formed(f: FileItem) -> bool {
    distinct_keys(metadata_of(f))
}

/// Whether the keys of `md` are pairwise distinct.
pub fn has_distinct_keys(md: &Vec<(String, String)>) -> (r: bool)
    ensures
        r == distinct_keys(pair_texts(md@)),
{
    let ghost pt = pair_texts(md@);
    let mut b: usize = 0;
    while b < md.len()
        invariant
            pt == pair_texts(md@),
            b <= md.len(),
            forall|x: int, y: int| 0 <= x < y < b ==> #[trigger] pt[x].0 != #[trigger] pt[y].0,
        decreases md.len() - b,
    {
        let mut a: usize = 0;
        while a < b
            invariant
                pt == pair_texts(md@),
                a <= b,
                b < md.len(),
                forall|x: int, y: int| 0 <= x < y < b ==> #[trigger] pt[x].0 != #[trigger] pt[y].0,
                forall|x: int| 0 <= x < a ==> #[trigger] pt[x].0 != pt[b as int].0,
            decreases b - a,
        {
            assert(pt[a as int].0 == md@[a as int].0@ && pt[b as int].0 == md@[b as int].0@);
            if str_eq(md[a].0.as_str(), md[b].0.as_str()) {
                return false;
            }
            a = a + 1;
        }
        b = b + 1;
    }
    true
}

/// Whether `key` is a `tag:` key of `md` without its prefix.
spec fn tag_key_from(md: Seq<(Seq<char>, Seq<char>)>, key: Seq<char>) -> bool {
    exists|j: int| 0 <= j < md.len() && has_prefix(md[j].0, tag_prefix()) && key == md[j].0.skip(4)
}

/// Every tag of `md` is a `tag:` key of `md` without its prefix.
proof fn lemma_tags_come_from_keys(md: Seq<(Seq<char>, Seq<char>)>)
    ensures
        forall|t: int| 0 <= t < tags_of(md).len() ==> tag_key_from(md, #[trigger] tags_of(md)[t].0),
    decreases md.len(),
{
    if md.len() > 0 {
        let init = md.drop_last();
        lemma_tags_come_from_keys(init);
        let rest = tags_of(init);
        assert forall|t: int| 0 <= t < tags_of(md).len() implies tag_key_from(md, #[trigger] tags_of(md)[t].0) by {
            if t < rest.len() {
                assert(tags_of(md)[t] == rest[t]);
                assert(tag_key_from(init, rest[t].0));
                let j = choose|j: int|
                    0 <= j < init.len() && has_prefix(init[j].0, tag_prefix()) && rest[t].0 == init[j].0.skip(4);
                assert(md[j] == init[j]);
            } else {
                let j = md.len() - 1;
                assert(md[j] == md.last());
            }
        }
    }
}

/// Distinct metadata keys give distinct tag keys.
proof fn lemma_tags_distinct(md: Seq<(Seq<char>, Seq<char>)>)
    requires
        distinct_keys(md),
    ensures
        distinct_keys(tags_of(md)),
    decreases md.len(),
{
    reveal_strlit("tag:");
    if md.len() > 0 {
        let init = md.drop_last();
        assert(distinct_keys(init)) by {
            assert forall|a: int, b: int| 0 <= a < b < init.len() implies #[trigger] init[a].0 != #[trigger] init[b].0 by {
                assert(init[a] == md[a] && init[b] == md[b]);
            }
        }
        lemma_tags_distinct(init);
        lemma_tags_come_from_keys(init);
        let (k, v) = md.last();
        let rest = tags_of(init);
        if has_prefix(k, tag_prefix()) {
            assert forall|t: int| 0 <= t < rest.len() implies #[trigger] rest[t].0 != k.skip(4) by {
                assert(tag_key_from(init, rest[t].0));
                let j = choose|j: int|
                    0 <= j < init.len() && has_prefix(init[j].0, tag_prefix()) && #[trigger] rest[t].0 == init[j].0.skip(4);
                if rest[t].0 == k.skip(4) {
                    let kj = init[j].0;
                    assert(kj =~= kj.take(4) + kj.skip(4));
                    assert(k =~= k.take(4) + k.skip(4));
                    assert(kj == k);
                    assert(md[j].0 != md[md.len() - 1].0);
                    assert(md[j] == init[j]);
                }
            }
            let r = tags_of(md);
            assert(r == rest.push((k.skip(4), v)));
            assert forall|a: int, b: int| 0 <= a < b < r.len() implies #[trigger] r[a].0 != #[trigger] r[b].0 by {
                if b == r.len() - 1 {
                    assert(r[a] == rest[a]);
                } else {
                    assert(r[a] == rest[a] && r[b] == rest[b]);
                }
            }
        }
    }
}

/// Whether the texts of `v` are pairwise distinct.
pub open spec fn distinct_texts(v: Seq<String>) -> bool {
    forall|a: int, b: int| 0 <= a < b < v.len() ==> #[trigger] v[a]@ != #[trigger] v[b]@
}

/// Whether `s` occurs (as text) in `v`.
fn contains_text(v: &Vec<String>, s: &str) -> (r: bool)
    ensures
        r == exists|i: int| 0 <= i < v@.len() && #[trigger] v@[i]@ == s@,
{
    let mut i: usize = 0;
    while i < v.len()
        invariant
            i <= v.len(),
            forall|j: int| 0 <= j < i ==> #[trigger] v@[j]@ != s@,
        decreases v.len() - i,
    {
        if str_eq(v[i].as_str(), s) {
            return true;
        }
        i = i + 1;
    }
    false
}

/// The tags of one file's metadata.
fn tags_of_metadata(md: &Vec<(String, String)>) -> (r: Vec<FileTag>)
    ensures
        file_tag_texts(r@) == tags_of(pair_texts(md@)),
{
    proof {
        reveal_strlit("tag:");
    }
    let mut r: Vec<FileTag> = Vec::new();
    let mut i: usize = 0;
    while i < md.len()
        invariant
            i <= md.len(),
            file_tag_texts(r@) == tags_of(pair_texts(md@).take(i as int)),
        decreases md.len() - i,
    {
        let ghost pt = pair_texts(md@);
        assert(pt.take(i + 1).drop_last() =~= pt.take(i as int));
        assert(pt.take(i + 1).last() == pt[i as int]);
        let (k, v) = &md[i];
        if starts_with(k.as_str(), "tag:") {
            proof {
                reveal_strlit("tag:");
            }
            assert(k@.len() >= 4);
            let n = k.as_str().unicode_len();
            let key = k.as_str().substring_char(4, n);
            let tag = FileTag { key: String::from_str(key), color: v.clone() };
            r.push(tag);
            assert(file_tag_texts(r@) =~= file_tag_texts(r@.drop_last()).push((key@, v@)));
            assert(key@ =~= k@.skip(4));
        } else {
            assert(file_tag_texts(r@) == tags_of(pt.take(i + 1)));
        }
        i = i + 1;
    }
    assert(pair_texts(md@).take(md.len() as int) =~= pair_texts(md@));
    r
}

/// The tags of each file, in file order, and the distinct tag keys (with
/// their `tag:` prefix) over all files, in order of first appearance.
pub fn collect_file_tags(files: &Vec<FileItem>) -> (r: (Vec<Vec<FileTag>>, Vec<String>))
    requires
        forall|i: int| 0 <= i < files@.len() ==> file_item_well_formed(#[trigger] files@[i]),
    ensures
        r.0@.len() == files@.len(),
        forall|i: int| 0 <= i < files@.len() ==> file_tag_texts(#[trigger] r.0@[i]@) == tags_of(
            metadata_of(files@[i]),
        ),
        forall|i: int| 0 <= i < files@.len() ==> distinct_keys(file_tag_texts(#[trigger] r.0@[i]@)),
        distinct_texts(r.1@),
        forall|j: int| 0 <= j < r.1@.len() ==> is_tag_key_of(files@, #[trigger] r.1@[j]@),
        forall|k: Seq<char>| #[trigger] is_tag_key_of(files@, k) ==> exists|j: int|
            0 <= j < r.1@.len() && r.1@[j]@ == k,
{
    proof {
        reveal_strlit("tag:");
        assert forall|i: int| 0 <= i < files@.len() implies distinct_keys(tags_of(metadata_of(#[trigger] files@[i]))) by {
            lemma_tags_distinct(metadata_of(files@[i]));
        }
    }
    let mut per_file: Vec<Vec<FileTag>> = Vec::new();
    let mut tags: Vec<String> = Vec::new();
    let mut i: usize = 0;
    while i < files.len()
        invariant
            i <= files.len(),
            per_file@.len() == i,
            forall|a: int| 0 <= a < i ==> file_tag_texts(#[trigger] per_file@[a]@) == tags_of(
                metadata_of(files@[a]),
            ),
            distinct_texts(tags@),
            forall|j: int| 0 <= j < tags@.len() ==> is_tag_key_of(files@, #[trigger] tags@[j]@),
            forall|a: int, b: int|
                0 <= a < i && 0 <= b < metadata_of(files@[a]).len() && has_prefix(
                    #[trigger] metadata_of(files@[a])[b].0,
                    tag_prefix(),
                ) ==> exists|j: int| 0 <= j < tags@.len() && tags@[j]@ == metadata_of(files@[a])[b].0,
        decreases files.len() - i,
    {
        let file = &files[i];
        match &file.metadata {
            Some(md) => {
                let ft = tags_of_metadata(md);
                per_file.push(ft);
                let mut m: usize = 0;
                while m < md.len()
                    invariant
                        i < files.len(),
                        file == files@[i as int],
                        file.metadata == Some(*md),
                        m <= md.len(),
                        distinct_texts(tags@),
                        forall|j: int| 0 <= j < tags@.len() ==> is_tag_key_of(files@, #[trigger] tags@[j]@),
                        forall|a: int, b: int|
                            0 <= a < i && 0 <= b < metadata_of(files@[a]).len() && has_prefix(
                                #[trigger] metadata_of(files@[a])[b].0,
                                tag_prefix(),
                            ) ==> exists|j: int| 0 <= j < tags@.len() && tags@[j]@ == metadata_of(
                                files@[a],
                            )[b].0,
                        forall|b: int|
                            0 <= b < m && has_prefix(#[trigger] metadata_of(files@[i as int])[b].0, tag_prefix())
                                ==> exists|j: int| 0 <= j < tags@.len() && tags@[j]@ == metadata_of(
                                files@[i as int],
                            )[b].0,
                    decreases md.len() - m,
                {
                    let k = &md[m].0;
                    assert(metadata_of(files@[i as int])[m as int].0 == k@);
                    if starts_with(k.as_str(), "tag:") && !contains_text(&tags, k.as_str()) {
                        let ghost old_tags = tags@;
                        assert(is_tag_key_of(files@, k@)) by {
                            assert(metadata_of(files@[i as int])[m as int].0 == k@);
                        }
                        tags.push(k.clone());
                        assert forall|a: int, b: int| 0 <= a < b < tags@.len() implies #[trigger] tags@[a]@
                            != #[trigger] tags@[b]@ by {
                            if b == tags@.len() - 1 {
                                assert(tags@[a] == old_tags[a]);
                            } else {
                                assert(tags@[a] == old_tags[a] && tags@[b] == old_tags[b]);
                            }
                        }
                        assert forall|j: int| 0 <= j < tags@.len() implies is_tag_key_of(
                            files@,
                            #[trigger] tags@[j]@,
                        ) by {
                            if j < old_tags.len() {
                                assert(tags@[j] == old_tags[j]);
                            }
                        }
                        assert forall|a: int, b: int|
                            0 <= a < i && 0 <= b < metadata_of(files@[a]).len() && has_prefix(
                                #[trigger] metadata_of(files@[a])[b].0,
                                tag_prefix(),
                            ) implies exists|j: int| 0 <= j < tags@.len() && tags@[j]@ == metadata_of(
                            files@[a],
                        )[b].0 by {
                            let j = choose|j: int| 0 <= j < old_tags.len() && old_tags[j]@ == metadata_of(
                                files@[a],
                            )[b].0;
                            assert(tags@[j] == old_tags[j]);
                        }
                        assert forall|b: int|
                            0 <= b < m + 1 && has_prefix(
                                #[trigger] metadata_of(files@[i as int])[b].0,
                                tag_prefix(),
                            ) implies exists|j: int| 0 <= j < tags@.len() && tags@[j]@ == metadata_of(
                            files@[i as int],
                        )[b].0 by {
                            if b < m {
                                let j = choose|j: int| 0 <= j < old_tags.len() && old_tags[j]@ == metadata_of(
                                    files@[i as int],
                                )[b].0;
                                assert(tags@[j] == old_tags[j]);
                            } else {
                                assert(tags@[tags@.len() - 1]@ == k@);
                            }
                        }
                    }
                    m = m + 1;
                }
            },
            None => {
                per_file.push(Vec::new());
                assert(file_tag_texts(per_file@[i as int]@) =~= tags_of(metadata_of(files@[i as int])));
            },
        }
        assert forall|a: int| 0 <= a < i + 1 implies file_tag_texts(#[trigger] per_file@[a]@) == tags_of(
            metadata_of(files@[a]),
        ) by {}
        i = i + 1;
    }
    assert forall|k: Seq<char>| #[trigger] is_tag_key_of(files@, k) implies exists|j: int|
        0 <= j < tags@.len() && tags@[j]@ == k by {
        let (a, b) = choose|a: int, b: int|
            0 <= a < files@.len() && 0 <= b < metadata_of(files@[a]).len() && #[trigger] metadata_of(
                files@[a],
            )[b].0 == k;
        assert(has_prefix(metadata_of(files@[a])[b].0, tag_prefix()));
    }
    (per_file, tags)
}

/// The first download address of a batch; `NoData` when there is none.
pub fn first_url(ack: BatchUrlsAck) -> (r: Result<String, AppError>)
    ensures
        ack.urls@.len() > 0 ==> (r matches Ok(u) && u@ == ack.urls@[0].url@),
        ack.urls@.len() == 0 ==> r == Err::<String, AppError>(AppError::NoData),
{
    let mut urls = ack.urls;
    if urls.len() > 0 {
        let first = urls.remove(0);
        return Ok(first.url);
    }
    Err(AppError::NoData)
}

/// The last download address of a batch; empty when there is none.
pub fn last_url(ack: BatchUrlsAck) -> (r: String)
    ensures
        ack.urls@.len() > 0 ==> r@ == ack.urls@.last().url@,
        ack.urls@.len() == 0 ==> r@.len() == 0,
{
    let mut urls = ack.urls;
    match urls.pop() {
        Some(last) => last.url,
        None => String::new(),
    }
}

/// Whether a download can start: it needs an address and a folder to save
/// into; otherwise the error names both.
pub fn check_download(saved_dir: &str, url: &str) -> (r: Result<(), AppError>)
    ensures
        url@.len() > 0 && saved_dir@.len() > 0 ==> r is Ok,
        !(url@.len() > 0 && saved_dir@.len() > 0) ==> (r matches Err(AppError::Anyhow(t)) && t@
            == "fail, dir:"@ + saved_dir@ + ", url:"@ + url@),
{
    if url.is_empty() || saved_dir.is_empty() {
        let t = concat3("fail, dir:", saved_dir, ", url:");
        return Err(AppError::Anyhow(t.concat(url)));
    }
    Ok(())
}

/// Where downloads are saved on Android: the `Download` folder in the home
/// directory `home`.
pub fn android_downloads_dir(home: &str) -> (r: String)
    ensures
        r@ == home@ + "/Download"@,
{
    concat2(home, "/Download")
}

/// A download ready to start.
pub fn download_for(id: u32, file_path: String, url: String) -> (r: Download)
    ensures
        r.id == id,
        r.file_path == file_path,
        r.url == url,
{
    Download { id, file_path, url }
}

/// Where an uploaded file goes: `filename` inside `target_path`.
pub fn upload_uri(target_path: &str, filename: &str) -> (r: String)
    ensures
        r@ == target_path@ + "/"@ + filename@,
{
    concat3(target_path, "/", filename)
}

/// Where the content of an upload session is sent: the session's first chunk
/// on the server at `addr`.
pub fn upload_url(addr: &str, session_id: &str) -> (r: String)
    ensures
        r@ == addr@ + "/file/upload"@ + "/"@ + session_id@ + "/0"@,
{
    let r = concat3(addr, "/file/upload", "/");
    let r = r.concat(session_id);
    r.concat("/0")
}

/// An upload ready to start: the file at `file_path`, sent to the session
/// `session_id` on the server at `addr`, stored as `filename` inside
/// `target_path`.
pub fn upload_for(id: u32, target_path: &str, filename: &str, file_path: String, addr: &str, session_id: &str) -> (r:
    Upload)
    ensures
        r.id == id,
        r.filename@ == filename@,
        r.file_path == file_path,
        r.uri@ == target_path@ + "/"@ + filename@,
        r.upload_url@ == addr@ + "/file/upload"@ + "/"@ + session_id@ + "/0"@,
{
    Upload {
        id,
        filename: String::from_str(filename),
        file_path,
        uri: upload_uri(target_path, filename),
        upload_url: upload_url(addr, session_id),
    }
}

/// The request that fetches an image for the user interface.
pub fn proxy_image_request(url: &str) -> (r: Request)
    ensures
        r.spec_method() == HttpMethod::Get,
        r.spec_url() == url@,
        r.spec_body() is None,
        r.spec_headers() == with_header_spec(no_headers(), "User-Agent"@, "Cloudreve-Tauri/1.0"@),
{
    proof {
        reveal_strlit("");
    }
    let req = Request::new(HttpMethod::Get, url, "");
    assert(req.spec_url() =~= url@);
    assert(req.spec_headers().dom() =~= Set::<Seq<char>>::empty());
    req.with_header("User-Agent", "Cloudreve-Tauri/1.0")
}

/// What the user interface is told when the session changes: whether a user
/// is logged in.
#[derive(Debug, Clone, Copy, PartialEq, Eq, Structural)]
pub struct SessionChaged {
    pub logined: bool,
}

/// Whether photos are synchronised, and how far.
#[derive(Debug)]
pub struct SyncStatus {
    pub enabled: bool,
    pub last_sync: Option<String>,
    pub synced_files: Option<u32>,
}

/// The progress of a synchronisation.
#[derive(Debug)]
pub struct SyncProgress {
    pub percentage: u8,
    pub synced: u32,
    pub total: u32,
    pub status: String,
}

/// A past download.
#[derive(Debug)]
pub struct DownloadHistoryItem {
    pub id: u32,
    pub file_name: String,
    pub file_path: String,
    pub url: String,
    pub status: String,
    pub progress: u8,
    pub size: u64,
    pub downloaded_at: String,
}

/// The synchronisation status shown until synchronisation exists: disabled,
/// with a fixed last run and count.
pub fn get_sync_status() -> (r: SyncStatus)
    ensures
        !r.enabled,
        r.last_sync matches Some(t) && t@ == "2024-05-20T12:34:56"@,
        r.synced_files == Some(42u32),
{
    SyncStatus {
        enabled: false,
        last_sync: Some(String::from_str("2024-05-20T12:34:56")),
        synced_files: Some(42),
    }
}

/// The status after switching synchronisation on or off.
pub fn toggle_sync(enabled: bool) -> (r: SyncStatus)
    ensures
        r.enabled == enabled,
        r.last_sync is None,
        r.synced_files is None,
{
    SyncStatus { enabled, last_sync: None, synced_files: None }
}

/// The synchronisation progress shown until synchronisation exists.
pub fn get_sync_progress() -> (r: SyncProgress)
    ensures
        r.percentage == 35,
        r.synced == 7,
        r.total == 20,
        r.status@ == "syncing"@,
{
    SyncProgress { percentage: 35, synced: 7, total: 20, status: String::from_str("syncing") }
}

/// The download history shown until one is kept: a single completed example.
pub fn get_download_history() -> (r: Vec<DownloadHistoryItem>)
    ensures
        r@.len() == 1,
        r@[0].id == 1,
        r@[0].file_name@ == "example.jpg"@,
        r@[0].file_path@ == "/downloads/example.jpg"@,
        r@[0].url@ == "https://example.com/example.jpg"@,
        r@[0].status@ == "completed"@,
        r@[0].progress == 100,
        r@[0].size == 1048576,
        r@[0].downloaded_at@ == "2024-06-18T10:30:00Z"@,
{
    let mut v: Vec<DownloadHistoryItem> = Vec::new();
    v.push(
        DownloadHistoryItem {
            id: 1,
            file_name: String::from_str("example.jpg"),
            file_path: String::from_str("/downloads/example.jpg"),
            url: String::from_str("https://example.com/example.jpg"),
            status: String::from_str("completed"),
            progress: 100,
            size: 1024 * 1024,
            downloaded_at: String::from_str("2024-06-18T10:30:00Z"),
        },
    );
    v
}

} // verus!
