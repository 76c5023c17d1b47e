//! The operations offered across the foreign-function boundary: build an
//! object from plain values, give it its id and path, and check objects
//! received as JSON. Reading C strings and writing JSON happen outside.

use vstd::prelude::*;

use crate::ids::{hash_id_spec, is_timestamp_id, timestamp_id, timestamp_id_spec};
use crate::kind::{kind_from_name, kind_name, lemma_kind_from_name_exact, parse_post_kind};
use crate::models::{
    hash_id_check, opt_str, timestamp_id_check, Bookmark, File, Post, PostEmbed, Tag,
    User, UserLink,
};
use crate::paths::{
    bookmark_path, bookmarks_dir, file_path, files_dir, object_path, post_path, posts_dir, tag_path,
    tags_dir, user_path, user_path_spec,
};
use crate::response::{validation_json, validation_json_spec};

verus! {

/// A newly made object with its id and the path where it is stored.
#[derive(Debug)]
pub struct Created<T> {
    pub id: String,
    pub path: String,
    pub object: T,
}

/// A newly made profile and the path where it is stored.
#[derive(Debug)]
pub struct CreatedUser {
    pub path: String,
    pub user: User,
}

/// An optional text, kept only when it is not empty.
pub open spec fn non_empty_spec(o: Option<String>) -> Option<String> {
    match o {
        Some(s) => if s@.len() > 0 {
            Some(s)
        } else {
            None
        },
        None => None,
    }
}

/// Keeps an optional text only when it is not empty.
pub fn non_empty(o: Option<String>) -> (res: Option<String>)
    ensures
        res == non_empty_spec(o),
{
    match o {
        Some(s) => if s.as_str().is_empty() {
            None
        } else {
            Some(s)
        },
        None => None,
    }
}

/// `Invalid post kind: <name>`
pub open spec fn invalid_post_kind_error(name: Seq<char>) -> Seq<char> {
    seq!['I', 'n', 'v', 'a', 'l', 'i', 'd', ' ', 'p', 'o', 's', 't', ' ', 'k', 'i', 'n', 'd', ':', ' ']
        + name
}

/// `Invalid embed kind: <name>`
pub open spec fn invalid_embed_kind_error(name: Seq<char>) -> Seq<char> {
    seq!['I', 'n', 'v', 'a', 'l', 'i', 'd', ' ', 'e', 'm', 'b', 'e', 'd', ' ', 'k', 'i', 'n', 'd', ':', ' ']
        + name
}

/// `Embed kind is required when an embed URI is given`
pub open spec fn missing_embed_kind_error() -> Seq<char> {
    seq![
        'E', 'm', 'b', 'e', 'd', ' ', 'k', 'i', 'n', 'd', ' ', 'i', 's', ' ', 'r', 'e', 'q', 'u',
        'i', 'r', 'e', 'd', ' ', 'w', 'h', 'e', 'n', ' ', 'a', 'n', ' ', 'e', 'm', 'b', 'e', 'd',
        ' ', 'U', 'R', 'I', ' ', 'i', 's', ' ', 'g', 'i', 'v', 'e', 'n',
    ]
}

/// Whether an embed is asked for: its URI is given and not empty.
pub open spec fn embed_requested(uri: Option<String>) -> bool {
    uri matches Some(u) && u@.len() > 0
}

/// Why an asked-for embed cannot be made, if it cannot: its kind is
/// missing or names no kind.
pub open spec fn embed_error(uri: Option<String>, kind: Option<String>) -> Option<Seq<char>> {
    if embed_requested(uri) {
        match kind {
            None => Some(missing_embed_kind_error()),
            Some(name) => if kind_from_name(name@) is None {
                Some(invalid_embed_kind_error(name@))
            } else {
                None
            },
        }
    } else {
        None
    }
}

/// The embed made of an optional URI and kind name: none unless the URI
/// is given and not empty.
pub open spec fn embed_spec(uri: Option<String>, kind: Option<String>) -> Option<PostEmbed> {
    if embed_requested(uri) && kind is Some {
        match kind_from_name(kind.unwrap()@) {
            Some(k) => Some(PostEmbed { uri: uri.unwrap(), kind: k }),
            None => None,
        }
    } else {
        None
    }
}

fn missing_embed_kind() -> (res: String)
    ensures
        res@ == missing_embed_kind_error(),
{
    proof {
        reveal_strlit("Embed kind is required when an embed URI is given");
        assert("Embed kind is required when an embed URI is given"@ =~= missing_embed_kind_error());
    }
    String::from_str("Embed kind is required when an embed URI is given")
}

fn invalid_kind(name: &str) -> (res: String)
    ensures
        res@ == invalid_post_kind_error(name@),
{
    let mut res = String::from_str("Invalid post kind: ");
    res.append(name);
    proof {
        reveal_strlit("Invalid post kind: ");
        assert(res@ =~= invalid_post_kind_error(name@));
    }
    res
}

fn invalid_embed_kind(name: &str) -> (res: String)
    ensures
        res@ == invalid_embed_kind_error(name@),
{
    let mut res = String::from_str("Invalid embed kind: ");
    res.append(name);
    proof {
        reveal_strlit("Invalid embed kind: ");
        assert(res@ =~= invalid_embed_kind_error(name@));
    }
    res
}

/// Makes a post of the given kind, with the timestamp id of `now`
/// (microseconds since the Unix epoch).
///
/// Fails with `Invalid post kind: <kind>` when `kind` names no kind.
pub fn create_post(content: String, kind: &str, now: i64) -> (res: Result<Created<Post>, String>)
    ensures
        match kind_from_name(kind@) {
            Some(k) => res matches Ok(c) && c.id@ == timestamp_id_spec(now) && is_timestamp_id(c.id@) && c.path@ == object_path(posts_dir(), c.id@) && c.path@ == seq!['/', 'p', 'u', 'b', '/', 'p', 'u', 'b', 'k', 'y', '.', 'a', 'p', 'p', '/', 'p', 'o', 's', 't', 's', '/'] + c.id@ && c.object == (Post {
                content,
                kind: k,
                parent: None,
                embed: None,
                attachments: None,
            }),
            None => res matches Err(e) && e@ == invalid_post_kind_error(kind@),
        },
{
    let kind = match parse_post_kind(kind) {
        Some(k) => k,
        None => return Err(invalid_kind(kind)),
    };
    let post = Post::new(content, kind, None, None, None);
    let id = timestamp_id(now);
    match post.validate(Some(id.as_str())) {
        Ok(()) => {},
        Err(e) => return Err(e),
    }
    let path = post_path(id.as_str());
    Ok(Created { id, path, object: post })
}

/// Makes a post with all its optional fields, with the timestamp id of
/// `now`. An empty parent is dropped; an embed is made when its URI is
/// given and not empty, and then needs a kind.
///
/// Fails with `Invalid post kind: <kind>` when `kind` names no kind; else,
/// when an embed is asked for, with
/// `Embed kind is required when an embed URI is given` when its kind is
/// missing and with `Invalid embed kind: <embed kind>` when its kind names
/// no kind.
pub fn create_post_full(
    content: String,
    kind: &str,
    parent: Option<String>,
    embed_uri: Option<String>,
    embed_kind: Option<String>,
    now: i64,
) -> (res: Result<Created<Post>, String>)
    ensures
        match kind_from_name(kind@) {
            None => res matches Err(e) && e@ == invalid_post_kind_error(kind@),
            Some(k) => if embed_error(embed_uri, embed_kind) is Some {
                res matches Err(e) && e@ == embed_error(embed_uri, embed_kind).unwrap()
            } else {
                res matches Ok(c) && c.id@ == timestamp_id_spec(now) && is_timestamp_id(c.id@) && c.path@ == object_path(posts_dir(), c.id@) && c.path@ == seq!['/', 'p', 'u', 'b', '/', 'p', 'u', 'b', 'k', 'y', '.', 'a', 'p', 'p', '/', 'p', 'o', 's', 't', 's', '/'] + c.id@ && c.object == (Post {
                    content,
                    kind: k,
                    parent: non_empty_spec(parent),
                    embed: embed_spec(embed_uri, embed_kind),
                    attachments: None,
                })
            },
        },
{
    let kind = match parse_post_kind(kind) {
        Some(k) => k,
        None => return Err(invalid_kind(kind)),
    };
    let parent = non_empty(parent);
    let embed = match embed_uri {
        Some(uri) => {
            if uri.as_str().is_empty() {
                None
            } else {
                match embed_kind {
                    None => return Err(missing_embed_kind()),
                    Some(ek) => match parse_post_kind(ek.as_str()) {
                        Some(k) => Some(PostEmbed { uri, kind: k }),
                        None => return Err(invalid_embed_kind(ek.as_str())),
                    },
                }
            }
        },
        None => None,
    };
    let post = Post::new(content, kind, parent, embed, None);
    let id = timestamp_id(now);
    match post.validate(Some(id.as_str())) {
        Ok(()) => {},
        Err(e) => return Err(e),
    }
    let path = post_path(id.as_str());
    Ok(Created { id, path, object: post })
}

/// Law: an object with a timestamp id passes its checks against the id it
/// was made with.
pub proof fn lemma_created_timestamp_object_validates(id: Seq<char>)
    requires
        is_timestamp_id(id),
    ensures
        timestamp_id_check(Some(id)) == Ok::<(), Seq<char>>(()),
        validation_json_spec(timestamp_id_check(Some(id))) == crate::response::valid_json_spec(),
{
}

/// Law: a bookmark passes its checks against the id it was made with.
pub proof fn lemma_created_bookmark_validates(bookmark: Bookmark, id: Seq<char>)
    requires
        id == hash_id_spec(bookmark.uri@),
    ensures
        hash_id_check(hash_id_spec(bookmark.id_data()), Some(id)) == Ok::<(), Seq<char>>(()),
{
}

/// Law: a tag passes its checks against the id it was made with.
pub proof fn lemma_created_tag_validates(tag: Tag, id: Seq<char>)
    requires
        id == hash_id_spec(tag.uri@ + seq![':'] + tag.label@),
    ensures
        hash_id_check(hash_id_spec(tag.id_data()), Some(id)) == Ok::<(), Seq<char>>(()),
{
}

/// Answers whether a post, received as JSON, passes its checks against `id`.
pub fn validate_post(post: &Post, id: Option<&str>) -> (res: String)
    ensures
        res@ == validation_json_spec(timestamp_id_check(opt_str(id))),
{
    validation_json(&post.validate(id))
}

/// Makes a file's metadata, with the timestamp id of `now`.
pub fn create_file(name: String, src: String, content_type: String, size: usize, now: i64) -> (res:
    Result<Created<File>, String>)
    ensures
        res matches Ok(c) && c.id@ == timestamp_id_spec(now) && is_timestamp_id(c.id@) && c.path@ == object_path(files_dir(), c.id@) && c.path@ == seq!['/', 'p', 'u', 'b', '/', 'p', 'u', 'b', 'k', 'y', '.', 'a', 'p', 'p', '/', 'f', 'i', 'l', 'e', 's', '/'] + c.id@ && c.object == (File { name, src, content_type, size }),
{
    let file = File::new(name, src, content_type, size);
    let id = timestamp_id(now);
    match file.validate(Some(id.as_str())) {
        Ok(()) => {},
        Err(e) => return Err(e),
    }
    let path = file_path(id.as_str());
    Ok(Created { id, path, object: file })
}

/// Answers whether a file, received as JSON, passes its checks against `id`.
pub fn validate_file(file: &File, id: Option<&str>) -> (res: String)
    ensures
        res@ == validation_json_spec(timestamp_id_check(opt_str(id))),
{
    validation_json(&file.validate(id))
}

/// Makes a bookmark of `uri`; its id is the hash id of the URI.
pub fn create_bookmark(uri: String) -> (res: Result<Created<Bookmark>, String>)
    ensures
        res matches Ok(c) && c.id@ == hash_id_spec(uri@) && c.id@.len() == 26 && c.path@ == object_path(bookmarks_dir(), c.id@) && c.path@ == seq!['/', 'p', 'u', 'b', '/', 'p', 'u', 'b', 'k', 'y', '.', 'a', 'p', 'p', '/', 'b', 'o', 'o', 'k', 'm', 'a', 'r', 'k', 's', '/'] + c.id@ && c.object == (Bookmark { uri }),
{
    let bookmark = Bookmark::new(uri);
    let id = bookmark.create_id();
    match bookmark.validate(Some(id.as_str())) {
        Ok(()) => {},
        Err(e) => return Err(e),
    }
    let path = bookmark_path(id.as_str());
    Ok(Created { id, path, object: bookmark })
}

/// Answers whether a bookmark, received as JSON, passes its checks against `id`.
pub fn validate_bookmark(bookmark: &Bookmark, id: Option<&str>) -> (res: String)
    ensures
        res@ == validation_json_spec(
            hash_id_check(hash_id_spec(bookmark.id_data()), opt_str(id)),
        ),
{
    validation_json(&bookmark.validate(id))
}

/// Makes a tag of `uri` with `label`; its id is the hash id of
/// `<uri>:<label>`.
pub fn create_tag(uri: String, label: String) -> (res: Result<Created<Tag>, String>)
    ensures
        res matches Ok(c) && c.id@ == hash_id_spec(uri@ + seq![':'] + label@) && c.id@.len() == 26
            && c.path@ == object_path(tags_dir(), c.id@) && c.path@ == seq!['/', 'p', 'u', 'b', '/', 'p', 'u', 'b', 'k', 'y', '.', 'a', 'p', 'p', '/', 't', 'a', 'g', 's', '/'] + c.id@ && c.object == (Tag { uri, label }),
{
    let tag = Tag::new(uri, label);
    let id = tag.create_id();
    match tag.validate(Some(id.as_str())) {
        Ok(()) => {},
        Err(e) => return Err(e),
    }
    let path = tag_path(id.as_str());
    Ok(Created { id, path, object: tag })
}

/// Answers whether a tag, received as JSON, passes its checks against `id`.
pub fn validate_tag(tag: &Tag, id: Option<&str>) -> (res: String)
    ensures
        res@ == validation_json_spec(hash_id_check(hash_id_spec(tag.id_data()), opt_str(id))),
{
    validation_json(&tag.validate(id))
}

/// Makes a profile; empty bio, image and status are dropped.
pub fn create_user(
    name: String,
    bio: Option<String>,
    image: Option<String>,
    status: Option<String>,
) -> (res: CreatedUser)
    ensures
        res.path@ == user_path_spec(),
        res.path@ == seq!['/', 'p', 'u', 'b', '/', 'p', 'u', 'b', 'k', 'y', '.', 'a', 'p', 'p', '/', 'p', 'r', 'o', 'f', 'i', 'l', 'e', '.', 'j', 's', 'o', 'n'],
        res.user == (User {
            name,
            bio: non_empty_spec(bio),
            image: non_empty_spec(image),
            links: None,
            status: non_empty_spec(status),
        }),
{
    create_user_with_links(name, bio, image, status, None)
}

/// Makes a profile with links; empty bio, image and status are dropped.
pub fn create_user_with_links(
    name: String,
    bio: Option<String>,
    image: Option<String>,
    status: Option<String>,
    links: Option<Vec<UserLink>>,
) -> (res: CreatedUser)
    ensures
        res.path@ == user_path_spec(),
        res.path@ == seq!['/', 'p', 'u', 'b', '/', 'p', 'u', 'b', 'k', 'y', '.', 'a', 'p', 'p', '/', 'p', 'r', 'o', 'f', 'i', 'l', 'e', '.', 'j', 's', 'o', 'n'],
        res.user == (User {
            name,
            bio: non_empty_spec(bio),
            image: non_empty_spec(image),
            links,
            status: non_empty_spec(status),
        }),
{
    let user = User::new(name, non_empty(bio), non_empty(image), links, non_empty(status));
    CreatedUser { path: user_path(), user }
}

/// Law: an optional text is kept, unchanged, exactly when it is given and
/// not empty.
pub proof fn lemma_non_empty(s: String)
    ensures
        s@.len() > 0 ==> non_empty_spec(Some(s)) == Some(s),
        s@.len() == 0 ==> non_empty_spec(Some(s)) is None,
        non_empty_spec(None) is None,
{
}

/// Law: an embed is made only from a given, non-empty URI; it keeps that
/// URI and has the kind that its kind argument names. A missing or unknown
/// embed kind is an error only when an embed is asked for.
pub proof fn lemma_embed(uri: String, name: String, kind: Option<String>)
    ensures
        embed_spec(Some(uri), Some(name)) matches Some(e) ==> e.uri == uri && kind_name(e.kind)
            == name@ && uri@.len() > 0,
        uri@.len() > 0 && kind_from_name(name@) is Some ==> embed_spec(Some(uri), Some(name)) is Some
            && embed_error(Some(uri), Some(name)) is None,
        uri@.len() > 0 ==> embed_error(Some(uri), None) == Some(seq!['E', 'm', 'b', 'e', 'd', ' ', 'k', 'i', 'n', 'd', ' ', 'i', 's', ' ', 'r', 'e', 'q', 'u', 'i', 'r', 'e', 'd', ' ', 'w', 'h', 'e', 'n', ' ', 'a', 'n', ' ', 'e', 'm', 'b', 'e', 'd', ' ', 'U', 'R', 'I', ' ', 'i', 's', ' ', 'g', 'i', 'v', 'e', 'n']),
        uri@.len() > 0 && kind_from_name(name@) is None ==> embed_error(Some(uri), Some(name))
            == Some(seq!['I', 'n', 'v', 'a', 'l', 'i', 'd', ' ', 'e', 'm', 'b', 'e', 'd', ' ', 'k', 'i', 'n', 'd', ':', ' '] + name@),
        uri@.len() == 0 ==> embed_spec(Some(uri), kind) is None && embed_error(Some(uri), kind) is None,
        embed_spec(None, kind) is None,
        embed_error(None, kind) is None,
{
    lemma_kind_from_name_exact(name@);
    assert(missing_embed_kind_error() =~= seq!['E', 'm', 'b', 'e', 'd', ' ', 'k', 'i', 'n', 'd', ' ', 'i', 's', ' ', 'r', 'e', 'q', 'u', 'i', 'r', 'e', 'd', ' ', 'w', 'h', 'e', 'n', ' ', 'a', 'n', ' ', 'e', 'm', 'b', 'e', 'd', ' ', 'U', 'R', 'I', ' ', 'i', 's', ' ', 'g', 'i', 'v', 'e', 'n']);
    assert(invalid_embed_kind_error(name@) =~= seq!['I', 'n', 'v', 'a', 'l', 'i', 'd', ' ', 'e', 'm', 'b', 'e', 'd', ' ', 'k', 'i', 'n', 'd', ':', ' '] + name@);
}

/// Law: an unknown post kind is reported as `Invalid post kind: <kind>`.
pub proof fn lemma_invalid_post_kind_error(name: Seq<char>)
    ensures
        invalid_post_kind_error(name) == seq!['I', 'n', 'v', 'a', 'l', 'i', 'd', ' ', 'p', 'o', 's', 't', ' ', 'k', 'i', 'n', 'd', ':', ' '] + name,
{
    assert(invalid_post_kind_error(name) =~= seq!['I', 'n', 'v', 'a', 'l', 'i', 'd', ' ', 'p', 'o', 's', 't', ' ', 'k', 'i', 'n', 'd', ':', ' '] + name);
}

} // verus!
