//! The objects of the Pubky App data model and the checks made on them.

use vstd::prelude::*;

use crate::ids::{
    hash_id, hash_id_mismatch_error, hash_id_spec, id_alphabet_error, id_length_error,
    is_crockford_readable, is_timestamp_id, timestamp_id_error,
    validate_hash_id, validate_timestamp_id,
};
use crate::kind::PostKind;

verus! {

/// Content embedded in a post: the URI of another object and its kind.
#[derive(Debug)]
pub struct PostEmbed {
    pub uri: String,
    pub kind: PostKind,
}

/// A post. Its id is a timestamp id.
#[derive(Debug)]
pub struct Post {
    pub content: String,
    pub kind: PostKind,
    pub parent: Option<String>,
    pub embed: Option<PostEmbed>,
    pub attachments: Option<Vec<String>>,
}

/// A file's metadata. Its id is a timestamp id.
#[derive(Debug)]
pub struct File {
    pub name: String,
    pub src: String,
    pub content_type: String,
    pub size: usize,
}

/// A bookmark of some URI. Its id is the hash id of the URI.
#[derive(Debug)]
pub struct Bookmark {
    pub uri: String,
}

/// A label put on some URI. Its id is the hash id of `<uri>:<label>`.
#[derive(Debug)]
pub struct Tag {
    pub uri: String,
    pub label: String,
}

/// A link shown on a user's profile.
#[derive(Debug)]
pub struct UserLink {
    pub title: String,
    pub url: String,
}

/// A user's profile.
#[derive(Debug)]
pub struct User {
    pub name: String,
    pub bio: Option<String>,
    pub image: Option<String>,
    pub links: Option<Vec<UserLink>>,
    pub status: Option<String>,
}

/// The outcome of checking an object against an optional timestamp id.
pub open spec fn timestamp_id_check(id: Option<Seq<char>>) -> Result<(), Seq<char>> {
    match id {
        None => Ok(()),
        Some(i) => if is_timestamp_id(i) {
            Ok(())
        } else {
            Err(timestamp_id_error(i))
        },
    }
}

/// The outcome of checking an object whose hash id is `expected` against an
/// optional id.
pub open spec fn hash_id_check(expected: Seq<char>, id: Option<Seq<char>>) -> Result<(), Seq<char>> {
    match id {
        None => Ok(()),
        Some(i) => if i == expected {
            Ok(())
        } else {
            Err(hash_id_mismatch_error(expected, i))
        },
    }
}

/// The characters of an optional string slice.
pub open spec fn opt_str(o: Option<&str>) -> Option<Seq<char>> {
    match o {
        Some(s) => Some(s@),
        None => None,
    }
}

/// The result of a check with its message as characters.
pub open spec fn check_view(r: Result<(), String>) -> Result<(), Seq<char>> {
    match r {
        Ok(_) => Ok(()),
        Err(e) => Err(e@),
    }
}

/// Checks an object whose id is a timestamp id against `id`, when given.
fn validate_timestamp_object(id: Option<&str>) -> (res: Result<(), String>)
    ensures
        check_view(res) == timestamp_id_check(opt_str(id)),
{
    match id {
        Some(i) => validate_timestamp_id(i),
        None => Ok(()),
    }
}

impl Post {
    /// A post with the given fields.
    pub fn new(
        content: String,
        kind: PostKind,
        parent: Option<String>,
        embed: Option<PostEmbed>,
        attachments: Option<Vec<String>>,
    ) -> (res: Post)
        ensures
            res == (Post { content, kind, parent, embed, attachments }),
    {
        Post { content, kind, parent, embed, attachments }
    }

    /// Checks the post against `id`, when given: it must be a timestamp id.
    pub fn validate(&self, id: Option<&str>) -> (res: Result<(), String>)
        ensures
            check_view(res) == timestamp_id_check(opt_str(id)),
    {
        validate_timestamp_object(id)
    }
}

impl File {
    /// A file with the given fields.
    pub fn new(name: String, src: String, content_type: String, size: usize) -> (res: File)
        ensures
            res == (File { name, src, content_type, size }),
    {
        File { name, src, content_type, size }
    }

    /// Checks the file against `id`, when given: it must be a timestamp id.
    pub fn validate(&self, id: Option<&str>) -> (res: Result<(), String>)
        ensures
            check_view(res) == timestamp_id_check(opt_str(id)),
    {
        validate_timestamp_object(id)
    }
}

impl Bookmark {
    /// A bookmark of `uri`.
    pub fn new(uri: String) -> (res: Bookmark)
        ensures
            res == (Bookmark { uri }),
    {
        Bookmark { uri }
    }

    /// The text whose hash is the bookmark's id: its URI.
    pub open spec fn id_data(&self) -> Seq<char> {
        self.uri@
    }

    /// The bookmark's id.
    pub fn create_id(&self) -> (res: String)
        ensures
            res@ == hash_id_spec(self.id_data()),
            res@.len() == 26,
    {
        hash_id(self.uri.as_str())
    }

    /// Checks the bookmark against `id`, when given: it must be the bookmark's id.
    pub fn validate(&self, id: Option<&str>) -> (res: Result<(), String>)
        ensures
            check_view(res) == hash_id_check(hash_id_spec(self.id_data()), opt_str(id)),
    {
        match id {
            Some(i) => {
                let expected = self.create_id();
                validate_hash_id(i, expected.as_str())
            },
            None => Ok(()),
        }
    }
}

impl Tag {
    /// A tag of `uri` with `label`.
    pub fn new(uri: String, label: String) -> (res: Tag)
        ensures
            res == (Tag { uri, label }),
    {
        Tag { uri, label }
    }

    /// The text whose hash is the tag's id: `<uri>:<label>`.
    pub open spec fn id_data(&self) -> Seq<char> {
        self.uri@ + seq![':'] + self.label@
    }

    /// The tag's id.
    pub fn create_id(&self) -> (res: String)
        ensures
            res@ == hash_id_spec(self.id_data()),
            res@.len() == 26,
    {
        let mut data = self.uri.clone();
        data.append(":");
        data.append(self.label.as_str());
        proof {
            reveal_strlit(":");
            assert(data@ =~= self.id_data());
        }
        hash_id(data.as_str())
    }

    /// Checks the tag against `id`, when given: it must be the tag's id.
    pub fn validate(&self, id: Option<&str>) -> (res: Result<(), String>)
        ensures
            check_view(res) == hash_id_check(hash_id_spec(self.id_data()), opt_str(id)),
    {
        match id {
            Some(i) => {
                let expected = self.create_id();
                validate_hash_id(i, expected.as_str())
            },
            None => Ok(()),
        }
    }
}

impl UserLink {
    /// A link with the given title and URL.
    pub fn new(title: String, url: String) -> (res: UserLink)
        ensures
            res == (UserLink { title, url }),
    {
        UserLink { title, url }
    }
}

impl User {
    /// A profile with the given fields.
    pub fn new(
        name: String,
        bio: Option<String>,
        image: Option<String>,
        links: Option<Vec<UserLink>>,
        status: Option<String>,
    ) -> (res: User)
        ensures
            res == (User { name, bio, image, links, status }),
    {
        User { name, bio, image, links, status }
    }
}

/// Law: with no id given, a post or file passes; with an id, it passes
/// exactly when the id has thirteen characters, each a digit or a letter
/// other than `U` or `u`. Any other length fails with
/// `Invalid ID length: must be 13 characters`, a bad character with
/// `Invalid ID: not a Crockford Base32 string`.
pub proof fn lemma_timestamp_id_check(id: Seq<char>)
    ensures
        timestamp_id_check(None) == Ok::<(), Seq<char>>(()),
        timestamp_id_check(Some(id)) is Ok <==> (id.len() == 13 && forall|i: int| #![trigger id[i]]
            0 <= i < id.len() ==> (('0' <= id[i] && id[i] <= '9') || ('A' <= id[i] && id[i] <= 'Z' && id[i] != 'U') || ('a' <= id[i] && id[i] <= 'z' && id[i] != 'u'))),
        id.len() != 13 ==> timestamp_id_check(Some(id)) == Err::<(), Seq<char>>(
            seq!['I', 'n', 'v', 'a', 'l', 'i', 'd', ' ', 'I', 'D', ' ', 'l', 'e', 'n', 'g', 't', 'h', ':', ' ', 'm', 'u', 's', 't', ' ', 'b', 'e', ' ', '1', '3', ' ', 'c', 'h', 'a', 'r', 'a', 'c', 't', 'e', 'r', 's'],
        ),
        id.len() == 13 && !(forall|i: int| #![trigger id[i]] 0 <= i < id.len() ==> (('0' <= id[i] && id[i] <= '9') || ('A' <= id[i] && id[i] <= 'Z' && id[i] != 'U') || ('a' <= id[i] && id[i] <= 'z' && id[i] != 'u')))
            ==> timestamp_id_check(Some(id)) == Err::<(), Seq<char>>(
            seq!['I', 'n', 'v', 'a', 'l', 'i', 'd', ' ', 'I', 'D', ':', ' ', 'n', 'o', 't', ' ', 'a', ' ', 'C', 'r', 'o', 'c', 'k', 'f', 'o', 'r', 'd', ' ', 'B', 'a', 's', 'e', '3', '2', ' ', 's', 't', 'r', 'i', 'n', 'g'],
        ),
{
    assert(id_length_error() =~= seq!['I', 'n', 'v', 'a', 'l', 'i', 'd', ' ', 'I', 'D', ' ', 'l', 'e', 'n', 'g', 't', 'h', ':', ' ', 'm', 'u', 's', 't', ' ', 'b', 'e', ' ', '1', '3', ' ', 'c', 'h', 'a', 'r', 'a', 'c', 't', 'e', 'r', 's']);
    assert(id_alphabet_error() =~= seq!['I', 'n', 'v', 'a', 'l', 'i', 'd', ' ', 'I', 'D', ':', ' ', 'n', 'o', 't', ' ', 'a', ' ', 'C', 'r', 'o', 'c', 'k', 'f', 'o', 'r', 'd', ' ', 'B', 'a', 's', 'e', '3', '2', ' ', 's', 't', 'r', 'i', 'n', 'g']);
}

/// Law: with no id given, a bookmark or tag passes; with an id, it passes
/// exactly when the id is the expected one, and otherwise fails with
/// `Invalid ID: expected <expected>, found <id>`.
pub proof fn lemma_hash_id_check(expected: Seq<char>, id: Seq<char>)
    ensures
        hash_id_check(expected, None) == Ok::<(), Seq<char>>(()),
        hash_id_check(expected, Some(id)) is Ok <==> id == expected,
        id != expected ==> hash_id_check(expected, Some(id)) == Err::<(), Seq<char>>(
            seq!['I', 'n', 'v', 'a', 'l', 'i', 'd', ' ', 'I', 'D', ':', ' ', 'e', 'x', 'p', 'e', 'c', 't', 'e', 'd', ' '] + expected + seq![',', ' ', 'f', 'o', 'u', 'n', 'd', ' '] + id,
        ),
{
    assert(hash_id_mismatch_error(expected, id) =~= seq!['I', 'n', 'v', 'a', 'l', 'i', 'd', ' ', 'I', 'D', ':', ' ', 'e', 'x', 'p', 'e', 'c', 't', 'e', 'd', ' '] + expected
        + seq![',', ' ', 'f', 'o', 'u', 'n', 'd', ' '] + id);
}

/// Law: a bookmark's id is made from its URI alone, a tag's from its URI,
/// a colon and its label.
pub proof fn lemma_id_data(bookmark: Bookmark, tag: Tag)
    ensures
        bookmark.id_data() == bookmark.uri@,
        tag.id_data() == tag.uri@ + seq![':'] + tag.label@,
{
}

/// Law: an optional id is read as its characters, and a check's message
/// as its characters.
pub proof fn lemma_views(id: &str, message: String)
    ensures
        opt_str(Some(id)) == Some(id@),
        opt_str(None) is None,
        check_view(Ok(())) == Ok::<(), Seq<char>>(()),
        check_view(Err(message)) == Err::<(), Seq<char>>(message@),
{
}

} // verus!
