//! Reading `pubky://<user>/pub/pubky.app/<resource type>[/<resource id>]` URIs.

use vstd::prelude::*;

use crate::paths::{app_root, object_path, profile_file, user_path_spec};
use crate::text::{chars_of, find_char, has_at, string_of_range};

verus! {

/// What a `pubky://` URI names: a user, a type of resource and, for resources
/// that have one, the resource's id.
#[derive(Debug)]
pub struct ParsedUri {
    pub user_id: String,
    pub resource_type: String,
    pub resource_id: Option<String>,
}

/// `pubky://`
pub open spec fn scheme() -> Seq<char> {
    seq!['p', 'u', 'b', 'k', 'y', ':', '/', '/']
}

/// A non-empty piece of a path without `/` in it.
pub open spec fn is_segment(s: Seq<char>) -> bool {
    s.len() > 0 && !s.contains('/')
}

/// The characters of an optional string.
pub open spec fn opt_text(o: Option<String>) -> Option<Seq<char>> {
    match o {
        Some(s) => Some(s@),
        None => None,
    }
}

/// `pubky://<user>/pub/pubky.app/<resource type>`, followed by `/<id>` when
/// there is an id.
pub open spec fn uri_text(user: Seq<char>, rtype: Seq<char>, rid: Option<Seq<char>>) -> Seq<char> {
    scheme() + user + app_root() + rtype + match rid {
        Some(id) => seq!['/'] + id,
        None => Seq::empty(),
    }
}

/// Parts from which a URI can be made: every one of them a segment.
pub open spec fn uri_parts_valid(user: Seq<char>, rtype: Seq<char>, rid: Option<Seq<char>>) -> bool {
    &&& is_segment(user)
    &&& is_segment(rtype)
    &&& rid matches Some(id) ==> is_segment(id)
}

/// Text that is a `pubky://` URI of some user and resource.
pub open spec fn is_pubky_uri(s: Seq<char>) -> bool {
    exists|user: Seq<char>, rtype: Seq<char>, rid: Option<Seq<char>>|
        uri_parts_valid(user, rtype, rid) && s == #[trigger] uri_text(user, rtype, rid)
}

/// `Invalid pubky URI: <uri>`
pub open spec fn invalid_uri_error(uri: Seq<char>) -> Seq<char> {
    seq![
        'I', 'n', 'v', 'a', 'l', 'i', 'd', ' ', 'p', 'u', 'b', 'k', 'y', ' ', 'U', 'R', 'I', ':',
        ' ',
    ] + uri
}

/// Where each part stands in a URI made of valid parts.
proof fn lemma_uri_shape(user: Seq<char>, rtype: Seq<char>, rid: Option<Seq<char>>)
    requires
        uri_parts_valid(user, rtype, rid),
    ensures
        ({
            let s = uri_text(user, rtype, rid);
            let u = user.len() as int;
            let t = rtype.len() as int;
            &&& s.len() >= 23 + u + t
            &&& s[8 + u] == '/'
            &&& s.subrange(0, 8) == scheme()
            &&& s.subrange(8, 8 + u) == user
            &&& s.subrange(8 + u, 23 + u) == app_root()
            &&& s.subrange(23 + u, 23 + u + t) == rtype
            &&& (forall|i: int| 8 <= i < 8 + u ==> s[i] != '/')
            &&& (forall|i: int| 23 + u <= i < 23 + u + t ==> s[i] != '/')
            &&& match rid {
                Some(id) => {
                    &&& s.len() == 24 + u + t + id.len()
                    &&& s[23 + u + t] == '/'
                    &&& s.subrange(24 + u + t, s.len() as int) == id
                    &&& forall|i: int| 24 + u + t <= i < s.len() ==> s[i] != '/'
                },
                None => s.len() == 23 + u + t,
            }
        }),
{
    let s = uri_text(user, rtype, rid);
    let u = user.len() as int;
    let t = rtype.len() as int;
    assert(s.subrange(0, 8) =~= scheme());
    assert(s.subrange(8, 8 + u) =~= user);
    assert(s.subrange(8 + u, 23 + u) =~= app_root());
    assert(s[8 + u] == s.subrange(8 + u, 23 + u)[0]);
    assert(s.subrange(23 + u, 23 + u + t) =~= rtype);
    assert forall|i: int| 8 <= i < 8 + u implies s[i] != '/' by {
        assert(s[i] == user[i - 8]);
    }
    assert forall|i: int| 23 + u <= i < 23 + u + t implies s[i] != '/' by {
        assert(s[i] == rtype[i - 23 - u]);
    }
    match rid {
        Some(id) => {
            assert(s.subrange(24 + u + t, s.len() as int) =~= id);
            assert forall|i: int| 24 + u + t <= i < s.len() implies s[i] != '/' by {
                assert(s[i] == id[i - 24 - u - t]);
            }
        },
        None => {},
    }
}


/// A stretch of text without `/` is a segment.
proof fn lemma_segment_of_range(s: Seq<char>, from: int, to: int)
    requires
        0 <= from < to <= s.len(),
        forall|i: int| from <= i < to ==> s[i] != '/',
    ensures
        is_segment(s.subrange(from, to)),
{
    let sub = s.subrange(from, to);
    assert forall|i: int| 0 <= i < sub.len() implies sub[i] != '/' by {
        assert(sub[i] == s[from + i]);
    }
}

/// In a URI made of valid parts, the first `/` after the scheme ends the user.
proof fn lemma_user_end(user: Seq<char>, rtype: Seq<char>, rid: Option<Seq<char>>, j: int)
    requires
        uri_parts_valid(user, rtype, rid),
        8 <= j < uri_text(user, rtype, rid).len(),
        uri_text(user, rtype, rid)[j] == '/',
        forall|i: int| 8 <= i < j ==> uri_text(user, rtype, rid)[i] != '/',
    ensures
        j == 8 + user.len(),
{
    lemma_uri_shape(user, rtype, rid);
    let s = uri_text(user, rtype, rid);
    if j < 8 + user.len() {
        assert(s[j] == user[j - 8]);
        assert(user.contains('/'));
    }
}

/// In a URI made of valid parts, the first `/` after the application root
/// ends the resource type, and only a URI with an id has one.
proof fn lemma_type_end(user: Seq<char>, rtype: Seq<char>, rid: Option<Seq<char>>, m: int)
    requires
        uri_parts_valid(user, rtype, rid),
        23 + user.len() <= m < uri_text(user, rtype, rid).len(),
        uri_text(user, rtype, rid)[m] == '/',
        forall|i: int| 23 + user.len() <= i < m ==> uri_text(user, rtype, rid)[i] != '/',
    ensures
        rid is Some,
        m == 23 + user.len() + rtype.len(),
{
    lemma_uri_shape(user, rtype, rid);
    let s = uri_text(user, rtype, rid);
    let u = user.len() as int;
    let t = rtype.len() as int;
    if m < 23 + u + t {
        assert(s[m] == rtype[m - 23 - u]);
        assert(rtype.contains('/'));
    }
    if rid is None {
        assert(false);
    }
    if m > 23 + u + t {
        assert(s[23 + u + t] == '/');
        assert(false);
    }
}

/// `Invalid pubky URI: <uri>`, built.
fn invalid_uri(uri: &str) -> (res: String)
    ensures
        res@ == invalid_uri_error(uri@),
{
    let mut res = String::from_str("Invalid pubky URI: ");
    res.append(uri);
    proof {
        reveal_strlit("Invalid pubky URI: ");
        assert(res@ =~= invalid_uri_error(uri@));
    }
    res
}

/// Reads a `pubky://<user>/pub/pubky.app/<resource type>[/<resource id>]` URI.
///
/// Succeeds exactly on URIs of that form whose user, resource type and
/// resource id are non-empty and hold no `/`; fails with
/// `Invalid pubky URI: <uri>` on anything else.
pub fn parse_uri(uri: &str) -> (res: Result<ParsedUri, String>)
    ensures
        res is Ok <==> is_pubky_uri(uri@),
        res matches Ok(p) ==> {
            &&& uri_parts_valid(p.user_id@, p.resource_type@, opt_text(p.resource_id))
            &&& uri@ == uri_text(p.user_id@, p.resource_type@, opt_text(p.resource_id))
        },
        res matches Err(e) ==> e@ == invalid_uri_error(uri@),
{
    let v = chars_of(uri);
    let n = v.len();
    let scheme_v: Vec<char> = vec!['p', 'u', 'b', 'k', 'y', ':', '/', '/'];
    let root_v: Vec<char> = vec![
        '/', 'p', 'u', 'b', '/', 'p', 'u', 'b', 'k', 'y', '.', 'a', 'p', 'p', '/',
    ];
    assert(scheme_v@ =~= scheme());
    assert(root_v@ =~= app_root());
    if !has_at(&v, 0, &scheme_v) {
        proof {
            assert forall|u: Seq<char>, t: Seq<char>, r: Option<Seq<char>>|
                uri_parts_valid(u, t, r) implies uri@ != #[trigger] uri_text(u, t, r) by {
                if uri@ == uri_text(u, t, r) {
                    lemma_uri_shape(u, t, r);
                }
            }
        }
        return Err(invalid_uri(uri));
    }
    let j = match find_char(&v, 8, '/') {
        Some(j) => j,
        None => {
            proof {
                assert forall|u: Seq<char>, t: Seq<char>, r: Option<Seq<char>>|
                    uri_parts_valid(u, t, r) implies uri@ != #[trigger] uri_text(u, t, r) by {
                    if uri@ == uri_text(u, t, r) {
                        lemma_uri_shape(u, t, r);
                        assert(v@[8 + u.len() as int] == '/');
                    }
                }
            }
            return Err(invalid_uri(uri));
        },
    };
    if j == 8 || !has_at(&v, j, &root_v) {
        proof {
            assert forall|u: Seq<char>, t: Seq<char>, r: Option<Seq<char>>|
                uri_parts_valid(u, t, r) implies uri@ != #[trigger] uri_text(u, t, r) by {
                if uri@ == uri_text(u, t, r) {
                    lemma_uri_shape(u, t, r);
                    lemma_user_end(u, t, r, j as int);
                }
            }
        }
        return Err(invalid_uri(uri));
    }
    // From here on, every reading of the URI has its user end at `j`.
    let k = j + 15;
    proof {
        lemma_segment_of_range(v@, 8, j as int);
    }
    match find_char(&v, k, '/') {
        None => {
            if k == n {
                proof {
                    assert forall|u: Seq<char>, t: Seq<char>, r: Option<Seq<char>>|
                        uri_parts_valid(u, t, r) implies uri@ != #[trigger] uri_text(u, t, r) by {
                        if uri@ == uri_text(u, t, r) {
                            lemma_uri_shape(u, t, r);
                            lemma_user_end(u, t, r, j as int);
                        }
                    }
                }
                return Err(invalid_uri(uri));
            }
            let user_id = string_of_range(&v, 8, j);
            let resource_type = string_of_range(&v, k, n);
            let res = ParsedUri { user_id, resource_type, resource_id: None };
            proof {
                lemma_segment_of_range(v@, k as int, n as int);
                assert(v@ =~= uri_text(res.user_id@, res.resource_type@, None));
            }
            Ok(res)
        },
        Some(m) => {
            let bad_end = m == k || m + 1 == n;
            let trailing = if bad_end {
                None
            } else {
                find_char(&v, m + 1, '/')
            };
            if bad_end || trailing.is_some() {
                proof {
                    assert forall|u: Seq<char>, t: Seq<char>, r: Option<Seq<char>>|
                        uri_parts_valid(u, t, r) implies uri@ != #[trigger] uri_text(u, t, r) by {
                        if uri@ == uri_text(u, t, r) {
                            lemma_uri_shape(u, t, r);
                            lemma_user_end(u, t, r, j as int);
                            lemma_type_end(u, t, r, m as int);
                            if let Some(x) = trailing {
                                assert(v@[x as int] == '/');
                            }
                        }
                    }
                }
                return Err(invalid_uri(uri));
            }
            let user_id = string_of_range(&v, 8, j);
            let resource_type = string_of_range(&v, k, m);
            let resource_id = string_of_range(&v, m + 1, n);
            let res = ParsedUri { user_id, resource_type, resource_id: Some(resource_id) };
            proof {
                lemma_segment_of_range(v@, k as int, m as int);
                lemma_segment_of_range(v@, m + 1, n as int);
                assert(v@ =~= uri_text(
                    res.user_id@,
                    res.resource_type@,
                    Some(res.resource_id.unwrap()@),
                ));
            }
            Ok(res)
        },
    }
}

/// Law: a URI is made of only one set of valid parts, so reading it back is
/// unambiguous.
pub proof fn lemma_uri_parts_unique(
    user1: Seq<char>,
    rtype1: Seq<char>,
    rid1: Option<Seq<char>>,
    user2: Seq<char>,
    rtype2: Seq<char>,
    rid2: Option<Seq<char>>,
)
    requires
        uri_parts_valid(user1, rtype1, rid1),
        uri_parts_valid(user2, rtype2, rid2),
        uri_text(user1, rtype1, rid1) == uri_text(user2, rtype2, rid2),
    ensures
        user1 == user2,
        rtype1 == rtype2,
        rid1 == rid2,
{
    let s = uri_text(user1, rtype1, rid1);
    lemma_uri_shape(user1, rtype1, rid1);
    lemma_uri_shape(user2, rtype2, rid2);
    let u1 = user1.len() as int;
    let u2 = user2.len() as int;
    // The first `/` after the scheme ends the user id.
    if u1 < u2 {
        assert(s[8 + u1] == app_root()[0]);
        assert(s[8 + u1] == '/');
        assert(false);
    }
    if u2 < u1 {
        assert(s[8 + u2] == app_root()[0]);
        assert(s[8 + u2] == '/');
        assert(false);
    }
    assert(user1 =~= user2);
    let t1 = rtype1.len() as int;
    let t2 = rtype2.len() as int;
    // The resource type runs to the next `/` or to the end.
    if t1 < t2 {
        if rid1 is Some {
            assert(s[23 + u1 + t1] == '/');
        }
        assert(false);
    }
    if t2 < t1 {
        if rid2 is Some {
            assert(s[23 + u1 + t2] == '/');
        }
        assert(false);
    }
    assert(rtype1 =~= rtype2);
    match (rid1, rid2) {
        (Some(a), Some(b)) => {
            assert(a =~= b);
        },
        (None, None) => {},
        (Some(a), None) => {
            assert(false);
        },
        (None, Some(b)) => {
            assert(false);
        },
    }
}

/// Law: the URI of an object is its owner's `pubky://` address followed by
/// the object's path, and reading it gives back the owner, the directory
/// as resource type and the id.
pub proof fn lemma_object_uri(user: Seq<char>, dir: Seq<char>, id: Seq<char>)
    requires
        is_segment(user),
        is_segment(dir),
        is_segment(id),
    ensures
        scheme() + user + object_path(dir, id) == uri_text(user, dir, Some(id)),
        is_pubky_uri(scheme() + user + object_path(dir, id)),
        forall|u: Seq<char>, t: Seq<char>, r: Option<Seq<char>>|
            uri_parts_valid(u, t, r) && #[trigger] uri_text(u, t, r) == scheme() + user
                + object_path(dir, id) ==> u == user && t == dir && r == Some(id),
{
    assert(scheme() + user + object_path(dir, id) =~= uri_text(user, dir, Some(id)));
    assert(uri_parts_valid(user, dir, Some(id)));
    assert forall|u: Seq<char>, t: Seq<char>, r: Option<Seq<char>>|
        uri_parts_valid(u, t, r) && #[trigger] uri_text(u, t, r) == scheme() + user
            + object_path(dir, id) implies u == user && t == dir && r == Some(id) by {
        lemma_uri_parts_unique(u, t, r, user, dir, Some(id));
    }
}

/// Law: the URI of a user's profile is the user's `pubky://` address
/// followed by the profile's path, and reading it gives back the user and
/// `profile.json`, with no id.
pub proof fn lemma_profile_uri(user: Seq<char>)
    requires
        is_segment(user),
    ensures
        scheme() + user + user_path_spec() == uri_text(user, profile_file(), None),
        is_pubky_uri(scheme() + user + user_path_spec()),
        forall|u: Seq<char>, t: Seq<char>, r: Option<Seq<char>>|
            uri_parts_valid(u, t, r) && #[trigger] uri_text(u, t, r) == scheme() + user
                + user_path_spec() ==> u == user && t == profile_file() && r is None,
{
    assert(scheme() + user + user_path_spec() =~= uri_text(user, profile_file(), None));
    assert(!profile_file().contains('/')) by {
        assert forall|i: int| 0 <= i < profile_file().len() implies profile_file()[i] != '/' by {}
    }
    assert(uri_parts_valid(user, profile_file(), None));
    assert forall|u: Seq<char>, t: Seq<char>, r: Option<Seq<char>>|
        uri_parts_valid(u, t, r) && #[trigger] uri_text(u, t, r) == scheme() + user
            + user_path_spec() implies u == user && t == profile_file() && r is None by {
        lemma_uri_parts_unique(u, t, r, user, profile_file(), None);
    }
}

/// Law: a URI reads `pubky://<user>/pub/pubky.app/<resource type>`,
/// followed by `/<id>` when there is an id; a text that is not one is
/// refused with `Invalid pubky URI: <text>`.
pub proof fn lemma_uri_text_literal(user: Seq<char>, rtype: Seq<char>, id: Seq<char>, text: Seq<char>)
    ensures
        uri_text(user, rtype, None) == seq!['p', 'u', 'b', 'k', 'y', ':', '/', '/'] + user + seq!['/', 'p', 'u', 'b', '/', 'p', 'u', 'b', 'k', 'y', '.', 'a', 'p', 'p', '/'] + rtype,
        uri_text(user, rtype, Some(id)) == seq!['p', 'u', 'b', 'k', 'y', ':', '/', '/'] + user + seq!['/', 'p', 'u', 'b', '/', 'p', 'u', 'b', 'k', 'y', '.', 'a', 'p', 'p', '/'] + rtype
            + seq!['/'] + id,
        invalid_uri_error(text) == seq!['I', 'n', 'v', 'a', 'l', 'i', 'd', ' ', 'p', 'u', 'b', 'k', 'y', ' ', 'U', 'R', 'I', ':', ' '] + text,
{
    assert(uri_text(user, rtype, None) =~= seq!['p', 'u', 'b', 'k', 'y', ':', '/', '/'] + user + seq!['/', 'p', 'u', 'b', '/', 'p', 'u', 'b', 'k', 'y', '.', 'a', 'p', 'p', '/'] + rtype);
    assert(uri_text(user, rtype, Some(id)) =~= seq!['p', 'u', 'b', 'k', 'y', ':', '/', '/'] + user + seq!['/', 'p', 'u', 'b', '/', 'p', 'u', 'b', 'k', 'y', '.', 'a', 'p', 'p', '/']
        + rtype + seq!['/'] + id);
    assert(invalid_uri_error(text) =~= seq!['I', 'n', 'v', 'a', 'l', 'i', 'd', ' ', 'p', 'u', 'b', 'k', 'y', ' ', 'U', 'R', 'I', ':', ' '] + text);
}

/// Law: the parts of a URI are non-empty and hold no `/`.
pub proof fn lemma_uri_parts_literal(user: Seq<char>, rtype: Seq<char>, rid: Option<Seq<char>>)
    ensures
        uri_parts_valid(user, rtype, rid) <==> (user.len() > 0 && !user.contains('/') && rtype.len()
            > 0 && !rtype.contains('/') && (rid matches Some(id) ==> id.len() > 0 && !id.contains(
            '/',
        ))),
{
}

/// Law: an optional string is read as its characters, and absent stays
/// absent.
pub proof fn lemma_opt_text(s: String)
    ensures
        opt_text(Some(s)) == Some(s@),
        opt_text(None) is None,
{
}

} // verus!
