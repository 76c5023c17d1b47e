//! Where each object is stored on a user's homeserver.

use vstd::prelude::*;

verus! {

/// `/pub/pubky.app/`, the directory that holds all application data.
pub open spec fn app_root() -> Seq<char> {
    seq!['/', 'p', 'u', 'b', '/', 'p', 'u', 'b', 'k', 'y', '.', 'a', 'p', 'p', '/']
}

/// `posts`
pub open spec fn posts_dir() -> Seq<char> {
    seq!['p', 'o', 's', 't', 's']
}

/// `files`
pub open spec fn files_dir() -> Seq<char> {
    seq!['f', 'i', 'l', 'e', 's']
}

/// `bookmarks`
pub open spec fn bookmarks_dir() -> Seq<char> {
    seq!['b', 'o', 'o', 'k', 'm', 'a', 'r', 'k', 's']
}

/// `tags`
pub open spec fn tags_dir() -> Seq<char> {
    seq!['t', 'a', 'g', 's']
}

/// `profile.json`
pub open spec fn profile_file() -> Seq<char> {
    seq!['p', 'r', 'o', 'f', 'i', 'l', 'e', '.', 'j', 's', 'o', 'n']
}

/// The path of the object `id` in the directory `dir`: `/pub/pubky.app/<dir>/<id>`.
pub open spec fn object_path(dir: Seq<char>, id: Seq<char>) -> Seq<char> {
    app_root() + dir + seq!['/'] + id
}

/// `/pub/pubky.app/profile.json`
pub open spec fn user_path_spec() -> Seq<char> {
    app_root() + profile_file()
}

/// The path of a post: `/pub/pubky.app/posts/<id>`.
pub fn post_path(id: &str) -> (res: String)
    ensures
        res@ == object_path(posts_dir(), id@),
        res@ == seq!['/', 'p', 'u', 'b', '/', 'p', 'u', 'b', 'k', 'y', '.', 'a', 'p', 'p', '/', 'p', 'o', 's', 't', 's', '/'] + id@,
{
    let mut res = String::from_str("/pub/pubky.app/posts/");
    res.append(id);
    proof {
        reveal_strlit("/pub/pubky.app/posts/");
        assert(res@ =~= object_path(posts_dir(), id@));
    }
    res
}

/// The path of a file: `/pub/pubky.app/files/<id>`.
pub fn file_path(id: &str) -> (res: String)
    ensures
        res@ == object_path(files_dir(), id@),
        res@ == seq!['/', 'p', 'u', 'b', '/', 'p', 'u', 'b', 'k', 'y', '.', 'a', 'p', 'p', '/', 'f', 'i', 'l', 'e', 's', '/'] + id@,
{
    let mut res = String::from_str("/pub/pubky.app/files/");
    res.append(id);
    proof {
        reveal_strlit("/pub/pubky.app/files/");
        assert(res@ =~= object_path(files_dir(), id@));
    }
    res
}

/// The path of a bookmark: `/pub/pubky.app/bookmarks/<id>`.
pub fn bookmark_path(id: &str) -> (res: String)
    ensures
        res@ == object_path(bookmarks_dir(), id@),
        res@ == seq!['/', 'p', 'u', 'b', '/', 'p', 'u', 'b', 'k', 'y', '.', 'a', 'p', 'p', '/', 'b', 'o', 'o', 'k', 'm', 'a', 'r', 'k', 's', '/'] + id@,
{
    let mut res = String::from_str("/pub/pubky.app/bookmarks/");
    res.append(id);
    proof {
        reveal_strlit("/pub/pubky.app/bookmarks/");
        assert(res@ =~= object_path(bookmarks_dir(), id@));
    }
    res
}

/// The path of a tag: `/pub/pubky.app/tags/<id>`.
pub fn tag_path(id: &str) -> (res: String)
    ensures
        res@ == object_path(tags_dir(), id@),
        res@ == seq!['/', 'p', 'u', 'b', '/', 'p', 'u', 'b', 'k', 'y', '.', 'a', 'p', 'p', '/', 't', 'a', 'g', 's', '/'] + id@,
{
    let mut res = String::from_str("/pub/pubky.app/tags/");
    res.append(id);
    proof {
        reveal_strlit("/pub/pubky.app/tags/");
        assert(res@ =~= object_path(tags_dir(), id@));
    }
    res
}

/// The path of a user's profile: `/pub/pubky.app/profile.json`.
pub fn user_path() -> (res: String)
    ensures
        res@ == user_path_spec(),
        res@ == seq!['/', 'p', 'u', 'b', '/', 'p', 'u', 'b', 'k', 'y', '.', 'a', 'p', 'p', '/', 'p', 'r', 'o', 'f', 'i', 'l', 'e', '.', 'j', 's', 'o', 'n'],
{
    proof {
        reveal_strlit("/pub/pubky.app/profile.json");
        assert("/pub/pubky.app/profile.json"@ =~= user_path_spec());
    }
    String::from_str("/pub/pubky.app/profile.json")
}

/// Law: every object lives under `/pub/pubky.app/` in the directory of its
/// kind (`posts/`, `files/`, `bookmarks/`, `tags/`), and a profile at
/// `/pub/pubky.app/profile.json`.
pub proof fn lemma_paths_literal(id: Seq<char>)
    ensures
        object_path(posts_dir(), id) == seq!['/', 'p', 'u', 'b', '/', 'p', 'u', 'b', 'k', 'y', '.', 'a', 'p', 'p', '/', 'p', 'o', 's', 't', 's', '/'] + id,
        object_path(files_dir(), id) == seq!['/', 'p', 'u', 'b', '/', 'p', 'u', 'b', 'k', 'y', '.', 'a', 'p', 'p', '/', 'f', 'i', 'l', 'e', 's', '/'] + id,
        object_path(bookmarks_dir(), id) == seq!['/', 'p', 'u', 'b', '/', 'p', 'u', 'b', 'k', 'y', '.', 'a', 'p', 'p', '/', 'b', 'o', 'o', 'k', 'm', 'a', 'r', 'k', 's', '/'] + id,
        object_path(tags_dir(), id) == seq!['/', 'p', 'u', 'b', '/', 'p', 'u', 'b', 'k', 'y', '.', 'a', 'p', 'p', '/', 't', 'a', 'g', 's', '/'] + id,
        user_path_spec() == seq!['/', 'p', 'u', 'b', '/', 'p', 'u', 'b', 'k', 'y', '.', 'a', 'p', 'p', '/', 'p', 'r', 'o', 'f', 'i', 'l', 'e', '.', 'j', 's', 'o', 'n'],
{
    assert(object_path(posts_dir(), id) =~= seq!['/', 'p', 'u', 'b', '/', 'p', 'u', 'b', 'k', 'y', '.', 'a', 'p', 'p', '/', 'p', 'o', 's', 't', 's', '/'] + id);
    assert(object_path(files_dir(), id) =~= seq!['/', 'p', 'u', 'b', '/', 'p', 'u', 'b', 'k', 'y', '.', 'a', 'p', 'p', '/', 'f', 'i', 'l', 'e', 's', '/'] + id);
    assert(object_path(bookmarks_dir(), id) =~= seq!['/', 'p', 'u', 'b', '/', 'p', 'u', 'b', 'k', 'y', '.', 'a', 'p', 'p', '/', 'b', 'o', 'o', 'k', 'm', 'a', 'r', 'k', 's', '/'] + id);
    assert(object_path(tags_dir(), id) =~= seq!['/', 'p', 'u', 'b', '/', 'p', 'u', 'b', 'k', 'y', '.', 'a', 'p', 'p', '/', 't', 'a', 'g', 's', '/'] + id);
    assert(user_path_spec() =~= seq!['/', 'p', 'u', 'b', '/', 'p', 'u', 'b', 'k', 'y', '.', 'a', 'p', 'p', '/', 'p', 'r', 'o', 'f', 'i', 'l', 'e', '.', 'j', 's', 'o', 'n']);
}

} // verus!
