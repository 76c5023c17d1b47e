//! The kinds of posts and their names.

use vstd::prelude::*;

use crate::text::text_equals;

verus! {

/// What a post holds: short text, long text, an image, a video, a link or a file.
#[derive(Clone, Copy, Debug, PartialEq, Eq, Structural)]
pub enum PostKind {
    Short,
    Long,
    Image,
    Video,
    Link,
    File,
}

/// The name by which a kind is written: `short`, `long`, `image`,
/// `video`, `link` or `file`.
pub open spec fn kind_name(kind: PostKind) -> Seq<char> {
    match kind {
        PostKind::Short => seq!['s', 'h', 'o', 'r', 't'],
        PostKind::Long => seq!['l', 'o', 'n', 'g'],
        PostKind::Image => seq!['i', 'm', 'a', 'g', 'e'],
        PostKind::Video => seq!['v', 'i', 'd', 'e', 'o'],
        PostKind::Link => seq!['l', 'i', 'n', 'k'],
        PostKind::File => seq!['f', 'i', 'l', 'e'],
    }
}

/// The kind whose name is `name`, if any.
pub open spec fn kind_from_name(name: Seq<char>) -> Option<PostKind> {
    if name == kind_name(PostKind::Short) {
        Some(PostKind::Short)
    } else if name == kind_name(PostKind::Long) {
        Some(PostKind::Long)
    } else if name == kind_name(PostKind::Image) {
        Some(PostKind::Image)
    } else if name == kind_name(PostKind::Video) {
        Some(PostKind::Video)
    } else if name == kind_name(PostKind::Link) {
        Some(PostKind::Link)
    } else if name == kind_name(PostKind::File) {
        Some(PostKind::File)
    } else {
        None
    }
}

impl PostKind {
    /// The name of this kind.
    pub fn name(&self) -> (res: &'static str)
        ensures
            res@ == kind_name(*self),
    {
        match self {
            PostKind::Short => {
                proof {
                    reveal_strlit("short");
                    assert("short"@ =~= kind_name(PostKind::Short));
                }
                "short"
            },
            PostKind::Long => {
                proof {
                    reveal_strlit("long");
                    assert("long"@ =~= kind_name(PostKind::Long));
                }
                "long"
            },
            PostKind::Image => {
                proof {
                    reveal_strlit("image");
                    assert("image"@ =~= kind_name(PostKind::Image));
                }
                "image"
            },
            PostKind::Video => {
                proof {
                    reveal_strlit("video");
                    assert("video"@ =~= kind_name(PostKind::Video));
                }
                "video"
            },
            PostKind::Link => {
                proof {
                    reveal_strlit("link");
                    assert("link"@ =~= kind_name(PostKind::Link));
                }
                "link"
            },
            PostKind::File => {
                proof {
                    reveal_strlit("file");
                    assert("file"@ =~= kind_name(PostKind::File));
                }
                "file"
            },
        }
    }
}

/// Reads a post kind from its name; `None` for any other text.
pub fn parse_post_kind(name: &str) -> (res: Option<PostKind>)
    ensures
        res == kind_from_name(name@),
{
    if text_equals(name, PostKind::Short.name()) {
        return Some(PostKind::Short);
    }
    if text_equals(name, PostKind::Long.name()) {
        return Some(PostKind::Long);
    }
    if text_equals(name, PostKind::Image.name()) {
        return Some(PostKind::Image);
    }
    if text_equals(name, PostKind::Video.name()) {
        return Some(PostKind::Video);
    }
    if text_equals(name, PostKind::Link.name()) {
        return Some(PostKind::Link);
    }
    if text_equals(name, PostKind::File.name()) {
        return Some(PostKind::File);
    }
    None
}

/// Law: reading the name of a kind gives the kind back.
pub proof fn lemma_kind_name_round_trip(kind: PostKind)
    ensures
        kind_from_name(kind_name(kind)) == Some(kind),
{
    let s = kind_name(PostKind::Short);
    let l = kind_name(PostKind::Long);
    let i = kind_name(PostKind::Image);
    let v = kind_name(PostKind::Video);
    let k = kind_name(PostKind::Link);
    let f = kind_name(PostKind::File);
    assert(s[0] == 's' && l[0] == 'l' && i[0] == 'i' && v[0] == 'v' && k[0] == 'l' && f[0] == 'f');
    assert(l[1] == 'o' && k[1] == 'i');
    assert(s.len() == 5 && i.len() == 5 && v.len() == 5);
}

/// Law: a name is read as a kind only when it is exactly that kind's name.
pub proof fn lemma_kind_from_name_exact(name: Seq<char>)
    ensures
        kind_from_name(name) matches Some(kind) ==> kind_name(kind) == name,
{
}

/// Law: the kinds are written `short`, `long`, `image`, `video`, `link`
/// and `file`, and each of these names is read as its kind.
pub proof fn lemma_kind_names_literal()
    ensures
        kind_name(PostKind::Short) == seq!['s', 'h', 'o', 'r', 't'],
        kind_from_name(seq!['s', 'h', 'o', 'r', 't']) == Some(PostKind::Short),
        kind_name(PostKind::Long) == seq!['l', 'o', 'n', 'g'],
        kind_from_name(seq!['l', 'o', 'n', 'g']) == Some(PostKind::Long),
        kind_name(PostKind::Image) == seq!['i', 'm', 'a', 'g', 'e'],
        kind_from_name(seq!['i', 'm', 'a', 'g', 'e']) == Some(PostKind::Image),
        kind_name(PostKind::Video) == seq!['v', 'i', 'd', 'e', 'o'],
        kind_from_name(seq!['v', 'i', 'd', 'e', 'o']) == Some(PostKind::Video),
        kind_name(PostKind::Link) == seq!['l', 'i', 'n', 'k'],
        kind_from_name(seq!['l', 'i', 'n', 'k']) == Some(PostKind::Link),
        kind_name(PostKind::File) == seq!['f', 'i', 'l', 'e'],
        kind_from_name(seq!['f', 'i', 'l', 'e']) == Some(PostKind::File),
{
    lemma_kind_name_round_trip(PostKind::Short);
    assert(kind_name(PostKind::Short) =~= seq!['s', 'h', 'o', 'r', 't']);
    lemma_kind_name_round_trip(PostKind::Long);
    assert(kind_name(PostKind::Long) =~= seq!['l', 'o', 'n', 'g']);
    lemma_kind_name_round_trip(PostKind::Image);
    assert(kind_name(PostKind::Image) =~= seq!['i', 'm', 'a', 'g', 'e']);
    lemma_kind_name_round_trip(PostKind::Video);
    assert(kind_name(PostKind::Video) =~= seq!['v', 'i', 'd', 'e', 'o']);
    lemma_kind_name_round_trip(PostKind::Link);
    assert(kind_name(PostKind::Link) =~= seq!['l', 'i', 'n', 'k']);
    lemma_kind_name_round_trip(PostKind::File);
    assert(kind_name(PostKind::File) =~= seq!['f', 'i', 'l', 'e']);
}

} // verus!
