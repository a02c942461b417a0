//! Parsing of URI intents: `spotify:<kind>:<id>` strings, with the
//! empty-path artifact (a run of slashes after the scheme separator) of some
//! URI libraries stripped from the kind segment.

use vstd::prelude::*;
use crate::strings::str_eq;

verus! {

/// The kind of entity a recognized URI intent names.
#[derive(Clone, Copy, Debug, PartialEq, Eq, Structural)]
pub enum EntityKind {
    Album,
    Artist,
    Playlist,
    User,
}

/// A recognized navigation intent: an entity kind and its identifier.
pub struct NavIntent {
    pub kind: EntityKind,
    pub id: Seq<char>,
}

/// `k` is the position of the one and only colon in `s`.
pub open spec fn lone_colon_at(s: Seq<char>, k: int) -> bool {
    &&& 0 <= k < s.len()
    &&& s[k] == ':'
    &&& forall|j: int| 0 <= j < s.len() && j != k ==> s[j] != ':'
}

pub proof fn lemma_lone_colon_unique(s: Seq<char>, k1: int, k2: int)
    requires
        lone_colon_at(s, k1),
        lone_colon_at(s, k2),
    ensures
        k1 == k2,
{
    if k1 != k2 {
        assert(s[k2] != ':');
    }
}

/// `s` with its leading run of slash characters removed.
pub open spec fn stripped_slashes(s: Seq<char>) -> Seq<char>
    decreases s.len(),
{
    if s.len() > 0 && s[0] == '/' {
        stripped_slashes(s.drop_first())
    } else {
        s
    }
}

/// Stripping the leading slashes of `s` leaves its tail from the first
/// position that does not hold a slash.
pub proof fn lemma_stripped_slashes(s: Seq<char>, w: int)
    requires
        0 <= w <= s.len(),
        forall|j: int| 0 <= j < w ==> s[j] == '/',
        w == s.len() || s[w] != '/',
    ensures
        stripped_slashes(s) == s.subrange(w, s.len() as int),
    decreases w,
{
    if w == 0 {
        assert(s.subrange(0, s.len() as int) =~= s);
    } else {
        assert(s[0] == '/');
        let rest = s.drop_first();
        assert(rest =~= s.subrange(1, s.len() as int));
        assert(forall|j: int| 0 <= j < w - 1 ==> rest[j] == '/');
        lemma_stripped_slashes(rest, w - 1);
        assert(rest.subrange(w - 1, rest.len() as int) =~= s.subrange(w, s.len() as int));
    }
}

/// The entity kind a kind segment names, if it names one.
pub open spec fn kind_of_word(w: Seq<char>) -> Option<EntityKind> {
    if w == "album"@ {
        Some(EntityKind::Album)
    } else if w == "artist"@ {
        Some(EntityKind::Artist)
    } else if w == "playlist"@ {
        Some(EntityKind::Playlist)
    } else if w == "user"@ {
        Some(EntityKind::User)
    } else {
        None
    }
}

/// The navigation intent a string carries, if any: the string must be
/// exactly three colon-delimited segments, the first the scheme `spotify`,
/// the second a recognized entity kind after stripping a leading run of
/// slashes, and the third a non-empty identifier.
pub open spec fn parse_intent(s: Seq<char>) -> Option<NavIntent> {
    if s.len() >= 8 && s.subrange(0, 8) == "spotify:"@ {
        let rest = s.subrange(8, s.len() as int);
        if exists|k: int| lone_colon_at(rest, k) {
            let k = choose|k: int| lone_colon_at(rest, k);
            let word = stripped_slashes(rest.subrange(0, k));
            let id = rest.subrange(k + 1, rest.len() as int);
            if id.len() > 0 {
                match kind_of_word(word) {
                    Some(kind) => Some(NavIntent { kind, id }),
                    None => None,
                }
            } else {
                None
            }
        } else {
            None
        }
    } else {
        None
    }
}

/// Parse a URI intent, returning the entity kind and the identifier exactly
/// when [`parse_intent`] recognizes the string.
pub fn parse_uri(uri: &str) -> (r: Option<(EntityKind, String)>)
    ensures
        match (r, parse_intent(uri@)) {
            (Some(p), Some(intent)) => p.0 == intent.kind && p.1@ == intent.id,
            (None, None) => true,
            _ => false,
        },
{
    let n = uri.unicode_len();
    if n < 8 {
        return None;
    }
    let scheme = uri.substring_char(0, 8);
    if !str_eq(scheme, "spotify:") {
        return None;
    }
    let rest = uri.substring_char(8, n);
    let m = rest.unicode_len();
    let ghost rest_view = uri@.subrange(8, uri@.len() as int);
    proof {
        assert(rest@ == rest_view);
    }
    let mut k: usize = 0;
    let mut colon: Option<usize> = None;
    while k < m
        invariant
            uri@.len() >= 8,
            uri@.subrange(0, 8) == "spotify:"@,
            rest_view == uri@.subrange(8, uri@.len() as int),
            rest@ == rest_view,
            m == rest@.len(),
            k <= m,
            match colon {
                Some(c) => c < k && rest@[c as int] == ':' && (forall|j: int|
                    0 <= j < k && j != c ==> rest@[j] != ':'),
                None => forall|j: int| 0 <= j < k ==> rest@[j] != ':',
            },
        decreases m - k,
    {
        if rest.get_char(k) == ':' {
            match colon {
                Some(c) => {
                    proof {
                        assert forall|kk: int| !lone_colon_at(rest@, kk) by {
                            if lone_colon_at(rest@, kk) {
                                if kk != c as int {
                                    assert(rest@[c as int] != ':');
                                } else {
                                    assert(rest@[k as int] != ':');
                                }
                            }
                        }
                    }
                    return None;
                },
                None => {
                    colon = Some(k);
                },
            }
        }
        k = k + 1;
    }
    let c = match colon {
        Some(c) => c,
        None => {
            proof {
                assert forall|kk: int| !lone_colon_at(rest@, kk) by {
                    if lone_colon_at(rest@, kk) {
                        assert(rest@[kk] != ':');
                    }
                }
            }
            return None;
        },
    };
    proof {
        assert(lone_colon_at(rest_view, c as int));
        let kk = choose|kk: int| lone_colon_at(rest_view, kk);
        lemma_lone_colon_unique(rest_view, kk, c as int);
    }
    if c + 1 >= m {
        return None;
    }
    let mut w: usize = 0;
    while w < c
        invariant
            rest@ == rest_view,
            m == rest@.len(),
            c < m,
            w <= c,
            forall|j: int| 0 <= j < w ==> rest@[j] == '/',
        ensures
            rest@ == rest_view,
            w <= c,
            forall|j: int| 0 <= j < w ==> rest@[j] == '/',
            w == c || rest@[w as int] != '/',
        decreases c - w,
    {
        if rest.get_char(w) != '/' {
            break;
        }
        w = w + 1;
    }
    let word = rest.substring_char(w, c);
    proof {
        let seg = rest_view.subrange(0, c as int);
        assert(forall|j: int| 0 <= j < w ==> seg[j] == '/');
        assert(w as int == seg.len() || seg[w as int] != '/');
        lemma_stripped_slashes(seg, w as int);
        assert(seg.subrange(w as int, seg.len() as int) =~= rest_view.subrange(
            w as int,
            c as int,
        ));
        assert(word@ == stripped_slashes(seg));
    }
    let kind: Option<EntityKind> = if str_eq(word, "album") {
        Some(EntityKind::Album)
    } else if str_eq(word, "artist") {
        Some(EntityKind::Artist)
    } else if str_eq(word, "playlist") {
        Some(EntityKind::Playlist)
    } else if str_eq(word, "user") {
        Some(EntityKind::User)
    } else {
        None
    };
    match kind {
        Some(kind) => {
            let id = rest.substring_char(c + 1, m);
            let id_string = id.to_owned();
            Some((kind, id_string))
        },
        None => None,
    }
}

} // verus!
