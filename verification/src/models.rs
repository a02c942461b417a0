//! Plain data carried by actions and events — songs and playlists — and the
//! verified list operations on them that several substates share.

use vstd::prelude::*;
use crate::strings::{contains_str, contains_string};

verus! {

/// One track, identified by `id`; `title` stands for the rest of the
/// description that travels with it.
#[derive(Debug, PartialEq)]
pub struct SongDescription {
    pub id: String,
    pub title: String,
}

impl Clone for SongDescription {
    fn clone(&self) -> (r: Self)
        ensures
            r == *self,
    {
        SongDescription { id: self.id.clone(), title: self.title.clone() }
    }
}

/// A playlist as it is described when it is created.
#[derive(Debug, PartialEq)]
pub struct PlaylistDescription {
    pub id: String,
    pub title: String,
}

impl Clone for PlaylistDescription {
    fn clone(&self) -> (r: Self)
        ensures
            r == *self,
    {
        PlaylistDescription { id: self.id.clone(), title: self.title.clone() }
    }
}

/// The short form of a playlist used by listings and by rename actions.
#[derive(Debug, PartialEq)]
pub struct PlaylistSummary {
    pub id: String,
    pub title: String,
}

impl Clone for PlaylistSummary {
    fn clone(&self) -> (r: Self)
        ensures
            r == *self,
    {
        PlaylistSummary { id: self.id.clone(), title: self.title.clone() }
    }
}

/// `songs` without every song whose identifier occurs in `ids`.
pub open spec fn without_songs(songs: Seq<SongDescription>, ids: Seq<String>) -> Seq<
    SongDescription,
> {
    songs.filter(|s: SongDescription| !contains_string(ids, s.id@))
}

/// Remove from `songs` every song whose identifier occurs in `ids`, keeping
/// the order of the songs that stay.
pub fn remove_songs_by_ids(songs: &mut Vec<SongDescription>, ids: &Vec<String>)
    ensures
        final(songs)@ == without_songs(old(songs)@, ids@),
{
    let ghost orig = songs@;
    let mut remaining: Vec<SongDescription> = Vec::new();
    core::mem::swap(&mut remaining, songs);
    proof {
        reveal(Seq::filter);
        assert(orig.subrange(0, 0) =~= Seq::<SongDescription>::empty());
    }
    while remaining.len() > 0
        invariant
            remaining@.len() <= orig.len(),
            remaining@ =~= orig.subrange(orig.len() - remaining@.len(), orig.len() as int),
            songs@ == without_songs(orig.subrange(0, orig.len() - remaining@.len()), ids@),
        decreases remaining@.len(),
    {
        let ghost done = orig.len() - remaining@.len();
        let song = remaining.remove(0);
        proof {
            assert(song == orig[done]);
            assert(remaining@ =~= orig.subrange(done + 1, orig.len() as int));
        }
        let keep = !contains_str(ids, &song.id);
        proof {
            reveal(Seq::filter);
            let prefix = orig.subrange(0, done);
            let grown = orig.subrange(0, done + 1);
            assert(grown.drop_last() =~= prefix);
            assert(grown.last() == orig[done]);
            assert(without_songs(grown, ids@) == if keep {
                without_songs(prefix, ids@).push(song)
            } else {
                without_songs(prefix, ids@)
            });
        }
        if keep {
            songs.push(song);
        }
    }
    proof {
        assert(orig.subrange(0, orig.len() as int) =~= orig);
    }
}

/// The identifiers of `songs`, in order.
pub open spec fn song_id_seq(songs: Seq<SongDescription>) -> Seq<String> {
    songs.map_values(|s: SongDescription| s.id)
}

/// Extract the identifiers of `songs`, in order.
pub fn song_ids(songs: Vec<SongDescription>) -> (ids: Vec<String>)
    ensures
        ids@ == song_id_seq(songs@),
{
    let ghost all = songs@;
    let mut remaining = songs;
    let mut ids: Vec<String> = Vec::new();
    proof {
        assert(ids@ =~= song_id_seq(all.subrange(0, 0)));
    }
    while remaining.len() > 0
        invariant
            all.len() >= remaining@.len(),
            remaining@ == all.subrange(all.len() - remaining@.len(), all.len() as int),
            ids@ == song_id_seq(all.subrange(0, all.len() - remaining@.len())),
        decreases remaining@.len(),
    {
        let ghost done = all.len() - remaining@.len();
        let song = remaining.remove(0);
        proof {
            assert(song == all[done]);
            assert(remaining@ =~= all.subrange(done + 1, all.len() as int));
        }
        ids.push(song.id);
        proof {
            assert(ids@ =~= song_id_seq(all.subrange(0, done + 1)));
        }
    }
    proof {
        assert(all.subrange(0, all.len() as int) =~= all);
    }
    ids
}

/// Move every element of `incoming`, keeping its order, to the front of `dst`.
pub fn prepend_all<T>(dst: &mut Vec<T>, incoming: Vec<T>)
    ensures
        final(dst)@ == incoming@ + old(dst)@,
{
    let mut merged = incoming;
    merged.append(dst);
    core::mem::swap(dst, &mut merged);
}

impl From<PlaylistDescription> for PlaylistSummary {
    fn from(p: PlaylistDescription) -> (r: Self) {
        PlaylistSummary { id: p.id, title: p.title }
    }
}

impl vstd::std_specs::convert::FromSpecImpl<PlaylistDescription> for PlaylistSummary {
    open spec fn obeys_from_spec() -> bool {
        true
    }

    open spec fn from_spec(p: PlaylistDescription) -> Self {
        PlaylistSummary { id: p.id, title: p.title }
    }
}

} // verus!
