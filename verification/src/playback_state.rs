//! The playback substate: a play/pause flag and the playback queue.

use vstd::prelude::*;
use crate::models::{remove_songs_by_ids, without_songs, SongDescription};
use crate::strings::str_eq;
use crate::updatable::UpdatableState;
use vstd::pervasive::VecAdditionalExecFns;

verus! {

#[derive(Clone, Copy, Debug, PartialEq, Eq, Structural)]
pub enum PlaybackAction {
    Play,
    Pause,
}

#[derive(Clone, Copy, Debug, PartialEq, Eq, Structural)]
pub enum PlaybackEvent {
    PlaybackResumed,
    PlaybackPaused,
    PlaylistChanged,
}

/// Whether playback is running, and the queued songs in play order.
#[derive(Debug)]
pub struct PlaybackState {
    pub playing: bool,
    pub songs: Vec<SongDescription>,
}

/// The abstract model of [`PlaybackState`].
#[verifier::ext_equal]
pub struct PlaybackModel {
    pub playing: bool,
    pub songs: Seq<SongDescription>,
}

impl View for PlaybackState {
    type V = PlaybackModel;

    open spec fn view(&self) -> PlaybackModel {
        PlaybackModel { playing: self.playing, songs: self.songs@ }
    }
}

/// Some queued song carries exactly the identifier `id`.
pub open spec fn has_song(songs: Seq<SongDescription>, id: Seq<char>) -> bool {
    exists|i: int| 0 <= i < songs.len() && songs[i].id@ == id
}

/// `i` is the first position in `songs` whose song carries the identifier `id`.
pub open spec fn first_position(songs: Seq<SongDescription>, id: Seq<char>, i: int) -> bool {
    &&& 0 <= i < songs.len()
    &&& songs[i].id@ == id
    &&& forall|j: int| 0 <= j < i ==> songs[j].id@ != id
}

/// The first position carrying `id`, if any song does.
pub open spec fn first_position_of(songs: Seq<SongDescription>, id: Seq<char>) -> Option<int> {
    if exists|i: int| first_position(songs, id, i) {
        Some(choose|i: int| first_position(songs, id, i))
    } else {
        None
    }
}

/// A position that matches first is the one `first_position_of` names.
pub proof fn lemma_first_position_of(songs: Seq<SongDescription>, id: Seq<char>, i: int)
    requires
        first_position(songs, id, i),
    ensures
        first_position_of(songs, id) == Some(i),
        has_song(songs, id),
{
    assert(exists|k: int| first_position(songs, id, k));
    let k = choose|k: int| first_position(songs, id, k);
    lemma_first_position_unique(songs, id, k, i);
    assert(songs[i].id@ == id);
    assert(has_song(songs, id));
}

pub proof fn lemma_first_position_unique(
    songs: Seq<SongDescription>,
    id: Seq<char>,
    i: int,
    j: int,
)
    requires
        first_position(songs, id, i),
        first_position(songs, id, j),
    ensures
        i == j,
{
    if i < j {
        assert(songs[i].id@ != id);
    }
    if j < i {
        assert(songs[j].id@ != id);
    }
}

/// `songs` with the song at `i` swapped one place toward the front; at the
/// front it stays where it is.
pub open spec fn shifted_up(songs: Seq<SongDescription>, i: int) -> Seq<SongDescription> {
    if i > 0 {
        songs.update(i - 1, songs[i]).update(i, songs[i - 1])
    } else {
        songs
    }
}

/// `songs` with the song at `i` swapped one place toward the back; at the
/// back it stays where it is.
pub open spec fn shifted_down(songs: Seq<SongDescription>, i: int) -> Seq<SongDescription> {
    if i < songs.len() - 1 {
        songs.update(i + 1, songs[i]).update(i, songs[i + 1])
    } else {
        songs
    }
}

/// The queue after the first song carrying `id` moves one place up.
pub open spec fn moved_up(songs: Seq<SongDescription>, id: Seq<char>) -> Seq<SongDescription> {
    match first_position_of(songs, id) {
        Some(i) => shifted_up(songs, i),
        None => songs,
    }
}

/// The queue after the first song carrying `id` moves one place down.
pub open spec fn moved_down(songs: Seq<SongDescription>, id: Seq<char>) -> Seq<SongDescription> {
    match first_position_of(songs, id) {
        Some(i) => shifted_down(songs, i),
        None => songs,
    }
}

impl Default for PlaybackState {
    fn default() -> (r: Self)
        ensures
            r@ == (PlaybackModel { playing: false, songs: Seq::<SongDescription>::empty() }),
    {
        let r = PlaybackState { playing: false, songs: Vec::new() };
        proof {
            assert(r@ =~= (PlaybackModel {
                playing: false,
                songs: Seq::<SongDescription>::empty(),
            }));
        }
        r
    }
}

impl PlaybackState {
    /// Append the given songs, in their order, to the back of the queue.
    pub fn queue(&mut self, tracks: Vec<SongDescription>)
        ensures
            final(self)@ == (PlaybackModel {
                playing: old(self)@.playing,
                songs: old(self)@.songs + tracks@,
            }),
    {
        let mut incoming = tracks;
        self.songs.append(&mut incoming);
        proof {
            assert(self@ == (PlaybackModel {
                playing: old(self)@.playing,
                songs: old(self)@.songs + tracks@,
            }));
        }
    }

    /// Remove every queued song whose identifier occurs in `ids`, keeping the
    /// order of the songs that stay.
    pub fn dequeue(&mut self, ids: &Vec<String>)
        ensures
            final(self)@ == (PlaybackModel {
                playing: old(self)@.playing,
                songs: without_songs(old(self)@.songs, ids@),
            }),
    {
        remove_songs_by_ids(&mut self.songs, ids);
        proof {
            assert(self@ == (PlaybackModel {
                playing: old(self)@.playing,
                songs: without_songs(old(self)@.songs, ids@),
            }));
        }
    }

    /// Move the first queued song carrying `id` one place toward the front.
    /// Returns the song's position after the move, or `None` when no queued
    /// song carries `id`.
    pub fn move_up(&mut self, id: &String) -> (r: Option<usize>)
        ensures
            final(self)@ == (PlaybackModel {
                playing: old(self)@.playing,
                songs: moved_up(old(self)@.songs, id@),
            }),
            r is Some <==> has_song(old(self)@.songs, id@),
            (match (r, first_position_of(old(self)@.songs, id@)) {
                (Some(p), Some(i)) => p as int == (if i > 0 {
                    i - 1
                } else {
                    0
                }),
                (None, None) => true,
                _ => false,
            }),
    {
        let ghost orig = old(self)@.songs;
        let mut i: usize = 0;
        while i < self.songs.len()
            invariant
                orig == old(self)@.songs,
                i <= orig.len(),
                self.songs@ == orig,
                self.playing == old(self).playing,
                forall|j: int| 0 <= j < i ==> orig[j].id@ != id@,
            decreases orig.len() - i,
        {
            if str_eq(self.songs[i].id.as_str(), id.as_str()) {
                proof {
                    assert(first_position(orig, id@, i as int));
                    lemma_first_position_of(orig, id@, i as int);
                    assert(moved_up(orig, id@) == shifted_up(orig, i as int));
                }
                if i > 0 {
                    let shifted = self.songs[i].clone();
                    let displaced = self.songs[i - 1].clone();
                    self.songs.set(i - 1, shifted);
                    self.songs.set(i, displaced);
                    proof {
                        assert(self.songs@ == shifted_up(orig, i as int));
                        assert(self@ == (PlaybackModel {
                            playing: old(self)@.playing,
                            songs: moved_up(old(self)@.songs, id@),
                        }));
                    }
                    return Some(i - 1);
                }
                proof {
                    assert(self@ == (PlaybackModel {
                        playing: old(self)@.playing,
                        songs: moved_up(old(self)@.songs, id@),
                    }));
                }
                return Some(0);
            }
            i = i + 1;
        }
        proof {
            assert(!has_song(orig, id@));
            assert(self@ == (PlaybackModel {
                playing: old(self)@.playing,
                songs: moved_up(old(self)@.songs, id@),
            }));
        }
        None
    }

    /// Move the first queued song carrying `id` one place toward the back.
    /// Returns the song's position after the move, or `None` when no queued
    /// song carries `id`.
    pub fn move_down(&mut self, id: &String) -> (r: Option<usize>)
        ensures
            final(self)@ == (PlaybackModel {
                playing: old(self)@.playing,
                songs: moved_down(old(self)@.songs, id@),
            }),
            r is Some <==> has_song(old(self)@.songs, id@),
            (match (r, first_position_of(old(self)@.songs, id@)) {
                (Some(p), Some(i)) => p as int == (if i < old(self)@.songs.len() - 1 {
                    i + 1
                } else {
                    i
                }),
                (None, None) => true,
                _ => false,
            }),
    {
        let ghost orig = old(self)@.songs;
        let mut i: usize = 0;
        while i < self.songs.len()
            invariant
                orig == old(self)@.songs,
                i <= orig.len(),
                self.songs@ == orig,
                self.playing == old(self).playing,
                forall|j: int| 0 <= j < i ==> orig[j].id@ != id@,
            decreases orig.len() - i,
        {
            if str_eq(self.songs[i].id.as_str(), id.as_str()) {
                proof {
                    assert(first_position(orig, id@, i as int));
                    lemma_first_position_of(orig, id@, i as int);
                    assert(moved_down(orig, id@) == shifted_down(orig, i as int));
                }
                if i + 1 < self.songs.len() {
                    let shifted = self.songs[i].clone();
                    let displaced = self.songs[i + 1].clone();
                    self.songs.set(i + 1, shifted);
                    self.songs.set(i, displaced);
                    proof {
                        assert(self.songs@ == shifted_down(orig, i as int));
                        assert(self@ == (PlaybackModel {
                            playing: old(self)@.playing,
                            songs: moved_down(old(self)@.songs, id@),
                        }));
                    }
                    return Some(i + 1);
                }
                proof {
                    assert(self@ == (PlaybackModel {
                        playing: old(self)@.playing,
                        songs: moved_down(old(self)@.songs, id@),
                    }));
                }
                return Some(i);
            }
            i = i + 1;
        }
        proof {
            assert(!has_song(orig, id@));
            assert(self@ == (PlaybackModel {
                playing: old(self)@.playing,
                songs: moved_down(old(self)@.songs, id@),
            }));
        }
        None
    }
}

impl UpdatableState for PlaybackState {
    type Action = PlaybackAction;

    type Event = PlaybackEvent;

    open spec fn next_model(m: PlaybackModel, action: PlaybackAction) -> PlaybackModel {
        match action {
            PlaybackAction::Play => PlaybackModel { playing: true, songs: m.songs },
            PlaybackAction::Pause => PlaybackModel { playing: false, songs: m.songs },
        }
    }

    open spec fn emitted(m: PlaybackModel, action: PlaybackAction) -> Seq<PlaybackEvent> {
        match action {
            PlaybackAction::Play => if m.playing {
                Seq::empty()
            } else {
                seq![PlaybackEvent::PlaybackResumed]
            },
            PlaybackAction::Pause => if m.playing {
                seq![PlaybackEvent::PlaybackPaused]
            } else {
                Seq::empty()
            },
        }
    }

    fn update_with(&mut self, action: PlaybackAction) -> (events: Vec<PlaybackEvent>)
        ensures
            final(self)@ == Self::next_model(old(self)@, action),
            events@ == Self::emitted(old(self)@, action),
    {
        match action {
            PlaybackAction::Play => {
                let was_playing = self.playing;
                self.playing = true;
                proof {
                    assert(self@ =~= Self::next_model(old(self)@, action));
                }
                if was_playing {
                    let events: Vec<PlaybackEvent> = Vec::new();
                    proof {
                        assert(events@ =~= Self::emitted(old(self)@, action));
                    }
                    events
                } else {
                    let events = vec![PlaybackEvent::PlaybackResumed];
                    proof {
                        assert(events@ =~= Self::emitted(old(self)@, action));
                    }
                    events
                }
            },
            PlaybackAction::Pause => {
                let was_playing = self.playing;
                self.playing = false;
                proof {
                    assert(self@ =~= Self::next_model(old(self)@, action));
                }
                if was_playing {
                    let events = vec![PlaybackEvent::PlaybackPaused];
                    proof {
                        assert(events@ =~= Self::emitted(old(self)@, action));
                    }
                    events
                } else {
                    let events: Vec<PlaybackEvent> = Vec::new();
                    proof {
                        assert(events@ =~= Self::emitted(old(self)@, action));
                    }
                    events
                }
            },
        }
    }
}

} // verus!
