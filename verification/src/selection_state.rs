//! The selection substate: a toggled multi-selection mode and its buffer of
//! picked songs.

use vstd::prelude::*;
use crate::models::SongDescription;
use crate::updatable::UpdatableState;

verus! {

/// What kind of items the active multi-selection gathers.
#[derive(Clone, Copy, Debug, PartialEq, Eq, Structural)]
pub enum SelectionContext {
    Queue,
    SavedTracks,
    Playlists,
}

#[derive(Clone, Debug, PartialEq)]
pub enum SelectionAction {
    Select(SongDescription),
    Clear,
}

#[derive(Clone, Copy, Debug, PartialEq, Eq, Structural)]
pub enum SelectionEvent {
    SelectionModeChanged(bool),
    SelectionChanged,
}

/// The active selection context, if any, and the songs picked so far.
#[derive(Debug)]
pub struct SelectionState {
    pub context: Option<SelectionContext>,
    pub songs: Vec<SongDescription>,
}

/// The abstract model of [`SelectionState`].
#[verifier::ext_equal]
pub struct SelectionModel {
    pub context: Option<SelectionContext>,
    pub songs: Seq<SongDescription>,
}

impl View for SelectionState {
    type V = SelectionModel;

    open spec fn view(&self) -> SelectionModel {
        SelectionModel { context: self.context, songs: self.songs@ }
    }
}

/// The model of a selection that is inactive and holds nothing.
pub open spec fn cleared_selection() -> SelectionModel {
    SelectionModel { context: None, songs: Seq::empty() }
}

impl Default for SelectionState {
    fn default() -> (r: Self)
        ensures
            r@ == cleared_selection(),
    {
        let r = SelectionState { context: None, songs: Vec::new() };
        proof {
            assert(r@ =~= cleared_selection());
        }
        r
    }
}

impl SelectionState {
    /// Drain the selection: deactivate the mode, empty the buffer, and hand
    /// the picked songs back in the order they were picked.
    pub fn take_selection(&mut self) -> (songs: Vec<SongDescription>)
        ensures
            final(self)@ == cleared_selection(),
            songs@ == old(self)@.songs,
    {
        self.context = None;
        let mut songs: Vec<SongDescription> = Vec::new();
        core::mem::swap(&mut songs, &mut self.songs);
        proof {
            assert(self@ =~= cleared_selection());
        }
        songs
    }

    /// Read the selection as a cursor without draining it: the first picked
    /// song, if any.
    pub fn peek_selection(&self) -> (r: Option<&SongDescription>)
        ensures
            match r {
                Some(song) => self@.songs.len() > 0 && *song == self@.songs[0],
                None => self@.songs.len() == 0,
            },
    {
        if self.songs.len() > 0 {
            Some(&self.songs[0])
        } else {
            None
        }
    }

    /// Request the selection mode `context` (`None` cancels it).  A request
    /// that names the state already in force is a no-op returning `None`;
    /// otherwise the mode is switched, the buffer emptied, and the new
    /// active flag returned.
    pub fn set_mode(&mut self, context: Option<SelectionContext>) -> (r: Option<bool>)
        ensures
            old(self)@.context == context ==> r is None && final(self)@ == old(self)@,
            old(self)@.context != context ==> {
                &&& r == Some(context is Some)
                &&& final(self)@ == (SelectionModel { context, songs: Seq::empty() })
            },
    {
        let same = match (&context, &self.context) {
            (Option::None, Option::None) => true,
            (Option::Some(a), Option::Some(b)) => *a == *b,
            _ => false,
        };
        if same {
            None
        } else {
            let active = context.is_some();
            self.context = context;
            self.songs.clear();
            proof {
                assert(self@ =~= (SelectionModel { context, songs: Seq::empty() }));
            }
            Some(active)
        }
    }
}

impl UpdatableState for SelectionState {
    type Action = SelectionAction;

    type Event = SelectionEvent;

    open spec fn next_model(m: SelectionModel, action: SelectionAction) -> SelectionModel {
        match action {
            SelectionAction::Select(song) => if m.context is Some {
                SelectionModel { context: m.context, songs: m.songs.push(song) }
            } else {
                m
            },
            SelectionAction::Clear => SelectionModel { context: m.context, songs: Seq::empty() },
        }
    }

    open spec fn emitted(m: SelectionModel, action: SelectionAction) -> Seq<SelectionEvent> {
        match action {
            SelectionAction::Select(_) => if m.context is Some {
                seq![SelectionEvent::SelectionChanged]
            } else {
                Seq::empty()
            },
            SelectionAction::Clear => if m.songs.len() > 0 {
                seq![SelectionEvent::SelectionChanged]
            } else {
                Seq::empty()
            },
        }
    }

    fn update_with(&mut self, action: SelectionAction) -> (events: Vec<SelectionEvent>)
        ensures
            final(self)@ == Self::next_model(old(self)@, action),
            events@ == Self::emitted(old(self)@, action),
    {
        match action {
            SelectionAction::Select(song) => {
                if self.context.is_some() {
                    self.songs.push(song);
                    proof {
                        assert(self@ =~= Self::next_model(old(self)@, action));
                    }
                    let events = vec![SelectionEvent::SelectionChanged];
                    proof {
                        assert(events@ =~= Self::emitted(old(self)@, action));
                    }
                    events
                } else {
                    let events: Vec<SelectionEvent> = Vec::new();
                    proof {
                        assert(events@ =~= Self::emitted(old(self)@, action));
                    }
                    events
                }
            },
            SelectionAction::Clear => {
                let was_empty = self.songs.is_empty();
                self.songs.clear();
                proof {
                    assert(self@ =~= Self::next_model(old(self)@, action));
                }
                if was_empty {
                    let events: Vec<SelectionEvent> = Vec::new();
                    proof {
                        assert(events@ =~= Self::emitted(old(self)@, action));
                    }
                    events
                } else {
                    let events = vec![SelectionEvent::SelectionChanged];
                    proof {
                        assert(events@ =~= Self::emitted(old(self)@, action));
                    }
                    events
                }
            },
        }
    }
}

} // verus!
