//! The session substate: the authenticated user's own playlists.

use vstd::prelude::*;
use crate::models::{prepend_all, PlaylistSummary};
use crate::strings::str_eq;
use crate::updatable::UpdatableState;
use vstd::pervasive::VecAdditionalExecFns;

verus! {

#[derive(Clone, Debug, PartialEq)]
pub enum LoginAction {
    PrependUserPlaylist(Vec<PlaylistSummary>),
    UpdateUserPlaylist(PlaylistSummary),
}

#[derive(Clone, Copy, Debug, PartialEq, Eq, Structural)]
pub enum LoginEvent {
    UserPlaylistsChanged,
}

/// The slice of session state this core coordinates: the user's playlists.
#[derive(Debug)]
pub struct LoginState {
    pub playlists: Vec<PlaylistSummary>,
}

/// The abstract model of [`LoginState`].
#[verifier::ext_equal]
pub struct LoginModel {
    pub playlists: Seq<PlaylistSummary>,
}

impl View for LoginState {
    type V = LoginModel;

    open spec fn view(&self) -> LoginModel {
        LoginModel { playlists: self.playlists@ }
    }
}

/// `playlists` with every entry that carries the identifier of `summary`
/// renamed to the title of `summary`.
pub open spec fn renamed_summaries(
    playlists: Seq<PlaylistSummary>,
    summary: PlaylistSummary,
) -> Seq<PlaylistSummary> {
    playlists.map_values(
        |p: PlaylistSummary|
            if p.id@ == summary.id@ {
                PlaylistSummary { id: p.id, title: summary.title }
            } else {
                p
            },
    )
}

impl Default for LoginState {
    fn default() -> (r: Self)
        ensures
            r@ == (LoginModel { playlists: Seq::<PlaylistSummary>::empty() }),
    {
        LoginState { playlists: Vec::new() }
    }
}

impl UpdatableState for LoginState {
    type Action = LoginAction;

    type Event = LoginEvent;

    open spec fn next_model(m: LoginModel, action: LoginAction) -> LoginModel {
        match action {
            LoginAction::PrependUserPlaylist(incoming) => LoginModel {
                playlists: incoming@ + m.playlists,
            },
            LoginAction::UpdateUserPlaylist(summary) => LoginModel {
                playlists: renamed_summaries(m.playlists, summary),
            },
        }
    }

    open spec fn emitted(m: LoginModel, action: LoginAction) -> Seq<LoginEvent> {
        seq![LoginEvent::UserPlaylistsChanged]
    }

    fn update_with(&mut self, action: LoginAction) -> (events: Vec<LoginEvent>)
        ensures
            final(self)@ == Self::next_model(old(self)@, action),
            events@ == Self::emitted(old(self)@, action),
    {
        match action {
            LoginAction::PrependUserPlaylist(incoming) => {
                prepend_all(&mut self.playlists, incoming);
            },
            LoginAction::UpdateUserPlaylist(summary) => {
                let ghost orig = old(self)@.playlists;
                let mut i: usize = 0;
                while i < self.playlists.len()
                    invariant
                        orig == old(self)@.playlists,
                        i <= orig.len(),
                        self.playlists@.len() == orig.len(),
                        forall|j: int|
                            0 <= j < i ==> self.playlists@[j] == (if orig[j].id@
                                == summary.id@ {
                                PlaylistSummary { id: orig[j].id, title: summary.title }
                            } else {
                                orig[j]
                            }),
                        forall|j: int| i <= j < orig.len() ==> self.playlists@[j] == orig[j],
                    decreases orig.len() - i,
                {
                    if str_eq(self.playlists[i].id.as_str(), summary.id.as_str()) {
                        let renamed = PlaylistSummary {
                            id: self.playlists[i].id.clone(),
                            title: summary.title.clone(),
                        };
                        self.playlists.set(i, renamed);
                    }
                    i = i + 1;
                }
                proof {
                    assert(self.playlists@ =~= renamed_summaries(orig, summary));
                }
            },
        }
        let events = vec![LoginEvent::UserPlaylistsChanged];
        proof {
            assert(events@ =~= Self::emitted(old(self)@, action));
        }
        events
    }
}

} // verus!
