//! The browser substate: the navigation stack and the home sub-view with the
//! user's saved tracks and the playlist listing.

use vstd::prelude::*;
use crate::models::{
    prepend_all, remove_songs_by_ids, without_songs, PlaylistDescription, SongDescription,
};
use crate::strings::str_eq;
use crate::updatable::UpdatableState;
use vstd::pervasive::VecAdditionalExecFns;

verus! {

/// A screen the browser can navigate to.
#[derive(Debug, PartialEq)]
pub enum ScreenName {
    Home,
    AlbumDetails(String),
    Artist(String),
    PlaylistDetails(String),
    User(String),
    Search,
}

impl Clone for ScreenName {
    fn clone(&self) -> (r: Self)
        ensures
            r == *self,
    {
        match self {
            ScreenName::Home => ScreenName::Home,
            ScreenName::AlbumDetails(id) => ScreenName::AlbumDetails(id.clone()),
            ScreenName::Artist(id) => ScreenName::Artist(id.clone()),
            ScreenName::PlaylistDetails(id) => ScreenName::PlaylistDetails(id.clone()),
            ScreenName::User(id) => ScreenName::User(id.clone()),
            ScreenName::Search => ScreenName::Search,
        }
    }
}

#[derive(Clone, Debug, PartialEq)]
pub enum BrowserAction {
    NavigationPush(ScreenName),
    SaveTracks(Vec<SongDescription>),
    RemoveSavedTracks(Vec<String>),
    PrependPlaylistsContent(Vec<PlaylistDescription>),
    UpdatePlaylistName(crate::models::PlaylistSummary),
}

#[derive(Clone, Debug, PartialEq)]
pub enum BrowserEvent {
    NavigationPushed(ScreenName),
    SavedTracksUpdated,
    PlaylistsContentChanged,
    PlaylistNameChanged,
}

/// The home sub-view: saved tracks and the playlist listing.
#[derive(Debug)]
pub struct HomeState {
    pub saved_tracks: Vec<SongDescription>,
    pub playlists: Vec<PlaylistDescription>,
}

/// The abstract model of [`HomeState`].
#[verifier::ext_equal]
pub struct HomeModel {
    pub saved_tracks: Seq<SongDescription>,
    pub playlists: Seq<PlaylistDescription>,
}

impl View for HomeState {
    type V = HomeModel;

    open spec fn view(&self) -> HomeModel {
        HomeModel { saved_tracks: self.saved_tracks@, playlists: self.playlists@ }
    }
}

/// `playlists` with every entry that carries the identifier of `summary`
/// renamed to the title of `summary`.
pub open spec fn renamed_descriptions(
    playlists: Seq<PlaylistDescription>,
    summary: crate::models::PlaylistSummary,
) -> Seq<PlaylistDescription> {
    playlists.map_values(
        |p: PlaylistDescription|
            if p.id@ == summary.id@ {
                PlaylistDescription { id: p.id, title: summary.title }
            } else {
                p
            },
    )
}

impl UpdatableState for HomeState {
    type Action = BrowserAction;

    type Event = BrowserEvent;

    open spec fn next_model(m: HomeModel, action: BrowserAction) -> HomeModel {
        match action {
            BrowserAction::SaveTracks(tracks) => HomeModel {
                saved_tracks: tracks@ + m.saved_tracks,
                playlists: m.playlists,
            },
            BrowserAction::RemoveSavedTracks(ids) => HomeModel {
                saved_tracks: without_songs(m.saved_tracks, ids@),
                playlists: m.playlists,
            },
            BrowserAction::PrependPlaylistsContent(incoming) => HomeModel {
                saved_tracks: m.saved_tracks,
                playlists: incoming@ + m.playlists,
            },
            BrowserAction::UpdatePlaylistName(summary) => HomeModel {
                saved_tracks: m.saved_tracks,
                playlists: renamed_descriptions(m.playlists, summary),
            },
            BrowserAction::NavigationPush(_) => m,
        }
    }

    open spec fn emitted(m: HomeModel, action: BrowserAction) -> Seq<BrowserEvent> {
        match action {
            BrowserAction::SaveTracks(_) => seq![BrowserEvent::SavedTracksUpdated],
            BrowserAction::RemoveSavedTracks(_) => seq![BrowserEvent::SavedTracksUpdated],
            BrowserAction::PrependPlaylistsContent(_) => seq![
                BrowserEvent::PlaylistsContentChanged,
            ],
            BrowserAction::UpdatePlaylistName(_) => seq![BrowserEvent::PlaylistNameChanged],
            BrowserAction::NavigationPush(_) => Seq::empty(),
        }
    }

    fn update_with(&mut self, action: BrowserAction) -> (events: Vec<BrowserEvent>)
        ensures
            final(self)@ == Self::next_model(old(self)@, action),
            events@ == Self::emitted(old(self)@, action),
    {
        match action {
            BrowserAction::SaveTracks(tracks) => {
                prepend_all(&mut self.saved_tracks, tracks);
                let events = vec![BrowserEvent::SavedTracksUpdated];
                proof {
                    assert(events@ =~= Self::emitted(old(self)@, action));
                }
                events
            },
            BrowserAction::RemoveSavedTracks(ids) => {
                remove_songs_by_ids(&mut self.saved_tracks, &ids);
                let events = vec![BrowserEvent::SavedTracksUpdated];
                proof {
                    assert(events@ =~= Self::emitted(old(self)@, action));
                }
                events
            },
            BrowserAction::PrependPlaylistsContent(incoming) => {
                prepend_all(&mut self.playlists, incoming);
                let events = vec![BrowserEvent::PlaylistsContentChanged];
                proof {
                    assert(events@ =~= Self::emitted(old(self)@, action));
                }
                events
            },
            BrowserAction::UpdatePlaylistName(summary) => {
                let ghost orig = old(self)@.playlists;
                let mut i: usize = 0;
                while i < self.playlists.len()
                    invariant
                        orig == old(self)@.playlists,
                        i <= orig.len(),
                        self.playlists@.len() == orig.len(),
                        self.saved_tracks@ == old(self)@.saved_tracks,
                        forall|j: int|
                            0 <= j < i ==> self.playlists@[j] == (if orig[j].id@
                                == summary.id@ {
                                PlaylistDescription { id: orig[j].id, title: summary.title }
                            } else {
                                orig[j]
                            }),
                        forall|j: int| i <= j < orig.len() ==> self.playlists@[j] == orig[j],
                    decreases orig.len() - i,
                {
                    if str_eq(self.playlists[i].id.as_str(), summary.id.as_str()) {
                        let renamed = PlaylistDescription {
                            id: self.playlists[i].id.clone(),
                            title: summary.title.clone(),
                        };
                        self.playlists.set(i, renamed);
                    }
                    i = i + 1;
                }
                proof {
                    assert(self.playlists@ =~= renamed_descriptions(orig, summary));
                }
                let events = vec![BrowserEvent::PlaylistNameChanged];
                proof {
                    assert(events@ =~= Self::emitted(old(self)@, action));
                }
                events
            },
            BrowserAction::NavigationPush(_) => {
                let events: Vec<BrowserEvent> = Vec::new();
                proof {
                    assert(events@ =~= Self::emitted(old(self)@, action));
                }
                events
            },
        }
    }
}

/// The navigation stack and, when it is loaded, the home sub-view.
#[derive(Debug)]
pub struct BrowserState {
    pub navigation: Vec<ScreenName>,
    pub home: Option<HomeState>,
}

/// The abstract model of [`BrowserState`].
#[verifier::ext_equal]
pub struct BrowserModel {
    pub navigation: Seq<ScreenName>,
    pub home: Option<HomeModel>,
}

impl View for BrowserState {
    type V = BrowserModel;

    open spec fn view(&self) -> BrowserModel {
        BrowserModel {
            navigation: self.navigation@,
            home: match self.home {
                Some(h) => Some(h@),
                None => None,
            },
        }
    }
}

impl BrowserState {
    /// A fresh browser: the navigation stack holds the home screen and the
    /// home sub-view is present and empty.
    pub fn new() -> (r: Self)
        ensures
            r@ == (BrowserModel {
                navigation: seq![ScreenName::Home],
                home: Some(
                    HomeModel {
                        saved_tracks: Seq::<SongDescription>::empty(),
                        playlists: Seq::<PlaylistDescription>::empty(),
                    },
                ),
            }),
    {
        let mut navigation: Vec<ScreenName> = Vec::new();
        navigation.push(ScreenName::Home);
        let home = HomeState { saved_tracks: Vec::new(), playlists: Vec::new() };
        let r = BrowserState { navigation, home: Some(home) };
        proof {
            assert(r@.navigation =~= seq![ScreenName::Home]);
            assert(r@.home->Some_0 =~= (HomeModel {
                saved_tracks: Seq::<SongDescription>::empty(),
                playlists: Seq::<PlaylistDescription>::empty(),
            }));
        }
        r
    }

    /// The home sub-view, which may not be loaded.
    pub fn home_state(&self) -> (r: Option<&HomeState>)
        ensures
            match r {
                Some(h) => self@.home == Some(h@),
                None => self@.home is None,
            },
    {
        self.home.as_ref()
    }
}

impl UpdatableState for BrowserState {
    type Action = BrowserAction;

    type Event = BrowserEvent;

    open spec fn next_model(m: BrowserModel, action: BrowserAction) -> BrowserModel {
        match action {
            BrowserAction::NavigationPush(screen) => BrowserModel {
                navigation: m.navigation.push(screen),
                home: m.home,
            },
            _ => BrowserModel {
                navigation: m.navigation,
                home: match m.home {
                    Some(h) => Some(HomeState::next_model(h, action)),
                    None => None,
                },
            },
        }
    }

    open spec fn emitted(m: BrowserModel, action: BrowserAction) -> Seq<BrowserEvent> {
        match action {
            BrowserAction::NavigationPush(screen) => seq![BrowserEvent::NavigationPushed(screen)],
            _ => match m.home {
                Some(h) => HomeState::emitted(h, action),
                None => Seq::empty(),
            },
        }
    }

    fn update_with(&mut self, action: BrowserAction) -> (events: Vec<BrowserEvent>)
        ensures
            final(self)@ == Self::next_model(old(self)@, action),
            events@ == Self::emitted(old(self)@, action),
    {
        match action {
            BrowserAction::NavigationPush(screen) => {
                let pushed = screen.clone();
                self.navigation.push(screen);
                let events = vec![BrowserEvent::NavigationPushed(pushed)];
                proof {
                    assert(events@ =~= Self::emitted(old(self)@, action));
                }
                events
            },
            other => {
                match self.home.take() {
                    Some(mut h) => {
                        let events = h.update_with(other);
                        self.home = Some(h);
                        events
                    },
                    None => {
                        let events: Vec<BrowserEvent> = Vec::new();
                        proof {
                            assert(events@ =~= Self::emitted(old(self)@, action));
                        }
                        events
                    },
                }
            },
        }
    }
}

} // verus!
