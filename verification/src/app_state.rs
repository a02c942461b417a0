//! The composite state and the dispatch engine: one action in, an ordered
//! sequence of events out.

use vstd::prelude::*;
use crate::browser_state::{
    BrowserAction, BrowserEvent, BrowserModel, BrowserState, HomeModel, ScreenName,
};
use crate::login_state::{renamed_summaries, LoginAction, LoginEvent, LoginModel, LoginState};
use crate::browser_state::renamed_descriptions;
use crate::models::{
    song_id_seq, song_ids, without_songs, PlaylistDescription, PlaylistSummary, SongDescription,
};
use crate::playback_state::{
    has_song, moved_down, moved_up, PlaybackAction, PlaybackEvent, PlaybackModel, PlaybackState,
};
use crate::selection_state::{
    cleared_selection, SelectionAction, SelectionContext, SelectionEvent, SelectionModel,
    SelectionState,
};
use crate::settings_state::{SettingsAction, SettingsEvent, SettingsModel, SettingsState};
use crate::updatable::UpdatableState;

verus! {

/// Every intent a caller can dispatch: one wrapper per substate, plus the
/// cross-cutting intents the composite reducer handles itself.
#[derive(Clone, Debug, PartialEq)]
pub enum AppAction {
    PlaybackAction(PlaybackAction),
    BrowserAction(BrowserAction),
    SelectionAction(SelectionAction),
    LoginAction(LoginAction),
    SettingsAction(SettingsAction),
    Start,
    Raise,
    ShowNotification(String),
    ViewNowPlaying,
    QueueSelection,
    DequeueSelection,
    MoveUpSelection,
    MoveDownSelection,
    SaveSelection,
    UnsaveSelection,
    EnableSelection(SelectionContext),
    CancelSelection,
    CreatePlaylist(PlaylistDescription),
    UpdatePlaylistName(PlaylistSummary),
}

/// Every change notification a dispatch can report: one wrapper per substate,
/// plus the cross-cutting notifications.
#[derive(Clone, Debug, PartialEq)]
pub enum AppEvent {
    PlaybackEvent(PlaybackEvent),
    BrowserEvent(BrowserEvent),
    SelectionEvent(SelectionEvent),
    LoginEvent(LoginEvent),
    Started,
    Raised,
    NotificationShown(String),
    PlaylistCreatedNotificationShown(String),
    NowPlayingShown,
    SettingsEvent(SettingsEvent),
}

/// Lifting of a substate's event type into the unified [`AppEvent`] type.
pub trait LiftedEvent: Sized {
    /// The unified event this substate event lifts to.
    spec fn lifted(self) -> AppEvent;

    /// Lift the event.
    fn lift(self) -> (e: AppEvent)
        ensures
            e == self.lifted(),
    ;
}

impl LiftedEvent for PlaybackEvent {
    open spec fn lifted(self) -> AppEvent {
        AppEvent::PlaybackEvent(self)
    }

    fn lift(self) -> (e: AppEvent) {
        AppEvent::PlaybackEvent(self)
    }
}

impl LiftedEvent for BrowserEvent {
    open spec fn lifted(self) -> AppEvent {
        AppEvent::BrowserEvent(self)
    }

    fn lift(self) -> (e: AppEvent) {
        AppEvent::BrowserEvent(self)
    }
}

impl LiftedEvent for SelectionEvent {
    open spec fn lifted(self) -> AppEvent {
        AppEvent::SelectionEvent(self)
    }

    fn lift(self) -> (e: AppEvent) {
        AppEvent::SelectionEvent(self)
    }
}

impl LiftedEvent for LoginEvent {
    open spec fn lifted(self) -> AppEvent {
        AppEvent::LoginEvent(self)
    }

    fn lift(self) -> (e: AppEvent) {
        AppEvent::LoginEvent(self)
    }
}

impl LiftedEvent for SettingsEvent {
    open spec fn lifted(self) -> AppEvent {
        AppEvent::SettingsEvent(self)
    }

    fn lift(self) -> (e: AppEvent) {
        AppEvent::SettingsEvent(self)
    }
}

/// The events of one substate, each lifted into the unified event type.
pub open spec fn lifted_events<E: LiftedEvent>(events: Seq<E>) -> Seq<AppEvent> {
    events.map_values(|e: E| e.lifted())
}

/// Forward a substate-scoped action to the substate that owns it and lift the
/// events it reports.  Performs no logic of its own.
pub fn forward_action<A, E, S>(action: A, target: &mut S) -> (events: Vec<AppEvent>)
    where
        E: LiftedEvent,
        S: UpdatableState<Action = A, Event = E>,
    ensures
        final(target)@ == S::next_model(old(target)@, action),
        events@ == lifted_events(S::emitted(old(target)@, action)),
{
    let mut inner = target.update_with(action);
    let ghost all = inner@;
    let mut events: Vec<AppEvent> = Vec::new();
    proof {
        assert(events@ =~= lifted_events(all.subrange(0, 0)));
    }
    while inner.len() > 0
        invariant
            all.len() >= inner@.len(),
            inner@ == all.subrange(all.len() - inner@.len(), all.len() as int),
            events@ == lifted_events(all.subrange(0, all.len() - inner@.len())),
        decreases inner@.len(),
    {
        let ghost done = all.len() - inner@.len();
        let event = inner.remove(0);
        proof {
            assert(event == all[done]);
            assert(inner@ =~= all.subrange(done + 1, all.len() as int));
        }
        let lifted = event.lift();
        events.push(lifted);
        proof {
            assert(events@ =~= lifted_events(all.subrange(0, done + 1)));
        }
    }
    proof {
        assert(all.subrange(0, all.len() as int) =~= all);
    }
    events
}

/// The composite state: one instance of each substate plus the started guard.
#[derive(Debug)]
pub struct AppState {
    pub started: bool,
    pub playback: PlaybackState,
    pub browser: BrowserState,
    pub selection: SelectionState,
    pub logged_user: LoginState,
    pub settings: SettingsState,
}

/// The abstract model of the whole composite state.
#[verifier::ext_equal]
pub struct AppModel {
    pub started: bool,
    pub playback: PlaybackModel,
    pub browser: BrowserModel,
    pub selection: SelectionModel,
    pub logged_user: LoginModel,
    pub settings: SettingsModel,
}

impl View for AppState {
    type V = AppModel;

    open spec fn view(&self) -> AppModel {
        AppModel {
            started: self.started,
            playback: self.playback@,
            browser: self.browser@,
            selection: self.selection@,
            logged_user: self.logged_user@,
            settings: self.settings@,
        }
    }
}

/// The identifier of the summary `summary_of(p)` and its title are those of
/// the description `p`.
pub open spec fn summary_of(p: PlaylistDescription) -> PlaylistSummary {
    PlaylistSummary { id: p.id, title: p.title }
}

impl AppModel {
    pub open spec fn with_started(self, started: bool) -> AppModel {
        AppModel {
            started,
            playback: self.playback,
            browser: self.browser,
            selection: self.selection,
            logged_user: self.logged_user,
            settings: self.settings,
        }
    }

    pub open spec fn with_playback(self, playback: PlaybackModel) -> AppModel {
        AppModel {
            started: self.started,
            playback,
            browser: self.browser,
            selection: self.selection,
            logged_user: self.logged_user,
            settings: self.settings,
        }
    }

    pub open spec fn with_browser(self, browser: BrowserModel) -> AppModel {
        AppModel {
            started: self.started,
            playback: self.playback,
            browser,
            selection: self.selection,
            logged_user: self.logged_user,
            settings: self.settings,
        }
    }

    pub open spec fn with_selection(self, selection: SelectionModel) -> AppModel {
        AppModel {
            started: self.started,
            playback: self.playback,
            browser: self.browser,
            selection,
            logged_user: self.logged_user,
            settings: self.settings,
        }
    }

    pub open spec fn with_logged_user(self, logged_user: LoginModel) -> AppModel {
        AppModel {
            started: self.started,
            playback: self.playback,
            browser: self.browser,
            selection: self.selection,
            logged_user,
            settings: self.settings,
        }
    }

    pub open spec fn with_settings(self, settings: SettingsModel) -> AppModel {
        AppModel {
            started: self.started,
            playback: self.playback,
            browser: self.browser,
            selection: self.selection,
            logged_user: self.logged_user,
            settings,
        }
    }

    /// The model of a freshly constructed composite state.
    pub open spec fn initial() -> AppModel {
        AppModel {
            started: false,
            playback: PlaybackModel { playing: false, songs: Seq::empty() },
            browser: BrowserModel {
                navigation: seq![ScreenName::Home],
                home: Some(HomeModel { saved_tracks: Seq::empty(), playlists: Seq::empty() }),
            },
            selection: cleared_selection(),
            logged_user: LoginModel { playlists: Seq::empty() },
            settings: SettingsModel { prefers_dark_theme: false },
        }
    }

    /// The composite model after one dispatch of `action`.
    pub open spec fn step(self, action: AppAction) -> AppModel {
        match action {
            AppAction::Start => if !self.started {
                self.with_started(true)
            } else {
                self
            },
            AppAction::Raise => self,
            AppAction::ShowNotification(_) => self,
            AppAction::ViewNowPlaying => self,
            AppAction::QueueSelection => self.with_playback(
                PlaybackModel {
                    playing: self.playback.playing,
                    songs: self.playback.songs + self.selection.songs,
                },
            ).with_selection(cleared_selection()),
            AppAction::DequeueSelection => self.with_playback(
                PlaybackModel {
                    playing: self.playback.playing,
                    songs: without_songs(self.playback.songs, song_id_seq(self.selection.songs)),
                },
            ).with_selection(cleared_selection()),
            AppAction::MoveUpSelection => if self.selection.songs.len() > 0 {
                self.with_playback(
                    PlaybackModel {
                        playing: self.playback.playing,
                        songs: moved_up(self.playback.songs, self.selection.songs[0].id@),
                    },
                )
            } else {
                self
            },
            AppAction::MoveDownSelection => if self.selection.songs.len() > 0 {
                self.with_playback(
                    PlaybackModel {
                        playing: self.playback.playing,
                        songs: moved_down(self.playback.songs, self.selection.songs[0].id@),
                    },
                )
            } else {
                self
            },
            AppAction::SaveSelection => match self.browser.home {
                Some(h) => self.with_browser(
                    BrowserModel {
                        navigation: self.browser.navigation,
                        home: Some(
                            HomeModel {
                                saved_tracks: self.selection.songs + h.saved_tracks,
                                playlists: h.playlists,
                            },
                        ),
                    },
                ).with_selection(cleared_selection()),
                None => self,
            },
            AppAction::UnsaveSelection => match self.browser.home {
                Some(h) => self.with_browser(
                    BrowserModel {
                        navigation: self.browser.navigation,
                        home: Some(
                            HomeModel {
                                saved_tracks: without_songs(
                                    h.saved_tracks,
                                    song_id_seq(self.selection.songs),
                                ),
                                playlists: h.playlists,
                            },
                        ),
                    },
                ).with_selection(cleared_selection()),
                None => self,
            },
            AppAction::EnableSelection(context) => if self.selection.context == Some(context) {
                self
            } else {
                self.with_selection(
                    SelectionModel { context: Some(context), songs: Seq::empty() },
                )
            },
            AppAction::CancelSelection => if self.selection.context is None {
                self
            } else {
                self.with_selection(cleared_selection())
            },
            AppAction::CreatePlaylist(playlist) => self.with_logged_user(
                LoginModel {
                    playlists: seq![summary_of(playlist)] + self.logged_user.playlists,
                },
            ).with_browser(
                BrowserModel {
                    navigation: self.browser.navigation,
                    home: match self.browser.home {
                        Some(h) => Some(
                            HomeModel {
                                saved_tracks: h.saved_tracks,
                                playlists: seq![playlist] + h.playlists,
                            },
                        ),
                        None => None,
                    },
                },
            ),
            AppAction::UpdatePlaylistName(summary) => self.with_logged_user(
                LoginModel {
                    playlists: renamed_summaries(self.logged_user.playlists, summary),
                },
            ).with_browser(
                BrowserModel {
                    navigation: self.browser.navigation,
                    home: match self.browser.home {
                        Some(h) => Some(
                            HomeModel {
                                saved_tracks: h.saved_tracks,
                                playlists: renamed_descriptions(h.playlists, summary),
                            },
                        ),
                        None => None,
                    },
                },
            ),
            AppAction::PlaybackAction(a) => self.with_playback(
                PlaybackState::next_model(self.playback, a),
            ),
            AppAction::BrowserAction(a) => self.with_browser(
                BrowserState::next_model(self.browser, a),
            ),
            AppAction::SelectionAction(a) => self.with_selection(
                SelectionState::next_model(self.selection, a),
            ),
            AppAction::LoginAction(a) => self.with_logged_user(
                LoginState::next_model(self.logged_user, a),
            ),
            AppAction::SettingsAction(a) => self.with_settings(
                SettingsState::next_model(self.settings, a),
            ),
        }
    }

    /// The events one dispatch of `action` reports, in emission order.
    pub open spec fn emitted(self, action: AppAction) -> Seq<AppEvent> {
        match action {
            AppAction::Start => if !self.started {
                seq![AppEvent::Started]
            } else {
                Seq::empty()
            },
            AppAction::Raise => seq![AppEvent::Raised],
            AppAction::ShowNotification(text) => seq![AppEvent::NotificationShown(text)],
            AppAction::ViewNowPlaying => seq![AppEvent::NowPlayingShown],
            AppAction::QueueSelection => seq![
                AppEvent::SelectionEvent(SelectionEvent::SelectionModeChanged(false)),
                AppEvent::PlaybackEvent(PlaybackEvent::PlaylistChanged),
            ],
            AppAction::DequeueSelection => seq![
                AppEvent::SelectionEvent(SelectionEvent::SelectionModeChanged(false)),
                AppEvent::PlaybackEvent(PlaybackEvent::PlaylistChanged),
            ],
            AppAction::MoveUpSelection => if self.selection.songs.len() > 0 && has_song(
                self.playback.songs,
                self.selection.songs[0].id@,
            ) {
                seq![AppEvent::PlaybackEvent(PlaybackEvent::PlaylistChanged)]
            } else {
                Seq::empty()
            },
            AppAction::MoveDownSelection => if self.selection.songs.len() > 0 && has_song(
                self.playback.songs,
                self.selection.songs[0].id@,
            ) {
                seq![AppEvent::PlaybackEvent(PlaybackEvent::PlaylistChanged)]
            } else {
                Seq::empty()
            },
            AppAction::SaveSelection => match self.browser.home {
                Some(_) => seq![
                    AppEvent::BrowserEvent(BrowserEvent::SavedTracksUpdated),
                    AppEvent::SelectionEvent(SelectionEvent::SelectionModeChanged(false)),
                ],
                None => Seq::empty(),
            },
            AppAction::UnsaveSelection => match self.browser.home {
                Some(_) => seq![
                    AppEvent::BrowserEvent(BrowserEvent::SavedTracksUpdated),
                    AppEvent::SelectionEvent(SelectionEvent::SelectionModeChanged(false)),
                ],
                None => Seq::empty(),
            },
            AppAction::EnableSelection(context) => if self.selection.context == Some(context) {
                Seq::empty()
            } else {
                seq![AppEvent::SelectionEvent(SelectionEvent::SelectionModeChanged(true))]
            },
            AppAction::CancelSelection => if self.selection.context is None {
                Seq::empty()
            } else {
                seq![AppEvent::SelectionEvent(SelectionEvent::SelectionModeChanged(false))]
            },
            AppAction::CreatePlaylist(playlist) => seq![
                AppEvent::LoginEvent(LoginEvent::UserPlaylistsChanged),
            ] + (match self.browser.home {
                Some(_) => seq![AppEvent::BrowserEvent(BrowserEvent::PlaylistsContentChanged)],
                None => Seq::empty(),
            }) + seq![AppEvent::PlaylistCreatedNotificationShown(playlist.id)],
            AppAction::UpdatePlaylistName(_) => seq![
                AppEvent::LoginEvent(LoginEvent::UserPlaylistsChanged),
            ] + (match self.browser.home {
                Some(_) => seq![AppEvent::BrowserEvent(BrowserEvent::PlaylistNameChanged)],
                None => Seq::empty(),
            }),
            AppAction::PlaybackAction(a) => lifted_events(
                PlaybackState::emitted(self.playback, a),
            ),
            AppAction::BrowserAction(a) => lifted_events(BrowserState::emitted(self.browser, a)),
            AppAction::SelectionAction(a) => lifted_events(
                SelectionState::emitted(self.selection, a),
            ),
            AppAction::LoginAction(a) => lifted_events(LoginState::emitted(self.logged_user, a)),
            AppAction::SettingsAction(a) => lifted_events(
                SettingsState::emitted(self.settings, a),
            ),
        }
    }
}

/// `action` is the navigation the intent `intent` asks for.
pub open spec fn navigates_to(action: AppAction, intent: crate::uri::NavIntent) -> bool {
    match action {
        AppAction::BrowserAction(BrowserAction::NavigationPush(screen)) => match screen {
            ScreenName::AlbumDetails(id) => intent.kind == crate::uri::EntityKind::Album && id@
                == intent.id,
            ScreenName::Artist(id) => intent.kind == crate::uri::EntityKind::Artist && id@
                == intent.id,
            ScreenName::PlaylistDetails(id) => intent.kind == crate::uri::EntityKind::Playlist
                && id@ == intent.id,
            ScreenName::User(id) => intent.kind == crate::uri::EntityKind::User && id@
                == intent.id,
            _ => false,
        },
        _ => false,
    }
}

impl AppAction {
    /// The navigation action a URI intent asks for: `Some` exactly when
    /// [`crate::uri::parse_intent`] recognizes the string, and then a
    /// navigation to the recognized entity.
    #[allow(non_snake_case)]
    pub fn OpenURI(uri: String) -> (r: Option<Self>)
        ensures
            match (r, crate::uri::parse_intent(uri@)) {
                (Some(action), Some(intent)) => navigates_to(action, intent),
                (None, None) => true,
                _ => false,
            },
    {
        match crate::uri::parse_uri(uri.as_str()) {
            Some(parsed) => {
                let (kind, id) = parsed;
                match kind {
                    crate::uri::EntityKind::Album => Some(Self::ViewAlbum(id)),
                    crate::uri::EntityKind::Artist => Some(Self::ViewArtist(id)),
                    crate::uri::EntityKind::Playlist => Some(Self::ViewPlaylist(id)),
                    crate::uri::EntityKind::User => Some(Self::ViewUser(id)),
                }
            },
            None => None,
        }
    }

    /// Navigate to the album with the given identifier.
    #[allow(non_snake_case)]
    pub fn ViewAlbum(id: String) -> (r: Self)
        ensures
            r == AppAction::BrowserAction(
                BrowserAction::NavigationPush(ScreenName::AlbumDetails(id)),
            ),
    {
        AppAction::BrowserAction(BrowserAction::NavigationPush(ScreenName::AlbumDetails(id)))
    }

    /// Navigate to the artist with the given identifier.
    #[allow(non_snake_case)]
    pub fn ViewArtist(id: String) -> (r: Self)
        ensures
            r == AppAction::BrowserAction(BrowserAction::NavigationPush(ScreenName::Artist(id))),
    {
        AppAction::BrowserAction(BrowserAction::NavigationPush(ScreenName::Artist(id)))
    }

    /// Navigate to the playlist with the given identifier.
    #[allow(non_snake_case)]
    pub fn ViewPlaylist(id: String) -> (r: Self)
        ensures
            r == AppAction::BrowserAction(
                BrowserAction::NavigationPush(ScreenName::PlaylistDetails(id)),
            ),
    {
        AppAction::BrowserAction(BrowserAction::NavigationPush(ScreenName::PlaylistDetails(id)))
    }

    /// Navigate to the user with the given identifier.
    #[allow(non_snake_case)]
    pub fn ViewUser(id: String) -> (r: Self)
        ensures
            r == AppAction::BrowserAction(BrowserAction::NavigationPush(ScreenName::User(id))),
    {
        AppAction::BrowserAction(BrowserAction::NavigationPush(ScreenName::User(id)))
    }

    /// Navigate to the search screen.
    #[allow(non_snake_case)]
    pub fn ViewSearch() -> (r: Self)
        ensures
            r == AppAction::BrowserAction(BrowserAction::NavigationPush(ScreenName::Search)),
    {
        AppAction::BrowserAction(BrowserAction::NavigationPush(ScreenName::Search))
    }
}

impl AppState {
    /// A fresh composite state: not yet started, every substate at its
    /// default value, and the browser home sub-view present and empty.
    pub fn new() -> (r: Self)
        ensures
            r@ == AppModel::initial(),
    {
        let r = AppState {
            started: false,
            playback: PlaybackState::default(),
            browser: BrowserState::new(),
            selection: SelectionState::default(),
            logged_user: LoginState::default(),
            settings: SettingsState::default(),
        };
        proof {
            assert(r@ == AppModel::initial());
        }
        r
    }

    /// Dispatch one action: route a substate-scoped action to the substate
    /// that owns it, handle a cross-cutting action here, and return the
    /// reported events in emission order.
    ///
    /// Saving or unsaving the selection forwards to the browser home
    /// sub-view, which the caller must know to be present.
    pub fn update_state(&mut self, message: AppAction) -> (events: Vec<AppEvent>)
        requires
            (message is SaveSelection || message is UnsaveSelection) ==> old(
                self,
            ).browser.home is Some,
        ensures
            final(self)@ == old(self)@.step(message),
            events@ == old(self)@.emitted(message),
    {
        match message {
            AppAction::Start => {
                if !self.started {
                    self.started = true;
                    let events = vec![AppEvent::Started];
                    proof {
                        assert(self@ == old(self)@.step(message));
                        assert(events@ =~= old(self)@.emitted(message));
                    }
                    events
                } else {
                    let events: Vec<AppEvent> = Vec::new();
                    proof {
                        assert(events@ =~= old(self)@.emitted(message));
                    }
                    events
                }
            },
            AppAction::ShowNotification(text) => {
                let events = vec![AppEvent::NotificationShown(text)];
                proof {
                    assert(events@ =~= old(self)@.emitted(message));
                }
                events
            },
            AppAction::ViewNowPlaying => {
                let events = vec![AppEvent::NowPlayingShown];
                proof {
                    assert(events@ =~= old(self)@.emitted(message));
                }
                events
            },
            AppAction::Raise => {
                let events = vec![AppEvent::Raised];
                proof {
                    assert(events@ =~= old(self)@.emitted(message));
                }
                events
            },
            AppAction::QueueSelection => {
                let tracks = self.selection.take_selection();
                self.playback.queue(tracks);
                let events = vec![
                    AppEvent::SelectionEvent(SelectionEvent::SelectionModeChanged(false)),
                    AppEvent::PlaybackEvent(PlaybackEvent::PlaylistChanged),
                ];
                proof {
                    assert(self@ == old(self)@.step(message));
                    assert(events@ =~= old(self)@.emitted(message));
                }
                events
            },
            AppAction::DequeueSelection => {
                let tracks = self.selection.take_selection();
                let ids = song_ids(tracks);
                self.playback.dequeue(&ids);
                let events = vec![
                    AppEvent::SelectionEvent(SelectionEvent::SelectionModeChanged(false)),
                    AppEvent::PlaybackEvent(PlaybackEvent::PlaylistChanged),
                ];
                proof {
                    assert(self@ == old(self)@.step(message));
                    assert(events@ =~= old(self)@.emitted(message));
                }
                events
            },
            AppAction::MoveUpSelection => {
                match self.selection.peek_selection() {
                    Some(song) => {
                        let moved = self.playback.move_up(&song.id);
                        if moved.is_some() {
                            let events = vec![
                                AppEvent::PlaybackEvent(PlaybackEvent::PlaylistChanged),
                            ];
                            proof {
                                assert(self@ == old(self)@.step(message));
                                assert(events@ =~= old(self)@.emitted(message));
                            }
                            events
                        } else {
                            let events: Vec<AppEvent> = Vec::new();
                            proof {
                                assert(self@ == old(self)@.step(message));
                                assert(events@ =~= old(self)@.emitted(message));
                            }
                            events
                        }
                    },
                    None => {
                        let events: Vec<AppEvent> = Vec::new();
                        proof {
                            assert(self@ == old(self)@.step(message));
                            assert(events@ =~= old(self)@.emitted(message));
                        }
                        events
                    },
                }
            },
            AppAction::MoveDownSelection => {
                match self.selection.peek_selection() {
                    Some(song) => {
                        let moved = self.playback.move_down(&song.id);
                        if moved.is_some() {
                            let events = vec![
                                AppEvent::PlaybackEvent(PlaybackEvent::PlaylistChanged),
                            ];
                            proof {
                                assert(self@ == old(self)@.step(message));
                                assert(events@ =~= old(self)@.emitted(message));
                            }
                            events
                        } else {
                            let events: Vec<AppEvent> = Vec::new();
                            proof {
                                assert(self@ == old(self)@.step(message));
                                assert(events@ =~= old(self)@.emitted(message));
                            }
                            events
                        }
                    },
                    None => {
                        let events: Vec<AppEvent> = Vec::new();
                        proof {
                            assert(self@ == old(self)@.step(message));
                            assert(events@ =~= old(self)@.emitted(message));
                        }
                        events
                    },
                }
            },
            AppAction::SaveSelection => {
                match self.browser.home.take() {
                    Some(mut home) => {
                        let tracks = self.selection.take_selection();
                        let mut events = forward_action(BrowserAction::SaveTracks(tracks), &mut home);
                        self.browser.home = Some(home);
                        events.push(
                            AppEvent::SelectionEvent(SelectionEvent::SelectionModeChanged(false)),
                        );
                        proof {
                            assert(self@ == old(self)@.step(message));
                            assert(events@ =~= old(self)@.emitted(message));
                        }
                        events
                    },
                    None => {
                        let events: Vec<AppEvent> = Vec::new();
                        proof {
                            assert(self@ == old(self)@.step(message));
                            assert(events@ =~= old(self)@.emitted(message));
                        }
                        events
                    },
                }
            },
            AppAction::UnsaveSelection => {
                match self.browser.home.take() {
                    Some(mut home) => {
                        let tracks = self.selection.take_selection();
                        let ids = song_ids(tracks);
                        let mut events = forward_action(
                            BrowserAction::RemoveSavedTracks(ids),
                            &mut home,
                        );
                        self.browser.home = Some(home);
                        events.push(
                            AppEvent::SelectionEvent(SelectionEvent::SelectionModeChanged(false)),
                        );
                        proof {
                            assert(self@ == old(self)@.step(message));
                            assert(events@ =~= old(self)@.emitted(message));
                        }
                        events
                    },
                    None => {
                        let events: Vec<AppEvent> = Vec::new();
                        proof {
                            assert(self@ == old(self)@.step(message));
                            assert(events@ =~= old(self)@.emitted(message));
                        }
                        events
                    },
                }
            },
            AppAction::EnableSelection(context) => {
                match self.selection.set_mode(Some(context)) {
                    Some(active) => {
                        let events = vec![
                            AppEvent::SelectionEvent(SelectionEvent::SelectionModeChanged(active)),
                        ];
                        proof {
                            assert(active == true);
                            assert(self@ == old(self)@.step(message));
                            assert(events@ =~= old(self)@.emitted(message));
                        }
                        events
                    },
                    None => {
                        let events: Vec<AppEvent> = Vec::new();
                        proof {
                            assert(self@ == old(self)@.step(message));
                            assert(events@ =~= old(self)@.emitted(message));
                        }
                        events
                    },
                }
            },
            AppAction::CancelSelection => {
                match self.selection.set_mode(None) {
                    Some(active) => {
                        let events = vec![
                            AppEvent::SelectionEvent(SelectionEvent::SelectionModeChanged(active)),
                        ];
                        proof {
                            assert(active == false);
                            assert(self@ == old(self)@.step(message));
                            assert(events@ =~= old(self)@.emitted(message));
                        }
                        events
                    },
                    None => {
                        let events: Vec<AppEvent> = Vec::new();
                        proof {
                            assert(self@ == old(self)@.step(message));
                            assert(events@ =~= old(self)@.emitted(message));
                        }
                        events
                    },
                }
            },
            AppAction::CreatePlaylist(playlist) => {
                let id = playlist.id.clone();
                let summary = PlaylistSummary::from(playlist.clone());
                let mut summaries: Vec<PlaylistSummary> = Vec::new();
                summaries.push(summary);
                proof {
                    assert(summaries@ =~= seq![summary_of(playlist)]);
                }
                let mut events = forward_action(
                    LoginAction::PrependUserPlaylist(summaries),
                    &mut self.logged_user,
                );
                let mut descriptions: Vec<PlaylistDescription> = Vec::new();
                descriptions.push(playlist);
                let mut more_events = forward_action(
                    BrowserAction::PrependPlaylistsContent(descriptions),
                    &mut self.browser,
                );
                events.append(&mut more_events);
                events.push(AppEvent::PlaylistCreatedNotificationShown(id));
                proof {
                    assert(self@ == old(self)@.step(message));
                    assert(events@ =~= old(self)@.emitted(message));
                }
                events
            },
            AppAction::UpdatePlaylistName(summary) => {
                let mut events = forward_action(
                    LoginAction::UpdateUserPlaylist(summary.clone()),
                    &mut self.logged_user,
                );
                let mut more_events = forward_action(
                    BrowserAction::UpdatePlaylistName(summary),
                    &mut self.browser,
                );
                events.append(&mut more_events);
                proof {
                    assert(self@ == old(self)@.step(message));
                    assert(events@ =~= old(self)@.emitted(message));
                }
                events
            },
            AppAction::PlaybackAction(action) => {
                let events = forward_action(action, &mut self.playback);
                proof {
                    assert(self@ == old(self)@.step(message));
                }
                events
            },
            AppAction::BrowserAction(action) => {
                let events = forward_action(action, &mut self.browser);
                proof {
                    assert(self@ == old(self)@.step(message));
                }
                events
            },
            AppAction::SelectionAction(action) => {
                let events = forward_action(action, &mut self.selection);
                proof {
                    assert(self@ == old(self)@.step(message));
                }
                events
            },
            AppAction::LoginAction(action) => {
                let events = forward_action(action, &mut self.logged_user);
                proof {
                    assert(self@ == old(self)@.step(message));
                }
                events
            },
            AppAction::SettingsAction(action) => {
                let events = forward_action(action, &mut self.settings);
                proof {
                    assert(self@ == old(self)@.step(message));
                }
                events
            },
        }
    }
}

} // verus!
