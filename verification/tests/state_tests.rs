use spot_state::app_state::{AppAction, AppEvent, AppState};
use spot_state::browser_state::{BrowserAction, BrowserEvent, ScreenName};
use spot_state::login_state::{LoginAction, LoginEvent};
use spot_state::models::{PlaylistDescription, PlaylistSummary, SongDescription};
use spot_state::playback_state::{PlaybackAction, PlaybackEvent};
use spot_state::selection_state::{SelectionAction, SelectionContext, SelectionEvent};
use spot_state::settings_state::{SettingsAction, SettingsEvent};

fn song(id: &str) -> SongDescription {
    SongDescription {
        id: id.to_string(),
        title: format!("title of {}", id),
    }
}

fn mode_changed(active: bool) -> AppEvent {
    AppEvent::SelectionEvent(SelectionEvent::SelectionModeChanged(active))
}

fn playlist_changed() -> AppEvent {
    AppEvent::PlaybackEvent(PlaybackEvent::PlaylistChanged)
}

#[test]
fn fresh_state_defaults() {
    let state = AppState::new();
    assert!(!state.started);
    assert!(!state.playback.playing);
    assert!(state.playback.songs.is_empty());
    assert_eq!(state.browser.navigation, vec![ScreenName::Home]);
    let home = state.browser.home_state().unwrap();
    assert!(home.saved_tracks.is_empty());
    assert!(home.playlists.is_empty());
    assert_eq!(state.selection.context, None);
    assert!(state.selection.songs.is_empty());
    assert!(state.logged_user.playlists.is_empty());
    assert!(!state.settings.prefers_dark_theme);
}

#[test]
fn start_reported_once() {
    let mut state = AppState::new();
    let events = state.update_state(AppAction::Start);
    assert_eq!(events, vec![AppEvent::Started]);
    assert!(state.started);
    let again = state.update_state(AppAction::Start);
    assert_eq!(again, vec![]);
    assert!(state.started);
}

#[test]
fn show_notification_is_pure() {
    let mut state = AppState::new();
    let events = state.update_state(AppAction::ShowNotification("x".to_string()));
    assert_eq!(events, vec![AppEvent::NotificationShown("x".to_string())]);
    assert!(!state.started);
    assert!(state.playback.songs.is_empty());
    assert!(state.selection.songs.is_empty());
    assert_eq!(state.browser.navigation, vec![ScreenName::Home]);
    assert!(state.logged_user.playlists.is_empty());
}

#[test]
fn view_now_playing_and_raise() {
    let mut state = AppState::new();
    assert_eq!(
        state.update_state(AppAction::ViewNowPlaying),
        vec![AppEvent::NowPlayingShown]
    );
    assert_eq!(state.update_state(AppAction::Raise), vec![AppEvent::Raised]);
}

#[test]
fn queue_selection_moves_picked_songs() {
    let mut state = AppState::new();
    state.selection.context = Some(SelectionContext::Queue);
    state.selection.songs = vec![song("a"), song("b")];
    let events = state.update_state(AppAction::QueueSelection);
    assert_eq!(events, vec![mode_changed(false), playlist_changed()]);
    assert!(state.selection.songs.is_empty());
    assert_eq!(state.selection.context, None);
    assert_eq!(state.playback.songs, vec![song("a"), song("b")]);
}

#[test]
fn dequeue_selection_removes_by_identifier() {
    let mut state = AppState::new();
    state.playback.songs = vec![song("a"), song("b"), song("c")];
    state.selection.context = Some(SelectionContext::Queue);
    state.selection.songs = vec![song("b")];
    let events = state.update_state(AppAction::DequeueSelection);
    assert_eq!(events, vec![mode_changed(false), playlist_changed()]);
    assert!(state.selection.songs.is_empty());
    assert_eq!(state.playback.songs, vec![song("a"), song("c")]);
}

#[test]
fn move_up_selection_swaps_one_place() {
    let mut state = AppState::new();
    state.playback.songs = vec![song("a"), song("b"), song("c")];
    state.selection.context = Some(SelectionContext::Queue);
    state.selection.songs = vec![song("b")];
    let events = state.update_state(AppAction::MoveUpSelection);
    assert_eq!(events, vec![playlist_changed()]);
    assert_eq!(state.playback.songs, vec![song("b"), song("a"), song("c")]);
    assert_eq!(state.selection.songs, vec![song("b")]);
}

#[test]
fn move_up_selection_with_empty_selection_is_silent() {
    let mut state = AppState::new();
    state.playback.songs = vec![song("a")];
    let events = state.update_state(AppAction::MoveUpSelection);
    assert_eq!(events, vec![]);
    assert_eq!(state.playback.songs, vec![song("a")]);
}

#[test]
fn move_up_selection_with_missing_target_is_silent() {
    let mut state = AppState::new();
    state.playback.songs = vec![song("a")];
    state.selection.context = Some(SelectionContext::Queue);
    state.selection.songs = vec![song("z")];
    let events = state.update_state(AppAction::MoveUpSelection);
    assert_eq!(events, vec![]);
    assert_eq!(state.playback.songs, vec![song("a")]);
}

#[test]
fn move_down_selection_swaps_one_place() {
    let mut state = AppState::new();
    state.playback.songs = vec![song("a"), song("b"), song("c")];
    state.selection.context = Some(SelectionContext::Queue);
    state.selection.songs = vec![song("b")];
    let events = state.update_state(AppAction::MoveDownSelection);
    assert_eq!(events, vec![playlist_changed()]);
    assert_eq!(state.playback.songs, vec![song("a"), song("c"), song("b")]);
}

#[test]
fn save_selection_prepends_to_home_saved_tracks() {
    let mut state = AppState::new();
    state.browser.home.as_mut().unwrap().saved_tracks = vec![song("old")];
    state.selection.context = Some(SelectionContext::SavedTracks);
    state.selection.songs = vec![song("a"), song("b")];
    let events = state.update_state(AppAction::SaveSelection);
    assert_eq!(
        events,
        vec![
            AppEvent::BrowserEvent(BrowserEvent::SavedTracksUpdated),
            mode_changed(false),
        ]
    );
    assert!(state.selection.songs.is_empty());
    let home = state.browser.home.as_ref().unwrap();
    assert_eq!(home.saved_tracks, vec![song("a"), song("b"), song("old")]);
}

#[test]
fn unsave_selection_removes_from_home_saved_tracks() {
    let mut state = AppState::new();
    state.browser.home.as_mut().unwrap().saved_tracks = vec![song("a"), song("b"), song("c")];
    state.selection.context = Some(SelectionContext::SavedTracks);
    state.selection.songs = vec![song("b")];
    let events = state.update_state(AppAction::UnsaveSelection);
    assert_eq!(
        events,
        vec![
            AppEvent::BrowserEvent(BrowserEvent::SavedTracksUpdated),
            mode_changed(false),
        ]
    );
    assert!(state.selection.songs.is_empty());
    let home = state.browser.home.as_ref().unwrap();
    assert_eq!(home.saved_tracks, vec![song("a"), song("c")]);
}

#[test]
fn enable_selection_is_idempotent_per_context() {
    let mut state = AppState::new();
    let events = state.update_state(AppAction::EnableSelection(SelectionContext::Queue));
    assert_eq!(events, vec![mode_changed(true)]);
    let again = state.update_state(AppAction::EnableSelection(SelectionContext::Queue));
    assert_eq!(again, vec![]);
    let other = state.update_state(AppAction::EnableSelection(SelectionContext::SavedTracks));
    assert_eq!(other, vec![mode_changed(true)]);
    assert_eq!(state.selection.context, Some(SelectionContext::SavedTracks));
}

#[test]
fn cancel_selection_reports_only_a_transition() {
    let mut state = AppState::new();
    assert_eq!(state.update_state(AppAction::CancelSelection), vec![]);
    state.update_state(AppAction::EnableSelection(SelectionContext::Queue));
    let events = state.update_state(AppAction::CancelSelection);
    assert_eq!(events, vec![mode_changed(false)]);
    assert_eq!(state.selection.context, None);
}

#[test]
fn cancel_selection_clears_picked_songs() {
    let mut state = AppState::new();
    state.selection.context = Some(SelectionContext::Queue);
    state.selection.songs = vec![song("a")];
    let events = state.update_state(AppAction::CancelSelection);
    assert_eq!(events, vec![mode_changed(false)]);
    assert!(state.selection.songs.is_empty());
}

#[test]
fn create_playlist_ends_in_one_created_notification() {
    let mut state = AppState::new();
    let playlist = PlaylistDescription {
        id: "pl1".to_string(),
        title: "My Playlist".to_string(),
    };
    let events = state.update_state(AppAction::CreatePlaylist(playlist));
    assert_eq!(
        events,
        vec![
            AppEvent::LoginEvent(LoginEvent::UserPlaylistsChanged),
            AppEvent::BrowserEvent(BrowserEvent::PlaylistsContentChanged),
            AppEvent::PlaylistCreatedNotificationShown("pl1".to_string()),
        ]
    );
    let created = events
        .iter()
        .filter(|e| matches!(e, AppEvent::PlaylistCreatedNotificationShown(_)))
        .count();
    assert_eq!(created, 1);
    assert_eq!(
        state.logged_user.playlists,
        vec![PlaylistSummary {
            id: "pl1".to_string(),
            title: "My Playlist".to_string(),
        }]
    );
    let home = state.browser.home.as_ref().unwrap();
    assert_eq!(
        home.playlists,
        vec![PlaylistDescription {
            id: "pl1".to_string(),
            title: "My Playlist".to_string(),
        }]
    );
}

#[test]
fn update_playlist_name_renames_everywhere() {
    let mut state = AppState::new();
    state.logged_user.playlists = vec![
        PlaylistSummary {
            id: "pl1".to_string(),
            title: "Old".to_string(),
        },
        PlaylistSummary {
            id: "pl2".to_string(),
            title: "Keep".to_string(),
        },
    ];
    state.browser.home.as_mut().unwrap().playlists = vec![PlaylistDescription {
        id: "pl1".to_string(),
        title: "Old".to_string(),
    }];
    let summary = PlaylistSummary {
        id: "pl1".to_string(),
        title: "New".to_string(),
    };
    let events = state.update_state(AppAction::UpdatePlaylistName(summary));
    assert_eq!(
        events,
        vec![
            AppEvent::LoginEvent(LoginEvent::UserPlaylistsChanged),
            AppEvent::BrowserEvent(BrowserEvent::PlaylistNameChanged),
        ]
    );
    assert_eq!(state.logged_user.playlists[0].title, "New".to_string());
    assert_eq!(state.logged_user.playlists[1].title, "Keep".to_string());
    assert_eq!(
        state.browser.home.as_ref().unwrap().playlists[0].title,
        "New".to_string()
    );
}

#[test]
fn playback_action_is_forwarded() {
    let mut state = AppState::new();
    let events = state.update_state(AppAction::PlaybackAction(PlaybackAction::Play));
    assert_eq!(
        events,
        vec![AppEvent::PlaybackEvent(PlaybackEvent::PlaybackResumed)]
    );
    assert!(state.playback.playing);
    let again = state.update_state(AppAction::PlaybackAction(PlaybackAction::Play));
    assert_eq!(again, vec![]);
    let paused = state.update_state(AppAction::PlaybackAction(PlaybackAction::Pause));
    assert_eq!(
        paused,
        vec![AppEvent::PlaybackEvent(PlaybackEvent::PlaybackPaused)]
    );
    assert!(!state.playback.playing);
}

#[test]
fn selection_action_is_forwarded() {
    let mut state = AppState::new();
    state.update_state(AppAction::EnableSelection(SelectionContext::Queue));
    let events = state.update_state(AppAction::SelectionAction(SelectionAction::Select(song(
        "a",
    ))));
    assert_eq!(
        events,
        vec![AppEvent::SelectionEvent(SelectionEvent::SelectionChanged)]
    );
    assert_eq!(state.selection.songs, vec![song("a")]);
}

#[test]
fn selection_action_without_mode_is_silent() {
    let mut state = AppState::new();
    let events = state.update_state(AppAction::SelectionAction(SelectionAction::Select(song(
        "a",
    ))));
    assert_eq!(events, vec![]);
    assert!(state.selection.songs.is_empty());
}

#[test]
fn browser_action_is_forwarded() {
    let mut state = AppState::new();
    let events = state.update_state(AppAction::BrowserAction(BrowserAction::NavigationPush(
        ScreenName::Search,
    )));
    assert_eq!(
        events,
        vec![AppEvent::BrowserEvent(BrowserEvent::NavigationPushed(
            ScreenName::Search
        ))]
    );
    assert_eq!(
        state.browser.navigation,
        vec![ScreenName::Home, ScreenName::Search]
    );
}

#[test]
fn login_action_is_forwarded() {
    let mut state = AppState::new();
    let summary = PlaylistSummary {
        id: "pl9".to_string(),
        title: "Nine".to_string(),
    };
    let events = state.update_state(AppAction::LoginAction(LoginAction::PrependUserPlaylist(
        vec![summary.clone()],
    )));
    assert_eq!(
        events,
        vec![AppEvent::LoginEvent(LoginEvent::UserPlaylistsChanged)]
    );
    assert_eq!(state.logged_user.playlists, vec![summary]);
}

#[test]
fn settings_action_is_forwarded() {
    let mut state = AppState::new();
    let events = state.update_state(AppAction::SettingsAction(SettingsAction::SetDarkTheme(
        true,
    )));
    assert_eq!(
        events,
        vec![AppEvent::SettingsEvent(SettingsEvent::SettingsChanged)]
    );
    assert!(state.settings.prefers_dark_theme);
}

#[test]
fn move_up_selection_at_front_keeps_order_but_reports() {
    let mut state = AppState::new();
    state.playback.songs = vec![song("a"), song("b")];
    state.selection.context = Some(SelectionContext::Queue);
    state.selection.songs = vec![song("a")];
    let events = state.update_state(AppAction::MoveUpSelection);
    assert_eq!(events, vec![playlist_changed()]);
    assert_eq!(state.playback.songs, vec![song("a"), song("b")]);
}

#[test]
fn move_down_selection_at_back_keeps_order_but_reports() {
    let mut state = AppState::new();
    state.playback.songs = vec![song("a"), song("b")];
    state.selection.context = Some(SelectionContext::Queue);
    state.selection.songs = vec![song("b")];
    let events = state.update_state(AppAction::MoveDownSelection);
    assert_eq!(events, vec![playlist_changed()]);
    assert_eq!(state.playback.songs, vec![song("a"), song("b")]);
}

#[test]
fn create_playlist_without_home_view_still_notifies() {
    let mut state = AppState::new();
    state.browser.home = None;
    let playlist = PlaylistDescription {
        id: "pl1".to_string(),
        title: "My Playlist".to_string(),
    };
    let events = state.update_state(AppAction::CreatePlaylist(playlist));
    assert_eq!(
        events,
        vec![
            AppEvent::LoginEvent(LoginEvent::UserPlaylistsChanged),
            AppEvent::PlaylistCreatedNotificationShown("pl1".to_string()),
        ]
    );
    assert_eq!(state.logged_user.playlists.len(), 1);
}

#[test]
fn update_playlist_name_without_home_view_updates_session_only() {
    let mut state = AppState::new();
    state.browser.home = None;
    state.logged_user.playlists = vec![PlaylistSummary {
        id: "pl1".to_string(),
        title: "Old".to_string(),
    }];
    let summary = PlaylistSummary {
        id: "pl1".to_string(),
        title: "New".to_string(),
    };
    let events = state.update_state(AppAction::UpdatePlaylistName(summary));
    assert_eq!(
        events,
        vec![AppEvent::LoginEvent(LoginEvent::UserPlaylistsChanged)]
    );
    assert_eq!(state.logged_user.playlists[0].title, "New".to_string());
}

#[test]
fn selection_clear_action_is_forwarded() {
    let mut state = AppState::new();
    state.selection.context = Some(SelectionContext::Queue);
    state.selection.songs = vec![song("a")];
    let events = state.update_state(AppAction::SelectionAction(SelectionAction::Clear));
    assert_eq!(
        events,
        vec![AppEvent::SelectionEvent(SelectionEvent::SelectionChanged)]
    );
    assert!(state.selection.songs.is_empty());
    assert_eq!(state.selection.context, Some(SelectionContext::Queue));
}
