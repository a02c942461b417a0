//! Laws of the dispatch engine: properties that hold of every composite
//! state, proved once and for all over [`AppModel::step`] and
//! [`AppModel::emitted`].

use vstd::prelude::*;
use crate::app_state::{AppAction, AppEvent, AppModel};
use crate::playback_state::{has_song, PlaybackEvent};
use crate::selection_state::{
    cleared_selection, SelectionContext, SelectionEvent, SelectionModel,
};

verus! {

/// On a state that has not started — a fresh one in particular — dispatching
/// the start signal reports exactly the started event and flips the guard;
/// dispatching it again reports nothing and changes nothing.
pub proof fn lemma_start_reported_once(m: AppModel)
    requires
        !m.started,
    ensures
        m.emitted(AppAction::Start) == seq![AppEvent::Started],
        m.step(AppAction::Start) == m.with_started(true),
        m.step(AppAction::Start).emitted(AppAction::Start) == Seq::<AppEvent>::empty(),
        m.step(AppAction::Start).step(AppAction::Start) == m.step(AppAction::Start),
{
}

/// A fresh composite state has not started, so dispatching the start signal
/// on it reports exactly the started event, and a second start reports
/// nothing.
pub proof fn lemma_fresh_start()
    ensures
        AppModel::initial().emitted(AppAction::Start) == seq![AppEvent::Started],
        AppModel::initial().step(AppAction::Start).emitted(AppAction::Start) == Seq::<
            AppEvent,
        >::empty(),
{
    lemma_start_reported_once(AppModel::initial());
}

/// Showing a notification reports exactly one notification event carrying
/// the given text and mutates no substate.
pub proof fn lemma_show_notification(m: AppModel, text: String)
    ensures
        m.emitted(AppAction::ShowNotification(text)) == seq![AppEvent::NotificationShown(text)],
        m.step(AppAction::ShowNotification(text)) == m,
{
}

/// Queueing the selection always reports the mode-deactivated event followed
/// by the playlist-changed event, empties the selection, and appends the
/// selected songs to the playback queue in their original relative order.
pub proof fn lemma_queue_selection(m: AppModel)
    ensures
        m.emitted(AppAction::QueueSelection) == seq![
            AppEvent::SelectionEvent(SelectionEvent::SelectionModeChanged(false)),
            AppEvent::PlaybackEvent(PlaybackEvent::PlaylistChanged),
        ],
        m.step(AppAction::QueueSelection).selection == cleared_selection(),
        m.step(AppAction::QueueSelection).playback.songs == m.playback.songs + m.selection.songs,
        m.step(AppAction::QueueSelection).playback.playing == m.playback.playing,
        m.step(AppAction::QueueSelection).browser == m.browser,
        m.step(AppAction::QueueSelection).logged_user == m.logged_user,
{
}

/// Requesting the selection mode already in force is a no-op reporting
/// nothing; requesting a different context reports exactly one mode-changed
/// event carrying the new active flag.
pub proof fn lemma_enable_selection(m: AppModel, context: SelectionContext)
    ensures
        m.selection.context == Some(context) ==> {
            &&& m.emitted(AppAction::EnableSelection(context)) == Seq::<AppEvent>::empty()
            &&& m.step(AppAction::EnableSelection(context)) == m
        },
        m.selection.context != Some(context) ==> {
            &&& m.emitted(AppAction::EnableSelection(context)) == seq![
                AppEvent::SelectionEvent(SelectionEvent::SelectionModeChanged(true)),
            ]
            &&& m.step(AppAction::EnableSelection(context)).selection == (SelectionModel {
                context: Some(context),
                songs: Seq::empty(),
            })
        },
{
}

/// When the selection cursor stands on a song that is in the playback queue,
/// moving the selection up reports exactly the playlist-changed event; with
/// an empty selection it reports nothing and changes nothing.
pub proof fn lemma_move_up_selection(m: AppModel)
    ensures
        m.selection.songs.len() > 0 && has_song(m.playback.songs, m.selection.songs[0].id@)
            ==> m.emitted(AppAction::MoveUpSelection) == seq![
            AppEvent::PlaybackEvent(PlaybackEvent::PlaylistChanged),
        ],
        m.selection.songs.len() == 0 ==> {
            &&& m.emitted(AppAction::MoveUpSelection) == Seq::<AppEvent>::empty()
            &&& m.step(AppAction::MoveUpSelection) == m
        },
{
}

/// Creating a playlist reports the session substate's event first, then the
/// browser substate's (when its home sub-view is present), and ends in
/// exactly one playlist-created notification carrying the new playlist's
/// identifier.
pub proof fn lemma_create_playlist(m: AppModel, playlist: crate::models::PlaylistDescription)
    ensures
        ({
            let events = m.emitted(AppAction::CreatePlaylist(playlist));
            &&& events.len() > 0
            &&& events.last() == AppEvent::PlaylistCreatedNotificationShown(playlist.id)
            &&& forall|i: int|
                0 <= i < events.len() - 1 ==> !(events[i] is PlaylistCreatedNotificationShown)
            &&& events[0] == AppEvent::LoginEvent(
                crate::login_state::LoginEvent::UserPlaylistsChanged,
            )
            &&& m.browser.home is Some ==> events == seq![
                AppEvent::LoginEvent(crate::login_state::LoginEvent::UserPlaylistsChanged),
                AppEvent::BrowserEvent(
                    crate::browser_state::BrowserEvent::PlaylistsContentChanged,
                ),
                AppEvent::PlaylistCreatedNotificationShown(playlist.id),
            ]
            &&& m.browser.home is None ==> events == seq![
                AppEvent::LoginEvent(crate::login_state::LoginEvent::UserPlaylistsChanged),
                AppEvent::PlaylistCreatedNotificationShown(playlist.id),
            ]
        }),
{
    let events = m.emitted(AppAction::CreatePlaylist(playlist));
    if m.browser.home is Some {
        assert(events =~= seq![
            AppEvent::LoginEvent(crate::login_state::LoginEvent::UserPlaylistsChanged),
            AppEvent::BrowserEvent(crate::browser_state::BrowserEvent::PlaylistsContentChanged),
            AppEvent::PlaylistCreatedNotificationShown(playlist.id),
        ]);
    } else {
        assert(events =~= seq![
            AppEvent::LoginEvent(crate::login_state::LoginEvent::UserPlaylistsChanged),
            AppEvent::PlaylistCreatedNotificationShown(playlist.id),
        ]);
    }
}

} // verus!
