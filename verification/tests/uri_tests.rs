use spot_state::app_state::AppAction;
use spot_state::uri::{parse_uri, EntityKind};

#[test]
fn plain_album_uri_navigates_to_album() {
    let action = AppAction::OpenURI("spotify:album:123".to_string());
    assert_eq!(action, Some(AppAction::ViewAlbum("123".to_string())));
}

#[test]
fn empty_path_artifact_is_stripped() {
    let action = AppAction::OpenURI("spotify:///album:123".to_string());
    assert_eq!(action, Some(AppAction::ViewAlbum("123".to_string())));
}

#[test]
fn any_run_of_slashes_is_stripped() {
    let action = AppAction::OpenURI("spotify://user:alice".to_string());
    assert_eq!(action, Some(AppAction::ViewUser("alice".to_string())));
}

#[test]
fn unrecognized_entity_kind_is_ignored() {
    assert_eq!(AppAction::OpenURI("spotify:track:123".to_string()), None);
}

#[test]
fn foreign_scheme_is_ignored() {
    assert_eq!(AppAction::OpenURI("http://example.com".to_string()), None);
}

#[test]
fn artist_playlist_and_user_uris_navigate() {
    assert_eq!(
        AppAction::OpenURI("spotify:artist:42".to_string()),
        Some(AppAction::ViewArtist("42".to_string()))
    );
    assert_eq!(
        AppAction::OpenURI("spotify:playlist:p7".to_string()),
        Some(AppAction::ViewPlaylist("p7".to_string()))
    );
    assert_eq!(
        AppAction::OpenURI("spotify:user:u1".to_string()),
        Some(AppAction::ViewUser("u1".to_string()))
    );
}

#[test]
fn empty_identifier_is_ignored() {
    assert_eq!(AppAction::OpenURI("spotify:album:".to_string()), None);
}

#[test]
fn extra_segments_yield_no_action() {
    assert_eq!(AppAction::OpenURI("spotify:album:1:2".to_string()), None);
}

#[test]
fn missing_segments_yield_no_action() {
    assert_eq!(AppAction::OpenURI("spotify".to_string()), None);
    assert_eq!(AppAction::OpenURI("spotify:album".to_string()), None);
    assert_eq!(AppAction::OpenURI("".to_string()), None);
}

#[test]
fn slashes_alone_are_no_entity_kind() {
    assert_eq!(AppAction::OpenURI("spotify:///:123".to_string()), None);
}

#[test]
fn parse_uri_returns_kind_and_identifier() {
    assert_eq!(
        parse_uri("spotify:album:abc"),
        Some((EntityKind::Album, "abc".to_string()))
    );
    assert_eq!(parse_uri("spotify:album"), None);
}

#[test]
fn scheme_must_match_exactly() {
    assert_eq!(AppAction::OpenURI("Spotify:album:123".to_string()), None);
    assert_eq!(AppAction::OpenURI("spotifyx:album:123".to_string()), None);
}
