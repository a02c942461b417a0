//! A unidirectional state-management core for an interactive music player.
//!
//! A single composite state is mutated only through explicit actions handed to
//! [`AppState::update_state`], and every mutation is reported through an
//! ordered sequence of events.  The reducer routes substate-scoped actions to
//! the substate that owns them and handles cross-cutting actions itself; its
//! full behaviour is pinned down by the spec functions [`app_state::AppModel::step`]
//! and [`app_state::AppModel::emitted`].

pub mod app_state;
pub mod browser_state;
pub mod laws;
pub mod login_state;
pub mod models;
pub mod playback_state;
pub mod selection_state;
pub mod settings_state;
pub mod strings;
pub mod updatable;
pub mod uri;

pub use app_state::{AppAction, AppEvent, AppState};
pub use updatable::UpdatableState;
