//! The settings substate: application preferences.

use vstd::prelude::*;
use crate::updatable::UpdatableState;

verus! {

#[derive(Clone, Copy, Debug, PartialEq, Eq, Structural)]
pub enum SettingsAction {
    SetDarkTheme(bool),
}

#[derive(Clone, Copy, Debug, PartialEq, Eq, Structural)]
pub enum SettingsEvent {
    SettingsChanged,
}

/// The preferences this core keeps track of.
#[derive(Debug)]
pub struct SettingsState {
    pub prefers_dark_theme: bool,
}

/// The abstract model of [`SettingsState`].
#[verifier::ext_equal]
pub struct SettingsModel {
    pub prefers_dark_theme: bool,
}

impl View for SettingsState {
    type V = SettingsModel;

    open spec fn view(&self) -> SettingsModel {
        SettingsModel { prefers_dark_theme: self.prefers_dark_theme }
    }
}

impl Default for SettingsState {
    fn default() -> (r: Self)
        ensures
            r@ == (SettingsModel { prefers_dark_theme: false }),
    {
        SettingsState { prefers_dark_theme: false }
    }
}

impl UpdatableState for SettingsState {
    type Action = SettingsAction;

    type Event = SettingsEvent;

    open spec fn next_model(m: SettingsModel, action: SettingsAction) -> SettingsModel {
        match action {
            SettingsAction::SetDarkTheme(v) => SettingsModel { prefers_dark_theme: v },
        }
    }

    open spec fn emitted(m: SettingsModel, action: SettingsAction) -> Seq<SettingsEvent> {
        match action {
            SettingsAction::SetDarkTheme(_) => seq![SettingsEvent::SettingsChanged],
        }
    }

    fn update_with(&mut self, action: SettingsAction) -> (events: Vec<SettingsEvent>)
        ensures
            final(self)@ == Self::next_model(old(self)@, action),
            events@ == Self::emitted(old(self)@, action),
    {
        match action {
            SettingsAction::SetDarkTheme(v) => {
                self.prefers_dark_theme = v;
                let events = vec![SettingsEvent::SettingsChanged];
                proof {
                    assert(events@ =~= Self::emitted(old(self)@, action));
                }
                events
            },
        }
    }
}

} // verus!
