//! The update contract every substate exposes to the composite reducer.

use vstd::prelude::*;

verus! {

/// A slice of application state that can be updated through its own action
/// type, emitting its own event type.
///
/// The whole behaviour of an implementation is pinned down by two spec
/// functions over its abstract model (its [`View`]): `next_model` gives the
/// model after an update and `emitted` the events the update reports.
pub trait UpdatableState: View + Sized {
    type Action;

    type Event;

    /// The model of the state after `action` is applied to model `m`.
    spec fn next_model(m: Self::V, action: Self::Action) -> Self::V;

    /// The events reported when `action` is applied at model `m`.
    spec fn emitted(m: Self::V, action: Self::Action) -> Seq<Self::Event>;

    /// Apply `action`, mutating the state and returning the events in
    /// emission order.
    fn update_with(&mut self, action: Self::Action) -> (events: Vec<Self::Event>)
        ensures
            final(self)@ == Self::next_model(old(self)@, action),
            events@ == Self::emitted(old(self)@, action),
    ;
}

} // verus!
