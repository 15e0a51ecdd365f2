//! The capability every overlay feature implements: produce surface
//! placement parameters, report whether it is mid-animation, and take the
//! shared "now" snapshot once per update cycle.
//!
//! A [`Window`] pairs a feature instance with the surface identifier it was
//! opened under; opening a feature yields the window record together with
//! the create-surface request for the windowing layer.

use vstd::prelude::*;

use crate::layer::LayerSettings;
use crate::{Effect, Message};

pub mod notifications;
pub mod power_menu;
pub mod status_bar;
pub mod volume_osd;

verus! {

/// One live overlay surface: the identifier the surface was created under,
/// paired with the feature instance that owns it.
pub struct Window<T> {
    pub id: u64,
    pub view: T,
}

/// The shared contract of the overlay features.
pub trait Feature: Sized {
    /// Whether `r` is the placement record this feature requests for its
    /// surface; string fields are pinned by their character sequences.
    spec fn settings_ok(&self, r: LayerSettings) -> bool;

    /// Whether the feature has an animation in motion at its stored "now".
    spec fn animating_spec(&self) -> bool;

    /// The feature with its time snapshot replaced by `now`.
    spec fn with_now(self, now: u64) -> Self;

    /// Placement parameters for the surface this feature renders into.
    fn layer_settings(&self) -> (r: LayerSettings)
        ensures
            self.settings_ok(r),
    ;

    /// Report whether an animation of this feature is still in motion.
    fn is_animating(&self) -> (r: bool)
        ensures
            r == self.animating_spec(),
    ;

    /// Take the update cycle's "now" snapshot.
    fn set_now(&mut self, now: u64)
        ensures
            *final(self) == old(self).with_now(now),
    ;

    /// Wrap the feature in a window under the fresh surface identifier `id`
    /// and request that the surface be created with its placement record.
    fn open(self, id: u64) -> (r: (Window<Self>, Effect))
        ensures
            r.0.id == id,
            r.0.view == self,
            (r.1 matches Effect::Emit(m) && m matches Message::NewLayerShell {
                id: mid,
                settings,
            } && mid == id && self.settings_ok(settings)),
    {
        let settings = self.layer_settings();
        (Window { id, view: self }, Effect::Emit(Message::NewLayerShell { id, settings }))
    }
}

} // verus!
