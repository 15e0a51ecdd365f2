//! The power menu: a fullscreen overlay offering shutdown, reboot, suspend
//! and logout.  Selecting an entry asks the process layer to run the
//! matching system command; the menu itself holds no further state.

use vstd::prelude::*;

use crate::features::Feature;
use crate::layer::{Anchor, KeyboardInteractivity, Layer, LayerSettings, OutputChoice};
use crate::Effect;

verus! {

/// The power menu feature: only the shared "now" snapshot.
#[derive(Debug)]
pub struct PowerMenu {
    pub now: u64,
}

/// One entry of the power menu, doubling as the system action it requests.
#[derive(Debug, Clone, Copy, PartialEq, Eq)]
pub enum PowerMenuMessage {
    Shutdown,
    Reboot,
    Suspend,
    Logout,
}

/// The placement the power menu asks for: a fullscreen overlay on every
/// edge that takes no exclusive space.
pub open spec fn power_menu_settings_ok(r: LayerSettings) -> bool {
    &&& r.size == Some((0u32, 0u32))
    &&& r.layer == Layer::Overlay
    &&& r.anchor == (Anchor { top: true, right: true, bottom: true, left: true })
    &&& r.exclusive_zone == Some(-1i32)
    &&& r.margin is None
    &&& r.keyboard_interactivity == KeyboardInteractivity::NotInteractive
    &&& r.output == OutputChoice::DefaultOutput
    &&& !r.events_transparent
    &&& r.namespace matches Some(ns) && ns@ == "power_menu"@
}

impl PowerMenu {
    pub fn new(now: u64) -> (r: PowerMenu)
        ensures
            r == (PowerMenu { now }),
    {
        PowerMenu { now }
    }

    /// Selecting an entry asks the process layer to run the matching
    /// system command; the menu state is untouched.
    pub fn update(&mut self, message: PowerMenuMessage) -> (effects: Vec<Effect>)
        ensures
            *final(self) == *old(self),
            effects@ == seq![Effect::Run(message)],
    {
        let mut effects: Vec<Effect> = Vec::new();
        effects.push(Effect::Run(message));
        effects
    }
}

impl Feature for PowerMenu {
    open spec fn settings_ok(&self, r: LayerSettings) -> bool {
        power_menu_settings_ok(r)
    }

    open spec fn animating_spec(&self) -> bool {
        false
    }

    open spec fn with_now(self, now: u64) -> Self {
        PowerMenu { now }
    }

    fn layer_settings(&self) -> (r: LayerSettings) {
        LayerSettings {
            size: Some((0, 0)),
            layer: Layer::Overlay,
            anchor: Anchor::all(),
            exclusive_zone: Some(-1i32),
            margin: None,
            keyboard_interactivity: KeyboardInteractivity::NotInteractive,
            output: OutputChoice::DefaultOutput,
            events_transparent: false,
            namespace: Some("power_menu".to_owned()),
        }
    }

    fn is_animating(&self) -> (r: bool) {
        false
    }

    fn set_now(&mut self, now: u64) {
        self.now = now;
    }
}

} // verus!
