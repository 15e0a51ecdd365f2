//! Placement parameters an overlay surface requests from the compositor:
//! size, anchored edges, margins, exclusive zone, keyboard interactivity,
//! an optional target output and an optional namespace.
//!
//! These are plain values; the windowing layer outside this crate translates
//! them into its own layer-shell settings record when it creates a surface.

use vstd::prelude::*;

verus! {

/// The compositor layer a surface is stacked on.
#[derive(Debug, Clone, Copy, PartialEq, Eq)]
pub enum Layer {
    Background,
    Bottom,
    Top,
    Overlay,
}

/// The set of screen edges a surface is anchored to.
#[derive(Debug, Clone, Copy, PartialEq, Eq)]
pub struct Anchor {
    pub top: bool,
    pub right: bool,
    pub bottom: bool,
    pub left: bool,
}

impl Anchor {
    /// Anchored to every edge, filling the output.
    pub fn all() -> (r: Anchor)
        ensures
            r == (Anchor { top: true, right: true, bottom: true, left: true }),
    {
        Anchor { top: true, right: true, bottom: true, left: true }
    }
}

/// How a surface takes part in keyboard focus.
#[derive(Debug, Clone, Copy, PartialEq, Eq)]
pub enum KeyboardInteractivity {
    NotInteractive,
    Exclusive,
    OnDemand,
}

/// Which output a surface is bound to: the compositor's choice, or a
/// specific output picked by name.  The windowing layer resolves a name to
/// its platform output handle.
#[derive(Debug, Clone, PartialEq, Eq)]
pub enum OutputChoice {
    DefaultOutput,
    ByName(String),
}

/// The placement record handed to the windowing layer when a surface is
/// created.  A width or height of 0 means "size to the output" for that
/// dimension; an exclusive zone of -1 means "take no space".
#[derive(Debug, Clone, PartialEq, Eq)]
pub struct LayerSettings {
    pub size: Option<(u32, u32)>,
    pub layer: Layer,
    pub anchor: Anchor,
    pub exclusive_zone: Option<i32>,
    pub margin: Option<(i32, i32, i32, i32)>,
    pub keyboard_interactivity: KeyboardInteractivity,
    pub output: OutputChoice,
    pub events_transparent: bool,
    pub namespace: Option<String>,
}

} // verus!
