//! Coordination core of a desktop-shell overlay daemon.
//!
//! The daemon renders a small set of always-on overlay surfaces (a status
//! bar per output, a power menu, a volume indicator, a notification stack)
//! on top of a Wayland compositor.  This crate holds the coordination
//! layer: the surface lifecycle manager, the demand-driven animation clock,
//! and the desktop notification delivery state machine.  Rendering, process
//! spawning and the bus plumbing live outside and talk to this crate
//! through plain messages and effects.

pub mod anim;
pub mod daemon;
pub mod features;
pub mod layer;

use vstd::prelude::*;

use crate::features::notifications::{CloseReason, NotificationsMessage};
use crate::features::power_menu::PowerMenuMessage;
use crate::features::status_bar::StatusBarMessage;
use crate::features::volume_osd::VolumeOsdMessage;
use crate::layer::LayerSettings;

verus! {

/// The four overlay kinds the daemon manages.
#[derive(Debug, Clone, Copy, PartialEq, Eq)]
pub enum FeatureSelector {
    StatusBar,
    PowerMenu,
    VolumeOSD,
    Notifications,
}

/// A hot-plugged output: its compositor name and the workspace active on
/// it when it appeared.  The platform output handle stays with the
/// windowing layer, which resolves the name.
#[derive(Debug, Clone, PartialEq, Eq)]
pub struct OutputInfo {
    pub name: String,
    pub active_workspace: i32,
}

/// Everything the update loop consumes, one message per cycle: feature
/// messages, open/hide/remove intents, hot-plug events, and the surface
/// control messages the windowing layer itself consumes.
#[derive(Debug)]
pub enum Message {
    StatusBar(StatusBarMessage),
    PowerMenu(PowerMenuMessage),
    VolumeOSD(VolumeOsdMessage),
    Notifications(NotificationsMessage),

    Open(FeatureSelector),
    Hide(FeatureSelector),
    Remove(FeatureSelector),
    ChangeSize(FeatureSelector, u32, u32),

    DisplayInserted(OutputInfo),
    Animation,
    ChangeTheme,

    /// Create a surface with the given placement (consumed by the
    /// windowing layer, not by the update loop).
    NewLayerShell { id: u64, settings: LayerSettings },
    /// Destroy the surface of `id` (consumed by the windowing layer).
    RemoveWindow(u64),
    /// Resize the surface of `id` (consumed by the windowing layer).
    SizeChange { id: u64, width: u32, height: u32 },
}

/// What one update cycle asks the outside layers to do, in order.
#[derive(Debug)]
pub enum Effect {
    /// Feed this message back into the update loop.
    Emit(Message),
    /// Sleep for `millis`, then feed `Close(id, Expired)` into the loop.
    ExpiryTimer { id: u32, millis: u64 },
    /// Run the system command of the selected power-menu entry.
    Run(PowerMenuMessage),
    /// Emit the notification bus's closed signal for `id`.
    ClosedSignal { id: u32, reason: CloseReason },
}

} // verus!
