//! The status bar: one per output, anchored along the top edge, showing the
//! current workspace, the audio visualizer waves and a clock.  It carries no
//! animation; its state is refreshed by subscription messages.

use vstd::prelude::*;

use crate::features::Feature;
use crate::layer::{Anchor, KeyboardInteractivity, Layer, LayerSettings, OutputChoice};
use crate::Effect;

pub mod subscriptions;

verus! {

/// A wall-clock sample: hour, minute and second of the local time.
#[derive(Debug, Clone, Copy, PartialEq, Eq)]
pub struct ClockTime {
    pub hour: u32,
    pub minute: u32,
    pub second: u32,
}

/// The status bar feature for one output.
#[derive(Debug)]
pub struct StatusBar {
    pub now: u64,
    pub output: String,
    pub cava_info: Vec<u32>,
    pub current_datetime: ClockTime,
    pub current_workspace: i32,
}

#[derive(Debug)]
pub enum StatusBarMessage {
    /// One visualizer line: magnitudes on the 0 to 1000 scale.
    CavaInfo(Vec<u32>),
    /// A fresh wall-clock sample.
    UpdateDatetime(ClockTime),
    /// The named output switched to the given workspace.
    UpdateCurrenWorkspace(String, i32),
}

/// An exact copy of a status bar message, so one broadcast message can be
/// handed to every open status bar.
pub fn clone_status_bar_message(message: &StatusBarMessage) -> (r: StatusBarMessage)
    ensures
        (match *message {
            StatusBarMessage::CavaInfo(info) => r matches StatusBarMessage::CavaInfo(i)
                && i@ == info@,
            StatusBarMessage::UpdateDatetime(dt) => r == StatusBarMessage::UpdateDatetime(dt),
            StatusBarMessage::UpdateCurrenWorkspace(output, ws) => r matches
                StatusBarMessage::UpdateCurrenWorkspace(o, w) && o == output && w == ws,
        }),
{
    match message {
        StatusBarMessage::CavaInfo(info) => StatusBarMessage::CavaInfo(info.clone()),
        StatusBarMessage::UpdateDatetime(dt) => StatusBarMessage::UpdateDatetime(*dt),
        StatusBarMessage::UpdateCurrenWorkspace(output, ws) => {
            StatusBarMessage::UpdateCurrenWorkspace(output.clone(), *ws)
        },
    }
}

/// The placement a status bar asks for: a strip along the top of its own
/// output, reserving its height as exclusive space.
pub open spec fn status_bar_settings_ok(output: Seq<char>, r: LayerSettings) -> bool {
    &&& r.size == Some((0u32, 56u32))
    &&& r.layer == Layer::Top
    &&& r.anchor == (Anchor { top: true, right: true, bottom: false, left: true })
    &&& r.exclusive_zone == Some(56i32)
    &&& r.margin == Some((8i32, 0i32, 0i32, 0i32))
    &&& r.keyboard_interactivity == KeyboardInteractivity::NotInteractive
    &&& r.output matches OutputChoice::ByName(n) && n@ == output
    &&& !r.events_transparent
    &&& r.namespace is None
}

impl StatusBar {
    /// A bar starts with no visualizer samples and a zero clock; the first
    /// subscription messages fill both in.  The workspace shown is the
    /// output's active workspace at creation time.
    pub fn new(output: String, current_workspace: i32, now: u64) -> (r: StatusBar)
        ensures
            r.now == now,
            r.output == output,
            r.cava_info@ == Seq::<u32>::empty(),
            r.current_datetime == (ClockTime { hour: 0, minute: 0, second: 0 }),
            r.current_workspace == current_workspace,
    {
        StatusBar {
            now,
            output,
            cava_info: Vec::new(),
            current_datetime: ClockTime { hour: 0, minute: 0, second: 0 },
            current_workspace,
        }
    }

    /// Whether this bar sits on the main output, which carries the extra
    /// power-menu button.
    pub fn is_in_main(&self) -> (r: bool)
        ensures
            r == (self.output@ == "DP-3"@),
    {
        let main_output: String = "DP-3".to_owned();
        self.output == main_output
    }

    /// What consuming a subscription message does to a bar: the carried
    /// piece of state is stored; workspace switches apply only when they
    /// name the bar's own output.  The visualizer samples are pinned by
    /// their sequence, so a broadcast copy of the message is covered too.
    pub open spec fn updated_with(pre: StatusBar, post: StatusBar, message: StatusBarMessage) -> bool {
        match message {
            StatusBarMessage::CavaInfo(info) => {
                &&& post.cava_info@ == info@
                &&& post.now == pre.now
                &&& post.output == pre.output
                &&& post.current_datetime == pre.current_datetime
                &&& post.current_workspace == pre.current_workspace
            },
            StatusBarMessage::UpdateDatetime(dt) => post == (StatusBar {
                current_datetime: dt,
                ..pre
            }),
            StatusBarMessage::UpdateCurrenWorkspace(output, ws) => if output@ == pre.output@ {
                post == (StatusBar { current_workspace: ws, ..pre })
            } else {
                post == pre
            },
        }
    }

    /// Store the piece of state a subscription message carries; see
    /// [`StatusBar::updated_with`].
    pub fn update(&mut self, message: StatusBarMessage) -> (effects: Vec<Effect>)
        ensures
            effects@ == Seq::<Effect>::empty(),
            StatusBar::updated_with(*old(self), *final(self), message),
    {
        match message {
            StatusBarMessage::CavaInfo(info) => {
                self.cava_info = info;
            },
            StatusBarMessage::UpdateDatetime(dt) => {
                self.current_datetime = dt;
            },
            StatusBarMessage::UpdateCurrenWorkspace(output, ws) => {
                if output == self.output {
                    self.current_workspace = ws;
                }
            },
        }
        Vec::new()
    }
}

impl Feature for StatusBar {
    open spec fn settings_ok(&self, r: LayerSettings) -> bool {
        status_bar_settings_ok(self.output@, r)
    }

    open spec fn animating_spec(&self) -> bool {
        false
    }

    open spec fn with_now(self, now: u64) -> Self {
        StatusBar { now, ..self }
    }

    fn layer_settings(&self) -> (r: LayerSettings) {
        LayerSettings {
            size: Some((0, 56)),
            layer: Layer::Top,
            anchor: Anchor { top: true, right: true, bottom: false, left: true },
            exclusive_zone: Some(56i32),
            margin: Some((8i32, 0i32, 0i32, 0i32)),
            keyboard_interactivity: KeyboardInteractivity::NotInteractive,
            output: OutputChoice::ByName(self.output.clone()),
            events_transparent: false,
            namespace: None,
        }
    }

    fn is_animating(&self) -> (r: bool) {
        false
    }

    fn set_now(&mut self, now: u64) {
        self.now = now;
    }
}

} // verus!
