//! The surface lifecycle manager and dispatcher: owns the live (surface id,
//! feature instance) pairs, applies the open/replace/close policy, routes
//! each message to the feature owning it, and aggregates "is anything
//! animating" so the per-frame wake-up source runs only while needed.

use vstd::prelude::*;

use std::collections::BTreeMap;

use crate::anim::{Animation, ANIM_SCALE};
use crate::features::notifications::{
    notifications_settings_ok, AnimatedNotification, Notifications,
};
use crate::features::power_menu::{power_menu_settings_ok, PowerMenu};
use crate::features::status_bar::{status_bar_settings_ok, ClockTime, StatusBar};
use crate::features::volume_osd::{VolumeOsdMessage, VolumeOSD};
use crate::features::{Feature, Window};
use crate::{Effect, FeatureSelector, Message};

verus! {

/// Every bar kept its surface id and only took the new "now".
pub open spec fn bars_renow(
    pre: Seq<Window<StatusBar>>,
    post: Seq<Window<StatusBar>>,
    now: u64,
) -> bool {
    &&& post.len() == pre.len()
    &&& forall|i: int|
        0 <= i < pre.len() ==> (#[trigger] post[i]).id == pre[i].id && post[i].view
            == pre[i].view.with_now(now)
}

/// The power menu slot is unchanged but for the new "now".
pub open spec fn pm_renow(
    pre: Option<Window<PowerMenu>>,
    post: Option<Window<PowerMenu>>,
    now: u64,
) -> bool {
    match pre {
        Some(w) => post matches Some(f) && f.id == w.id && f.view == w.view.with_now(now),
        None => post is None,
    }
}

/// The notification stack slot is unchanged but for the new "now".
pub open spec fn ns_renow(
    pre: Option<Window<Notifications>>,
    post: Option<Window<Notifications>>,
    now: u64,
) -> bool {
    match pre {
        Some(w) => post matches Some(f) && f.id == w.id && f.view == w.view.with_now(now),
        None => post is None,
    }
}

/// The volume indicator is unchanged but for the new "now".
pub open spec fn vol_renow(pre: Window<VolumeOSD>, post: Window<VolumeOSD>, now: u64) -> bool {
    post.id == pre.id && post.view == pre.view.with_now(now)
}

/// A bar as `StatusBar::new` builds it for a hot-plugged output.
pub open spec fn fresh_bar(b: StatusBar, name: Seq<char>, workspace: i32, now: u64) -> bool {
    &&& b.now == now
    &&& b.output@ == name
    &&& b.cava_info@ == Seq::<u32>::empty()
    &&& b.current_datetime == (ClockTime { hour: 0, minute: 0, second: 0 })
    &&& b.current_workspace == workspace
}

/// Whether some bar sits on the output called `name`.
pub open spec fn has_bar(bars: Seq<Window<StatusBar>>, name: Seq<char>) -> bool {
    exists|i: int| 0 <= i < bars.len() && (#[trigger] bars[i]).view.output@ == name
}

/// The index of the bar on the output called `name` (the bars' outputs are
/// pairwise distinct, so it is unique).
pub open spec fn bar_index(bars: Seq<Window<StatusBar>>, name: Seq<char>) -> int {
    choose|i: int| 0 <= i < bars.len() && (#[trigger] bars[i]).view.output@ == name
}

/// Hiding a kind with no live surface is an error surfaced to the caller,
/// never a crash.
#[derive(Debug, Clone, Copy, PartialEq, Eq)]
pub enum HideError {
    NothingToHide,
}

/// The daemon's state: the live surfaces, the shared "now" snapshot, and
/// the counter fresh surface identifiers are drawn from.
pub struct Daemon {
    /// One status bar per output, keyed by the output name.
    pub statuses_bar: Vec<Window<StatusBar>>,
    /// The always-open volume indicator.
    pub volume_osd: Window<VolumeOSD>,
    /// The power menu, at most one at a time (open-if-absent).
    pub power_menu: Option<Window<PowerMenu>>,
    /// The notification stack, at most one at a time (open-if-absent).
    pub notifications: Option<Window<Notifications>>,
    /// The monotonic "now" of the current update cycle, in milliseconds.
    pub now: u64,
    /// Surface identifiers already handed out are all below this; an
    /// identifier is never reused while the process runs.
    pub next_surface_id: u64,
}

impl Daemon {
    /// The id of the power menu's surface, if one is open.
    pub open spec fn power_menu_id(self) -> Option<u64> {
        match self.power_menu {
            Some(w) => Some(w.id),
            None => None,
        }
    }

    /// The id of the notification stack's surface, if one is open.
    pub open spec fn notifications_id(self) -> Option<u64> {
        match self.notifications {
            Some(w) => Some(w.id),
            None => None,
        }
    }

    /// Well-formedness: every live id is below the allocation counter, ids
    /// are pairwise distinct, the bars' output names are pairwise distinct,
    /// and every held animation is well formed.
    pub open spec fn wf(self) -> bool {
        &&& self.volume_osd.id < self.next_surface_id
        &&& self.volume_osd.view.wf()
        &&& self.power_menu matches Some(w) ==> w.id < self.next_surface_id
        &&& self.notifications matches Some(w) ==> w.id < self.next_surface_id && w.view.wf()
        &&& forall|i: int|
            0 <= i < self.statuses_bar@.len() ==> (#[trigger] self.statuses_bar@[i]).id
                < self.next_surface_id
        &&& forall|i: int, j: int|
            0 <= i < j < self.statuses_bar@.len() ==> (#[trigger] self.statuses_bar@[i]).id != (
            #[trigger] self.statuses_bar@[j]).id
        &&& forall|i: int, j: int|
            0 <= i < j < self.statuses_bar@.len() ==> (#[trigger] self.statuses_bar@[i]).view.output@
                != (#[trigger] self.statuses_bar@[j]).view.output@
        &&& forall|i: int|
            0 <= i < self.statuses_bar@.len() ==> (#[trigger] self.statuses_bar@[i]).id
                != self.volume_osd.id
        &&& forall|i: int|
            0 <= i < self.statuses_bar@.len() ==> self.power_menu_id() != Some(
                (#[trigger] self.statuses_bar@[i]).id,
            )
        &&& forall|i: int|
            0 <= i < self.statuses_bar@.len() ==> self.notifications_id() != Some(
                (#[trigger] self.statuses_bar@[i]).id,
            )
        &&& self.power_menu_id() != Some(self.volume_osd.id)
        &&& self.notifications_id() != Some(self.volume_osd.id)
        &&& (self.power_menu_id() matches Some(p) ==> self.notifications_id() != Some(p))
    }

    /// A fresh daemon: no bars yet, no power menu, no notification stack,
    /// and the volume indicator opened under the first surface identifier.
    /// The returned effects carry that surface's create request.
    pub fn new(now: u64) -> (r: (Daemon, Vec<Effect>))
        ensures
            r.0.wf(),
            r.0.now == now,
            r.0.statuses_bar@.len() == 0,
            r.0.power_menu is None,
            r.0.notifications is None,
            r.0.volume_osd.id == 0,
            r.0.volume_osd.view.now == now,
            r.0.volume_osd.view.animation == (Animation {
                start_value: 0u32,
                target: 0u32,
                start_time: 0,
                duration_ms: 0,
            }),
            r.0.next_surface_id == 1,
            r.1@.len() == 1,
            (r.1@[0] matches Effect::Emit(m) && m matches Message::NewLayerShell {
                id,
                settings,
            } && id == 0 && crate::features::volume_osd::volume_osd_settings_ok(settings)),
    {
        let (volume_osd, open_effect) = VolumeOSD::new(now).open(0);
        let mut effects: Vec<Effect> = Vec::new();
        effects.push(open_effect);
        (
            Daemon {
                statuses_bar: Vec::new(),
                volume_osd,
                power_menu: None,
                notifications: None,
                now,
                next_surface_id: 1,
            },
            effects,
        )
    }

    /// Whether any live feature still has an animation in motion; the
    /// per-frame wake-up subscription is active exactly while this holds.
    pub open spec fn animating_spec(self) -> bool {
        ||| (self.notifications matches Some(w) && w.view.animating_spec())
        ||| (self.power_menu matches Some(w) && w.view.animating_spec())
        ||| exists|i: int|
            0 <= i < self.statuses_bar@.len() && (#[trigger] self.statuses_bar@[i]).view.animating_spec()
        ||| self.volume_osd.view.animating_spec()
    }

    /// Aggregate "is anything animating" across all live features.
    pub fn is_animating(&self) -> (r: bool)
        ensures
            r == self.animating_spec(),
    {
        let mut any = match &self.notifications {
            Some(w) => w.view.is_animating(),
            None => false,
        };
        any = any || match &self.power_menu {
            Some(w) => w.view.is_animating(),
            None => false,
        };
        let n = self.statuses_bar.len();
        let mut i: usize = 0;
        let mut bars = false;
        while i < n
            invariant
                n == self.statuses_bar@.len(),
                i <= n,
                bars == exists|j: int|
                    0 <= j < i && (#[trigger] self.statuses_bar@[j]).view.animating_spec(),
            decreases n - i,
        {
            if self.statuses_bar[i].view.is_animating() {
                bars = true;
            }
            i = i + 1;
        }
        any || bars || self.volume_osd.view.is_animating()
    }

    /// Push the cycle's "now" into every live feature instance.
    pub fn set_now(&mut self, now: u64)
        ensures
            final(self).now == now,
            final(self).next_surface_id == old(self).next_surface_id,
            final(self).volume_osd.id == old(self).volume_osd.id,
            final(self).volume_osd.view == old(self).volume_osd.view.with_now(now),
            (match old(self).power_menu {
                Some(w) => final(self).power_menu matches Some(f) && f.id == w.id && f.view
                    == w.view.with_now(now),
                None => final(self).power_menu is None,
            }),
            (match old(self).notifications {
                Some(w) => final(self).notifications matches Some(f) && f.id == w.id && f.view
                    == w.view.with_now(now),
                None => final(self).notifications is None,
            }),
            final(self).statuses_bar@.len() == old(self).statuses_bar@.len(),
            forall|i: int|
                0 <= i < old(self).statuses_bar@.len() ==> {
                    &&& (#[trigger] final(self).statuses_bar@[i]).id == old(
                        self,
                    ).statuses_bar@[i].id
                    &&& final(self).statuses_bar@[i].view == old(
                        self,
                    ).statuses_bar@[i].view.with_now(now)
                },
    {
        self.now = now;
        let n = self.statuses_bar.len();
        let mut i: usize = 0;
        while i < n
            invariant
                n == self.statuses_bar@.len(),
                i <= n,
                self.now == now,
                self.next_surface_id == old(self).next_surface_id,
                self.volume_osd == old(self).volume_osd,
                self.power_menu == old(self).power_menu,
                self.notifications == old(self).notifications,
                forall|j: int|
                    i <= j < n ==> (#[trigger] self.statuses_bar@[j]) == old(
                        self,
                    ).statuses_bar@[j],
                forall|j: int|
                    0 <= j < i ==> (#[trigger] self.statuses_bar@[j]).id == old(
                        self,
                    ).statuses_bar@[j].id && self.statuses_bar@[j].view == old(
                        self,
                    ).statuses_bar@[j].view.with_now(now),
            decreases n - i,
        {
            self.statuses_bar[i].view.set_now(now);
            i = i + 1;
        }
        self.volume_osd.view.set_now(now);
        if let Some(w) = self.power_menu.as_mut() {
            w.view.set_now(now);
        }
        if let Some(w) = self.notifications.as_mut() {
            w.view.set_now(now);
        }
    }

    /// The destroy-surface request and the record removal for a singleton
    /// kind, or "nothing to hide" when that kind has no live surface (for
    /// the kinds that are never hidden this is always the answer).
    pub fn hide_surface(&self, feature: FeatureSelector) -> (r: Result<Vec<Effect>, HideError>)
        ensures
            (match feature {
                FeatureSelector::PowerMenu => (match self.power_menu_id() {
                    Some(id) => r matches Ok(es) && es@ == seq![
                        Effect::Emit(Message::RemoveWindow(id)),
                        Effect::Emit(Message::Remove(FeatureSelector::PowerMenu)),
                    ],
                    None => r matches Err(e) && e == HideError::NothingToHide,
                }),
                FeatureSelector::Notifications => (match self.notifications_id() {
                    Some(id) => r matches Ok(es) && es@ == seq![
                        Effect::Emit(Message::RemoveWindow(id)),
                        Effect::Emit(Message::Remove(FeatureSelector::Notifications)),
                    ],
                    None => r matches Err(e) && e == HideError::NothingToHide,
                }),
                _ => r matches Err(e) && e == HideError::NothingToHide,
            }),
    {
        let id = match feature {
            FeatureSelector::PowerMenu => match &self.power_menu {
                Some(w) => Some(w.id),
                None => None,
            },
            FeatureSelector::Notifications => match &self.notifications {
                Some(w) => Some(w.id),
                None => None,
            },
            _ => None,
        };
        match id {
            Some(id) => {
                let mut es: Vec<Effect> = Vec::new();
                es.push(Effect::Emit(Message::RemoveWindow(id)));
                es.push(Effect::Emit(Message::Remove(feature)));
                proof {
                    assert(es@ =~= seq![
                        Effect::Emit(Message::RemoveWindow(id)),
                        Effect::Emit(Message::Remove(feature)),
                    ]);
                }
                Ok(es)
            },
            None => Err(HideError::NothingToHide),
        }
    }

    /// Which feature kind owns the surface of `id`, for the view layer's
    /// routing; `None` when no live surface carries that id.
    pub fn surface_kind(&self, id: u64) -> (r: Option<FeatureSelector>)
        ensures
            r == (if exists|i: int|
                0 <= i < self.statuses_bar@.len() && (#[trigger] self.statuses_bar@[i]).id == id {
                Some(FeatureSelector::StatusBar)
            } else if self.notifications_id() == Some(id) {
                Some(FeatureSelector::Notifications)
            } else if self.volume_osd.id == id {
                Some(FeatureSelector::VolumeOSD)
            } else if self.power_menu_id() == Some(id) {
                Some(FeatureSelector::PowerMenu)
            } else {
                None
            }),
    {
        let n = self.statuses_bar.len();
        let mut i: usize = 0;
        let mut from_bar = false;
        while i < n
            invariant
                n == self.statuses_bar@.len(),
                i <= n,
                from_bar == exists|j: int|
                    0 <= j < i && (#[trigger] self.statuses_bar@[j]).id == id,
            decreases n - i,
        {
            if self.statuses_bar[i].id == id {
                from_bar = true;
            }
            i = i + 1;
        }
        if from_bar {
            Some(FeatureSelector::StatusBar)
        } else if match &self.notifications {
            Some(w) => w.id == id,
            None => false,
        } {
            Some(FeatureSelector::Notifications)
        } else if self.volume_osd.id == id {
            Some(FeatureSelector::VolumeOSD)
        } else if match &self.power_menu {
            Some(w) => w.id == id,
            None => false,
        } {
            Some(FeatureSelector::PowerMenu)
        } else {
            None
        }
    }

    /// One update cycle: push `now` into every live feature, route the
    /// message to the feature instance owning it, apply the open, hide,
    /// remove and hot-plug policies, and hand back the effects.  Singleton
    /// kinds open if absent; a hot-plugged output replaces its bar's
    /// feature instance in place, keeping the surface identifier; routing
    /// to a kind with no live surface is a silent no-op.
    pub fn update(&mut self, now: u64, message: Message) -> (effects: Vec<Effect>)
        requires
            old(self).wf(),
            old(self).next_surface_id < u64::MAX,
        ensures
            final(self).wf(),
            final(self).now == now,
            (match message {
                Message::StatusBar(m) => {
                    &&& final(self).statuses_bar@.len() == old(self).statuses_bar@.len()
                    &&& forall|i: int|
                        0 <= i < old(self).statuses_bar@.len() ==> {
                            &&& (#[trigger] final(self).statuses_bar@[i]).id == old(
                                self,
                            ).statuses_bar@[i].id
                            &&& StatusBar::updated_with(
                                old(self).statuses_bar@[i].view.with_now(now),
                                final(self).statuses_bar@[i].view,
                                m,
                            )
                        }
                    &&& vol_renow(old(self).volume_osd, final(self).volume_osd, now)
                    &&& pm_renow(old(self).power_menu, final(self).power_menu, now)
                    &&& ns_renow(old(self).notifications, final(self).notifications, now)
                    &&& final(self).next_surface_id == old(self).next_surface_id
                    &&& effects@ == Seq::<Effect>::empty()
                },
                Message::PowerMenu(m) => {
                    &&& bars_renow(old(self).statuses_bar@, final(self).statuses_bar@, now)
                    &&& vol_renow(old(self).volume_osd, final(self).volume_osd, now)
                    &&& ns_renow(old(self).notifications, final(self).notifications, now)
                    &&& pm_renow(old(self).power_menu, final(self).power_menu, now)
                    &&& final(self).next_surface_id == old(self).next_surface_id
                    &&& effects@ == (if old(self).power_menu is Some {
                        seq![Effect::Run(m)]
                    } else {
                        Seq::<Effect>::empty()
                    })
                },
                Message::VolumeOSD(m) => {
                    &&& bars_renow(old(self).statuses_bar@, final(self).statuses_bar@, now)
                    &&& pm_renow(old(self).power_menu, final(self).power_menu, now)
                    &&& ns_renow(old(self).notifications, final(self).notifications, now)
                    &&& final(self).next_surface_id == old(self).next_surface_id
                    &&& final(self).volume_osd.id == old(self).volume_osd.id
                    &&& final(self).volume_osd.view.now == now
                    &&& final(self).volume_osd.view.animation == old(
                        self,
                    ).volume_osd.view.animation.driven(
                        match m {
                            VolumeOsdMessage::VolumeAppear => ANIM_SCALE,
                            VolumeOsdMessage::VolumeDissapear => 0u32,
                        },
                        now,
                    )
                    &&& effects@ == Seq::<Effect>::empty()
                },
                Message::Notifications(m) => {
                    &&& bars_renow(old(self).statuses_bar@, final(self).statuses_bar@, now)
                    &&& vol_renow(old(self).volume_osd, final(self).volume_osd, now)
                    &&& pm_renow(old(self).power_menu, final(self).power_menu, now)
                    &&& final(self).next_surface_id == old(self).next_surface_id
                    &&& (match old(self).notifications {
                        Some(w) => {
                            &&& final(self).notifications matches Some(f) && f.id == w.id
                                && f.view.now == now && f.view.wf()
                                && Notifications::update_rel(
                                w.view.with_now(now),
                                f.view,
                                m,
                                effects@,
                            )
                        },
                        None => final(self).notifications is None && effects@ == Seq::<
                            Effect,
                        >::empty(),
                    })
                },
                Message::Open(sel) => {
                    &&& bars_renow(old(self).statuses_bar@, final(self).statuses_bar@, now)
                    &&& vol_renow(old(self).volume_osd, final(self).volume_osd, now)
                    &&& (match sel {
                        FeatureSelector::PowerMenu => {
                            &&& ns_renow(old(self).notifications, final(self).notifications, now)
                            &&& (match old(self).power_menu {
                                None => {
                                    &&& final(self).power_menu matches Some(w) && w.id == old(
                                        self,
                                    ).next_surface_id && w.view == (PowerMenu { now })
                                    &&& final(self).next_surface_id == old(self).next_surface_id
                                        + 1
                                    &&& effects@.len() == 1
                                    &&& (effects@[0] matches Effect::Emit(msg)
                                        && msg matches Message::NewLayerShell { id, settings }
                                        && id == old(self).next_surface_id
                                        && power_menu_settings_ok(settings))
                                },
                                Some(_) => {
                                    &&& pm_renow(old(self).power_menu, final(self).power_menu, now)
                                    &&& final(self).next_surface_id == old(self).next_surface_id
                                    &&& effects@ == Seq::<Effect>::empty()
                                },
                            })
                        },
                        FeatureSelector::Notifications => {
                            &&& pm_renow(old(self).power_menu, final(self).power_menu, now)
                            &&& (match old(self).notifications {
                                None => {
                                    &&& final(self).notifications matches Some(w) && w.id == old(
                                        self,
                                    ).next_surface_id && w.view.now == now
                                        && w.view.notifications@ == Map::<
                                        u32,
                                        AnimatedNotification,
                                    >::empty() && w.view.animation == (Animation {
                                        start_value: 0u32,
                                        target: 0u32,
                                        start_time: 0,
                                        duration_ms: 0,
                                    }) && !w.view.dbus_ready
                                    &&& final(self).next_surface_id == old(self).next_surface_id
                                        + 1
                                    &&& effects@.len() == 1
                                    &&& (effects@[0] matches Effect::Emit(msg)
                                        && msg matches Message::NewLayerShell { id, settings }
                                        && id == old(self).next_surface_id
                                        && notifications_settings_ok(settings))
                                },
                                Some(_) => {
                                    &&& ns_renow(
                                        old(self).notifications,
                                        final(self).notifications,
                                        now,
                                    )
                                    &&& final(self).next_surface_id == old(self).next_surface_id
                                    &&& effects@ == Seq::<Effect>::empty()
                                },
                            })
                        },
                        _ => {
                            &&& pm_renow(old(self).power_menu, final(self).power_menu, now)
                            &&& ns_renow(old(self).notifications, final(self).notifications, now)
                            &&& final(self).next_surface_id == old(self).next_surface_id
                            &&& effects@ == Seq::<Effect>::empty()
                        },
                    })
                },
                Message::Hide(sel) => {
                    &&& bars_renow(old(self).statuses_bar@, final(self).statuses_bar@, now)
                    &&& vol_renow(old(self).volume_osd, final(self).volume_osd, now)
                    &&& pm_renow(old(self).power_menu, final(self).power_menu, now)
                    &&& ns_renow(old(self).notifications, final(self).notifications, now)
                    &&& final(self).next_surface_id == old(self).next_surface_id
                    &&& effects@ == (match sel {
                        FeatureSelector::PowerMenu => (match old(self).power_menu_id() {
                            Some(id) => seq![
                                Effect::Emit(Message::RemoveWindow(id)),
                                Effect::Emit(Message::Remove(FeatureSelector::PowerMenu)),
                            ],
                            None => Seq::<Effect>::empty(),
                        }),
                        FeatureSelector::Notifications => (match old(self).notifications_id() {
                            Some(id) => seq![
                                Effect::Emit(Message::RemoveWindow(id)),
                                Effect::Emit(Message::Remove(FeatureSelector::Notifications)),
                            ],
                            None => Seq::<Effect>::empty(),
                        }),
                        _ => Seq::<Effect>::empty(),
                    })
                },
                Message::Remove(sel) => {
                    &&& bars_renow(old(self).statuses_bar@, final(self).statuses_bar@, now)
                    &&& vol_renow(old(self).volume_osd, final(self).volume_osd, now)
                    &&& final(self).next_surface_id == old(self).next_surface_id
                    &&& effects@ == Seq::<Effect>::empty()
                    &&& (match sel {
                        FeatureSelector::PowerMenu => final(self).power_menu is None && ns_renow(
                            old(self).notifications,
                            final(self).notifications,
                            now,
                        ),
                        FeatureSelector::Notifications => final(self).notifications is None
                            && pm_renow(old(self).power_menu, final(self).power_menu, now),
                        _ => pm_renow(old(self).power_menu, final(self).power_menu, now)
                            && ns_renow(old(self).notifications, final(self).notifications, now),
                    })
                },
                Message::ChangeSize(sel, width, height) => {
                    &&& bars_renow(old(self).statuses_bar@, final(self).statuses_bar@, now)
                    &&& vol_renow(old(self).volume_osd, final(self).volume_osd, now)
                    &&& pm_renow(old(self).power_menu, final(self).power_menu, now)
                    &&& ns_renow(old(self).notifications, final(self).notifications, now)
                    &&& final(self).next_surface_id == old(self).next_surface_id
                    &&& effects@ == (match (sel, old(self).notifications_id()) {
                        (FeatureSelector::Notifications, Some(id)) => seq![
                            Effect::Emit(Message::SizeChange { id, width, height }),
                        ],
                        _ => Seq::<Effect>::empty(),
                    })
                },
                Message::DisplayInserted(info) => {
                    &&& vol_renow(old(self).volume_osd, final(self).volume_osd, now)
                    &&& pm_renow(old(self).power_menu, final(self).power_menu, now)
                    &&& ns_renow(old(self).notifications, final(self).notifications, now)
                    &&& (if has_bar(old(self).statuses_bar@, info.name@) {
                        let i = bar_index(old(self).statuses_bar@, info.name@);
                        &&& final(self).statuses_bar@.len() == old(self).statuses_bar@.len()
                        &&& final(self).statuses_bar@[i].id == old(self).statuses_bar@[i].id
                        &&& fresh_bar(
                            final(self).statuses_bar@[i].view,
                            info.name@,
                            info.active_workspace,
                            now,
                        )
                        &&& forall|j: int|
                            0 <= j < old(self).statuses_bar@.len() && j != i ==> {
                                &&& (#[trigger] final(self).statuses_bar@[j]).id == old(
                                    self,
                                ).statuses_bar@[j].id
                                &&& final(self).statuses_bar@[j].view == old(
                                    self,
                                ).statuses_bar@[j].view.with_now(now)
                            }
                        &&& final(self).next_surface_id == old(self).next_surface_id
                        &&& effects@ == Seq::<Effect>::empty()
                    } else {
                        &&& final(self).statuses_bar@.len() == old(self).statuses_bar@.len() + 1
                        &&& bars_renow(
                            old(self).statuses_bar@,
                            final(self).statuses_bar@.take(old(self).statuses_bar@.len() as int),
                            now,
                        )
                        &&& final(self).statuses_bar@.last().id == old(self).next_surface_id
                        &&& fresh_bar(
                            final(self).statuses_bar@.last().view,
                            info.name@,
                            info.active_workspace,
                            now,
                        )
                        &&& final(self).next_surface_id == old(self).next_surface_id + 1
                        &&& effects@.len() == 1
                        &&& (effects@[0] matches Effect::Emit(msg)
                            && msg matches Message::NewLayerShell { id, settings }
                            && id == old(self).next_surface_id
                            && status_bar_settings_ok(info.name@, settings))
                    })
                },
                _ => {
                    &&& bars_renow(old(self).statuses_bar@, final(self).statuses_bar@, now)
                    &&& vol_renow(old(self).volume_osd, final(self).volume_osd, now)
                    &&& pm_renow(old(self).power_menu, final(self).power_menu, now)
                    &&& ns_renow(old(self).notifications, final(self).notifications, now)
                    &&& final(self).next_surface_id == old(self).next_surface_id
                    &&& effects@ == Seq::<Effect>::empty()
                },
            }),
    {
        self.set_now(now);
        let mut effects: Vec<Effect> = Vec::new();
        match message {
            Message::StatusBar(m) => {
                let n = self.statuses_bar.len();
                let mut i: usize = 0;
                while i < n
                    invariant
                        n == self.statuses_bar@.len(),
                        i <= n,
                        self.now == now,
                        self.next_surface_id == old(self).next_surface_id,
                        vol_renow(old(self).volume_osd, self.volume_osd, now),
                        pm_renow(old(self).power_menu, self.power_menu, now),
                        ns_renow(old(self).notifications, self.notifications, now),
                        old(self).wf(),
                        forall|j: int|
                            i <= j < n ==> {
                                &&& (#[trigger] self.statuses_bar@[j]).id == old(
                                    self,
                                ).statuses_bar@[j].id
                                &&& self.statuses_bar@[j].view == old(
                                    self,
                                ).statuses_bar@[j].view.with_now(now)
                            },
                        forall|j: int|
                            0 <= j < i ==> {
                                &&& (#[trigger] self.statuses_bar@[j]).id == old(
                                    self,
                                ).statuses_bar@[j].id
                                &&& StatusBar::updated_with(
                                    old(self).statuses_bar@[j].view.with_now(now),
                                    self.statuses_bar@[j].view,
                                    m,
                                )
                            },
                        effects@ == Seq::<Effect>::empty(),
                    decreases n - i,
                {
                    let mc = crate::features::status_bar::clone_status_bar_message(&m);
                    let mut es = self.statuses_bar[i].view.update(mc);
                    effects.append(&mut es);
                    proof {
                        assert(effects@ =~= Seq::<Effect>::empty());
                    }
                    i = i + 1;
                }
            },
            Message::PowerMenu(m) => {
                if let Some(w) = self.power_menu.as_mut() {
                    effects = w.view.update(m);
                }
            },
            Message::VolumeOSD(m) => {
                effects = self.volume_osd.view.update(m);
            },
            Message::Notifications(m) => {
                if let Some(w) = self.notifications.as_mut() {
                    effects = w.view.update(m);
                }
            },
            Message::Open(sel) => {
                match sel {
                    FeatureSelector::PowerMenu => {
                        if self.power_menu.is_none() {
                            let id = self.next_surface_id;
                            self.next_surface_id = id + 1;
                            let (window, open_effect) = PowerMenu::new(now).open(id);
                            self.power_menu = Some(window);
                            effects.push(open_effect);
                        }
                    },
                    FeatureSelector::Notifications => {
                        if self.notifications.is_none() {
                            let id = self.next_surface_id;
                            self.next_surface_id = id + 1;
                            let (window, open_effect) = Notifications::new(
                                BTreeMap::new(),
                                now,
                            ).open(id);
                            self.notifications = Some(window);
                            effects.push(open_effect);
                        }
                    },
                    _ => {},
                }
            },
            Message::Hide(sel) => {
                match self.hide_surface(sel) {
                    Ok(es) => {
                        effects = es;
                    },
                    Err(_e) => {},
                }
            },
            Message::Remove(sel) => {
                match sel {
                    FeatureSelector::Notifications => {
                        self.notifications = None;
                    },
                    FeatureSelector::PowerMenu => {
                        self.power_menu = None;
                    },
                    _ => {},
                }
            },
            Message::ChangeSize(sel, width, height) => {
                match sel {
                    FeatureSelector::Notifications => {
                        let nid = match &self.notifications {
                            Some(w) => Some(w.id),
                            None => None,
                        };
                        if let Some(id) = nid {
                            effects.push(Effect::Emit(Message::SizeChange { id, width, height }));
                            proof {
                                assert(effects@ =~= seq![
                                    Effect::Emit(Message::SizeChange { id, width, height }),
                                ]);
                            }
                        }
                    },
                    _ => {},
                }
            },
            Message::DisplayInserted(info) => {
                let n = self.statuses_bar.len();
                let mut i: usize = 0;
                let mut found: Option<usize> = None;
                while i < n
                    invariant
                        n == self.statuses_bar@.len(),
                        i <= n,
                        bars_renow(old(self).statuses_bar@, self.statuses_bar@, now),
                        (match found {
                            Some(k) => 0 <= k < i && self.statuses_bar@[k as int].view.output@
                                == info.name@,
                            None => forall|j: int|
                                0 <= j < i ==> (#[trigger] self.statuses_bar@[j]).view.output@
                                    != info.name@,
                        }),
                    decreases n - i,
                {
                    if self.statuses_bar[i].view.output == info.name {
                        found = Some(i);
                    }
                    i = i + 1;
                }
                match found {
                    Some(k) => {
                        proof {
                            assert(has_bar(old(self).statuses_bar@, info.name@)) by {
                                assert(old(self).statuses_bar@[k as int].view.output@
                                    == info.name@);
                            }
                            let ii = bar_index(old(self).statuses_bar@, info.name@);
                            assert(0 <= ii < old(self).statuses_bar@.len() && old(
                                self,
                            ).statuses_bar@[ii].view.output@ == info.name@);
                            assert(ii == k as int);
                        }
                        let view = StatusBar::new(info.name.clone(), info.active_workspace, now);
                        self.statuses_bar[k].view = view;
                    },
                    None => {
                        proof {
                            assert forall|j: int|
                                0 <= j < old(self).statuses_bar@.len() implies (#[trigger] old(
                                self,
                            ).statuses_bar@[j]).view.output@ != info.name@ by {
                                assert(self.statuses_bar@[j].view == old(
                                    self,
                                ).statuses_bar@[j].view.with_now(now));
                                assert(self.statuses_bar@[j].view.output@ != info.name@);
                            }
                            assert(!has_bar(old(self).statuses_bar@, info.name@));
                        }
                        let id = self.next_surface_id;
                        self.next_surface_id = id + 1;
                        let (window, open_effect) = StatusBar::new(
                            info.name.clone(),
                            info.active_workspace,
                            now,
                        ).open(id);
                        self.statuses_bar.push(window);
                        effects.push(open_effect);
                    },
                }
            },
            _ => {},
        }
        effects
    }
}

} // verus!
