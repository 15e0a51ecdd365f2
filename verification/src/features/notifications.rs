//! The notification stack: the per-notification entity lifecycle (arrival,
//! popup, expiry, dismissal) and the panel that shows the live entities.
//!
//! Entities live in a map ordered by id.  Each carries a popup animation,
//! created fully visible and driven toward zero; the panel itself has a
//! show/hide animation driven toward hidden exactly when the map empties,
//! at which point one hide-the-surface request is issued.

use vstd::prelude::*;

use std::collections::BTreeMap;
use std::collections::HashMap;

use crate::anim::{Animation, ANIM_SCALE, QUICK_ANIMATION_MS};
use crate::features::Feature;
use crate::layer::{Anchor, KeyboardInteractivity, Layer, LayerSettings, OutputChoice};
use crate::{Effect, FeatureSelector, Message};

pub mod subscriptions;

verus! {

broadcast use
    vstd::std_specs::btree::group_btree_axioms,
    vstd::laws_cmp::group_laws_cmp,
;

/// The hint values a caller attaches to a notification.  Relies on
/// zvariant's `OwnedValue` only as an opaque value that is stored with the
/// entity and handed back unread.
#[verifier::external_type_specification]
#[verifier::external_body]
pub struct ExOwnedValue(zbus::zvariant::OwnedValue);

/// When a notification is dismissed automatically: after the server's
/// fixed default, after a caller-given number of milliseconds, or never.
#[derive(Debug, Clone, Copy, PartialEq, Eq)]
pub enum ExpireTimeout {
    ServerDefault,
    NotificationSpecific(i32),
    ManualClosing,
}

/// The server's default expiry: five seconds.
pub const DEFAULT_EXPIRE_MS: u64 = 5000;

impl ExpireTimeout {
    /// Milliseconds until the expiry timer fires, or `None` when no timer
    /// is started.  A negative caller-given timeout never fires.
    pub open spec fn millis_spec(self) -> Option<u64> {
        match self {
            ExpireTimeout::ServerDefault => Some(DEFAULT_EXPIRE_MS),
            ExpireTimeout::NotificationSpecific(m) => if m >= 0 {
                Some(m as u64)
            } else {
                None
            },
            ExpireTimeout::ManualClosing => None,
        }
    }

    /// Resolve the expiry policy to a timer duration.
    pub fn millis(self) -> (r: Option<u64>)
        ensures
            r == self.millis_spec(),
    {
        match self {
            ExpireTimeout::ServerDefault => Some(DEFAULT_EXPIRE_MS),
            ExpireTimeout::NotificationSpecific(m) => if m >= 0 {
                Some(m as u64)
            } else {
                None
            },
            ExpireTimeout::ManualClosing => None,
        }
    }
}

/// Why a notification left the stack, mirroring the closed-signal reason
/// codes of the notification bus.
#[derive(Debug, Clone, Copy, PartialEq, Eq)]
pub enum CloseReason {
    /// The expiry timer fired.
    Expired,
    /// The user dismissed it.
    Dismissed,
    /// A caller asked for it to be closed.
    Requested,
}

impl CloseReason {
    /// The reason code the closed signal carries on the wire.
    pub fn code(self) -> (r: u32)
        ensures
            r == (match self {
                CloseReason::Expired => 1u32,
                CloseReason::Dismissed => 2u32,
                CloseReason::Requested => 3u32,
            }),
    {
        match self {
            CloseReason::Expired => 1,
            CloseReason::Dismissed => 2,
            CloseReason::Requested => 3,
        }
    }
}

/// One alert as delivered over the bus.
#[derive(Debug)]
pub struct Notification {
    pub id: u32,
    pub app_name: String,
    pub app_icon: String,
    pub summary: String,
    pub body: String,
    pub actions: Vec<(String, String)>,
    pub hints: HashMap<String, zbus::zvariant::OwnedValue>,
    pub expire_timeout: ExpireTimeout,
}

/// A live notification entity: the alert plus its popup animation.
#[derive(Debug)]
pub struct AnimatedNotification {
    pub notification: Notification,
    pub animation: Animation,
}

/// The popup animation a freshly delivered entity carries: it sits at the
/// full scale, already visible, not in motion.
pub open spec fn delivered_animation() -> Animation {
    Animation { start_value: ANIM_SCALE, target: ANIM_SCALE, start_time: 0, duration_ms: 0 }
}

impl AnimatedNotification {
    pub fn new(notification: Notification) -> (r: AnimatedNotification)
        ensures
            r.notification == notification,
            r.animation == delivered_animation(),
    {
        AnimatedNotification { notification, animation: Animation::new(ANIM_SCALE) }
    }
}

/// Messages the notification stack consumes.
#[derive(Debug)]
pub enum NotificationsMessage {
    /// A fresh or replacing delivery.
    New(Notification),
    /// Drive the entity toward hidden and schedule its removal.
    Close(u32, CloseReason),
    /// The view reported the entity's first paint.
    PopUp(u32),
    /// Delete the entity from the mapping.
    Remove(u32, CloseReason),
    /// The bus server finished binding and its side channel is in place.
    DbusInterfaceReady,
}

/// Events the update loop hands back to the bus server over the side
/// channel supplied at bind time.
#[derive(Debug, Clone, PartialEq, Eq)]
pub enum DbusEvents {
    ActionInvoked(String, u32),
    CloseNotification(u32),
}

/// The notification stack feature.
pub struct Notifications {
    /// Live entities, ordered by id.
    pub notifications: BTreeMap<u32, AnimatedNotification>,
    /// The panel's show/hide animation: driven toward the full scale when
    /// the stack empties ("hidden"), toward zero while entities pop up.
    pub animation: Animation,
    /// Whether the bus server's side channel has been supplied.
    pub dbus_ready: bool,
    pub now: u64,
}

/// The placement the notification stack asks for: a right-edge column.
pub open spec fn notifications_settings_ok(r: LayerSettings) -> bool {
    &&& r.size == Some((500u32, 0u32))
    &&& r.layer == Layer::Top
    &&& r.anchor == (Anchor { top: true, right: true, bottom: true, left: false })
    &&& r.exclusive_zone is None
    &&& r.margin == Some((16i32, 0i32, 32i32, 0i32))
    &&& r.keyboard_interactivity == KeyboardInteractivity::NotInteractive
    &&& r.output == OutputChoice::DefaultOutput
    &&& !r.events_transparent
    &&& r.namespace is None
}

impl Notifications {
    /// All animations held by the stack stay well formed.
    pub open spec fn wf(self) -> bool {
        &&& self.animation.wf()
        &&& forall|k: u32|
            self.notifications@.contains_key(k) ==> (
            #[trigger] self.notifications@[k]).animation.wf()
    }

    /// A stack over the given entities; the panel animation starts at
    /// zero, the shown position, and the bus side channel is not yet set.
    pub fn new(notifications: BTreeMap<u32, AnimatedNotification>, now: u64) -> (r: Notifications)
        requires
            forall|k: u32|
                notifications@.contains_key(k) ==> (
                #[trigger] notifications@[k]).animation.wf(),
        ensures
            r.notifications@ == notifications@,
            r.animation == (Animation { start_value: 0u32, target: 0u32, start_time: 0, duration_ms: 0 }),
            !r.dbus_ready,
            r.now == now,
            r.wf(),
    {
        Notifications { notifications, animation: Animation::new(0), dbus_ready: false, now }
    }

    /// Insert the delivered alert under its id, superseding any live
    /// entity of the same id in place.
    pub fn add_notification(&mut self, notification: Notification)
        requires
            old(self).wf(),
        ensures
            final(self).wf(),
            final(self).notifications@ == old(self).notifications@.insert(
                notification.id,
                AnimatedNotification { notification, animation: delivered_animation() },
            ),
            final(self).animation == old(self).animation,
            final(self).dbus_ready == old(self).dbus_ready,
            final(self).now == old(self).now,
    {
        let id = notification.id;
        self.notifications.insert(id, AnimatedNotification::new(notification));
    }

    /// Drive the panel, and the entity of `id` if it is live, toward zero.
    pub fn start_animation(&mut self, id: u32)
        requires
            old(self).wf(),
        ensures
            final(self).wf(),
            final(self).animation == old(self).animation.driven(0, old(self).now),
            final(self).notifications@ == (if old(self).notifications@.contains_key(id) {
                old(self).notifications@.insert(
                    id,
                    AnimatedNotification {
                        notification: old(self).notifications@[id].notification,
                        animation: old(self).notifications@[id].animation.driven(
                            0,
                            old(self).now,
                        ),
                    },
                )
            } else {
                old(self).notifications@
            }),
            final(self).dbus_ready == old(self).dbus_ready,
            final(self).now == old(self).now,
    {
        let now = self.now;
        self.animation.drive(0, now);
        if let Some(mut an) = self.notifications.remove(&id) {
            an.animation.drive(0, now);
            self.notifications.insert(id, an);
            proof {
                assert(self.notifications@ =~= old(self).notifications@.insert(
                    id,
                    AnimatedNotification {
                        notification: old(self).notifications@[id].notification,
                        animation: old(self).notifications@[id].animation.driven(
                            0,
                            old(self).now,
                        ),
                    },
                ));
            }
        }
    }

    /// Delete the entity of `id`, handing back its alert if it was live.
    pub fn remove_notification(&mut self, id: u32) -> (r: Option<Notification>)
        requires
            old(self).wf(),
        ensures
            final(self).wf(),
            final(self).notifications@ == old(self).notifications@.remove(id),
            final(self).animation == old(self).animation,
            final(self).dbus_ready == old(self).dbus_ready,
            final(self).now == old(self).now,
            (match r {
                Some(n) => old(self).notifications@.contains_key(id) && n == old(
                    self,
                ).notifications@[id].notification,
                None => !old(self).notifications@.contains_key(id),
            }),
    {
        match self.notifications.remove(&id) {
            Some(an) => Some(an.notification),
            None => None,
        }
    }

    /// What one step of the entity state machine does: the relation
    /// between the stack before and after consuming `message`, and the
    /// effects the step asks for.  Deliveries supersede in place; a popup
    /// starts the expiry timer its policy asks for; a close drives the
    /// entity toward hidden and unconditionally schedules its removal;
    /// removing the last live entity drives the panel toward hidden and
    /// issues exactly one hide-the-stack request.  A closed signal is
    /// requested exactly once per entity actually removed; a remove for an
    /// id that is not live is a silent no-op.
    pub open spec fn update_rel(
        pre: Notifications,
        post: Notifications,
        message: NotificationsMessage,
        effects: Seq<Effect>,
    ) -> bool {
        match message {
            NotificationsMessage::New(n) => {
                &&& post.notifications@ == pre.notifications@.insert(
                    n.id,
                    AnimatedNotification { notification: n, animation: delivered_animation() },
                )
                &&& post.animation == pre.animation
                &&& post.dbus_ready == pre.dbus_ready
                &&& effects == Seq::<Effect>::empty()
            },
            NotificationsMessage::PopUp(id) => {
                &&& post.animation == pre.animation.driven(0, pre.now)
                &&& post.dbus_ready == pre.dbus_ready
                &&& (if pre.notifications@.contains_key(id) {
                    &&& post.notifications@ == pre.notifications@.insert(
                        id,
                        AnimatedNotification {
                            notification: pre.notifications@[id].notification,
                            animation: pre.notifications@[id].animation.driven(0, pre.now),
                        },
                    )
                    &&& effects == (match pre.notifications@[id].notification.expire_timeout.millis_spec() {
                        Some(d) => seq![Effect::ExpiryTimer { id, millis: d }],
                        None => Seq::<Effect>::empty(),
                    })
                } else {
                    &&& post.notifications@ == pre.notifications@
                    &&& effects == Seq::<Effect>::empty()
                })
            },
            NotificationsMessage::Close(id, reason) => {
                &&& post.animation == pre.animation
                &&& post.dbus_ready == pre.dbus_ready
                &&& post.notifications@ == (if pre.notifications@.contains_key(id) {
                    pre.notifications@.insert(
                        id,
                        AnimatedNotification {
                            notification: pre.notifications@[id].notification,
                            animation: pre.notifications@[id].animation.driven(
                                ANIM_SCALE,
                                pre.now,
                            ),
                        },
                    )
                } else {
                    pre.notifications@
                })
                &&& effects == seq![
                    Effect::Emit(Message::Notifications(NotificationsMessage::Remove(id, reason))),
                ]
            },
            NotificationsMessage::Remove(id, reason) => {
                &&& post.notifications@ == pre.notifications@.remove(id)
                &&& post.dbus_ready == pre.dbus_ready
                &&& (if pre.notifications@.contains_key(id) {
                    if pre.notifications@.remove(id).is_empty() {
                        &&& post.animation == pre.animation.driven(ANIM_SCALE, pre.now)
                        &&& effects == seq![
                            Effect::ClosedSignal { id, reason },
                            Effect::Emit(Message::Hide(FeatureSelector::Notifications)),
                        ]
                    } else {
                        &&& post.animation == pre.animation
                        &&& effects == seq![Effect::ClosedSignal { id, reason }]
                    }
                } else {
                    &&& post.animation == pre.animation
                    &&& effects == Seq::<Effect>::empty()
                })
            },
            NotificationsMessage::DbusInterfaceReady => {
                &&& post.notifications@ == pre.notifications@
                &&& post.animation == pre.animation
                &&& post.dbus_ready
                &&& effects == Seq::<Effect>::empty()
            },
        }
    }

    /// One step of the entity state machine; see [`Notifications::update_rel`].
    pub fn update(&mut self, message: NotificationsMessage) -> (effects: Vec<Effect>)
        requires
            old(self).wf(),
        ensures
            final(self).wf(),
            final(self).now == old(self).now,
            Notifications::update_rel(*old(self), *final(self), message, effects@),
    {
        let mut effects: Vec<Effect> = Vec::new();
        match message {
            NotificationsMessage::New(notification) => {
                self.add_notification(notification);
            },
            NotificationsMessage::PopUp(id) => {
                self.start_animation(id);
                let timeout = match self.notifications.get(&id) {
                    Some(an) => Some(an.notification.expire_timeout),
                    None => None,
                };
                if let Some(t) = timeout {
                    if let Some(millis) = t.millis() {
                        effects.push(Effect::ExpiryTimer { id, millis });
                        proof {
                            assert(effects@ =~= seq![Effect::ExpiryTimer { id, millis }]);
                        }
                    }
                }
            },
            NotificationsMessage::Close(id, reason) => {
                let now = self.now;
                match self.notifications.remove(&id) {
                    Some(mut an) => {
                        an.animation.drive(ANIM_SCALE, now);
                        self.notifications.insert(id, an);
                        proof {
                            assert(self.notifications@ =~= old(self).notifications@.insert(
                                id,
                                AnimatedNotification {
                                    notification: old(self).notifications@[id].notification,
                                    animation: old(self).notifications@[id].animation.driven(
                                        ANIM_SCALE,
                                        old(self).now,
                                    ),
                                },
                            ));
                        }
                    },
                    None => {
                        proof {
                            assert(self.notifications@ =~= old(self).notifications@);
                        }
                    },
                }
                effects.push(
                    Effect::Emit(Message::Notifications(NotificationsMessage::Remove(id, reason))),
                );
                proof {
                    assert(effects@ =~= seq![
                        Effect::Emit(
                            Message::Notifications(NotificationsMessage::Remove(id, reason)),
                        ),
                    ]);
                }
            },
            NotificationsMessage::Remove(id, reason) => {
                let removed = self.remove_notification(id);
                if removed.is_some() {
                    effects.push(Effect::ClosedSignal { id, reason });
                    if self.notifications.is_empty() {
                        let now = self.now;
                        self.animation.drive(ANIM_SCALE, now);
                        effects.push(
                            Effect::Emit(Message::Hide(FeatureSelector::Notifications)),
                        );
                        proof {
                            assert(effects@ =~= seq![
                                Effect::ClosedSignal { id, reason },
                                Effect::Emit(Message::Hide(FeatureSelector::Notifications)),
                            ]);
                        }
                    } else {
                        proof {
                            assert(effects@ =~= seq![Effect::ClosedSignal { id, reason }]);
                        }
                    }
                }
            },
            NotificationsMessage::DbusInterfaceReady => {
                self.dbus_ready = true;
            },
        }
        effects
    }
}

impl Feature for Notifications {
    open spec fn settings_ok(&self, r: LayerSettings) -> bool {
        notifications_settings_ok(r)
    }

    open spec fn animating_spec(&self) -> bool {
        self.animation.animating_at(self.now) || exists|k: u32|
            self.notifications@.contains_key(k) && (
            #[trigger] self.notifications@[k]).animation.animating_at(self.now)
    }

    open spec fn with_now(self, now: u64) -> Self {
        Notifications { now, ..self }
    }

    fn layer_settings(&self) -> (r: LayerSettings) {
        LayerSettings {
            size: Some((500, 0)),
            layer: Layer::Top,
            anchor: Anchor { top: true, right: true, bottom: true, left: false },
            exclusive_zone: None,
            margin: Some((16i32, 0i32, 32i32, 0i32)),
            keyboard_interactivity: KeyboardInteractivity::NotInteractive,
            output: OutputChoice::DefaultOutput,
            events_transparent: false,
            namespace: None,
        }
    }

    fn is_animating(&self) -> (r: bool) {
        let panel = self.animation.is_animating(self.now);
        let mut any = panel;
        for kv in it: self.notifications.iter()
            invariant
                any == (self.animation.animating_at(self.now) || exists|j: int|
                    0 <= j < it.index() && (#[trigger] it.seq()[j]).1.animation.animating_at(
                        self.now,
                    )),
                forall|j: int|
                    0 <= j < it.seq().len() ==> {
                        &&& self.notifications@.contains_key(*(#[trigger] it.seq()[j]).0)
                        &&& self.notifications@[*it.seq()[j].0] == *it.seq()[j].1
                    },
                forall|k: u32|
                    #[trigger] self.notifications@.contains_key(k) ==> it.seq().contains(
                        (&k, &self.notifications@[k]),
                    ),
        {
            if kv.1.animation.is_animating(self.now) {
                any = true;
            }
        }
        any
    }

    fn set_now(&mut self, now: u64) {
        self.now = now;
    }
}

/// Law: a delivery whose id is already live supersedes that entity in
/// place — the set of live ids, and with it the stack's visible count, is
/// unchanged, and the entity under that id is the new alert.
pub proof fn lemma_replace_in_place(
    pre: Notifications,
    post: Notifications,
    n: Notification,
    effects: Seq<Effect>,
)
    requires
        pre.notifications@.contains_key(n.id),
        Notifications::update_rel(pre, post, NotificationsMessage::New(n), effects),
    ensures
        post.notifications@.dom() =~= pre.notifications@.dom(),
        post.notifications@.dom().len() == pre.notifications@.dom().len(),
        post.notifications@[n.id].notification == n,
{
    assert(post.notifications@.dom() =~= pre.notifications@.dom());
}

/// Law: a first-paint signal for a live entity drives the panel animation
/// and that entity's popup animation toward zero at the stack's "now",
/// and starts exactly one expiry timer for the resolved delay: five
/// seconds for the server default, the caller's milliseconds otherwise.
/// (A manual-closing entity, or a negative caller timeout, starts none.)
pub proof fn lemma_popup_starts_expiry_timer(
    pre: Notifications,
    post: Notifications,
    id: u32,
    effects: Seq<Effect>,
)
    requires
        pre.notifications@.contains_key(id),
        (pre.notifications@[id].notification.expire_timeout matches ExpireTimeout::ServerDefault)
            || (pre.notifications@[id].notification.expire_timeout matches
            ExpireTimeout::NotificationSpecific(m) && m >= 0),
        Notifications::update_rel(pre, post, NotificationsMessage::PopUp(id), effects),
    ensures
        post.animation == pre.animation.driven(0, pre.now),
        post.notifications@.contains_key(id),
        post.notifications@[id].notification == pre.notifications@[id].notification,
        post.notifications@[id].animation == pre.notifications@[id].animation.driven(
            0,
            pre.now,
        ),
        effects =~= seq![
            Effect::ExpiryTimer {
                id,
                millis: (match pre.notifications@[id].notification.expire_timeout {
                    ExpireTimeout::ServerDefault => DEFAULT_EXPIRE_MS,
                    ExpireTimeout::NotificationSpecific(m) => m as u64,
                    ExpireTimeout::ManualClosing => 0u64,
                }),
            },
        ],
{
}

/// Law: removing the last live notification drives the panel animation
/// toward hidden and issues exactly one hide-the-stack request, after the
/// closed signal for the removed entity.
pub proof fn lemma_last_removal_hides_once(
    pre: Notifications,
    post: Notifications,
    id: u32,
    reason: CloseReason,
    effects: Seq<Effect>,
)
    requires
        pre.notifications@.contains_key(id),
        pre.notifications@.remove(id).is_empty(),
        Notifications::update_rel(pre, post, NotificationsMessage::Remove(id, reason), effects),
    ensures
        post.animation == pre.animation.driven(ANIM_SCALE, pre.now),
        effects.len() == 2,
        effects[0] == (Effect::ClosedSignal { id, reason }),
        effects[1] == Effect::Emit(Message::Hide(FeatureSelector::Notifications)),
        forall|j: int|
            0 <= j < effects.len() && j != 1 ==> (#[trigger] effects[j]) != Effect::Emit(
                Message::Hide(FeatureSelector::Notifications),
            ),
{
}

/// Law: closing a live id removes it within one processing cycle.  The
/// close step schedules exactly one remove as its only follow-up; the
/// remove step deletes the id from the live mapping and requests the
/// closed signal for that id exactly once.
pub proof fn lemma_close_then_remove(
    pre: Notifications,
    mid: Notifications,
    post: Notifications,
    id: u32,
    reason: CloseReason,
    es1: Seq<Effect>,
    es2: Seq<Effect>,
)
    requires
        pre.notifications@.contains_key(id),
        Notifications::update_rel(pre, mid, NotificationsMessage::Close(id, reason), es1),
        Notifications::update_rel(mid, post, NotificationsMessage::Remove(id, reason), es2),
    ensures
        es1 =~= seq![
            Effect::Emit(Message::Notifications(NotificationsMessage::Remove(id, reason))),
        ],
        !post.notifications@.contains_key(id),
        es2.len() >= 1 && es2[0] == (Effect::ClosedSignal { id, reason }),
        forall|j: int|
            1 <= j < es2.len() ==> !((#[trigger] es2[j]) matches Effect::ClosedSignal {
                id: i2,
                reason: r2,
            } && i2 == id),
{
    assert(mid.notifications@.contains_key(id));
}

} // verus!
