//! The server side of the notification bus contract: id allocation and the
//! translation of a caller's `Notify` arguments into a notification entity.
//!
//! The bus plumbing itself (binding the well-known name, serving the object
//! path, the channels between the server task and the update loop) lives
//! outside this crate; it calls in here with plain values and forwards the
//! returned messages into the update loop.

use vstd::prelude::*;

use std::collections::HashMap;

use crate::features::notifications::{
    CloseReason, ExpireTimeout, Notification, NotificationsMessage,
};
use crate::{FeatureSelector, Message};

verus! {

/// The id the server allocates after having allocated `c` last: the
/// counter grows by one and wraps to 1 past the largest representable id,
/// never yielding the reserved id 0.
pub open spec fn next_notification_id(c: u32) -> u32 {
    if c == u32::MAX {
        1u32
    } else {
        (c + 1) as u32
    }
}

/// The expiry policy a caller's raw timeout resolves to: -1 asks for the
/// server default, 0 for manual closing, anything else is caller-given
/// milliseconds.
pub open spec fn resolved_timeout(t: i32) -> ExpireTimeout {
    if t == -1i32 {
        ExpireTimeout::ServerDefault
    } else if t == 0i32 {
        ExpireTimeout::ManualClosing
    } else {
        ExpireTimeout::NotificationSpecific(t)
    }
}

/// The notification bus server's own state: the last id it allocated.
pub struct NotificationsManager {
    pub current_id: u32,
}

impl NotificationsManager {
    /// A fresh server has allocated nothing; its first fresh id is 1.
    pub fn new() -> (r: NotificationsManager)
        ensures
            r.current_id == 0,
    {
        NotificationsManager { current_id: 0 }
    }

    /// A caller's `Notify`: allocate or reuse an id, pair up the flat
    /// action list, resolve the expiry policy, and hand back the id to
    /// return on the bus together with the entity to deliver.
    pub fn notify(
        &mut self,
        app_name: String,
        replaces_id: u32,
        app_icon: String,
        summary: String,
        body: String,
        actions: Vec<String>,
        hints: HashMap<String, zbus::zvariant::OwnedValue>,
        expire_timeout: i32,
    ) -> (r: (u32, Notification))
        ensures
            r.0 == (if replaces_id == 0 {
                next_notification_id(old(self).current_id)
            } else {
                replaces_id
            }),
            final(self).current_id == (if replaces_id == 0 {
                next_notification_id(old(self).current_id)
            } else {
                old(self).current_id
            }),
            r.1.id == r.0,
            r.1.app_name == app_name,
            r.1.app_icon == app_icon,
            r.1.summary == summary,
            r.1.body == body,
            r.1.actions@.len() == actions@.len() / 2,
            forall|i: int|
                0 <= i < r.1.actions@.len() ==> (#[trigger] r.1.actions@[i]).0 == actions@[2 * i]
                    && r.1.actions@[i].1 == actions@[2 * i + 1],
            r.1.hints == hints,
            r.1.expire_timeout == resolved_timeout(expire_timeout),
    {
        let id = if replaces_id == 0 {
            self.current_id = if self.current_id == u32::MAX {
                1
            } else {
                self.current_id + 1
            };
            self.current_id
        } else {
            replaces_id
        };

        let expire_timeout = if expire_timeout == -1 {
            ExpireTimeout::ServerDefault
        } else if expire_timeout == 0 {
            ExpireTimeout::ManualClosing
        } else {
            ExpireTimeout::NotificationSpecific(expire_timeout)
        };

        let notification = Notification {
            id,
            app_name,
            app_icon,
            summary,
            body,
            actions: pair_actions(&actions),
            hints,
            expire_timeout,
        };

        (id, notification)
    }

    /// The static capability list the server advertises.
    pub fn get_capabilities(&self) -> (r: Vec<&'static str>)
        ensures
            r@.len() == 10,
            r@[0]@ == "action-icons"@,
            r@[1]@ == "actions"@,
            r@[2]@ == "body"@,
            r@[3]@ == "body-hyperlinks"@,
            r@[4]@ == "body-images"@,
            r@[5]@ == "body-markup"@,
            r@[6]@ == "icon-multi"@,
            r@[7]@ == "icon-static"@,
            r@[8]@ == "persistence"@,
            r@[9]@ == "sound"@,
    {
        let mut r: Vec<&'static str> = Vec::new();
        r.push("action-icons");
        r.push("actions");
        r.push("body");
        r.push("body-hyperlinks");
        r.push("body-images");
        r.push("body-markup");
        r.push("icon-multi");
        r.push("icon-static");
        r.push("persistence");
        r.push("sound");
        r
    }

    /// A caller's `CloseNotification`: the close request to route to the
    /// stack, carrying the caller-requested reason.
    pub fn close_notification(&self, id: u32) -> (m: NotificationsMessage)
        ensures
            m == NotificationsMessage::Close(id, CloseReason::Requested),
    {
        NotificationsMessage::Close(id, CloseReason::Requested)
    }

    /// The static (name, vendor, version, bus-spec-version) tuple.
    pub fn get_server_information(&self) -> (r: (String, String, String, String))
        ensures
            r.0@ == "WayBracelet"@,
            r.1@ == "dcxo"@,
            r.2@ == "0.1.0"@,
            r.3@ == "1.3"@,
    {
        (
            "WayBracelet".to_owned(),
            "dcxo".to_owned(),
            "0.1.0".to_owned(),
            "1.3".to_owned(),
        )
    }
}

/// Interpret a flat action list as adjacent (key, label) pairs; a trailing
/// unmatched element is dropped.
pub fn pair_actions(actions: &Vec<String>) -> (r: Vec<(String, String)>)
    ensures
        r@.len() == actions@.len() / 2,
        forall|i: int|
            0 <= i < r@.len() ==> {
                &&& (#[trigger] r@[i]).0 == actions@[2 * i]
                &&& r@[i].1 == actions@[2 * i + 1]
            },
{
    let mut r: Vec<(String, String)> = Vec::new();
    let n = actions.len();
    let mut k: usize = 0;
    while 2 * k + 1 < n
        invariant
            n == actions@.len(),
            2 * k <= n + 1,
            k > 0 ==> 2 * k - 1 < n,
            r@.len() == k,
            forall|i: int|
                0 <= i < k ==> {
                    &&& (#[trigger] r@[i]).0 == actions@[2 * i]
                    &&& r@[i].1 == actions@[2 * i + 1]
                },
        decreases n - k,
    {
        let key = actions[2 * k].clone();
        let label = actions[2 * k + 1].clone();
        r.push((key, label));
        k = k + 1;
    }
    r
}

/// Every event the bus server hands the update loop re-enters it as an
/// open-the-stack request (open-if-absent) followed by the event itself.
pub fn bus_event_messages(event: NotificationsMessage) -> (msgs: Vec<Message>)
    ensures
        msgs@.len() == 2,
        msgs@[0] == Message::Open(FeatureSelector::Notifications),
        msgs@[1] == Message::Notifications(event),
{
    let mut msgs: Vec<Message> = Vec::new();
    msgs.push(Message::Open(FeatureSelector::Notifications));
    msgs.push(Message::Notifications(event));
    msgs
}

/// Law: fresh ids are strictly greater than the counter they were
/// allocated from until the counter wraps past the largest representable
/// id, and the wrap restarts at 1 — the reserved id 0 is never allocated.
pub proof fn lemma_fresh_ids_monotonic(c: u32)
    ensures
        c < u32::MAX ==> next_notification_id(c) > c,
        next_notification_id(u32::MAX) == 1,
        next_notification_id(c) != 0,
{
}

} // verus!
