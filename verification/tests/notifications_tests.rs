use std::collections::{BTreeMap, HashMap};

use waybracelet::anim::ANIM_SCALE;
use waybracelet::features::Feature;
use waybracelet::features::notifications::subscriptions::{
    bus_event_messages, pair_actions, NotificationsManager,
};
use waybracelet::features::notifications::{
    CloseReason, ExpireTimeout, Notification, Notifications, NotificationsMessage,
};
use waybracelet::{Effect, FeatureSelector, Message};

fn note(id: u32, expire_timeout: ExpireTimeout) -> Notification {
    Notification {
        id,
        app_name: "app".to_string(),
        app_icon: String::new(),
        summary: "summary".to_string(),
        body: "body".to_string(),
        actions: Vec::new(),
        hints: HashMap::new(),
        expire_timeout,
    }
}

fn stack() -> Notifications {
    Notifications::new(BTreeMap::new(), 0)
}

#[test]
fn odd_action_list_drops_trailing_element() {
    let actions = vec!["a".to_string(), "1".to_string(), "b".to_string()];
    let pairs = pair_actions(&actions);
    assert_eq!(pairs, vec![("a".to_string(), "1".to_string())]);
}

#[test]
fn empty_and_even_action_lists() {
    assert_eq!(pair_actions(&Vec::new()), Vec::<(String, String)>::new());
    let actions = vec![
        "k1".to_string(),
        "l1".to_string(),
        "k2".to_string(),
        "l2".to_string(),
    ];
    let pairs = pair_actions(&actions);
    assert_eq!(
        pairs,
        vec![
            ("k1".to_string(), "l1".to_string()),
            ("k2".to_string(), "l2".to_string()),
        ]
    );
}

#[test]
fn fresh_ids_grow_strictly() {
    let mut m = NotificationsManager::new();
    let mut last = 0u32;
    for _ in 0..5 {
        let (id, n) = m.notify(
            "app".to_string(),
            0,
            String::new(),
            "s".to_string(),
            "b".to_string(),
            Vec::new(),
            HashMap::new(),
            -1,
        );
        assert!(id > last);
        assert_eq!(n.id, id);
        last = id;
    }
    assert_eq!(last, 5);
}

#[test]
fn id_counter_wraps_to_one() {
    let mut m = NotificationsManager { current_id: u32::MAX };
    let (id, _) = m.notify(
        "app".to_string(),
        0,
        String::new(),
        "s".to_string(),
        "b".to_string(),
        Vec::new(),
        HashMap::new(),
        -1,
    );
    assert_eq!(id, 1);
    assert_eq!(m.current_id, 1);
}

#[test]
fn nonzero_replaces_id_is_reused() {
    let mut m = NotificationsManager::new();
    let (id, n) = m.notify(
        "app".to_string(),
        7,
        String::new(),
        "s".to_string(),
        "b".to_string(),
        Vec::new(),
        HashMap::new(),
        -1,
    );
    assert_eq!(id, 7);
    assert_eq!(n.id, 7);
    assert_eq!(m.current_id, 0);
}

#[test]
fn timeouts_resolve_per_contract() {
    let mut m = NotificationsManager::new();
    let cases = [
        (-1, ExpireTimeout::ServerDefault),
        (0, ExpireTimeout::ManualClosing),
        (250, ExpireTimeout::NotificationSpecific(250)),
        (-2, ExpireTimeout::NotificationSpecific(-2)),
    ];
    for (raw, expected) in cases {
        let (_, n) = m.notify(
            "app".to_string(),
            0,
            String::new(),
            "s".to_string(),
            "b".to_string(),
            Vec::new(),
            HashMap::new(),
            raw,
        );
        assert_eq!(n.expire_timeout, expected);
    }
    assert_eq!(ExpireTimeout::ServerDefault.millis(), Some(5000));
    assert_eq!(ExpireTimeout::NotificationSpecific(250).millis(), Some(250));
    assert_eq!(ExpireTimeout::NotificationSpecific(-2).millis(), None);
    assert_eq!(ExpireTimeout::ManualClosing.millis(), None);
}

#[test]
fn capability_list_is_static() {
    let m = NotificationsManager::new();
    let caps = m.get_capabilities();
    assert_eq!(
        caps,
        vec![
            "action-icons",
            "actions",
            "body",
            "body-hyperlinks",
            "body-images",
            "body-markup",
            "icon-multi",
            "icon-static",
            "persistence",
            "sound",
        ]
    );
}

#[test]
fn server_information_is_static() {
    let m = NotificationsManager::new();
    let (name, vendor, version, spec) = m.get_server_information();
    assert_eq!(name, "WayBracelet");
    assert_eq!(vendor, "dcxo");
    assert_eq!(version, "0.1.0");
    assert_eq!(spec, "1.3");
}

#[test]
fn close_notification_maps_to_requested_close() {
    let m = NotificationsManager::new();
    assert!(matches!(
        m.close_notification(9),
        NotificationsMessage::Close(9, CloseReason::Requested)
    ));
}

#[test]
fn close_reason_codes_match_the_bus() {
    assert_eq!(CloseReason::Expired.code(), 1);
    assert_eq!(CloseReason::Dismissed.code(), 2);
    assert_eq!(CloseReason::Requested.code(), 3);
}

#[test]
fn bus_events_reopen_the_stack_first() {
    let msgs = bus_event_messages(NotificationsMessage::PopUp(4));
    assert_eq!(msgs.len(), 2);
    assert!(matches!(
        msgs[0],
        Message::Open(FeatureSelector::Notifications)
    ));
    assert!(matches!(
        msgs[1],
        Message::Notifications(NotificationsMessage::PopUp(4))
    ));
}

#[test]
fn replacing_a_live_id_keeps_the_count() {
    let mut s = stack();
    s.update(NotificationsMessage::New(note(1, ExpireTimeout::ServerDefault)));
    s.update(NotificationsMessage::New(note(2, ExpireTimeout::ServerDefault)));
    assert_eq!(s.notifications.len(), 2);

    let mut replacement = note(1, ExpireTimeout::ManualClosing);
    replacement.summary = "updated".to_string();
    let effects = s.update(NotificationsMessage::New(replacement));
    assert!(effects.is_empty());
    assert_eq!(s.notifications.len(), 2);
    let entry = s.notifications.get(&1).unwrap();
    assert_eq!(entry.notification.summary, "updated");
}

#[test]
fn close_schedules_remove_and_remove_signals_once() {
    let mut s = stack();
    s.update(NotificationsMessage::New(note(1, ExpireTimeout::ServerDefault)));
    s.update(NotificationsMessage::New(note(2, ExpireTimeout::ServerDefault)));

    let effects = s.update(NotificationsMessage::Close(1, CloseReason::Requested));
    assert_eq!(effects.len(), 1);
    assert!(matches!(
        effects[0],
        Effect::Emit(Message::Notifications(NotificationsMessage::Remove(
            1,
            CloseReason::Requested
        )))
    ));
    // the id is still live until the scheduled remove is processed
    assert!(s.notifications.contains_key(&1));

    let effects = s.update(NotificationsMessage::Remove(1, CloseReason::Requested));
    assert!(!s.notifications.contains_key(&1));
    let signals = effects
        .iter()
        .filter(|e| matches!(e, Effect::ClosedSignal { id: 1, .. }))
        .count();
    assert_eq!(signals, 1);
    // the stack is not yet empty, so no hide request is issued
    assert_eq!(effects.len(), 1);
}

#[test]
fn removing_the_last_entity_hides_the_stack_once() {
    let mut s = stack();
    s.update(NotificationsMessage::New(note(1, ExpireTimeout::ServerDefault)));
    let effects = s.update(NotificationsMessage::Remove(1, CloseReason::Expired));
    assert_eq!(effects.len(), 2);
    assert!(matches!(
        effects[0],
        Effect::ClosedSignal { id: 1, reason: CloseReason::Expired }
    ));
    assert!(matches!(
        effects[1],
        Effect::Emit(Message::Hide(FeatureSelector::Notifications))
    ));
    // the panel animation was driven toward hidden
    assert_eq!(s.animation.target, ANIM_SCALE);
}

#[test]
fn removing_a_stale_id_is_a_silent_no_op() {
    let mut s = stack();
    s.update(NotificationsMessage::New(note(1, ExpireTimeout::ServerDefault)));
    let effects = s.update(NotificationsMessage::Remove(9, CloseReason::Requested));
    assert!(effects.is_empty());
    assert_eq!(s.notifications.len(), 1);
}

#[test]
fn popup_starts_the_resolved_expiry_timer() {
    let mut s = stack();
    s.update(NotificationsMessage::New(note(1, ExpireTimeout::ServerDefault)));
    let effects = s.update(NotificationsMessage::PopUp(1));
    assert_eq!(effects.len(), 1);
    assert!(matches!(
        effects[0],
        Effect::ExpiryTimer { id: 1, millis: 5000 }
    ));
}

#[test]
fn popup_uses_the_caller_timeout_when_given() {
    let mut s = stack();
    s.update(NotificationsMessage::New(note(1, ExpireTimeout::NotificationSpecific(250))));
    let effects = s.update(NotificationsMessage::PopUp(1));
    assert_eq!(effects.len(), 1);
    assert!(matches!(
        effects[0],
        Effect::ExpiryTimer { id: 1, millis: 250 }
    ));
    // a negative caller timeout never fires
    let mut s = stack();
    s.update(NotificationsMessage::New(note(2, ExpireTimeout::NotificationSpecific(-2))));
    let effects = s.update(NotificationsMessage::PopUp(2));
    assert!(effects.is_empty());
}

#[test]
fn popup_of_manual_notification_starts_no_timer() {
    let mut s = stack();
    s.update(NotificationsMessage::New(note(1, ExpireTimeout::ManualClosing)));
    let effects = s.update(NotificationsMessage::PopUp(1));
    assert!(effects.is_empty());
}

#[test]
fn bus_ready_flag_is_set_once() {
    let mut s = stack();
    assert!(!s.dbus_ready);
    let effects = s.update(NotificationsMessage::DbusInterfaceReady);
    assert!(effects.is_empty());
    assert!(s.dbus_ready);
}

#[test]
fn stack_animates_while_a_popup_or_the_panel_is_in_motion() {
    let mut s = Notifications::new(BTreeMap::new(), 100);
    s.update(NotificationsMessage::New(note(1, ExpireTimeout::ManualClosing)));
    // a fresh delivery sits at full scale, not in motion
    assert!(!s.is_animating());

    // the first paint drives the popup (and the panel) at now = 100
    s.update(NotificationsMessage::PopUp(1));
    assert!(s.is_animating());
    s.set_now(250);
    assert!(s.is_animating());
    s.set_now(300);
    assert!(!s.is_animating());

    // removing the last entity drives the panel again
    s.update(NotificationsMessage::Remove(1, CloseReason::Requested));
    assert!(s.is_animating());
    s.set_now(501);
    assert!(!s.is_animating());
}

#[test]
fn mail_notification_expires_after_the_server_default() {
    // Notify("mail", 0, "icon", "New message", "You have mail", [], {}, -1)
    let mut m = NotificationsManager::new();
    let (id, n) = m.notify(
        "mail".to_string(),
        0,
        "icon".to_string(),
        "New message".to_string(),
        "You have mail".to_string(),
        Vec::new(),
        HashMap::new(),
        -1,
    );
    assert_eq!(id, 1);

    let mut s = stack();
    s.update(NotificationsMessage::New(n));
    let effects = s.update(NotificationsMessage::PopUp(1));
    // the popup starts the five-second server-default timer
    assert!(matches!(
        effects[0],
        Effect::ExpiryTimer { id: 1, millis: 5000 }
    ));

    // the timer fires: close as expired, then process the scheduled remove
    let effects = s.update(NotificationsMessage::Close(1, CloseReason::Expired));
    assert!(matches!(
        effects[0],
        Effect::Emit(Message::Notifications(NotificationsMessage::Remove(
            1,
            CloseReason::Expired
        )))
    ));
    let effects = s.update(NotificationsMessage::Remove(1, CloseReason::Expired));
    assert!(!s.notifications.contains_key(&1));
    assert!(matches!(
        effects[0],
        Effect::ClosedSignal { id: 1, reason: CloseReason::Expired }
    ));
}
