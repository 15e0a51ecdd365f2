use waybracelet::anim::ANIM_SCALE;
use waybracelet::features::notifications::{CloseReason, NotificationsMessage};
use waybracelet::features::power_menu::PowerMenuMessage;
use waybracelet::daemon::{Daemon, HideError};
use waybracelet::features::status_bar::StatusBarMessage;
use waybracelet::features::volume_osd::VolumeOsdMessage;
use waybracelet::{Effect, FeatureSelector, Message, OutputInfo};

fn output(name: &str, workspace: i32) -> OutputInfo {
    OutputInfo { name: name.to_string(), active_workspace: workspace }
}

#[test]
fn fresh_daemon_opens_the_volume_indicator() {
    let (d, effects) = Daemon::new(0);
    assert_eq!(d.volume_osd.id, 0);
    assert_eq!(d.next_surface_id, 1);
    assert!(d.power_menu.is_none());
    assert!(d.notifications.is_none());
    assert_eq!(effects.len(), 1);
    match &effects[0] {
        Effect::Emit(Message::NewLayerShell { id, settings }) => {
            assert_eq!(*id, 0);
            assert_eq!(settings.size, Some((500, 300)));
        },
        other => panic!("unexpected effect: {:?}", other),
    }
}

#[test]
fn power_menu_opens_once() {
    let (mut d, _) = Daemon::new(0);
    let effects = d.update(1, Message::Open(FeatureSelector::PowerMenu));
    assert_eq!(effects.len(), 1);
    assert!(matches!(
        effects[0],
        Effect::Emit(Message::NewLayerShell { id: 1, .. })
    ));
    assert_eq!(d.power_menu.as_ref().unwrap().id, 1);

    // a second open without a hide in between is a no-op
    let effects = d.update(2, Message::Open(FeatureSelector::PowerMenu));
    assert!(effects.is_empty());
    assert_eq!(d.power_menu.as_ref().unwrap().id, 1);
    assert_eq!(d.next_surface_id, 2);
}

#[test]
fn inserted_output_replaces_its_bar_in_place() {
    let (mut d, _) = Daemon::new(0);
    let effects = d.update(1, Message::DisplayInserted(output("DP-1", 3)));
    assert_eq!(d.statuses_bar.len(), 1);
    let first_id = d.statuses_bar[0].id;
    assert_eq!(effects.len(), 1);
    assert!(matches!(
        effects[0],
        Effect::Emit(Message::NewLayerShell { .. })
    ));
    assert_eq!(d.statuses_bar[0].view.current_workspace, 3);

    // the same output name hot-plugs again: same surface id, fresh feature
    let effects = d.update(2, Message::DisplayInserted(output("DP-1", 5)));
    assert!(effects.is_empty());
    assert_eq!(d.statuses_bar.len(), 1);
    assert_eq!(d.statuses_bar[0].id, first_id);
    assert_eq!(d.statuses_bar[0].view.current_workspace, 5);

    // a different output gets its own surface
    let effects = d.update(3, Message::DisplayInserted(output("HDMI-1", 1)));
    assert_eq!(effects.len(), 1);
    assert_eq!(d.statuses_bar.len(), 2);
    assert_ne!(d.statuses_bar[1].id, first_id);
}

#[test]
fn hiding_without_a_surface_is_nothing_to_hide() {
    let (d, _) = Daemon::new(0);
    assert!(matches!(
        d.hide_surface(FeatureSelector::PowerMenu),
        Err(HideError::NothingToHide)
    ));
    assert!(matches!(
        d.hide_surface(FeatureSelector::Notifications),
        Err(HideError::NothingToHide)
    ));
    assert!(matches!(
        d.hide_surface(FeatureSelector::VolumeOSD),
        Err(HideError::NothingToHide)
    ));
}

#[test]
fn hide_then_remove_tears_the_menu_down() {
    let (mut d, _) = Daemon::new(0);
    d.update(1, Message::Open(FeatureSelector::PowerMenu));
    let id = d.power_menu.as_ref().unwrap().id;

    let effects = d.update(2, Message::Hide(FeatureSelector::PowerMenu));
    assert_eq!(effects.len(), 2);
    assert!(matches!(effects[0], Effect::Emit(Message::RemoveWindow(i)) if i == id));
    assert!(matches!(
        effects[1],
        Effect::Emit(Message::Remove(FeatureSelector::PowerMenu))
    ));
    // the record is dropped only by the follow-up remove
    assert!(d.power_menu.is_some());
    let effects = d.update(3, Message::Remove(FeatureSelector::PowerMenu));
    assert!(effects.is_empty());
    assert!(d.power_menu.is_none());
}

#[test]
fn frame_ticks_run_exactly_while_something_animates() {
    let (mut d, _) = Daemon::new(0);
    d.update(100, Message::VolumeOSD(VolumeOsdMessage::VolumeAppear));
    assert!(d.is_animating());
    // a later cycle inside the fade window still animates
    d.update(250, Message::Animation);
    assert!(d.is_animating());
    // one cycle after the fade finished, the wake-up source self-cancels
    d.update(350, Message::Animation);
    assert!(!d.is_animating());
}

#[test]
fn selecting_a_power_menu_entry_runs_its_command() {
    let (mut d, _) = Daemon::new(0);
    // with no menu open the message is stale and dropped
    let effects = d.update(1, Message::PowerMenu(PowerMenuMessage::Reboot));
    assert!(effects.is_empty());

    d.update(2, Message::Open(FeatureSelector::PowerMenu));
    let effects = d.update(3, Message::PowerMenu(PowerMenuMessage::Reboot));
    assert_eq!(effects.len(), 1);
    assert!(matches!(effects[0], Effect::Run(PowerMenuMessage::Reboot)));
}

#[test]
fn workspace_updates_reach_only_the_named_bar() {
    let (mut d, _) = Daemon::new(0);
    d.update(1, Message::DisplayInserted(output("DP-1", 1)));
    d.update(2, Message::DisplayInserted(output("DP-2", 1)));

    let effects = d.update(
        3,
        Message::StatusBar(StatusBarMessage::UpdateCurrenWorkspace("DP-2".to_string(), 7)),
    );
    assert!(effects.is_empty());
    assert_eq!(d.statuses_bar[0].view.current_workspace, 1);
    assert_eq!(d.statuses_bar[1].view.current_workspace, 7);
}

#[test]
fn surface_kinds_route_by_id() {
    let (mut d, _) = Daemon::new(0);
    d.update(1, Message::Open(FeatureSelector::PowerMenu));
    d.update(2, Message::DisplayInserted(output("DP-1", 1)));
    let bar_id = d.statuses_bar[0].id;
    let pm_id = d.power_menu.as_ref().unwrap().id;

    assert_eq!(d.surface_kind(0), Some(FeatureSelector::VolumeOSD));
    assert_eq!(d.surface_kind(pm_id), Some(FeatureSelector::PowerMenu));
    assert_eq!(d.surface_kind(bar_id), Some(FeatureSelector::StatusBar));
    assert_eq!(d.surface_kind(99), None);
}

#[test]
fn resize_requests_follow_the_notification_surface() {
    let (mut d, _) = Daemon::new(0);
    // with no stack open the request is dropped
    let effects = d.update(
        1,
        Message::ChangeSize(FeatureSelector::Notifications, 500, 640),
    );
    assert!(effects.is_empty());

    d.update(2, Message::Open(FeatureSelector::Notifications));
    let id = d.notifications.as_ref().unwrap().id;
    let effects = d.update(
        3,
        Message::ChangeSize(FeatureSelector::Notifications, 500, 640),
    );
    assert_eq!(effects.len(), 1);
    assert!(matches!(
        effects[0],
        Effect::Emit(Message::SizeChange { id: i, width: 500, height: 640 }) if i == id
    ));
}

#[test]
fn notification_messages_to_a_closed_stack_are_stale() {
    let (mut d, _) = Daemon::new(0);
    let effects = d.update(
        1,
        Message::Notifications(NotificationsMessage::Close(1, CloseReason::Requested)),
    );
    assert!(effects.is_empty());
}

#[test]
fn opening_the_stack_reissues_one_create_request() {
    let (mut d, _) = Daemon::new(0);
    let effects = d.update(1, Message::Open(FeatureSelector::Notifications));
    assert_eq!(effects.len(), 1);
    assert!(matches!(
        effects[0],
        Effect::Emit(Message::NewLayerShell { .. })
    ));
    let first_id = d.notifications.as_ref().unwrap().id;

    // hide and remove it, as the last notification's removal would
    d.update(2, Message::Hide(FeatureSelector::Notifications));
    d.update(3, Message::Remove(FeatureSelector::Notifications));
    assert!(d.notifications.is_none());

    // a later delivery reopens it: exactly one create request, a fresh id
    let effects = d.update(4, Message::Open(FeatureSelector::Notifications));
    assert_eq!(effects.len(), 1);
    assert!(matches!(
        effects[0],
        Effect::Emit(Message::NewLayerShell { .. })
    ));
    assert_ne!(d.notifications.as_ref().unwrap().id, first_id);
    let panel = &d.notifications.as_ref().unwrap().view.animation;
    assert_eq!(panel.target, 0);
    assert_ne!(panel.target, ANIM_SCALE);
}
