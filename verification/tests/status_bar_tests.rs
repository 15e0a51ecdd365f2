use waybracelet::features::status_bar::subscriptions::{
    clock_tick, minute_boundary_update, parse_visualizer_line, workspace_update, CavaFilter,
};
use waybracelet::features::status_bar::{ClockTime, StatusBar, StatusBarMessage};
use waybracelet::features::power_menu::PowerMenu;
use waybracelet::features::Feature;
use waybracelet::layer::{KeyboardInteractivity, Layer, OutputChoice};

#[test]
fn visualizer_lines_parse_to_magnitudes() {
    assert_eq!(parse_visualizer_line(b"0;500;1000"), vec![0, 500, 1000]);
    assert_eq!(parse_visualizer_line(b"7"), vec![7]);
    assert_eq!(parse_visualizer_line(b""), Vec::<u32>::new());
}

#[test]
fn unparsable_tokens_are_dropped_per_element() {
    assert_eq!(parse_visualizer_line(b"12;x;34"), vec![12, 34]);
    assert_eq!(parse_visualizer_line(b";;"), Vec::<u32>::new());
    assert_eq!(parse_visualizer_line(b"1;;2"), vec![1, 2]);
    assert_eq!(parse_visualizer_line(b"3.5;4"), vec![4]);
    // a value past 32 bits does not parse and never aborts the line
    assert_eq!(parse_visualizer_line(b"99999999999;8"), vec![8]);
    assert_eq!(parse_visualizer_line(b"4294967295"), vec![u32::MAX]);
}

#[test]
fn warmup_suppresses_leading_all_zero_lines() {
    let mut filter = CavaFilter::new();
    assert!(filter.feed(b"0;0;0").is_none());
    assert!(filter.feed(b"0").is_none());
    match filter.feed(b"0;3;0") {
        Some(StatusBarMessage::CavaInfo(v)) => assert_eq!(v, vec![0, 3, 0]),
        other => panic!("expected samples, got {:?}", other),
    }
    // once warmed up, even all-zero lines pass
    match filter.feed(b"0;0;0") {
        Some(StatusBarMessage::CavaInfo(v)) => assert_eq!(v, vec![0, 0, 0]),
        other => panic!("expected samples, got {:?}", other),
    }
}

#[test]
fn workspace_events_are_filtered_to_known_workspaces() {
    let known = vec![1, 2, 3];
    match workspace_update(&known, 2, "DP-1".to_string()) {
        Some(StatusBarMessage::UpdateCurrenWorkspace(o, w)) => {
            assert_eq!(o, "DP-1");
            assert_eq!(w, 2);
        },
        other => panic!("expected an update, got {:?}", other),
    }
    assert!(workspace_update(&known, 5, "DP-1".to_string()).is_none());
    assert!(workspace_update(&Vec::new(), 1, "DP-1".to_string()).is_none());
}

#[test]
fn minute_boundary_forwards_the_first_seconds_only() {
    let early = ClockTime { hour: 9, minute: 41, second: 0 };
    match minute_boundary_update(early) {
        Some(StatusBarMessage::UpdateDatetime(t)) => assert_eq!(t, early),
        other => panic!("expected the sample, got {:?}", other),
    }
    let second = ClockTime { hour: 9, minute: 41, second: 1 };
    assert!(minute_boundary_update(second).is_some());
    let late = ClockTime { hour: 9, minute: 41, second: 2 };
    assert!(minute_boundary_update(late).is_none());
    let last = ClockTime { hour: 23, minute: 59, second: 59 };
    assert!(minute_boundary_update(last).is_none());
}

#[test]
fn clock_ticks_pass_only_at_the_minute_boundary() {
    // the sample is the real local time, so only the stated bounds can be
    // checked; a forwarded tick always carries an in-range, fresh sample
    for _ in 0..3 {
        if let Some(StatusBarMessage::UpdateDatetime(t)) = clock_tick() {
            assert!(t.second <= 1);
            assert!(t.hour < 24);
            assert!(t.minute < 60);
        }
    }
}

#[test]
fn only_the_main_output_carries_the_power_button() {
    let main = StatusBar::new("DP-3".to_string(), 1, 0);
    assert!(main.is_in_main());
    let other = StatusBar::new("HDMI-1".to_string(), 1, 0);
    assert!(!other.is_in_main());
}

#[test]
fn bars_store_what_their_messages_carry() {
    let mut bar = StatusBar::new("DP-1".to_string(), 1, 0);
    assert!(bar.cava_info.is_empty());
    assert_eq!(bar.current_datetime, ClockTime { hour: 0, minute: 0, second: 0 });

    let effects = bar.update(StatusBarMessage::CavaInfo(vec![1, 2, 3]));
    assert!(effects.is_empty());
    assert_eq!(bar.cava_info, vec![1, 2, 3]);

    bar.update(StatusBarMessage::UpdateDatetime(ClockTime {
        hour: 12,
        minute: 34,
        second: 0,
    }));
    assert_eq!(bar.current_datetime.hour, 12);
    assert_eq!(bar.current_datetime.minute, 34);

    // a switch on another output is ignored
    bar.update(StatusBarMessage::UpdateCurrenWorkspace("DP-2".to_string(), 9));
    assert_eq!(bar.current_workspace, 1);
    bar.update(StatusBarMessage::UpdateCurrenWorkspace("DP-1".to_string(), 9));
    assert_eq!(bar.current_workspace, 9);
}

#[test]
fn layer_settings_follow_each_kind() {

    let bar = StatusBar::new("DP-1".to_string(), 1, 0);
    let s = bar.layer_settings();
    assert_eq!(s.size, Some((0, 56)));
    assert_eq!(s.layer, Layer::Top);
    assert_eq!(s.exclusive_zone, Some(56));
    assert_eq!(s.margin, Some((8, 0, 0, 0)));
    assert!(s.anchor.top && s.anchor.left && s.anchor.right && !s.anchor.bottom);
    assert_eq!(s.output, OutputChoice::ByName("DP-1".to_string()));

    let pm = PowerMenu::new(0);
    let s = pm.layer_settings();
    assert_eq!(s.size, Some((0, 0)));
    assert_eq!(s.layer, Layer::Overlay);
    assert_eq!(s.exclusive_zone, Some(-1));
    assert_eq!(s.keyboard_interactivity, KeyboardInteractivity::NotInteractive);
    assert_eq!(s.namespace, Some("power_menu".to_string()));
}
