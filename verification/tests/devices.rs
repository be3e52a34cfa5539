use nota::devices::{
    capture_source_label, form_factor_name, notification_filter, pcm_kind,
    process_target_changed, CaptureSource, DeviceRole, NotificationFilter, SampleKind,
};
use nota::models::{DeviceDirection, DeviceSelection};

#[test]
fn endpoint_notifications_ignore_unrelated_flows() {
    let filter = NotificationFilter {
        flow: DeviceDirection::Capture,
        follow_default: true,
        endpoint_id: "microphone".into(),
    };
    assert!(filter.default_matches(DeviceDirection::Capture, DeviceRole::Communications));
    assert!(!filter.default_matches(DeviceDirection::Render, DeviceRole::Communications));
    assert!(!filter.default_matches(DeviceDirection::Capture, DeviceRole::Multimedia));
}

#[test]
fn endpoint_ids_compare_without_case() {
    let filter = NotificationFilter {
        flow: DeviceDirection::Render,
        follow_default: false,
        endpoint_id: "{0.0.0.00000000}.{ABC}".into(),
    };
    assert!(filter.endpoint_matches(Some("{0.0.0.00000000}.{abc}")));
    assert!(!filter.endpoint_matches(Some("{0.0.0.00000000}.{abd}")));
    assert!(!filter.endpoint_matches(None));
    assert!(!filter.default_matches(DeviceDirection::Render, DeviceRole::Communications));
}

#[test]
fn filters_follow_the_source() {
    let system = CaptureSource::System(DeviceSelection::FollowDefaultCommunications);
    let filter = notification_filter(&system, Some("speakers")).unwrap();
    assert_eq!(filter.flow, DeviceDirection::Render);
    assert!(filter.follow_default);
    assert_eq!(filter.endpoint_id, "speakers");
    let microphone =
        CaptureSource::Microphone(DeviceSelection::Fixed { endpoint_id: "mic".into() });
    let filter = notification_filter(&microphone, Some("mic")).unwrap();
    assert_eq!(filter.flow, DeviceDirection::Capture);
    assert!(!filter.follow_default);
    assert!(notification_filter(&microphone, None).is_none());
    let process = CaptureSource::Process {
        process_id: 7,
        display_name: "Player".into(),
        executable_path: "C:\\Player.exe".into(),
    };
    assert!(notification_filter(&process, Some("x")).is_none());
}

#[test]
fn sources_have_log_labels() {
    let process = CaptureSource::Process {
        process_id: 7,
        display_name: "Player".into(),
        executable_path: "C:\\Player.exe".into(),
    };
    assert_eq!(capture_source_label(&process), "process loopback");
    assert_eq!(
        capture_source_label(&CaptureSource::System(DeviceSelection::FollowDefaultCommunications)),
        "system loopback"
    );
    assert_eq!(
        capture_source_label(&CaptureSource::Microphone(
            DeviceSelection::FollowDefaultCommunications
        )),
        "microphone"
    );
}

#[test]
fn form_factors_have_names() {
    assert_eq!(form_factor_name(1), "Speakers");
    assert_eq!(form_factor_name(5), "Headset");
    assert_eq!(form_factor_name(9), "HDMI");
    assert_eq!(form_factor_name(0), "Remote");
    assert_eq!(form_factor_name(42), "Unknown");
}

#[test]
fn pcm_depths_are_recognised() {
    assert_eq!(pcm_kind(16), Ok(SampleKind::Pcm16));
    assert_eq!(pcm_kind(24), Ok(SampleKind::Pcm24));
    assert_eq!(pcm_kind(32), Ok(SampleKind::Pcm32));
    assert_eq!(pcm_kind(8), Err("不支持的 PCM 位深 8".to_string()));
}

#[test]
fn process_targets_change_when_the_process_goes_or_moves() {
    let process = CaptureSource::Process {
        process_id: 7,
        display_name: "Player".into(),
        executable_path: "C:\\Apps\\Player.exe".into(),
    };
    assert!(!process_target_changed(&process, true, Some("c:\\apps\\player.EXE")));
    assert!(process_target_changed(&process, true, Some("C:\\Other.exe")));
    assert!(process_target_changed(&process, false, Some("C:\\Apps\\Player.exe")));
    assert!(process_target_changed(&process, true, None));
    let system = CaptureSource::System(DeviceSelection::FollowDefaultCommunications);
    assert!(!process_target_changed(&system, false, None));
}
