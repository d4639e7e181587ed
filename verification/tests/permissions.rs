use oto::paste::ProcessIdentity;
use oto::permissions::{
    accessibility_item, accessibility_request_step, bundle_item, check_all_permissions, input_monitoring_item,
    microphone_item, microphone_request, open_permission_settings, open_settings_failure,
    open_start_failure, open_status_failure, MicrophoneRequest, PermissionProbe,
};
use oto::paste::accessibility_status_detail;

fn probe(trusted: bool, mic: Option<i64>) -> PermissionProbe {
    PermissionProbe {
        trusted,
        microphone_status: mic,
        listen_event_access: false,
        process: ProcessIdentity {
            current_exe: Some("/Applications/Oto.app/Contents/MacOS/oto".into()),
            executable_path: Some("/Applications/Oto.app/Contents/MacOS/oto".into()),
        },
        now_ms: 1_700_000_000_000,
    }
}

#[test]
fn microphone_rows() {
    assert_eq!(microphone_item(Some(3)).status, "granted");
    assert_eq!(microphone_item(Some(2)).status, "denied");
    assert_eq!(microphone_item(Some(1)).status, "restricted");
    assert_eq!(microphone_item(Some(0)).status, "not_determined");
    let odd = microphone_item(Some(-17));
    assert_eq!(odd.status, "unknown");
    assert_eq!(odd.detail, "Unexpected microphone status code: -17");
    assert_eq!(
        microphone_item(Some(i64::MIN)).detail,
        format!("Unexpected microphone status code: {}", i64::MIN)
    );
    let none = microphone_item(None);
    assert_eq!(none.detail, "Could not query AVCaptureDevice (AVFoundation unavailable).");
    assert!(none.required && none.can_open_settings);
    assert_eq!(none.id, "microphone");
}

#[test]
fn other_rows() {
    let who = ProcessIdentity { current_exe: None, executable_path: None };
    let ax = accessibility_item(&accessibility_status_detail(false, &who));
    assert_eq!(ax.status, "denied");
    assert_eq!(
        ax.detail,
        "Accessibility is not granted. Unlock Accessibility, click +, add “oto”, enable the toggle, then restart Oto.\nPath: "
    );
    let im = input_monitoring_item(true);
    assert_eq!(im.status, "granted");
    assert!(!im.required);
    let b = bundle_item(false, None);
    assert_eq!(b.status, "recommended");
    assert_eq!(
        b.detail,
        "Running a development binary (unknown). Prefer Oto.app so macOS lists permissions under “Oto”."
    );
    assert!(!b.can_open_settings);
    assert_eq!(bundle_item(true, None).status, "granted");
}

#[test]
fn report_all_granted() {
    let r = check_all_permissions(&probe(true, Some(3)));
    assert!(r.all_required_granted);
    assert_eq!(r.summary, "All required permissions are granted.");
    assert_eq!(r.items.len(), 4);
    let ids: Vec<&str> = r.items.iter().map(|i| i.id.as_str()).collect();
    assert_eq!(ids, vec!["accessibility", "microphone", "input_monitoring", "app_bundle"]);
    assert_eq!(r.display_name, "Oto");
    assert!(r.bundled);
    assert_eq!(r.checked_at_ms, 1_700_000_000_000);
}

#[test]
fn report_lists_what_is_missing() {
    let r = check_all_permissions(&probe(false, Some(2)));
    assert!(!r.all_required_granted);
    assert_eq!(
        r.summary,
        "Missing required: Accessibility, Microphone. Open each item’s settings and enable Oto, then re-check."
    );
    let r = check_all_permissions(&probe(true, None));
    assert_eq!(
        r.summary,
        "Missing required: Microphone. Open each item’s settings and enable Oto, then re-check."
    );
}

#[test]
fn settings_panes() {
    let urls = open_permission_settings("microphone").unwrap();
    assert_eq!(
        urls,
        vec![
            "x-apple.systempreferences:com.apple.preference.security?Privacy_Microphone",
            "x-apple.systempreferences:com.apple.settings.PrivacySecurity.extension?Privacy_Microphone",
        ]
    );
    assert_eq!(open_permission_settings("accessibility").unwrap().len(), 2);
    assert_eq!(open_permission_settings("input_monitoring").unwrap().len(), 2);
    let e = open_permission_settings("camera").err().unwrap();
    assert_eq!(e.to_text(), "no settings pane for permission id: camera");
    assert_eq!(open_settings_failure(None).to_text(), "open failed");
    assert_eq!(open_start_failure("x"), "open failed: x");
    assert_eq!(open_status_failure("exit status: 1"), "open exited with exit status: 1");
}

#[test]
fn microphone_requests() {
    assert_eq!(microphone_request(Some(3)), MicrophoneRequest::AlreadyGranted);
    assert_eq!(microphone_request(Some(2)), MicrophoneRequest::OpenSettings);
    assert_eq!(microphone_request(Some(1)), MicrophoneRequest::OpenSettings);
    assert_eq!(microphone_request(Some(0)), MicrophoneRequest::ProbeInputDevice);
    assert_eq!(microphone_request(None), MicrophoneRequest::ProbeInputDevice);
}

#[test]
fn accessibility_request_opens_settings_only_without_trust() {
    assert!(accessibility_request_step(false));
    assert!(!accessibility_request_step(true));
}
