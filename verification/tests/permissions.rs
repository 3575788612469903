use hyprnote::permissions::{
    check_route, non_macos_default_status, settings_url, sidecar_arg, sidecar_status,
    status_from_sample, tcc_bundle_id, tcc_reset_args, tcc_service, CheckRoute, Permission,
    PermissionStatus,
};

#[test]
fn sidecar_answers_are_read_per_permission() {
    let s = |p, out: &str| sidecar_status(p, true, out.as_bytes().to_vec());
    assert_eq!(s(Permission::Calendar, "fullAccess\n"), Some(PermissionStatus::Authorized));
    assert_eq!(s(Permission::Calendar, "notDetermined"), Some(PermissionStatus::NeverRequested));
    assert_eq!(s(Permission::Calendar, "writeOnly"), Some(PermissionStatus::Denied));
    assert_eq!(s(Permission::Calendar, "authorized"), Some(PermissionStatus::Denied));
    assert_eq!(s(Permission::Contacts, "  authorized  "), Some(PermissionStatus::Authorized));
    assert_eq!(s(Permission::Microphone, "restricted"), Some(PermissionStatus::Denied));
    assert_eq!(s(Permission::ScreenCapture, "notDetermined"), Some(PermissionStatus::NeverRequested));
    assert_eq!(s(Permission::Accessibility, "trusted"), Some(PermissionStatus::Authorized));
    assert_eq!(s(Permission::Accessibility, "notDetermined"), Some(PermissionStatus::Denied));
}

#[test]
fn sidecar_failures_give_no_answer() {
    assert_eq!(sidecar_status(Permission::Contacts, false, b"authorized".to_vec()), None);
    assert_eq!(sidecar_status(Permission::Contacts, true, vec![0xff, 0xfe]), None);
}

#[test]
fn sidecar_arguments() {
    assert_eq!(sidecar_arg(Permission::Calendar), Some("calendar"));
    assert_eq!(sidecar_arg(Permission::ScreenCapture), Some("screenCapture"));
    assert_eq!(sidecar_arg(Permission::SystemAudio), None);
}

#[test]
fn checks_route_through_the_sidecar_on_macos() {
    assert_eq!(check_route(Permission::Calendar, true), CheckRoute::SidecarThenInProcess);
    assert_eq!(check_route(Permission::SystemAudio, true), CheckRoute::InProcess);
    assert_eq!(check_route(Permission::Calendar, false), CheckRoute::InProcess);
}

#[test]
fn fallback_statuses() {
    assert_eq!(non_macos_default_status(Permission::ScreenCapture), PermissionStatus::Authorized);
    assert_eq!(non_macos_default_status(Permission::Calendar), PermissionStatus::Denied);
    assert_eq!(status_from_sample(true), PermissionStatus::Authorized);
    assert_eq!(status_from_sample(false), PermissionStatus::Denied);
}

#[test]
fn settings_and_tcc_names() {
    assert_eq!(
        settings_url(Permission::SystemAudio),
        "x-apple.systempreferences:com.apple.preference.security?Privacy_ScreenCapture"
    );
    assert_eq!(
        settings_url(Permission::Microphone),
        "x-apple.systempreferences:com.apple.preference.security?Privacy_Microphone"
    );
    assert_eq!(tcc_service(Permission::Contacts), "AddressBook");
    assert_eq!(tcc_service(Permission::SystemAudio), "AudioCapture");
    assert_eq!(tcc_reset_args("Calendar", "com.hyprnote.dev"), vec!["reset", "Calendar", "com.hyprnote.dev"]);
    assert_eq!(tcc_bundle_id(true, None, "app".to_string()), None);
    assert_eq!(tcc_bundle_id(true, Some("term".to_string()), "app".to_string()), Some("term".to_string()));
    assert_eq!(tcc_bundle_id(false, Some("term".to_string()), "app".to_string()), Some("app".to_string()));
}
