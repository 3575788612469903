use vstd::prelude::*;
use crate::text::{trim, text_eq, spec_trim, utf8_to_string};
use vstd::utf8::{valid_utf8, decode_utf8};

verus! {

/// A system permission that the app asks for.
#[derive(Clone, Copy, Debug, PartialEq, Eq, Structural)]
pub enum Permission {
    Calendar,
    Contacts,
    Microphone,
    SystemAudio,
    Accessibility,
    ScreenCapture,
}

/// Where a permission stands.
#[derive(Clone, Copy, Debug, PartialEq, Eq, Structural)]
pub enum PermissionStatus {
    NeverRequested,
    Authorized,
    Denied,
}

/// The argument that asks the permission-checking helper about `permission`; the system
/// audio permission is never asked of it.
pub open spec fn spec_sidecar_arg(permission: Permission) -> Option<Seq<char>> {
    match permission {
        Permission::Calendar => Some("calendar"@),
        Permission::Contacts => Some("contacts"@),
        Permission::Microphone => Some("microphone"@),
        Permission::Accessibility => Some("accessibility"@),
        Permission::ScreenCapture => Some("screenCapture"@),
        Permission::SystemAudio => None,
    }
}

pub fn sidecar_arg(permission: Permission) -> (r: Option<&'static str>)
    ensures
        match r {
            Some(s) => spec_sidecar_arg(permission) == Some(s@),
            None => spec_sidecar_arg(permission) is None,
        },
{
    match permission {
        Permission::Calendar => Some("calendar"),
        Permission::Contacts => Some("contacts"),
        Permission::Microphone => Some("microphone"),
        Permission::Accessibility => Some("accessibility"),
        Permission::ScreenCapture => Some("screenCapture"),
        Permission::SystemAudio => None,
    }
}

/// What the helper's answer `value` (already trimmed) means for `permission`.
pub open spec fn spec_sidecar_status(permission: Permission, value: Seq<char>) -> PermissionStatus {
    match permission {
        Permission::Calendar => if value == "notDetermined"@ {
            PermissionStatus::NeverRequested
        } else if value == "fullAccess"@ {
            PermissionStatus::Authorized
        } else {
            PermissionStatus::Denied
        },
        Permission::Accessibility => if value == "trusted"@ {
            PermissionStatus::Authorized
        } else {
            PermissionStatus::Denied
        },
        _ => if value == "notDetermined"@ {
            PermissionStatus::NeverRequested
        } else if value == "authorized"@ {
            PermissionStatus::Authorized
        } else {
            PermissionStatus::Denied
        },
    }
}

/// How the helper's answers read: for every permission it is asked about, the status is
/// authorized exactly on the permission's granted answer ("fullAccess" for the calendar,
/// "trusted" for accessibility, "authorized" for the others), never requested exactly on
/// "notDetermined" (which accessibility never answers), and denied on anything else.
pub proof fn law_helper_answers(permission: Permission, value: Seq<char>)
    requires
        permission != Permission::SystemAudio,
    ensures
        (spec_sidecar_status(permission, value) == PermissionStatus::Authorized) <==> value == (match permission {
            Permission::Calendar => "fullAccess"@,
            Permission::Accessibility => "trusted"@,
            _ => "authorized"@,
        }),
        (spec_sidecar_status(permission, value) == PermissionStatus::NeverRequested) <==> (permission
            != Permission::Accessibility && value == "notDetermined"@),
        permission != Permission::Calendar && permission != Permission::Accessibility ==> spec_sidecar_status(
            permission,
            "authorized"@,
        ) == PermissionStatus::Authorized && spec_sidecar_status(permission, "notDetermined"@)
            == PermissionStatus::NeverRequested,
{
    reveal_strlit("notDetermined");
    reveal_strlit("fullAccess");
    reveal_strlit("authorized");
    reveal_strlit("trusted");
    assert("notDetermined"@.len() != "authorized"@.len());
    assert("notDetermined"@.len() != "fullAccess"@.len());
    assert("notDetermined"@ != "authorized"@);
    assert("notDetermined"@ != "fullAccess"@);
}

/// Reads the permission status that the helper printed for `permission`: the output
/// counts only when the helper succeeded and printed UTF-8 text.
pub fn sidecar_status(permission: Permission, success: bool, stdout: Vec<u8>) -> (r: Option<
    PermissionStatus,
>)
    requires
        permission != Permission::SystemAudio,
    ensures
        r is Some <==> success && valid_utf8(stdout@),
        r matches Some(st) ==> st == spec_sidecar_status(permission, spec_trim(decode_utf8(stdout@))),
{
    if !success {
        return None;
    }
    let text = match utf8_to_string(stdout) {
        Some(t) => t,
        None => return None,
    };
    let value = trim(text.as_str());
    let v = value.as_str();
    let status = match permission {
        Permission::Calendar => {
            if text_eq(v, "notDetermined") {
                PermissionStatus::NeverRequested
            } else if text_eq(v, "fullAccess") {
                PermissionStatus::Authorized
            } else {
                PermissionStatus::Denied
            }
        },
        Permission::Accessibility => {
            if text_eq(v, "trusted") {
                PermissionStatus::Authorized
            } else {
                PermissionStatus::Denied
            }
        },
        _ => {
            if text_eq(v, "notDetermined") {
                PermissionStatus::NeverRequested
            } else if text_eq(v, "authorized") {
                PermissionStatus::Authorized
            } else {
                PermissionStatus::Denied
            }
        },
    };
    Some(status)
}

/// How a permission is checked.
#[derive(Clone, Copy, Debug, PartialEq, Eq, Structural)]
pub enum CheckRoute {
    /// Ask the permission-checking helper, and fall back to the check in this process.
    SidecarThenInProcess,
    /// Check in this process only.
    InProcess,
}

/// On macOS every permission but system audio is first asked of the helper; elsewhere,
/// and for system audio, the check runs in this process.
pub fn check_route(permission: Permission, is_macos: bool) -> (r: CheckRoute)
    ensures
        r == if is_macos && permission != Permission::SystemAudio {
            CheckRoute::SidecarThenInProcess
        } else {
            CheckRoute::InProcess
        },
{
    if is_macos && !matches!(permission, Permission::SystemAudio) {
        CheckRoute::SidecarThenInProcess
    } else {
        CheckRoute::InProcess
    }
}

/// What a check in this process reports where the platform cannot tell, by permission:
/// screen capture is granted, the others denied.
pub fn non_macos_default_status(permission: Permission) -> (r: PermissionStatus)
    requires
        permission != Permission::Microphone && permission != Permission::SystemAudio,
    ensures
        r == if permission == Permission::ScreenCapture {
            PermissionStatus::Authorized
        } else {
            PermissionStatus::Denied
        },
{
    if matches!(permission, Permission::ScreenCapture) {
        PermissionStatus::Authorized
    } else {
        PermissionStatus::Denied
    }
}

/// On platforms without a permission query, microphone and speaker access are judged by
/// whether the capture delivered a sample.
pub fn status_from_sample(got_sample: bool) -> (r: PermissionStatus)
    ensures
        r == if got_sample { PermissionStatus::Authorized } else { PermissionStatus::Denied },
{
    if got_sample {
        PermissionStatus::Authorized
    } else {
        PermissionStatus::Denied
    }
}

/// The privacy pane of System Settings that `permission` is granted in; system audio is
/// granted with screen capture.
pub open spec fn spec_settings_url(permission: Permission) -> Seq<char> {
    match permission {
        Permission::Calendar => "x-apple.systempreferences:com.apple.preference.security?Privacy_Calendars"@,
        Permission::Contacts => "x-apple.systempreferences:com.apple.preference.security?Privacy_Contacts"@,
        Permission::Microphone => "x-apple.systempreferences:com.apple.preference.security?Privacy_Microphone"@,
        Permission::SystemAudio => "x-apple.systempreferences:com.apple.preference.security?Privacy_ScreenCapture"@,
        Permission::Accessibility => "x-apple.systempreferences:com.apple.preference.security?Privacy_Accessibility"@,
        Permission::ScreenCapture => "x-apple.systempreferences:com.apple.preference.security?Privacy_ScreenCapture"@,
    }
}

pub fn settings_url(permission: Permission) -> (r: &'static str)
    ensures
        r@ == spec_settings_url(permission),
{
    match permission {
        Permission::Calendar => "x-apple.systempreferences:com.apple.preference.security?Privacy_Calendars",
        Permission::Contacts => "x-apple.systempreferences:com.apple.preference.security?Privacy_Contacts",
        Permission::Microphone => "x-apple.systempreferences:com.apple.preference.security?Privacy_Microphone",
        Permission::SystemAudio => "x-apple.systempreferences:com.apple.preference.security?Privacy_ScreenCapture",
        Permission::Accessibility => "x-apple.systempreferences:com.apple.preference.security?Privacy_Accessibility",
        Permission::ScreenCapture => "x-apple.systempreferences:com.apple.preference.security?Privacy_ScreenCapture",
    }
}

/// The TCC service that holds `permission`.
pub open spec fn spec_tcc_service(permission: Permission) -> Seq<char> {
    match permission {
        Permission::Calendar => "Calendar"@,
        Permission::Contacts => "AddressBook"@,
        Permission::Microphone => "Microphone"@,
        Permission::SystemAudio => "AudioCapture"@,
        Permission::Accessibility => "Accessibility"@,
        Permission::ScreenCapture => "ScreenCapture"@,
    }
}

pub fn tcc_service(permission: Permission) -> (r: &'static str)
    ensures
        r@ == spec_tcc_service(permission),
{
    match permission {
        Permission::Calendar => "Calendar",
        Permission::Contacts => "AddressBook",
        Permission::Microphone => "Microphone",
        Permission::SystemAudio => "AudioCapture",
        Permission::Accessibility => "Accessibility",
        Permission::ScreenCapture => "ScreenCapture",
    }
}

/// The arguments of `tccutil` that reset `service` for the app `bundle_id`.
pub fn tcc_reset_args(service: &str, bundle_id: &str) -> (r: Vec<String>)
    ensures
        r@.len() == 3,
        r@[0]@ == "reset"@,
        r@[1]@ == service@,
        r@[2]@ == bundle_id@,
{
    let mut r: Vec<String> = Vec::new();
    r.push(String::from_str("reset"));
    r.push(String::from_str(service));
    r.push(String::from_str(bundle_id));
    r
}

/// The app whose permissions are reset: in a development build the bundle that launched
/// the process (none found: no reset), in a release build the app's own identifier.
pub fn tcc_bundle_id(debug_build: bool, ancestor_bundle_id: Option<String>, identifier: String) -> (r:
    Option<String>)
    ensures
        r == if debug_build { ancestor_bundle_id } else { Some(identifier) },
{
    if debug_build {
        ancestor_bundle_id
    } else {
        Some(identifier)
    }
}

}
