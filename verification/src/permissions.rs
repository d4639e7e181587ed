//! The macOS permission report (Accessibility, Microphone, Input
//! Monitoring, app bundle) shown in the settings.
//!
//! The system is asked about each permission outside the library; the
//! library turns the answers into the rows and summary the user sees.

use vstd::prelude::*;

use crate::error::{OtoError, OtoResult};
use crate::paste::{
    accessibility_status_detail, opt_as_str, or_empty, AccessibilityStatus, ProcessIdentity,
};
use crate::paths::{display_name, is_bundled_app};
use crate::text::{decimal_i64, ends_with_seq, decimal_int, join, join_seq, owned, str_eq, views};

verus! {

/// One permission row for the settings.
#[derive(Debug, Clone)]
pub struct PermissionItem {
    pub id: String,
    pub name: String,
    pub required: bool,
    /// granted | denied | not_determined | restricted | unknown | recommended
    pub status: String,
    pub detail: String,
    pub can_open_settings: bool,
}

/// The full permission report.
#[derive(Debug, Clone)]
pub struct PermissionsReport {
    pub all_required_granted: bool,
    pub display_name: String,
    pub executable_path: String,
    pub bundled: bool,
    pub checked_at_ms: u128,
    pub items: Vec<PermissionItem>,
    pub summary: String,
}

/// The row has the given fields.
pub open spec fn is_item(
    item: PermissionItem,
    id: Seq<char>,
    name: Seq<char>,
    required: bool,
    status: Seq<char>,
    detail: Seq<char>,
    can_open_settings: bool,
) -> bool {
    &&& item.id@ == id
    &&& item.name@ == name
    &&& item.required == required
    &&& item.status@ == status
    &&& item.detail@ == detail
    &&& item.can_open_settings == can_open_settings
}

/// `AVAuthorizationStatus`: not determined.
pub const AV_AUTH_NOT_DETERMINED: i64 = 0;

/// `AVAuthorizationStatus`: restricted by policy.
pub const AV_AUTH_RESTRICTED: i64 = 1;

/// `AVAuthorizationStatus`: denied by the user.
pub const AV_AUTH_DENIED: i64 = 2;

/// `AVAuthorizationStatus`: authorized.
pub const AV_AUTH_AUTHORIZED: i64 = 3;

/// Status and detail of the microphone row for the authorization status
/// `code` (none where AVFoundation could not be asked).
pub open spec fn microphone_status_of(code: Option<i64>) -> (Seq<char>, Seq<char>) {
    match code {
        Some(c) => if c == AV_AUTH_AUTHORIZED {
            ("granted"@, "Microphone access is granted for dictation."@)
        } else if c == AV_AUTH_DENIED {
            (
                "denied"@,
                "Microphone is denied. Enable Oto under System Settings → Privacy & Security → Microphone."@,
            )
        } else if c == AV_AUTH_RESTRICTED {
            (
                "restricted"@,
                "Microphone is restricted by system policy (Screen Time / MDM)."@,
            )
        } else if c == AV_AUTH_NOT_DETERMINED {
            (
                "not_determined"@,
                "Microphone has not been requested yet. Click “Request microphone” or use Test microphone."@,
            )
        } else {
            ("unknown"@, "Unexpected microphone status code: "@ + decimal_int(c as int))
        },
        None => (
            "unknown"@,
            "Could not query AVCaptureDevice (AVFoundation unavailable)."@,
        ),
    }
}

/// The microphone row, for the authorization status `code`.
pub fn microphone_item(code: Option<i64>) -> (item: PermissionItem)
    ensures
        is_item(
            item,
            "microphone"@,
            "Microphone"@,
            true,
            microphone_status_of(code).0,
            microphone_status_of(code).1,
            true,
        ),
        code == Some(3i64) ==> item.status@ == "granted"@,
        code == Some(2i64) ==> item.status@ == "denied"@,
        code == Some(1i64) ==> item.status@ == "restricted"@,
        code == Some(0i64) ==> item.status@ == "not_determined"@,
        !(code matches Some(c) && 0 <= c <= 3) ==> item.status@ == "unknown"@,
{
    let (status, detail) = match code {
        Some(c) => if c == AV_AUTH_AUTHORIZED {
            (owned("granted"), owned("Microphone access is granted for dictation."))
        } else if c == AV_AUTH_DENIED {
            (
                owned("denied"),
                owned(
                    "Microphone is denied. Enable Oto under System Settings → Privacy & Security → Microphone.",
                ),
            )
        } else if c == AV_AUTH_RESTRICTED {
            (
                owned("restricted"),
                owned("Microphone is restricted by system policy (Screen Time / MDM)."),
            )
        } else if c == AV_AUTH_NOT_DETERMINED {
            (
                owned("not_determined"),
                owned(
                    "Microphone has not been requested yet. Click “Request microphone” or use Test microphone.",
                ),
            )
        } else {
            (
                owned("unknown"),
                String::from_str("Unexpected microphone status code: ").concat(
                    decimal_i64(c).as_str(),
                ),
            )
        },
        None => (
            owned("unknown"),
            owned("Could not query AVCaptureDevice (AVFoundation unavailable)."),
        ),
    };
    PermissionItem {
        id: owned("microphone"),
        name: owned("Microphone"),
        required: true,
        status,
        detail,
        can_open_settings: true,
    }
}

/// Status and detail of the Accessibility row.
pub open spec fn accessibility_status_of(ax: AccessibilityStatus) -> (Seq<char>, Seq<char>) {
    if ax.trusted {
        ("granted"@, "Accessibility is granted — Oto can paste (⌘V) and insert text."@)
    } else {
        (
            "denied"@,
            "Accessibility is not granted. Unlock Accessibility, click +, add “"@
                + ax.display_name@ + "”, enable the toggle, then restart Oto.\nPath: "@
                + ax.executable_path@,
        )
    }
}

/// The Accessibility row, for the status `ax`.
pub fn accessibility_item(ax: &AccessibilityStatus) -> (item: PermissionItem)
    ensures
        is_item(
            item,
            "accessibility"@,
            "Accessibility"@,
            true,
            accessibility_status_of(*ax).0,
            accessibility_status_of(*ax).1,
            true,
        ),
{
    let (status, detail) = if ax.trusted {
        (
            owned("granted"),
            owned("Accessibility is granted — Oto can paste (⌘V) and insert text."),
        )
    } else {
        (
            owned("denied"),
            String::from_str(
                "Accessibility is not granted. Unlock Accessibility, click +, add “",
            ).concat(ax.display_name.as_str()).concat(
                "”, enable the toggle, then restart Oto.\nPath: ",
            ).concat(ax.executable_path.as_str()),
        )
    };
    PermissionItem {
        id: owned("accessibility"),
        name: owned("Accessibility"),
        required: true,
        status,
        detail,
        can_open_settings: true,
    }
}

/// Status and detail of the Input Monitoring row.
pub open spec fn input_monitoring_status_of(granted: bool) -> (Seq<char>, Seq<char>) {
    if granted {
        (
            "granted"@,
            "Input Monitoring is granted (optional; helps some global-shortcut backends)."@,
        )
    } else {
        (
            "not_determined"@,
            "Input Monitoring is not granted. Usually optional; enable it if the hotkey never fires."@,
        )
    }
}

/// The Input Monitoring row (optional), for whether listening to keyboard
/// events is `granted`.
pub fn input_monitoring_item(granted: bool) -> (item: PermissionItem)
    ensures
        is_item(
            item,
            "input_monitoring"@,
            "Input Monitoring"@,
            false,
            input_monitoring_status_of(granted).0,
            input_monitoring_status_of(granted).1,
            true,
        ),
        item.status@ == (if granted {
            "granted"@
        } else {
            "not_determined"@
        }),
{
    let (status, detail) = if granted {
        (
            owned("granted"),
            owned(
                "Input Monitoring is granted (optional; helps some global-shortcut backends).",
            ),
        )
    } else {
        (
            owned("not_determined"),
            owned(
                "Input Monitoring is not granted. Usually optional; enable it if the hotkey never fires.",
            ),
        )
    };
    PermissionItem {
        id: owned("input_monitoring"),
        name: owned("Input Monitoring"),
        required: false,
        status,
        detail,
        can_open_settings: true,
    }
}

/// Status and detail of the app bundle row.
pub open spec fn bundle_status_of(bundled: bool, executable_path: Option<Seq<char>>) -> (
    Seq<char>,
    Seq<char>,
) {
    if bundled {
        ("granted"@, "Running as Oto.app — best for stable Accessibility entries."@)
    } else {
        (
            "recommended"@,
            "Running a development binary ("@ + match executable_path {
                Some(p) => p,
                None => "unknown"@,
            } + "). Prefer Oto.app so macOS lists permissions under “Oto”."@,
        )
    }
}

/// The app bundle row (a recommendation, not a permission).
pub fn bundle_item(bundled: bool, executable_path: Option<&str>) -> (item: PermissionItem)
    ensures
        is_item(
            item,
            "app_bundle"@,
            "App bundle"@,
            false,
            bundle_status_of(bundled, crate::paths::opt_str_view(executable_path)).0,
            bundle_status_of(bundled, crate::paths::opt_str_view(executable_path)).1,
            false,
        ),
{
    let (status, detail) = if bundled {
        (
            owned("granted"),
            owned("Running as Oto.app — best for stable Accessibility entries."),
        )
    } else {
        let path = match executable_path {
            Some(p) => owned(p),
            None => owned("unknown"),
        };
        (
            owned("recommended"),
            String::from_str("Running a development binary (").concat(path.as_str()).concat(
                "). Prefer Oto.app so macOS lists permissions under “Oto”.",
            ),
        )
    };
    PermissionItem {
        id: owned("app_bundle"),
        name: owned("App bundle"),
        required: false,
        status,
        detail,
        can_open_settings: false,
    }
}

/// Every required row is granted.
pub open spec fn all_required_granted_of(items: Seq<PermissionItem>) -> bool {
    forall|i: int| 0 <= i < items.len() && (#[trigger] items[i]).required ==> items[i].status@
        == "granted"@
}

/// The names of the required rows that are not granted, in order.
pub open spec fn missing_required(items: Seq<PermissionItem>) -> Seq<Seq<char>>
    decreases items.len(),
{
    if items.len() == 0 {
        Seq::empty()
    } else {
        let rest = missing_required(items.drop_last());
        let last = items.last();
        if last.required && last.status@ != "granted"@ {
            rest.push(last.name@)
        } else {
            rest
        }
    }
}

/// The summary line of the report for `items`.
pub open spec fn summary_of(items: Seq<PermissionItem>) -> Seq<char> {
    if all_required_granted_of(items) {
        "All required permissions are granted."@
    } else {
        "Missing required: "@ + join_seq(missing_required(items), ", "@)
            + ". Open each item’s settings and enable Oto, then re-check."@
    }
}

/// Whether every required row is granted, and the summary line.
pub fn summarize(items: &Vec<PermissionItem>) -> (r: (bool, String))
    ensures
        r.0 == all_required_granted_of(items@),
        r.1@ == summary_of(items@),
{
    let granted = owned("granted");
    let mut all = true;
    let mut missing: Vec<String> = Vec::new();
    let mut i: usize = 0;
    while i < items.len()
        invariant
            granted@ == "granted"@,
            i <= items.len(),
            all == all_required_granted_of(items@.subrange(0, i as int)),
            views(missing@) == missing_required(items@.subrange(0, i as int)),
        decreases items.len() - i,
    {
        let item = &items[i];
        let ghost prefix = items@.subrange(0, i as int);
        let ghost next = items@.subrange(0, i + 1);
        assert(next.drop_last() =~= prefix);
        assert(next.last() == *item);
        if item.required && item.status != granted {
            let ghost old_missing = missing@;
            missing.push(item.name.clone());
            assert(views(missing@) =~= views(old_missing).push(item.name@));
            all = false;
            assert(!all_required_granted_of(next)) by {
                assert(next[i as int] == *item);
            }
        } else {
            assert(all_required_granted_of(next) == all_required_granted_of(prefix)) by {
                if all_required_granted_of(prefix) {
                    assert forall|j: int| 0 <= j < next.len() && (#[trigger] next[j]).required
                        implies next[j].status@ == "granted"@ by {
                        if j < i {
                            assert(next[j] == prefix[j]);
                        }
                    }
                } else {
                    let j = choose|j: int| 0 <= j < prefix.len() && (#[trigger] prefix[j]).required
                        && prefix[j].status@ != "granted"@;
                    assert(next[j] == prefix[j]);
                }
            }
        }
        i = i + 1;
    }
    assert(items@.subrange(0, items.len() as int) =~= items@);
    let summary = if all {
        owned("All required permissions are granted.")
    } else {
        String::from_str("Missing required: ").concat(join(&missing, ", ").as_str()).concat(
            ". Open each item’s settings and enable Oto, then re-check.",
        )
    };
    (all, summary)
}

/// What the system answered about each permission.
#[derive(Debug, Clone)]
pub struct PermissionProbe {
    /// Whether the process holds Accessibility trust.
    pub trusted: bool,
    /// The microphone's `AVAuthorizationStatus`, where it could be asked.
    pub microphone_status: Option<i64>,
    /// Whether listening to keyboard events is granted.
    pub listen_event_access: bool,
    pub process: ProcessIdentity,
    /// When the probe was taken, in milliseconds since the Unix epoch.
    pub now_ms: u128,
}

/// The report for the answers `probe`: rows for Accessibility, Microphone,
/// Input Monitoring and the app bundle, in that order; whether every
/// required one is granted; and the summary.
pub fn check_all_permissions(probe: &PermissionProbe) -> (r: PermissionsReport)
    ensures
        r.items@.len() == 4,
        r.items@[0].id@ == "accessibility"@,
        r.items@[0].name@ == "Accessibility"@,
        r.items@[0].can_open_settings,
        r.items@[0].status@ == (if probe.trusted {
            "granted"@
        } else {
            "denied"@
        }),
        r.items@[0].detail@ == accessibility_status_of_parts(
            probe.trusted,
            probe.process.display_name_spec(),
            or_empty(probe.process.executable_path),
        ),
        r.items@[0].required,
        is_item(
            r.items@[1],
            "microphone"@,
            "Microphone"@,
            true,
            microphone_status_of(probe.microphone_status).0,
            microphone_status_of(probe.microphone_status).1,
            true,
        ),
        is_item(
            r.items@[2],
            "input_monitoring"@,
            "Input Monitoring"@,
            false,
            input_monitoring_status_of(probe.listen_event_access).0,
            input_monitoring_status_of(probe.listen_event_access).1,
            true,
        ),
        is_item(
            r.items@[3],
            "app_bundle"@,
            "App bundle"@,
            false,
            bundle_status_of(
                probe.process.bundled_spec(),
                crate::paste::opt_string_view(probe.process.executable_path),
            ).0,
            bundle_status_of(
                probe.process.bundled_spec(),
                crate::paste::opt_string_view(probe.process.executable_path),
            ).1,
            false,
        ),
        probe.microphone_status == Some(3i64) ==> r.items@[1].status@ == "granted"@,
        probe.microphone_status == Some(2i64) ==> r.items@[1].status@ == "denied"@,
        probe.microphone_status == Some(1i64) ==> r.items@[1].status@ == "restricted"@,
        probe.microphone_status == Some(0i64) ==> r.items@[1].status@ == "not_determined"@,
        !(probe.microphone_status matches Some(c) && 0 <= c <= 3) ==> r.items@[1].status@
            == "unknown"@,
        r.items@[2].status@ == (if probe.listen_event_access {
            "granted"@
        } else {
            "not_determined"@
        }),
        r.items@[3].status@ == (if probe.process.bundled_spec() {
            "granted"@
        } else {
            "recommended"@
        }),
        r.all_required_granted == all_required_granted_of(r.items@),
        r.all_required_granted == (probe.trusted && probe.microphone_status == Some(3i64)),
        r.all_required_granted ==> r.summary@ == "All required permissions are granted."@,
        r.summary@ == summary_of(r.items@),
        r.display_name@ == probe.process.display_name_spec(),
        r.executable_path@ == or_empty(probe.process.executable_path),
        r.bundled == probe.process.bundled_spec(),
        r.checked_at_ms == probe.now_ms,
{
    let ax = accessibility_status_detail(probe.trusted, &probe.process);
    let mut items: Vec<PermissionItem> = Vec::new();
    items.push(accessibility_item(&ax));
    items.push(microphone_item(probe.microphone_status));
    items.push(input_monitoring_item(probe.listen_event_access));
    let bundled = is_bundled_app(opt_as_str(&probe.process.current_exe));
    items.push(bundle_item(bundled, opt_as_str(&probe.process.executable_path)));
    let (all_required_granted, summary) = summarize(&items);
    proof {
        lemma_granted_exactly_when_granted(
            ax,
            probe.microphone_status,
            probe.listen_event_access,
            bundled,
            crate::paste::opt_string_view(probe.process.executable_path),
        );
        let its = items@;
        if probe.trusted && probe.microphone_status == Some(3i64) {
            assert forall|i: int| 0 <= i < its.len() && (#[trigger] its[i]).required implies its[i].status@
                == "granted"@ by {
                assert(i == 0 || i == 1);
            }
        } else if !probe.trusted {
            assert(its[0].required && its[0].status@ != "granted"@);
        } else {
            assert(its[1].required && its[1].status@ != "granted"@);
        }
    }
    PermissionsReport {
        all_required_granted,
        display_name: display_name(opt_as_str(&probe.process.current_exe)),
        executable_path: crate::paste::string_or_empty(&probe.process.executable_path),
        bundled,
        checked_at_ms: probe.now_ms,
        items,
        summary,
    }
}

/// The detail of the Accessibility row, from its parts.
pub open spec fn accessibility_status_of_parts(
    trusted: bool,
    display_name: Seq<char>,
    executable_path: Seq<char>,
) -> Seq<char> {
    if trusted {
        "Accessibility is granted — Oto can paste (⌘V) and insert text."@
    } else {
        "Accessibility is not granted. Unlock Accessibility, click +, add “"@ + display_name
            + "”, enable the toggle, then restart Oto.\nPath: "@ + executable_path
    }
}

/// The addresses of the settings pane for permission `id`, in the forms of
/// older and newer macOS.
pub open spec fn settings_urls_of(id: Seq<char>) -> Option<Seq<Seq<char>>> {
    if id == "accessibility"@ {
        Some(
            seq![
                "x-apple.systempreferences:com.apple.preference.security?Privacy_Accessibility"@,
                "x-apple.systempreferences:com.apple.settings.PrivacySecurity.extension?Privacy_Accessibility"@,
            ],
        )
    } else if id == "microphone"@ {
        Some(
            seq![
                "x-apple.systempreferences:com.apple.preference.security?Privacy_Microphone"@,
                "x-apple.systempreferences:com.apple.settings.PrivacySecurity.extension?Privacy_Microphone"@,
            ],
        )
    } else if id == "input_monitoring"@ {
        Some(
            seq![
                "x-apple.systempreferences:com.apple.preference.security?Privacy_ListenEvent"@,
                "x-apple.systempreferences:com.apple.settings.PrivacySecurity.extension?Privacy_ListenEvent"@,
            ],
        )
    } else {
        None
    }
}

fn two(a: &str, b: &str) -> (v: Vec<String>)
    ensures
        views(v@) == seq![a@, b@],
{
    let mut v = Vec::new();
    v.push(owned(a));
    v.push(owned(b));
    assert(views(v@) =~= seq![a@, b@]);
    v
}

/// The addresses to try, in order, to open the settings pane for
/// permission `id`, or the error that there is no such pane.
pub fn open_permission_settings(id: &str) -> (r: OtoResult<Vec<String>>)
    ensures
        match settings_urls_of(id@) {
            Some(urls) => r matches Ok(v) && views(v@) == urls,
            None => r matches Err(e) && e.text() == "no settings pane for permission id: "@ + id@,
        },        id@ == "accessibility"@ ==> (r matches Ok(v) && views(v@) == seq![
            "x-apple.systempreferences:com.apple.preference.security?Privacy_Accessibility"@,
            "x-apple.systempreferences:com.apple.settings.PrivacySecurity.extension?Privacy_Accessibility"@,
        ]),
        id@ == "microphone"@ ==> (r matches Ok(v) && views(v@) == seq![
            "x-apple.systempreferences:com.apple.preference.security?Privacy_Microphone"@,
            "x-apple.systempreferences:com.apple.settings.PrivacySecurity.extension?Privacy_Microphone"@,
        ]),
        id@ == "input_monitoring"@ ==> (r matches Ok(v) && views(v@) == seq![
            "x-apple.systempreferences:com.apple.preference.security?Privacy_ListenEvent"@,
            "x-apple.systempreferences:com.apple.settings.PrivacySecurity.extension?Privacy_ListenEvent"@,
        ]),
        !(id@ == "accessibility"@ || id@ == "microphone"@ || id@ == "input_monitoring"@) ==> r is Err,
{
    proof {
        reveal_strlit("accessibility");
        reveal_strlit("microphone");
        reveal_strlit("input_monitoring");
        assert("accessibility"@.len() == 13);
        assert("microphone"@.len() == 10);
        assert("input_monitoring"@.len() == 16);
    }
    if str_eq(id, "accessibility") {
        Ok(
            two(
                "x-apple.systempreferences:com.apple.preference.security?Privacy_Accessibility",
                "x-apple.systempreferences:com.apple.settings.PrivacySecurity.extension?Privacy_Accessibility",
            ),
        )
    } else if str_eq(id, "microphone") {
        Ok(
            two(
                "x-apple.systempreferences:com.apple.preference.security?Privacy_Microphone",
                "x-apple.systempreferences:com.apple.settings.PrivacySecurity.extension?Privacy_Microphone",
            ),
        )
    } else if str_eq(id, "input_monitoring") {
        Ok(
            two(
                "x-apple.systempreferences:com.apple.preference.security?Privacy_ListenEvent",
                "x-apple.systempreferences:com.apple.settings.PrivacySecurity.extension?Privacy_ListenEvent",
            ),
        )
    } else {
        Err(
            OtoError::Message(
                String::from_str("no settings pane for permission id: ").concat(id),
            ),
        )
    }
}

/// Why `open` could not be started; `reason` is the system's account.
pub fn open_start_failure(reason: &str) -> (s: String)
    ensures
        s@ == "open failed: "@ + reason@,
{
    String::from_str("open failed: ").concat(reason)
}

/// Why `open` failed when it exited with `status`.
pub fn open_status_failure(status: &str) -> (s: String)
    ensures
        s@ == "open exited with "@ + status@,
{
    String::from_str("open exited with ").concat(status)
}

/// The error once no address of a settings pane could be opened; `last` is
/// why the last one failed.
pub fn open_settings_failure(last: Option<String>) -> (e: OtoError)
    ensures
        e.text() == match last {
            Some(l) => l@,
            None => "open failed"@,
        },
{
    match last {
        Some(l) => OtoError::Message(l),
        None => OtoError::Message(owned("open failed")),
    }
}

/// What asking for the microphone comes to.
#[derive(Debug, Clone, Copy, PartialEq, Eq, Structural)]
pub enum MicrophoneRequest {
    /// Access is granted: just report.
    AlreadyGranted,
    /// Access was refused or is restricted: open the settings pane, then
    /// report.
    OpenSettings,
    /// Not decided yet: open a short input stream, which makes the system
    /// ask, then report.
    ProbeInputDevice,
}

/// What asking for the microphone comes to, for its authorization status
/// `code`.
pub fn microphone_request(code: Option<i64>) -> (r: MicrophoneRequest)
    ensures
        code == Some(AV_AUTH_AUTHORIZED) ==> r == MicrophoneRequest::AlreadyGranted,
        code == Some(AV_AUTH_DENIED) || code == Some(AV_AUTH_RESTRICTED) ==> r
            == MicrophoneRequest::OpenSettings,
        !(code == Some(AV_AUTH_AUTHORIZED) || code == Some(AV_AUTH_DENIED) || code == Some(
            AV_AUTH_RESTRICTED,
        )) ==> r == MicrophoneRequest::ProbeInputDevice,
{
    match code {
        Some(c) => if c == AV_AUTH_AUTHORIZED {
            MicrophoneRequest::AlreadyGranted
        } else if c == AV_AUTH_DENIED || c == AV_AUTH_RESTRICTED {
            MicrophoneRequest::OpenSettings
        } else {
            MicrophoneRequest::ProbeInputDevice
        },
        None => MicrophoneRequest::ProbeInputDevice,
    }
}

/// After the system trust dialog has been requested: whether to open the
/// Accessibility settings pane too, which is only where the process is
/// still not trusted.
pub fn accessibility_request_step(trusted_after_prompt: bool) -> (open_settings: bool)
    ensures
        open_settings == !trusted_after_prompt,
{
    !trusted_after_prompt
}

// ---------------------------------------------------------------------------
// Laws
// ---------------------------------------------------------------------------

/// The report says all required permissions are granted exactly when no
/// required row is missing, and then the summary says so.
pub proof fn lemma_granted_iff_nothing_missing(items: Seq<PermissionItem>)
    ensures
        all_required_granted_of(items) <==> missing_required(items).len() == 0,
    decreases items.len(),
{
    if items.len() > 0 {
        let prefix = items.drop_last();
        lemma_granted_iff_nothing_missing(prefix);
        let last = items.last();
        if all_required_granted_of(items) {
            assert(all_required_granted_of(prefix)) by {
                assert forall|j: int| 0 <= j < prefix.len() && (#[trigger] prefix[j]).required
                    implies prefix[j].status@ == "granted"@ by {
                    assert(prefix[j] == items[j]);
                }
            }
            assert(items[items.len() - 1] == last);
        } else {
            let j = choose|j: int| 0 <= j < items.len() && (#[trigger] items[j]).required
                && items[j].status@ != "granted"@;
            if j < items.len() - 1 {
                assert(prefix[j] == items[j]);
                assert(!all_required_granted_of(prefix));
            }
            assert(missing_required(prefix).len() <= missing_required(items).len());
        }
    }
}

/// A row says "granted" exactly when the system said the permission is
/// granted: Accessibility when the process is trusted, the microphone when
/// its authorization status is "authorized" (3), Input Monitoring when
/// listening to keyboard events is allowed, and the app bundle when the
/// program runs from one.
pub proof fn lemma_granted_exactly_when_granted(
    ax: AccessibilityStatus,
    code: Option<i64>,
    listen: bool,
    bundled: bool,
    path: Option<Seq<char>>,
)
    ensures
        accessibility_status_of(ax).0 == "granted"@ <==> ax.trusted,
        microphone_status_of(code).0 == "granted"@ <==> code == Some(3i64),
        input_monitoring_status_of(listen).0 == "granted"@ <==> listen,
        bundle_status_of(bundled, path).0 == "granted"@ <==> bundled,
{
    reveal_strlit("granted");
    reveal_strlit("denied");
    reveal_strlit("restricted");
    reveal_strlit("not_determined");
    reveal_strlit("unknown");
    reveal_strlit("recommended");
    assert("granted"@.len() == 7);
    assert("denied"@.len() == 6);
    assert("restricted"@.len() == 10);
    assert("unknown"@.len() == 7);
    assert("granted"@[0] != "unknown"@[0]);
    assert("granted"@ != "denied"@);
    assert("granted"@ != "restricted"@);
    assert("granted"@ != "unknown"@);
    if ax.trusted {
    } else {
        assert(accessibility_status_of(ax).0 == "denied"@);
    }
}

/// Each permission opens its own pane: both addresses tried for
/// `accessibility`, `microphone` and `input_monitoring` name that
/// permission's privacy pane, and any other id has no pane.
pub proof fn lemma_each_permission_opens_its_own_pane(id: Seq<char>)
    ensures
        id == "accessibility"@ ==> (settings_urls_of(id) matches Some(u) && u.len() == 2 && ends_with_seq(
            u[0],
            "?Privacy_Accessibility"@,
        ) && ends_with_seq(u[1], "?Privacy_Accessibility"@)),
        id == "microphone"@ ==> (settings_urls_of(id) matches Some(u) && u.len() == 2 && ends_with_seq(
            u[0],
            "?Privacy_Microphone"@,
        ) && ends_with_seq(u[1], "?Privacy_Microphone"@)),
        id == "input_monitoring"@ ==> (settings_urls_of(id) matches Some(u) && u.len() == 2 && ends_with_seq(
            u[0],
            "?Privacy_ListenEvent"@,
        ) && ends_with_seq(u[1], "?Privacy_ListenEvent"@)),
        !(id == "accessibility"@ || id == "microphone"@ || id == "input_monitoring"@)
            ==> settings_urls_of(id) is None,
{
    reveal_strlit("accessibility");
    assert("accessibility"@.len() == 13);
    reveal_strlit("microphone");
    assert("microphone"@.len() == 10);
    reveal_strlit("input_monitoring");
    assert("input_monitoring"@.len() == 16);
    if id == "accessibility"@ {
        reveal_strlit("?Privacy_Accessibility");
        reveal_strlit("x-apple.systempreferences:com.apple.preference.security?Privacy_Accessibility");
        reveal_strlit("x-apple.systempreferences:com.apple.settings.PrivacySecurity.extension?Privacy_Accessibility");
        let u = seq!["x-apple.systempreferences:com.apple.preference.security?Privacy_Accessibility"@, "x-apple.systempreferences:com.apple.settings.PrivacySecurity.extension?Privacy_Accessibility"@];
        assert(settings_urls_of(id) == Some(u));
        assert(u[0].subrange(55, 77) =~= "?Privacy_Accessibility"@);
        assert(u[1].subrange(70, 92) =~= "?Privacy_Accessibility"@);
    } else if id == "microphone"@ {
        reveal_strlit("?Privacy_Microphone");
        reveal_strlit("x-apple.systempreferences:com.apple.preference.security?Privacy_Microphone");
        reveal_strlit("x-apple.systempreferences:com.apple.settings.PrivacySecurity.extension?Privacy_Microphone");
        let u = seq!["x-apple.systempreferences:com.apple.preference.security?Privacy_Microphone"@, "x-apple.systempreferences:com.apple.settings.PrivacySecurity.extension?Privacy_Microphone"@];
        assert(settings_urls_of(id) == Some(u));
        assert(u[0].subrange(55, 74) =~= "?Privacy_Microphone"@);
        assert(u[1].subrange(70, 89) =~= "?Privacy_Microphone"@);
    } else if id == "input_monitoring"@ {
        reveal_strlit("?Privacy_ListenEvent");
        reveal_strlit("x-apple.systempreferences:com.apple.preference.security?Privacy_ListenEvent");
        reveal_strlit("x-apple.systempreferences:com.apple.settings.PrivacySecurity.extension?Privacy_ListenEvent");
        let u = seq!["x-apple.systempreferences:com.apple.preference.security?Privacy_ListenEvent"@, "x-apple.systempreferences:com.apple.settings.PrivacySecurity.extension?Privacy_ListenEvent"@];
        assert(settings_urls_of(id) == Some(u));
        assert(u[0].subrange(55, 75) =~= "?Privacy_ListenEvent"@);
        assert(u[1].subrange(70, 90) =~= "?Privacy_ListenEvent"@);
    }
}

} // verus!
