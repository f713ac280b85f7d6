//! The smoke test: one round of diagnostics summed up in `key=value` lines,
//! and the verdict on it.
use vstd::prelude::*;

use crate::commands::{APP_ID, APP_NAME};
use crate::model::{concat2, health_icon_name, join_strs, owned, SetupSnapshot};
use crate::snapshot::{collect_snapshot, kernel_line, SystemProbes};
use crate::text::{chars_of, is_blank, is_blank_exec, join, str_views, views};

verus! {

/// How the smoke test writes a flag.
pub open spec fn bool_text(b: bool) -> Seq<char> {
    if b {
        "true"@
    } else {
        "false"@
    }
}

/// The icon of every diagnostic, in list order.
pub open spec fn check_icons(s: SetupSnapshot) -> Seq<Seq<char>> {
    seq![
        health_icon_name(s.packages.health),
        health_icon_name(s.akmods.health),
        health_icon_name(s.module.health),
        health_icon_name(s.libcamera.health),
        health_icon_name(s.browser_camera.health),
        health_icon_name(s.boot.health),
        health_icon_name(s.speakers.health),
        health_icon_name(s.sound_app.health),
        health_icon_name(s.fingerprint_reader.health),
        health_icon_name(s.fingerprint_login.health),
        health_icon_name(s.gpu.health),
        health_icon_name(s.secure_boot_key.health),
        health_icon_name(s.platform_profile.health),
        health_icon_name(s.clipboard_extension.health),
        health_icon_name(s.gsconnect_extension.health),
        health_icon_name(s.desktop_icons_extension.health),
        health_icon_name(s.dock_extension.health),
    ]
}

/// The lines the smoke test prints.
pub open spec fn smoke_lines(s: SetupSnapshot) -> Seq<Seq<char>> {
    seq![
        "app_id="@ + APP_ID@,
        "app_name="@ + APP_NAME@,
        "notebook="@ + s.system.notebook@,
        "fedora="@ + s.system.fedora@,
        "kernel="@ + s.system.kernel@,
        "secure_boot="@ + s.system.secure_boot@,
        "checks="@ + join(check_icons(s), ","@),
        "recommendation_title="@ + s.recommendation_title@,
        "camera_app_installed="@ + bool_text(s.camera_app_installed),
        "sound_app_installed="@ + bool_text(s.sound_app_installed),
    ]
}

fn bool_str(b: bool) -> (r: &'static str)
    ensures
        r@ == bool_text(b),
{
    if b {
        "true"
    } else {
        "false"
    }
}

/// The lines the smoke test prints for a snapshot.
pub fn smoke_test_report(s: &SetupSnapshot) -> (r: Vec<String>)
    ensures
        views(r@) == smoke_lines(*s),
{
    let icons: Vec<&str> = vec![
        s.packages.health.icon_name(),
        s.akmods.health.icon_name(),
        s.module.health.icon_name(),
        s.libcamera.health.icon_name(),
        s.browser_camera.health.icon_name(),
        s.boot.health.icon_name(),
        s.speakers.health.icon_name(),
        s.sound_app.health.icon_name(),
        s.fingerprint_reader.health.icon_name(),
        s.fingerprint_login.health.icon_name(),
        s.gpu.health.icon_name(),
        s.secure_boot_key.health.icon_name(),
        s.platform_profile.health.icon_name(),
        s.clipboard_extension.health.icon_name(),
        s.gsconnect_extension.health.icon_name(),
        s.desktop_icons_extension.health.icon_name(),
        s.dock_extension.health.icon_name(),
    ];
    assert(str_views(icons@) =~= check_icons(*s));
    let checks = join_strs(&icons, ",");
    let r: Vec<String> = vec![
        concat2("app_id=", APP_ID),
        concat2("app_name=", APP_NAME),
        concat2("notebook=", s.system.notebook.as_str()),
        concat2("fedora=", s.system.fedora.as_str()),
        concat2("kernel=", s.system.kernel.as_str()),
        concat2("secure_boot=", s.system.secure_boot.as_str()),
        concat2("checks=", checks.as_str()),
        concat2("recommendation_title=", s.recommendation_title.as_str()),
        concat2("camera_app_installed=", bool_str(s.camera_app_installed)),
        concat2("sound_app_installed=", bool_str(s.sound_app_installed)),
    ];
    assert(views(r@) =~= smoke_lines(*s));
    r
}

/// Why the smoke test fails on an empty kernel version.
pub const EMPTY_KERNEL_TEXT: &'static str = "Kernel não pode estar vazio no smoke test.";

/// The smoke test passes unless the kernel version is blank.
pub fn smoke_test_verdict(s: &SetupSnapshot) -> (r: Result<(), String>)
    ensures
        r is Err <==> is_blank(s.system.kernel@),
        r matches Err(e) ==> e@ == EMPTY_KERNEL_TEXT@,
{
    let chars = chars_of(s.system.kernel.as_str());
    if is_blank_exec(chars.as_slice()) {
        Err(owned(EMPTY_KERNEL_TEXT))
    } else {
        Ok(())
    }
}

/// Runs the smoke test on one reading of the system: the snapshot, the lines
/// to print and the verdict, which always passes.
pub fn smoke_test(p: &SystemProbes) -> (r: (SetupSnapshot, Vec<String>, Result<(), String>))
    ensures
        r.0.system.kernel@ == kernel_line(crate::checks::opt_view(p.kernel)),
        views(r.1@) == smoke_lines(r.0),
        r.2 is Ok,
{
    let snapshot = collect_snapshot(p);
    proof {
        crate::laws::law_smoke_test_passes(crate::checks::opt_view(p.kernel));
    }
    let lines = smoke_test_report(&snapshot);
    let verdict = smoke_test_verdict(&snapshot);
    (snapshot, lines, verdict)
}

} // verus!
