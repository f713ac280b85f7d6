//! When each diagnostic is good, and what the rows suggest, stated over the
//! inputs the diagnostics read.
use vstd::prelude::*;

use crate::checks::{
    dock_check_spec, extension_check_spec, ids_in, nvidia_check_spec, opt_view, platform_profile_spec,
    secure_boot_key_spec, test_key_enrolled, SecureBootKeyProbe,
};
use crate::devices::{
    browser_camera_spec, fingerprint_login_spec, fingerprint_reader_spec, max98390_present,
    sound_app_spec, speakers_spec, BridgeProbe, SpeakerProbe,
};
use crate::diagnostics::{item_of, suggested, ActionKey, DiagnosticKey};
use crate::model::{names_with, FingerprintEnrollmentState, Health, SetupSnapshot};
use crate::parse::{libcamera_lists_camera, module_listed, secure_boot_state};
use crate::recommend::{recommendation, RecommendationState};
use crate::snapshot::{akmods_check_spec, boot_check_spec, libcamera_check_spec, package_check_spec};
use crate::text::{contains, starts_with};

verus! {

// ---------------------------------------------------------------------------
// Camera
// ---------------------------------------------------------------------------

/// The camera packages are good exactly when none is missing.
pub proof fn law_packages_good_iff_none_missing(installed: Seq<Seq<char>>, missing: Seq<Seq<char>>)
    ensures
        (package_check_spec(installed, missing).health == Health::Good) <==> missing.len() == 0,
        missing.len() == 0 ==> package_check_spec(installed, missing).code == "packages-installed"@,
        missing.len() > 0 ==> package_check_spec(installed, missing).code == "packages-missing"@,
{
}

/// The akmods row fails exactly when the packaged driver is installed and
/// its build failed, is good when it is installed and did not fail, and is
/// unknown when the driver is not installed.
pub proof fn law_akmods_row_follows_build(driver_installed: bool, failed: bool)
    ensures
        (akmods_check_spec(driver_installed, failed).health == Health::Error) <==> (driver_installed
            && failed),
        (akmods_check_spec(driver_installed, failed).health == Health::Good) <==> (driver_installed
            && !failed),
        (akmods_check_spec(driver_installed, failed).health == Health::Unknown) <==> !driver_installed,
        driver_installed && failed ==> akmods_check_spec(driver_installed, failed).code
            == "akmods-failed"@,
{
}

/// The boot row is an error exactly when the kernel log shows the clock
/// failure, and good otherwise.
pub proof fn law_boot_row_follows_clock_error(clock: bool)
    ensures
        (boot_check_spec(clock).health == Health::Error) <==> clock,
        (boot_check_spec(clock).health == Health::Good) <==> !clock,
        clock ==> boot_check_spec(clock).code == "boot-clock-error"@,
{
}

/// The direct camera path is good exactly when `cam -l` ran and listed the
/// camera; when it could not run and the old browser rule hides the raw
/// nodes, the path is reported blocked.
pub proof fn law_libcamera_row(output: Option<Seq<char>>, blocked: bool, probe_failed: bool)
    ensures
        (libcamera_check_spec(output, blocked, probe_failed).health == Health::Good) <==> (
        output matches Some(o) && libcamera_lists_camera(o)),
        output matches Some(o) && libcamera_lists_camera(o) ==> libcamera_check_spec(
            output,
            blocked,
            probe_failed,
        ).code == "libcamera-ready"@,
        output is None && blocked ==> {
            &&& libcamera_check_spec(output, blocked, probe_failed).health == Health::Error
            &&& libcamera_check_spec(output, blocked, probe_failed).code
                == "libcamera-permission-blocked"@
        },
{
}

/// The browser camera is never good while a bridge package is missing, and
/// it is good only with the relay running and enabled at boot on a loopback
/// device that captures video.
pub proof fn law_browser_camera_good_needs_the_whole_bridge(
    missing: Seq<Seq<char>>,
    libcamera_detected: bool,
    camera_source_ready: bool,
    b: BridgeProbe,
)
    ensures
        missing.len() > 0 ==> {
            &&& browser_camera_spec(missing, libcamera_detected, camera_source_ready, b).health
                == Health::Warning
            &&& browser_camera_spec(missing, libcamera_detected, camera_source_ready, b).code
                == "browser-packages-missing"@
        },
        browser_camera_spec(missing, libcamera_detected, camera_source_ready, b).health
            == Health::Good ==> {
            &&& missing.len() == 0
            &&& b.relay_active
            &&& opt_view(b.relay_enabled) == Some("enabled"@)
            &&& b.loopback_device is Some
            &&& (b.loopback_description matches Some(d) && contains(d@, "Video Capture"@))
        },
{
}

// ---------------------------------------------------------------------------
// Audio
// ---------------------------------------------------------------------------

/// The speakers are good exactly when a MAX98390 amplifier is present, no
/// speaker package is missing, both modules are indexed and loaded, and the
/// I2C setup service is active or enabled.
pub proof fn law_speakers_good_iff_ready(p: SpeakerProbe)
    ensures
        (speakers_spec(p).health == Health::Good) <==> {
            &&& max98390_present(p.acpi_devices@, p.i2c_device_names@)
            &&& names_with(p.packages@, false).len() == 0
            &&& p.core_module_path is Some
            &&& p.i2c_module_path is Some
            &&& (p.proc_modules matches Some(m) && module_listed(m@, "snd_hda_scodec_max98390"@))
            &&& (p.proc_modules matches Some(m) && module_listed(
                m@,
                "snd_hda_scodec_max98390_i2c"@,
            ))
            &&& (p.setup_active || (p.setup_enabled matches Some(s) && starts_with(
                s@,
                "enabled"@,
            )))
        },
        !max98390_present(p.acpi_devices@, p.i2c_device_names@) ==> speakers_spec(p).code
            == "speakers-unsupported"@,
{
}

/// The sound app row is good exactly when the app is installed.
pub proof fn law_sound_app_good_iff_installed(installed: bool)
    ensures
        (sound_app_spec(installed).health == Health::Good) <==> installed,
{
}

// ---------------------------------------------------------------------------
// Fingerprint
// ---------------------------------------------------------------------------

/// The fingerprint reader is good exactly when a sensor was found, the
/// stack is complete and `fprintd-list` answered for the user (enrolled or
/// not).
pub proof fn law_fingerprint_reader_good_iff_responding(
    sensor: Option<Seq<char>>,
    missing: Seq<Seq<char>>,
    state: FingerprintEnrollmentState,
)
    ensures
        (fingerprint_reader_spec(sensor, missing, state).health == Health::Good) <==> (sensor is Some
            && missing.len() == 0 && (state == FingerprintEnrollmentState::Enrolled || state
            == FingerprintEnrollmentState::NotEnrolled)),
{
}

/// Fingerprint login is good exactly when a sensor was found, the stack is
/// complete, authselect has `with-fingerprint` and the user has a
/// fingerprint enrolled.
pub proof fn law_fingerprint_login_good_iff_all_steps_done(
    sensor_present: bool,
    stack_complete: bool,
    authselect_enabled: bool,
    state: FingerprintEnrollmentState,
)
    ensures
        (fingerprint_login_spec(sensor_present, stack_complete, authselect_enabled, state).health
            == Health::Good) <==> (sensor_present && stack_complete && authselect_enabled && state
            == FingerprintEnrollmentState::Enrolled),
{
}

// ---------------------------------------------------------------------------
// GPU, platform, Secure Boot
// ---------------------------------------------------------------------------

/// The NVIDIA row is good exactly when the NVIDIA modules are loaded, and
/// warns when only the akmod is installed.
pub proof fn law_nvidia_good_iff_loaded(akmod_installed: bool, loaded: bool, smi_installed: bool)
    ensures
        (nvidia_check_spec(akmod_installed, loaded, smi_installed).health == Health::Good) <==> loaded,
        !loaded && akmod_installed ==> nvidia_check_spec(akmod_installed, loaded, smi_installed).health
            == Health::Warning,
{
}

/// The platform profile is good exactly when the active profile is
/// `balanced`, and unknown when the profile could not be read.
pub proof fn law_platform_good_iff_balanced(current: Option<Seq<char>>, choices: Option<Seq<char>>)
    ensures
        (platform_profile_spec(current, choices).health == Health::Good) <==> current == Some(
            "balanced"@,
        ),
        current is None ==> platform_profile_spec(current, choices).health == Health::Unknown,
{
}

/// With Secure Boot off the key needs nothing; with it on and a key file
/// missing, the key must be prepared; a key that `--test-key` reports
/// enrolled is good.
pub proof fn law_secure_boot_key_states(p: SecureBootKeyProbe)
    ensures
        secure_boot_state(opt_view(p.sb_state)) == Some(false) ==> {
            &&& secure_boot_key_spec(p).health == Health::Good
            &&& secure_boot_key_spec(p).code == "mok-not-needed"@
        },
        secure_boot_state(opt_view(p.sb_state)) == Some(true) && (!p.public_key_exists
            || !p.private_key_exists) ==> {
            &&& secure_boot_key_spec(p).health == Health::Error
            &&& secure_boot_key_spec(p).code == "mok-key-missing"@
        },
        secure_boot_state(opt_view(p.sb_state)) == Some(true) && p.public_key_exists
            && p.private_key_exists && test_key_enrolled(p.test_key) ==> {
            &&& secure_boot_key_spec(p).health == Health::Good
            &&& secure_boot_key_spec(p).code == "mok-enrolled"@
        },
        secure_boot_state(opt_view(p.sb_state)) is None ==> secure_boot_key_spec(p).health
            == Health::Unknown,
{
}

// ---------------------------------------------------------------------------
// Desktop
// ---------------------------------------------------------------------------

proof fn lemma_ids_in_nonempty(ids: Seq<Seq<char>>, list: Seq<Seq<char>>)
    ensures
        ids_in(ids, list).len() > 0 <==> exists|i: int| 0 <= i < ids.len() && list.contains(
            #[trigger] ids[i],
        ),
    decreases ids.len(),
{
    if ids.len() > 0 {
        let init = ids.drop_last();
        lemma_ids_in_nonempty(init, list);
        if exists|i: int| 0 <= i < ids.len() && list.contains(#[trigger] ids[i]) {
            let i = choose|i: int| 0 <= i < ids.len() && list.contains(#[trigger] ids[i]);
            if i < ids.len() - 1 {
                assert(init[i] == ids[i]);
            }
        }
        if exists|i: int| 0 <= i < init.len() && list.contains(#[trigger] init[i]) {
            let i = choose|i: int| 0 <= i < init.len() && list.contains(#[trigger] init[i]);
            assert(ids[i] == init[i]);
        }
    }
}

/// An extension group is good exactly when one of its extensions is enabled;
/// it warns when none is enabled but one is installed.
pub proof fn law_extension_good_iff_one_enabled(
    title: Seq<char>,
    ids: Seq<Seq<char>>,
    enabled: Seq<Seq<char>>,
    installed: Seq<Seq<char>>,
    missing_detail: Seq<char>,
)
    ensures
        (extension_check_spec(title, ids, enabled, installed, missing_detail).health == Health::Good)
            <==> exists|i: int| 0 <= i < ids.len() && enabled.contains(#[trigger] ids[i]),
        (!exists|i: int| 0 <= i < ids.len() && enabled.contains(#[trigger] ids[i])) && (exists|
            i: int,
        |
            0 <= i < ids.len() && installed.contains(#[trigger] ids[i])) ==> extension_check_spec(
            title,
            ids,
            enabled,
            installed,
            missing_detail,
        ).health == Health::Warning,
{
    lemma_ids_in_nonempty(ids, enabled);
    lemma_ids_in_nonempty(ids, installed);
}

/// The dock is good exactly when Dash to Dock is enabled and matches the
/// recommended profile.
pub proof fn law_dock_good_iff_profile_matches(enabled: bool, installed: bool, mismatches: Seq<Seq<char>>)
    ensures
        (dock_check_spec(enabled, installed, mismatches).health == Health::Good) <==> (enabled
            && mismatches.len() == 0),
        enabled && mismatches.len() > 0 ==> dock_check_spec(enabled, installed, mismatches).code
            == "dash-to-dock-mismatch"@,
{
}

// ---------------------------------------------------------------------------
// Rows and suggestions
// ---------------------------------------------------------------------------

/// Each diagnostic row shows its own check of the snapshot.
pub proof fn law_rows_show_their_own_check(s: SetupSnapshot)
    ensures
        item_of(s, DiagnosticKey::Packages) == s.packages,
        item_of(s, DiagnosticKey::Akmods) == s.akmods,
        item_of(s, DiagnosticKey::Module) == s.module,
        item_of(s, DiagnosticKey::Libcamera) == s.libcamera,
        item_of(s, DiagnosticKey::BrowserCamera) == s.browser_camera,
        item_of(s, DiagnosticKey::Boot) == s.boot,
        item_of(s, DiagnosticKey::Speakers) == s.speakers,
        item_of(s, DiagnosticKey::SoundApp) == s.sound_app,
        item_of(s, DiagnosticKey::FingerprintReader) == s.fingerprint_reader,
        item_of(s, DiagnosticKey::FingerprintLogin) == s.fingerprint_login,
        item_of(s, DiagnosticKey::Gpu) == s.gpu,
        item_of(s, DiagnosticKey::SecureBootKey) == s.secure_boot_key,
        item_of(s, DiagnosticKey::PlatformProfile) == s.platform_profile,
        item_of(s, DiagnosticKey::Clipboard) == s.clipboard_extension,
        item_of(s, DiagnosticKey::Gsconnect) == s.gsconnect_extension,
        item_of(s, DiagnosticKey::DesktopIcons) == s.desktop_icons_extension,
        item_of(s, DiagnosticKey::Dock) == s.dock_extension,
{
}

/// The rows that need no Secure Boot steps suggest their own fixes: the
/// browser camera the bridge and a reboot, the fingerprint reader a stack
/// reinstall, the platform profile the balanced profile, each until the row
/// is fine.
pub proof fn law_plain_rows_suggest_their_fix(s: SetupSnapshot)
    ensures
        suggested(s, DiagnosticKey::BrowserCamera) == if s.browser_camera.health == Health::Good {
            Seq::<ActionKey>::empty()
        } else {
            seq![ActionKey::EnableBrowserCamera, ActionKey::Reboot]
        },
        suggested(s, DiagnosticKey::FingerprintReader) == if s.fingerprint_reader.code@
            == "fingerprint-reader-ready"@ {
            Seq::<ActionKey>::empty()
        } else {
            seq![ActionKey::RepairFingerprintStack]
        },
        suggested(s, DiagnosticKey::PlatformProfile) == if s.platform_profile.code@
            == "platform-balanced"@ {
            Seq::<ActionKey>::empty()
        } else {
            seq![ActionKey::SetBalancedProfile]
        },
{
}

/// The Secure Boot key row suggests nothing once the key is enrolled or not
/// needed, a reboot while enrollment waits, and otherwise preparing the key
/// and rebooting.
pub proof fn law_secure_boot_row_suggestions(s: SetupSnapshot)
    ensures
        s.secure_boot_key.code@ == "mok-enrolled"@ || s.secure_boot_key.code@ == "mok-not-needed"@
            ==> suggested(s, DiagnosticKey::SecureBootKey) == Seq::<ActionKey>::empty(),
        s.secure_boot_key.code@ == "mok-pending-enrollment"@ ==> suggested(
            s,
            DiagnosticKey::SecureBootKey,
        ) == seq![ActionKey::Reboot],
        s.secure_boot_key.code@ == "mok-not-enrolled"@ || s.secure_boot_key.code@
            == "mok-key-missing"@ ==> suggested(s, DiagnosticKey::SecureBootKey) == seq![
            ActionKey::PrepareSecureBootKey,
            ActionKey::Reboot,
        ],
{
    reveal_strlit("mok-enrolled");
    reveal_strlit("mok-not-needed");
    reveal_strlit("mok-pending-enrollment");
    reveal_strlit("mok-not-enrolled");
    reveal_strlit("mok-key-missing");
    let c = s.secure_boot_key.code@;
    if c == "mok-pending-enrollment"@ {
        assert(c.len() != "mok-enrolled"@.len());
        assert(c.len() != "mok-not-needed"@.len());
    }
    if c == "mok-not-enrolled"@ || c == "mok-key-missing"@ {
        assert(c.len() != "mok-pending-enrollment"@.len());
        assert(c[4] != "mok-enrolled"@[4]);
        assert(c != "mok-not-needed"@) by {
            if c == "mok-not-enrolled"@ {
                assert(c[8] != "mok-not-needed"@[8]);
            } else {
                assert(c[4] != "mok-not-needed"@[4]);
            }
        }
    }
}

// ---------------------------------------------------------------------------
// Recommendation
// ---------------------------------------------------------------------------

/// With the Secure Boot key needing nothing, missing camera packages are
/// what the setup recommends installing first.
pub proof fn law_missing_packages_are_recommended(sbk: Seq<char>, state: RecommendationState)
    requires
        sbk != "mok-key-missing"@,
        sbk != "mok-not-enrolled"@,
        sbk != "mok-pending-enrollment"@,
        state.missing_packages,
    ensures
        recommendation(sbk, state).0 == "Instalação pendente"@,
{
}

/// When everything is in place (packages, build, loaded patched module,
/// camera on the direct path, browser bridge, camera app, speakers and
/// sound app), the setup reports the main flow as ready.
pub proof fn law_everything_ready_is_reported_ready(sbk: Seq<char>, state: RecommendationState)
    requires
        sbk != "mok-key-missing"@,
        sbk != "mok-not-enrolled"@,
        sbk != "mok-pending-enrollment"@,
        !state.missing_packages,
        !state.akmods_failed,
        state.module_origin == crate::model::ModuleOrigin::Patched,
        state.module_loaded,
        !state.libcamera_permission_blocked,
        state.libcamera_detected,
        state.browser_camera_ready,
        state.camera_app_installed,
        state.speaker_ready,
        state.sound_app_installed,
    ensures
        recommendation(sbk, state).0 == "Fluxo principal da câmera parece pronto"@,
{
}

} // verus!
