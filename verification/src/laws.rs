//! Properties of the setup as a whole, stated over the spec functions that
//! the contracts use.
use vstd::prelude::*;

use crate::actions::{explained_output, mentions_key_rejection};
use crate::diagnostics::{
    count_health, dedupe, healths, no_duplicates, suggested, with_secure_boot, ActionKey,
    DiagnosticKey,
};
use crate::model::{names_with, Health, ModuleOrigin, PackageStatus, SetupSnapshot};
use crate::recommend::{rec_mok, rec_prepare, recommendation, RecommendationState};
use crate::checks::CommandOutcome;
use crate::parse::libcamera_lists_camera;
use crate::snapshot::{clock_probe_failed, command_text_spec, kernel_line, libcamera_check_spec};
use crate::text::{is_blank, lemma_trim_idempotent, trim};

verus! {

// ---------------------------------------------------------------------------
// Deduplicated action lists
// ---------------------------------------------------------------------------

/// Deduplicating a list of actions loses none of them and adds none: an action
/// is in the result exactly when it is in the list.
pub proof fn law_dedupe_keeps_every_action(s: Seq<ActionKey>, a: ActionKey)
    ensures
        dedupe(s).contains(a) <==> s.contains(a),
    decreases s.len(),
{
    if s.len() > 0 {
        let init = s.drop_last();
        law_dedupe_keeps_every_action(init, a);
        let d = dedupe(init);
        vstd::seq_lib::lemma_seq_contains_after_push(d, s.last(), a);
        vstd::seq_lib::lemma_seq_contains_after_push(init, s.last(), a);
        assert(init.push(s.last()) =~= s);
    }
}

/// A deduplicated list of actions names no action twice.
pub proof fn law_dedupe_has_no_duplicates(s: Seq<ActionKey>)
    ensures
        no_duplicates(dedupe(s)),
    decreases s.len(),
{
    if s.len() > 0 {
        let init = s.drop_last();
        law_dedupe_has_no_duplicates(init);
        let d = dedupe(init);
        if !d.contains(s.last()) {
            let e = d.push(s.last());
            assert forall|i: int, j: int| 0 <= i < j < e.len() implies e[i] != e[j] by {
                if j == d.len() {
                    assert(e[i] == d[i]);
                    assert(d.contains(d[i]));
                }
            }
        }
    }
}

/// A list that names no action twice is left as it is.
pub proof fn law_dedupe_keeps_distinct_lists(s: Seq<ActionKey>)
    requires
        no_duplicates(s),
    ensures
        dedupe(s) == s,
    decreases s.len(),
{
    if s.len() > 0 {
        let init = s.drop_last();
        assert(no_duplicates(init)) by {
            assert forall|i: int, j: int| 0 <= i < j < init.len() implies init[i] != init[j] by {
                assert(init[i] == s[i] && init[j] == s[j]);
            }
        }
        law_dedupe_keeps_distinct_lists(init);
        assert(!init.contains(s.last())) by {
            if init.contains(s.last()) {
                let k: int = choose|k: int| 0 <= k < init.len() && init[k] == s.last();
                assert(s[k] == s[s.len() - 1]);
            }
        }
        assert(init.push(s.last()) =~= s);
    }
}

/// Deduplicating twice gives what deduplicating once gives.
pub proof fn law_dedupe_is_idempotent(s: Seq<ActionKey>)
    ensures
        dedupe(dedupe(s)) == dedupe(s),
{
    law_dedupe_has_no_duplicates(s);
    law_dedupe_keeps_distinct_lists(dedupe(s));
}

/// The first action of a list stays first after deduplication.
pub proof fn law_dedupe_keeps_the_first_action(s: Seq<ActionKey>)
    requires
        s.len() > 0,
    ensures
        dedupe(s).len() > 0,
        dedupe(s)[0] == s[0],
    decreases s.len(),
{
    if s.len() > 1 {
        let init = s.drop_last();
        law_dedupe_keeps_the_first_action(init);
        assert(init[0] == s[0]);
    } else {
        assert(s.drop_last().len() == 0);
        assert(dedupe(s.drop_last()) =~= seq![]);
    }
}

// ---------------------------------------------------------------------------
// Suggested actions
// ---------------------------------------------------------------------------

/// A diagnostic without driver actions of its own never shows the Secure
/// Boot steps, whatever the state of the key.
pub proof fn law_no_secure_boot_steps_without_actions(code: Seq<char>)
    ensures
        with_secure_boot(code, seq![]) == Seq::<ActionKey>::empty(),
{
}

/// While the akmods key is missing or not enrolled, a driver action list
/// starts with preparing the key, keeps every one of its actions and
/// includes a reboot.
pub proof fn law_missing_key_frames_driver_actions(code: Seq<char>, actions: Seq<ActionKey>)
    requires
        actions.len() > 0,
        code == "mok-key-missing"@ || code == "mok-not-enrolled"@,
    ensures
        with_secure_boot(code, actions).len() > 0,
        with_secure_boot(code, actions)[0] == ActionKey::PrepareSecureBootKey,
        with_secure_boot(code, actions).contains(ActionKey::Reboot),
        forall|a: ActionKey| actions.contains(a) ==> with_secure_boot(code, actions).contains(a),
{
    let full = seq![ActionKey::PrepareSecureBootKey] + actions + seq![ActionKey::Reboot];
    law_dedupe_keeps_the_first_action(full);
    assert(full[full.len() - 1] == ActionKey::Reboot);
    law_dedupe_keeps_every_action(full, ActionKey::Reboot);
    assert forall|a: ActionKey| actions.contains(a) implies with_secure_boot(code, actions).contains(
        a,
    ) by {
        let k: int = choose|k: int| 0 <= k < actions.len() && actions[k] == a;
        assert(full[k + 1] == a);
        law_dedupe_keeps_every_action(full, a);
    }
}

/// While the key's enrollment waits for a reboot, a driver action list starts
/// with the reboot and keeps every one of its actions.
pub proof fn law_pending_enrollment_reboots_first(actions: Seq<ActionKey>)
    requires
        actions.len() > 0,
    ensures
        with_secure_boot("mok-pending-enrollment"@, actions)[0] == ActionKey::Reboot,
        forall|a: ActionKey|
            actions.contains(a) ==> with_secure_boot("mok-pending-enrollment"@, actions).contains(a),
{
    reveal_strlit("mok-pending-enrollment");
    reveal_strlit("mok-key-missing");
    reveal_strlit("mok-not-enrolled");
    let code = "mok-pending-enrollment"@;
    assert(code != "mok-key-missing"@ && code != "mok-not-enrolled"@) by {
        assert(code[4] != "mok-key-missing"@[4]);
        assert(code[4] != "mok-not-enrolled"@[4]);
    }
    let full = seq![ActionKey::Reboot] + actions;
    law_dedupe_keeps_the_first_action(full);
    assert forall|a: ActionKey| actions.contains(a) implies with_secure_boot(code, actions).contains(
        a,
    ) by {
        let k: int = choose|k: int| 0 <= k < actions.len() && actions[k] == a;
        assert(full[k + 1] == a);
        law_dedupe_keeps_every_action(full, a);
    }
}

proof fn lemma_wrapped_distinct(code: Seq<char>, actions: Seq<ActionKey>)
    ensures
        no_duplicates(with_secure_boot(code, actions)),
{
    if actions.len() == 0 {
    } else if code == "mok-key-missing"@ || code == "mok-not-enrolled"@ {
        law_dedupe_has_no_duplicates(
            seq![ActionKey::PrepareSecureBootKey] + actions + seq![ActionKey::Reboot],
        );
    } else if code == "mok-pending-enrollment"@ {
        law_dedupe_has_no_duplicates(seq![ActionKey::Reboot] + actions);
    } else {
        law_dedupe_has_no_duplicates(actions);
    }
}

/// The suggested actions of a diagnostic never name an action twice.
pub proof fn law_suggested_actions_are_distinct(s: SetupSnapshot, key: DiagnosticKey)
    ensures
        no_duplicates(suggested(s, key)),
{
    let sbk = s.secure_boot_key.code@;
    match key {
        DiagnosticKey::Packages | DiagnosticKey::Akmods | DiagnosticKey::Module
        | DiagnosticKey::Libcamera | DiagnosticKey::Boot | DiagnosticKey::Speakers
        | DiagnosticKey::Gpu => {
            let r = suggested(s, key);
            assert(exists|a: Seq<ActionKey>| r == with_secure_boot(sbk, a)) by {
                match key {
                    DiagnosticKey::Packages => {
                        let a = if s.packages.code@ == "packages-missing"@ {
                            seq![ActionKey::InstallMainSupport]
                        } else {
                            seq![]
                        };
                        assert(r == with_secure_boot(sbk, a));
                    },
                    DiagnosticKey::Akmods => {
                        let a = if s.akmods.code@ == "akmods-failed"@ {
                            seq![ActionKey::RepairDriver, ActionKey::Reboot]
                        } else {
                            seq![]
                        };
                        assert(r == with_secure_boot(sbk, a));
                    },
                    DiagnosticKey::Module => {
                        let a = crate::diagnostics::module_actions(s.module.code@);
                        assert(r == with_secure_boot(sbk, a));
                    },
                    DiagnosticKey::Libcamera => {
                        let code = s.libcamera.code@;
                        let a = if s.libcamera.health == Health::Good {
                            seq![]
                        } else if code == "libcamera-permission-blocked"@ {
                            seq![ActionKey::EnableBrowserCamera]
                        } else if code == "libcamera-clock-probe-failed"@ {
                            seq![ActionKey::ForceDriverPriority, ActionKey::Reboot]
                        } else {
                            crate::diagnostics::libcamera_module_actions(s.module.code@)
                        };
                        assert(r == with_secure_boot(sbk, a));
                    },
                    DiagnosticKey::Boot => {
                        let a = if s.boot.health == Health::Good {
                            seq![]
                        } else {
                            seq![
                                ActionKey::RepairDriver,
                                ActionKey::ForceDriverPriority,
                                ActionKey::Reboot,
                            ]
                        };
                        assert(r == with_secure_boot(sbk, a));
                    },
                    DiagnosticKey::Speakers => {
                        let code = s.speakers.code@;
                        let a = if s.speakers.health == Health::Good || code
                            == "speakers-unsupported"@ {
                            seq![]
                        } else if s.speakers.health == Health::Error {
                            seq![ActionKey::EnableSpeakers]
                        } else {
                            seq![ActionKey::EnableSpeakers, ActionKey::Reboot]
                        };
                        assert(r == with_secure_boot(sbk, a));
                    },
                    _ => {
                        let a = if s.gpu.health == Health::Good {
                            seq![]
                        } else {
                            seq![ActionKey::RepairNvidia, ActionKey::Reboot]
                        };
                        assert(r == with_secure_boot(sbk, a));
                    },
                }
            }
            let a = choose|a: Seq<ActionKey>| r == with_secure_boot(sbk, a);
            lemma_wrapped_distinct(sbk, a);
        },
        _ => {
            let r = suggested(s, key);
            assert forall|i: int, j: int| 0 <= i < j < r.len() implies r[i] != r[j] by {
                assert(r.len() <= 3);
            }
        },
    }
}

/// The suggested-actions page lists the suggested actions of a diagnostic
/// exactly: deduplicating them changes nothing.
pub proof fn law_suggested_page_lists_the_suggestions(s: SetupSnapshot, key: DiagnosticKey)
    ensures
        dedupe(suggested(s, key)) == suggested(s, key),
{
    law_suggested_actions_are_distinct(s, key);
    law_dedupe_keeps_distinct_lists(suggested(s, key));
}

/// When the kernel's early probe of the camera failed on the 26 MHz clock,
/// the direct camera path suggests adjusting the driver priority and a
/// reboot, whatever the state of the Secure Boot key.
pub proof fn law_clock_probe_failure_suggests_priority_and_reboot(s: SetupSnapshot)
    requires
        s.libcamera.health != Health::Good,
        s.libcamera.code@ == "libcamera-clock-probe-failed"@,
    ensures
        suggested(s, DiagnosticKey::Libcamera).contains(ActionKey::ForceDriverPriority),
        suggested(s, DiagnosticKey::Libcamera).contains(ActionKey::Reboot),
{
    reveal_strlit("libcamera-clock-probe-failed");
    reveal_strlit("libcamera-permission-blocked");
    let code = s.libcamera.code@;
    assert(code != "libcamera-permission-blocked"@) by {
        assert(code[10] != "libcamera-permission-blocked"@[10]);
    }
    let actions = seq![ActionKey::ForceDriverPriority, ActionKey::Reboot];
    let sbk = s.secure_boot_key.code@;
    assert(suggested(s, DiagnosticKey::Libcamera) == with_secure_boot(sbk, actions));
    assert(actions[0] == ActionKey::ForceDriverPriority && actions[1] == ActionKey::Reboot);
    assert(actions.contains(ActionKey::ForceDriverPriority));
    assert(actions.contains(ActionKey::Reboot));
    let full = if sbk == "mok-key-missing"@ || sbk == "mok-not-enrolled"@ {
        seq![ActionKey::PrepareSecureBootKey] + actions + seq![ActionKey::Reboot]
    } else if sbk == "mok-pending-enrollment"@ {
        seq![ActionKey::Reboot] + actions
    } else {
        actions
    };
    assert(with_secure_boot(sbk, actions) == dedupe(full));
    assert(full.contains(ActionKey::ForceDriverPriority) && full.contains(ActionKey::Reboot)) by {
        if sbk == "mok-key-missing"@ || sbk == "mok-not-enrolled"@ {
            assert(full[1] == ActionKey::ForceDriverPriority);
            assert(full[2] == ActionKey::Reboot);
        } else if sbk == "mok-pending-enrollment"@ {
            assert(full[1] == ActionKey::ForceDriverPriority);
            assert(full[0] == ActionKey::Reboot);
        }
    }
    law_dedupe_keeps_every_action(full, ActionKey::ForceDriverPriority);
    law_dedupe_keeps_every_action(full, ActionKey::Reboot);
}

/// Camera after a kernel update: when the boot's early probe of the sensor
/// failed on the 26 MHz clock, the patched module is the one loaded now and
/// `cam -l` runs but does not list the camera, the direct camera path is
/// reported as failed and its suggested actions adjust the driver priority
/// and reboot.
pub proof fn law_camera_after_kernel_update(s: SetupSnapshot, cam_output: Seq<char>, blocked: bool)
    requires
        !libcamera_lists_camera(cam_output),
        s.libcamera@ == libcamera_check_spec(
            Some(cam_output),
            blocked,
            clock_probe_failed(ModuleOrigin::Patched, true, true),
        ),
    ensures
        s.libcamera.health == Health::Error,
        s.libcamera.code@ == "libcamera-clock-probe-failed"@,
        suggested(s, DiagnosticKey::Libcamera).contains(ActionKey::ForceDriverPriority),
        suggested(s, DiagnosticKey::Libcamera).contains(ActionKey::Reboot),
{
    law_clock_probe_failure_suggests_priority_and_reboot(s);
}

// ---------------------------------------------------------------------------
// Alerts
// ---------------------------------------------------------------------------

proof fn lemma_two_counts_bound(hs: Seq<Health>)
    ensures
        count_health(hs, Health::Warning) + count_health(hs, Health::Error) <= hs.len(),
    decreases hs.len(),
{
    if hs.len() > 0 {
        lemma_two_counts_bound(hs.drop_last());
    }
}

proof fn lemma_count_zero(hs: Seq<Health>, h: Health)
    ensures
        count_health(hs, h) == 0 <==> !hs.contains(h),
    decreases hs.len(),
{
    if hs.len() > 0 {
        lemma_count_zero(hs.drop_last(), h);
        vstd::seq_lib::lemma_seq_contains_after_push(hs.drop_last(), hs.last(), h);
        assert(hs.drop_last().push(hs.last()) =~= hs);
    }
}

/// The alerts are at most as many as the diagnostics, so the launcher badge
/// never counts more than 17.
pub proof fn law_alerts_are_bounded_by_the_diagnostics(s: SetupSnapshot)
    ensures
        count_health(healths(s), Health::Warning) + count_health(healths(s), Health::Error) <= 17,
{
    lemma_two_counts_bound(healths(s));
}

/// There is no alert exactly when no diagnostic is marked Warning or Error.
pub proof fn law_no_alerts_iff_no_warning_or_error(s: SetupSnapshot)
    ensures
        (count_health(healths(s), Health::Warning) == 0 && count_health(healths(s), Health::Error)
            == 0) <==> (forall|i: int|
            0 <= i < 17 ==> #[trigger] healths(s)[i] != Health::Warning && healths(s)[i]
                != Health::Error),
{
    let hs = healths(s);
    lemma_count_zero(hs, Health::Warning);
    lemma_count_zero(hs, Health::Error);
    if !hs.contains(Health::Warning) && !hs.contains(Health::Error) {
        assert forall|i: int| 0 <= i < 17 implies #[trigger] hs[i] != Health::Warning && hs[i]
            != Health::Error by {
            if hs[i] == Health::Warning {
                assert(hs.contains(Health::Warning));
            }
            if hs[i] == Health::Error {
                assert(hs.contains(Health::Error));
            }
        }
    }
}

// ---------------------------------------------------------------------------
// Recommendation
// ---------------------------------------------------------------------------

/// While the akmods key is missing or not enrolled, the recommendation is to
/// prepare it, whatever the state of packages, driver, camera and speakers.
pub proof fn law_secure_boot_key_is_recommended_first(sbk: Seq<char>, state: RecommendationState)
    requires
        sbk == "mok-key-missing"@ || sbk == "mok-not-enrolled"@,
    ensures
        recommendation(sbk, state) == rec_prepare(),
{
}

/// While the key's enrollment waits for a reboot, the recommendation is to
/// finish it, whatever else holds.
pub proof fn law_pending_enrollment_is_recommended_next(state: RecommendationState)
    ensures
        recommendation("mok-pending-enrollment"@, state) == rec_mok(),
{
    reveal_strlit("mok-pending-enrollment");
    reveal_strlit("mok-key-missing");
    reveal_strlit("mok-not-enrolled");
    let code = "mok-pending-enrollment"@;
    assert(code != "mok-key-missing"@ && code != "mok-not-enrolled"@) by {
        assert(code[4] != "mok-key-missing"@[4]);
        assert(code[4] != "mok-not-enrolled"@[4]);
    }
}

// ---------------------------------------------------------------------------
// Command results
// ---------------------------------------------------------------------------

/// The result dialog of a failed action always ends with the action's own
/// output, when it printed anything, and adds text in front of it only when
/// the kernel rejected a module's key.
pub proof fn law_failure_dialog_keeps_the_output(output: Seq<char>, public_key_exists: bool)
    requires
        !is_blank(output),
    ensures
        exists|advice: Seq<char>| explained_output(output, public_key_exists) == advice + output,
        !mentions_key_rejection(output) ==> explained_output(output, public_key_exists) == output,
{
    let r = explained_output(output, public_key_exists);
    if mentions_key_rejection(output) {
        let remediation = if public_key_exists {
            crate::actions::REJECTION_HELP_1@ + crate::commands::AKMODS_PUBLIC_KEY_PATH@
                + crate::actions::REJECTION_HELP_2@ + crate::commands::AKMODS_PUBLIC_KEY_PATH@
                + crate::actions::REJECTION_HELP_3@
        } else {
            crate::actions::REJECTION_HELP_NO_KEY@
        };
        assert(r == (remediation + "\n\n---\n\n"@) + output);
    } else {
        assert(r == Seq::<char>::empty() + output);
    }
}

// ---------------------------------------------------------------------------
// Packages
// ---------------------------------------------------------------------------

/// Every package of a list is either installed or missing, never both: the
/// two name lists together are as long as the list.
pub proof fn law_every_package_is_installed_or_missing(p: Seq<PackageStatus>)
    ensures
        names_with(p, true).len() + names_with(p, false).len() == p.len(),
    decreases p.len(),
{
    if p.len() > 0 {
        law_every_package_is_installed_or_missing(p.drop_last());
    }
}

// ---------------------------------------------------------------------------
// Smoke test
// ---------------------------------------------------------------------------

/// The text of a command, as the diagnostics read it, is never blank.
pub proof fn law_command_text_is_never_blank(o: CommandOutcome)
    ensures
        command_text_spec(o) matches Some(t) ==> !is_blank(t),
{
    lemma_trim_idempotent(o.stdout@);
    lemma_trim_idempotent(o.stderr@);
}

/// The smoke test passes on every reading of the system: the snapshot's
/// kernel line is never blank, which is all the smoke test's verdict asks.
pub proof fn law_smoke_test_passes(kernel: Option<Seq<char>>)
    ensures
        !is_blank(kernel_line(kernel)),
{
    reveal_strlit("Desconhecido");
    let d = "Desconhecido"@;
    assert(d[0] == 'D');
    assert(d.last() == 'o');
    assert(crate::text::trim_start(d) == d);
    assert(crate::text::trim_end(d) == d);
    assert(trim(d) == d);
}

// ---------------------------------------------------------------------------
// Individual diagnostics
// ---------------------------------------------------------------------------

/// A patched camera module is reported as not loaded, with an error, exactly
/// when `/proc/modules` does not list it; when it is listed and was not copied
/// by hand, the row is good and names the patched module.
pub proof fn law_patched_module_row_follows_loading(
    path: Seq<char>,
    loaded: bool,
    manual_override: bool,
    owner: Option<Seq<char>>,
    clock: bool,
)
    ensures
        (crate::snapshot::module_check_spec(ModuleOrigin::Patched, Some(path), loaded, manual_override, owner, clock).code
            == "module-not-loaded"@) <==> !loaded,
        !loaded ==> crate::snapshot::module_check_spec(ModuleOrigin::Patched, Some(path), loaded, manual_override, owner, clock).health
            == Health::Error,
        loaded && !manual_override ==> {
            &&& crate::snapshot::module_check_spec(ModuleOrigin::Patched, Some(path), loaded, manual_override, owner, clock).health
                == Health::Good
            &&& crate::snapshot::module_check_spec(ModuleOrigin::Patched, Some(path), loaded, manual_override, owner, clock).code
                == "module-patched"@
        },
{
    reveal_strlit("module-not-loaded");
    reveal_strlit("module-patched");
    reveal_strlit("module-manual-override");
    assert("module-not-loaded"@[7] != "module-patched"@[7]);
    assert("module-not-loaded"@[7] != "module-manual-override"@[7]);
}

/// Once the Secure Boot key needs no action and every camera package is
/// installed, a failed akmods build is what the setup recommends fixing,
/// whatever the state of the module, the camera and the speakers.
pub proof fn law_akmods_failure_is_recommended(sbk: Seq<char>, state: RecommendationState)
    requires
        sbk != "mok-key-missing"@,
        sbk != "mok-not-enrolled"@,
        sbk != "mok-pending-enrollment"@,
        !state.missing_packages,
        state.akmods_failed,
    ensures
        recommendation(sbk, state).0 == "O driver não foi gerado no boot"@,
        recommendation(sbk, state).1
            == "O akmods falhou ao construir o módulo para o kernel atual. Reexecute o reparo do driver, confira o log do akmods e reinicie antes de testar a câmera novamente."@,
{
}

/// Each GNOME extension row suggests only its own profile action while it is
/// not good, and nothing once it is.
pub proof fn law_extension_rows_suggest_their_own_profile(s: SetupSnapshot)
    ensures
        suggested(s, DiagnosticKey::Clipboard) == if s.clipboard_extension.health == Health::Good {
            Seq::<ActionKey>::empty()
        } else {
            seq![ActionKey::ApplyClipboardProfile]
        },
        suggested(s, DiagnosticKey::Gsconnect) == if s.gsconnect_extension.health == Health::Good {
            Seq::<ActionKey>::empty()
        } else {
            seq![ActionKey::ApplyGsconnectProfile]
        },
        suggested(s, DiagnosticKey::DesktopIcons) == if s.desktop_icons_extension.health
            == Health::Good {
            Seq::<ActionKey>::empty()
        } else {
            seq![ActionKey::ApplyDesktopIconsProfile]
        },
        suggested(s, DiagnosticKey::Dock) == if s.dock_extension.health == Health::Good {
            Seq::<ActionKey>::empty()
        } else {
            seq![ActionKey::ApplyDockProfile]
        },
{
}

/// With Secure Boot on and both akmods key files present, a key whose common
/// name (the stem of its file name) appears as `CN=` in `mokutil
/// --list-enrolled` is reported enrolled and good, whatever `--test-key` and
/// `--list-new` say.
pub proof fn law_listed_key_is_enrolled(p: crate::checks::SecureBootKeyProbe, path: Seq<char>, cn: Seq<char>)
    requires
        p.sb_state matches Some(o) && crate::text::contains(o@, "SecureBoot enabled"@),
        p.public_key_exists,
        p.private_key_exists,
        crate::checks::opt_view(p.key_path) == Some(path),
        crate::parse::file_stem(path) == Some(cn),
        p.enrolled_list matches Some(o) && crate::text::contains(
            crate::checks::output_text(o.stdout@, o.stderr@),
            "CN="@ + cn,
        ),
    ensures
        crate::checks::secure_boot_key_spec(p).health == Health::Good,
        crate::checks::secure_boot_key_spec(p).code == "mok-enrolled"@,
{
}

/// With the bridge packages installed, the relay running and a loopback
/// device that captures video, a relay enabled at boot makes the browser
/// camera ready and good, and one enabled only for this session leaves a
/// warning that it will not survive a reboot.
pub proof fn law_browser_bridge_follows_relay_enablement(
    missing: Seq<Seq<char>>,
    libcamera_detected: bool,
    camera_source_ready: bool,
    b: crate::devices::BridgeProbe,
    device: Seq<char>,
    description: Seq<char>,
)
    requires
        missing.len() == 0,
        b.relay_active,
        crate::checks::opt_view(b.loopback_device) == Some(device),
        crate::checks::opt_view(b.loopback_description) == Some(description),
        crate::text::contains(description, "Video Capture"@),
    ensures
        crate::checks::opt_view(b.relay_enabled) == Some("enabled"@) ==> {
            &&& crate::devices::browser_camera_spec(missing, libcamera_detected, camera_source_ready, b).health
                == Health::Good
            &&& crate::devices::browser_camera_spec(missing, libcamera_detected, camera_source_ready, b).code
                == "browser-ready"@
        },
        crate::checks::opt_view(b.relay_enabled) == Some("enabled-runtime"@) ==> {
            &&& crate::devices::browser_camera_spec(missing, libcamera_detected, camera_source_ready, b).health
                == Health::Warning
            &&& crate::devices::browser_camera_spec(missing, libcamera_detected, camera_source_ready, b).code
                == "browser-runtime-only"@
        },
{
    reveal_strlit("enabled");
    reveal_strlit("enabled-runtime");
    assert("enabled"@.len() != "enabled-runtime"@.len());
}

} // verus!
