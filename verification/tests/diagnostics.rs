use galaxybook_setup::diagnostics::{
    diagnostic_alert_counts, diagnostic_counts_summary, suggested_actions, ActionKey,
    DiagnosticAlertCounts, DiagnosticKey,
};
use galaxybook_setup::model::{CheckItem, Health, SetupSnapshot, SystemSummary};

fn item(title: &'static str, health: Health) -> CheckItem {
    CheckItem {
        title,
        detail: String::new(),
        health,
        code: "",
    }
}

fn coded(health: Health, code: &'static str) -> CheckItem {
    CheckItem {
        title: "Teste",
        detail: String::new(),
        health,
        code,
    }
}

fn empty_snapshot(items: [CheckItem; 17], camera_app_installed: bool) -> SetupSnapshot {
    let [packages, akmods, module, libcamera, browser_camera, boot, speakers, sound_app, fingerprint_reader, fingerprint_login, gpu, secure_boot_key, platform_profile, clipboard_extension, gsconnect_extension, desktop_icons_extension, dock_extension] =
        items;
    SetupSnapshot {
        system: SystemSummary {
            notebook: String::new(),
            fedora: String::new(),
            kernel: String::new(),
            secure_boot: String::new(),
        },
        packages,
        akmods,
        module,
        libcamera,
        browser_camera,
        boot,
        speakers,
        sound_app,
        fingerprint_reader,
        fingerprint_login,
        gpu,
        secure_boot_key,
        platform_profile,
        clipboard_extension,
        gsconnect_extension,
        desktop_icons_extension,
        dock_extension,
        recommendation_title: String::new(),
        recommendation_body: String::new(),
        install_main_support_command: String::new(),
        install_command: String::new(),
        install_sound_app_command: String::new(),
        repair_command: String::new(),
        enable_camera_module_command: String::new(),
        force_camera_command: String::new(),
        restore_intel_camera_command: String::new(),
        enable_browser_camera_command: String::new(),
        enable_speaker_command: String::new(),
        prepare_secure_boot_key_command: String::new(),
        repair_nvidia_command: String::new(),
        set_balanced_profile_command: String::new(),
        repair_fingerprint_command: String::new(),
        enable_fingerprint_auth_command: String::new(),
        open_fingerprint_settings_command: String::new(),
        apply_clipboard_profile_command: String::new(),
        apply_gsconnect_profile_command: String::new(),
        apply_desktop_icons_profile_command: String::new(),
        apply_dock_profile_command: String::new(),
        reboot_command: String::new(),
        camera_app_installed,
        sound_app_installed: false,
    }
}

fn snapshot_with_healths(healths: [Health; 17]) -> SetupSnapshot {
    empty_snapshot(
        [
            item("Pacotes principais", healths[0]),
            item("Akmods no boot", healths[1]),
            item("Módulo ativo", healths[2]),
            item("Detecção no libcamera", healths[3]),
            item("Navegador e comunicadores", healths[4]),
            item("Erros no boot", healths[5]),
            item("Alto-falantes internos", healths[6]),
            item("Galaxy Book Sound", healths[7]),
            item("Leitor de digital", healths[8]),
            item("Login por digital", healths[9]),
            item("Driver NVIDIA", healths[10]),
            item("Chave do Secure Boot", healths[11]),
            item("Perfil de uso", healths[12]),
            item("Histórico da área de transferência", healths[13]),
            item("GSConnect", healths[14]),
            item("Ícones na área de trabalho", healths[15]),
            item("Dock do GNOME", healths[16]),
        ],
        false,
    )
}

fn test_snapshot() -> SetupSnapshot {
    let ok = coded(Health::Good, "ready");
    empty_snapshot(
        [
            ok.clone(),
            ok.clone(),
            ok.clone(),
            ok.clone(),
            ok.clone(),
            ok.clone(),
            ok.clone(),
            coded(Health::Warning, "sound-app-missing"),
            ok.clone(),
            ok.clone(),
            ok.clone(),
            coded(Health::Good, "mok-enrolled"),
            ok.clone(),
            ok.clone(),
            ok.clone(),
            ok.clone(),
            ok,
        ],
        true,
    )
}

#[test]
fn counts_only_warnings_and_errors() {
    let snapshot = snapshot_with_healths([
        Health::Good,
        Health::Warning,
        Health::Error,
        Health::Unknown,
        Health::Warning,
        Health::Good,
        Health::Error,
        Health::Good,
        Health::Warning,
        Health::Good,
        Health::Good,
        Health::Warning,
        Health::Good,
        Health::Good,
        Health::Good,
        Health::Good,
        Health::Unknown,
    ]);

    assert_eq!(
        diagnostic_alert_counts(&snapshot),
        DiagnosticAlertCounts {
            warnings: 4,
            errors: 2,
        }
    );
}

#[test]
fn summary_formats_errors_and_warnings() {
    assert_eq!(
        diagnostic_counts_summary(DiagnosticAlertCounts {
            warnings: 2,
            errors: 1,
        }),
        "1 erro e 2 alertas nos diagnósticos."
    );
}

#[test]
fn packages_suggest_main_install_first() {
    let mut snapshot = snapshot_with_healths([
        Health::Warning,
        Health::Good,
        Health::Good,
        Health::Good,
        Health::Good,
        Health::Good,
        Health::Good,
        Health::Good,
        Health::Good,
        Health::Good,
        Health::Good,
        Health::Good,
        Health::Good,
        Health::Good,
        Health::Good,
        Health::Good,
        Health::Good,
    ]);
    snapshot.packages.code = "packages-missing";

    assert_eq!(
        suggested_actions(&snapshot, DiagnosticKey::Packages),
        vec![ActionKey::InstallMainSupport]
    );
}

#[test]
fn clipboard_suggests_clipboard_profile() {
    let mut snapshot = snapshot_with_healths([Health::Good; 17]);
    snapshot.clipboard_extension.health = Health::Warning;
    assert_eq!(
        suggested_actions(&snapshot, DiagnosticKey::Clipboard),
        vec![ActionKey::ApplyClipboardProfile]
    );
}

#[test]
fn gsconnect_suggests_gsconnect_profile() {
    let mut snapshot = snapshot_with_healths([Health::Good; 17]);
    snapshot.gsconnect_extension.health = Health::Warning;
    assert_eq!(
        suggested_actions(&snapshot, DiagnosticKey::Gsconnect),
        vec![ActionKey::ApplyGsconnectProfile]
    );
}

#[test]
fn desktop_icons_suggests_desktop_icons_profile() {
    let mut snapshot = snapshot_with_healths([Health::Good; 17]);
    snapshot.desktop_icons_extension.health = Health::Warning;
    assert_eq!(
        suggested_actions(&snapshot, DiagnosticKey::DesktopIcons),
        vec![ActionKey::ApplyDesktopIconsProfile]
    );
}

#[test]
fn speakers_ready_has_no_suggested_actions() {
    let snapshot = snapshot_with_healths([
        Health::Good,
        Health::Good,
        Health::Good,
        Health::Good,
        Health::Good,
        Health::Good,
        Health::Good,
        Health::Unknown,
        Health::Good,
        Health::Good,
        Health::Good,
        Health::Good,
        Health::Good,
        Health::Good,
        Health::Good,
        Health::Good,
        Health::Good,
    ]);
    assert_eq!(
        suggested_actions(&snapshot, DiagnosticKey::Speakers),
        Vec::<ActionKey>::new()
    );
}

#[test]
fn sound_app_ready_suggests_open() {
    let mut snapshot = snapshot_with_healths([Health::Good; 17]);
    snapshot.sound_app.code = "sound-app-ready";
    snapshot.sound_app_installed = true;
    assert_eq!(
        suggested_actions(&snapshot, DiagnosticKey::SoundApp),
        Vec::<ActionKey>::new()
    );
}

#[test]
fn fingerprint_login_missing_enrollment_suggests_settings_first() {
    let mut snapshot = snapshot_with_healths([Health::Good; 17]);
    snapshot.fingerprint_login.code = "fingerprint-enrollment-missing";
    assert_eq!(
        suggested_actions(&snapshot, DiagnosticKey::FingerprintLogin),
        vec![
            ActionKey::OpenFingerprintSettings,
            ActionKey::EnableFingerprintAuth,
        ]
    );
}

#[test]
fn secure_boot_key_suggests_prepare_then_reboot() {
    let mut snapshot = snapshot_with_healths([Health::Good; 17]);
    snapshot.secure_boot_key.health = Health::Error;
    snapshot.secure_boot_key.code = "mok-not-enrolled";
    assert_eq!(
        suggested_actions(&snapshot, DiagnosticKey::SecureBootKey),
        vec![ActionKey::PrepareSecureBootKey, ActionKey::Reboot]
    );
}

#[test]
fn good_packages_do_not_expose_secure_boot_actions_by_leak() {
    let mut snapshot = snapshot_with_healths([Health::Good; 17]);
    snapshot.packages.code = "packages-installed";
    snapshot.secure_boot_key.health = Health::Error;
    snapshot.secure_boot_key.code = "mok-not-enrolled";
    assert_eq!(
        suggested_actions(&snapshot, DiagnosticKey::Packages),
        Vec::<ActionKey>::new()
    );
}

#[test]
fn libcamera_with_in_tree_module_suggests_force_driver_priority() {
    let mut snapshot = snapshot_with_healths([Health::Good; 17]);
    snapshot.libcamera.health = Health::Warning;
    snapshot.libcamera.code = "libcamera-missing";
    snapshot.module.health = Health::Warning;
    snapshot.module.code = "module-in-tree";
    assert_eq!(
        suggested_actions(&snapshot, DiagnosticKey::Libcamera),
        vec![ActionKey::ForceDriverPriority, ActionKey::Reboot]
    );
}

#[test]
fn libcamera_permission_block_suggests_browser_camera_repair() {
    let mut snapshot = snapshot_with_healths([Health::Good; 17]);
    snapshot.libcamera.health = Health::Error;
    snapshot.libcamera.code = "libcamera-permission-blocked";
    assert_eq!(
        suggested_actions(&snapshot, DiagnosticKey::Libcamera),
        vec![ActionKey::EnableBrowserCamera]
    );
}

#[test]
fn libcamera_clock_probe_failure_suggests_driver_priority() {
    let mut snapshot = snapshot_with_healths([Health::Good; 17]);
    snapshot.libcamera.health = Health::Error;
    snapshot.libcamera.code = "libcamera-clock-probe-failed";
    snapshot.module.code = "module-patched";
    snapshot.boot.health = Health::Error;
    snapshot.boot.code = "boot-clock-error";
    assert_eq!(
        suggested_actions(&snapshot, DiagnosticKey::Libcamera),
        vec![ActionKey::ForceDriverPriority, ActionKey::Reboot]
    );
}

#[test]
fn balanced_platform_profile_has_no_suggested_action() {
    let mut snapshot = snapshot_with_healths([Health::Good; 17]);
    snapshot.platform_profile.code = "platform-balanced";
    assert_eq!(
        suggested_actions(&snapshot, DiagnosticKey::PlatformProfile),
        Vec::<ActionKey>::new()
    );
}

#[test]
fn unsupported_speakers_do_not_offer_privileged_actions() {
    let mut snapshot = test_snapshot();
    snapshot.speakers = coded(Health::Warning, "speakers-unsupported");

    assert_eq!(
        suggested_actions(&snapshot, DiagnosticKey::Speakers),
        Vec::<ActionKey>::new()
    );
}

#[test]
fn missing_sound_app_suggests_speakers_first_when_speakers_need_work() {
    let mut snapshot = test_snapshot();
    snapshot.speakers = coded(Health::Error, "speakers-driver-missing");

    assert_eq!(
        suggested_actions(&snapshot, DiagnosticKey::SoundApp),
        vec![ActionKey::EnableSpeakers, ActionKey::InstallSoundApp]
    );
}

#[test]
fn missing_key_frames_module_actions_with_prepare_and_reboot() {
    let mut snapshot = test_snapshot();
    snapshot.module = coded(Health::Warning, "module-not-loaded");
    snapshot.secure_boot_key = coded(Health::Error, "mok-key-missing");
    assert_eq!(
        suggested_actions(&snapshot, DiagnosticKey::Module),
        vec![
            ActionKey::PrepareSecureBootKey,
            ActionKey::EnableCameraModule,
            ActionKey::Reboot
        ]
    );
}

#[test]
fn pending_enrollment_puts_reboot_before_driver_actions() {
    let mut snapshot = test_snapshot();
    snapshot.boot = coded(Health::Error, "boot-clock-error");
    snapshot.secure_boot_key = coded(Health::Warning, "mok-pending-enrollment");
    assert_eq!(
        suggested_actions(&snapshot, DiagnosticKey::Boot),
        vec![
            ActionKey::Reboot,
            ActionKey::RepairDriver,
            ActionKey::ForceDriverPriority
        ]
    );
}

#[test]
fn clear_counts_give_the_no_alert_summary() {
    assert_eq!(
        diagnostic_counts_summary(DiagnosticAlertCounts::default()),
        "Nenhum alerta nos diagnósticos."
    );
    assert_eq!(
        diagnostic_counts_summary(DiagnosticAlertCounts {
            warnings: 1,
            errors: 0,
        }),
        "1 alerta nos diagnósticos."
    );
    assert_eq!(
        diagnostic_counts_summary(DiagnosticAlertCounts {
            warnings: 0,
            errors: 12,
        }),
        "12 erros nos diagnósticos."
    );
}

#[test]
fn all_good_snapshot_has_no_alert() {
    let snapshot = snapshot_with_healths([Health::Good; 17]);
    let counts = diagnostic_alert_counts(&snapshot);
    assert!(counts.is_clear());
    assert_eq!(counts.total(), 0);
}

#[test]
fn launcher_badge_counts_marked_diagnostics() {
    let snapshot = snapshot_with_healths([
        Health::Good,
        Health::Warning,
        Health::Error,
        Health::Unknown,
        Health::Warning,
        Health::Good,
        Health::Error,
        Health::Good,
        Health::Warning,
        Health::Good,
        Health::Good,
        Health::Warning,
        Health::Good,
        Health::Good,
        Health::Good,
        Health::Good,
        Health::Unknown,
    ]);
    let badge = galaxybook_setup::session::launcher_badge(diagnostic_alert_counts(&snapshot));
    assert_eq!(badge.count, 6);
    assert!(badge.count_visible);
    assert!(badge.urgent);
}
