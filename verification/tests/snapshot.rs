use galaxybook_setup::checks::{
    detect_nvidia_check, detect_platform_profile_check, detect_secure_boot_key_check,
    CommandOutcome, SecureBootKeyProbe,
};
use galaxybook_setup::devices::{BridgeProbe, FingerprintProbe, SpeakerProbe};
use galaxybook_setup::diagnostics::{suggested_actions, ActionKey, DiagnosticKey};
use galaxybook_setup::model::{Health, PackageStatus};
use galaxybook_setup::smoke::{smoke_test, smoke_test_report, smoke_test_verdict};
use galaxybook_setup::snapshot::{
    camera_packages, collect_snapshot, detect_fedora_release, detect_notebook, SystemProbes,
};

fn statuses(names: Vec<&'static str>, installed: bool) -> Vec<PackageStatus> {
    names
        .into_iter()
        .map(|name| PackageStatus {
            name: name.to_string(),
            installed,
        })
        .collect()
}

fn bare_probes() -> SystemProbes {
    SystemProbes {
        sys_vendor: None,
        product_name: None,
        fedora_release: None,
        kernel: None,
        secure_boot_key: SecureBootKeyProbe {
            sb_state: None,
            public_key_exists: false,
            private_key_exists: false,
            key_path: None,
            enrolled_list: None,
            test_key: None,
            list_new: None,
        },
        camera_packages: statuses(camera_packages(), false),
        akmods_log: None,
        module_file: None,
        module_owner: None,
        proc_modules: None,
        kernel_log: None,
        libcamera_output: None,
        browser_rule_exists: false,
        video_nodes: vec![],
        browser_packages: vec![],
        wpctl_status: None,
        bridge: BridgeProbe {
            relay_active: false,
            relay_enabled: None,
            loopback_device: None,
            loopback_description: None,
        },
        speakers: SpeakerProbe {
            acpi_devices: vec![],
            i2c_device_names: vec![],
            packages: vec![],
            proc_modules: None,
            core_module_path: None,
            i2c_module_path: None,
            modules_load_journal: None,
            setup_active: false,
            setup_enabled: None,
        },
        sound_app_installed: false,
        fingerprint: FingerprintProbe {
            packages: vec![],
            lsusb: None,
            authselect: None,
            fprintd_list: None,
        },
        nvidia_akmod_installed: false,
        nvidia_cuda_installed: false,
        platform_profile: None,
        platform_profile_choices: None,
        enabled_extensions: None,
        installed_extensions: vec![],
        dock_values: vec![],
    }
}

#[test]
fn bare_system_recommends_installation() {
    let snapshot = collect_snapshot(&bare_probes());
    assert_eq!(snapshot.system.notebook, "Galaxy Book (modelo não identificado)");
    assert_eq!(snapshot.system.fedora, "Fedora (versão não identificada)");
    assert_eq!(snapshot.system.kernel, "Desconhecido");
    assert_eq!(snapshot.packages.health, Health::Warning);
    assert_eq!(snapshot.packages.code, "packages-missing");
    assert_eq!(snapshot.secure_boot_key.code, "mok-unavailable");
    assert_eq!(snapshot.recommendation_title, "Instalação pendente");
    assert!(!snapshot.camera_app_installed);
}

#[test]
fn secure_boot_without_key_is_recommended_first() {
    let mut probes = bare_probes();
    probes.secure_boot_key.sb_state = Some("SecureBoot enabled".to_string());
    let snapshot = collect_snapshot(&probes);
    assert_eq!(snapshot.system.secure_boot, "Ativado");
    assert_eq!(snapshot.secure_boot_key.health, Health::Error);
    assert_eq!(snapshot.secure_boot_key.code, "mok-key-missing");
    assert_eq!(snapshot.recommendation_title, "Prepare a chave do Secure Boot");
}

#[test]
fn installed_packages_are_listed() {
    let mut probes = bare_probes();
    probes.camera_packages = statuses(camera_packages(), true);
    let snapshot = collect_snapshot(&probes);
    assert_eq!(snapshot.packages.health, Health::Good);
    assert_eq!(snapshot.packages.code, "packages-installed");
    assert!(snapshot.packages.detail.starts_with("Instalados: "));
    assert!(snapshot.camera_app_installed);
}

#[test]
fn notebook_and_release_lines() {
    assert_eq!(
        detect_notebook(Some("SAMSUNG ELECTRONICS CO., LTD.\n"), Some(" 960XGL \n")),
        "SAMSUNG ELECTRONICS CO., LTD. 960XGL"
    );
    assert_eq!(detect_notebook(None, Some("960XGL")), "960XGL");
    assert_eq!(
        detect_fedora_release(Some("Fedora release 42 (Adams)\n")),
        "Fedora release 42 (Adams)"
    );
}

#[test]
fn secure_boot_key_states() {
    let mut probe = SecureBootKeyProbe {
        sb_state: Some("SecureBoot disabled".to_string()),
        public_key_exists: true,
        private_key_exists: true,
        key_path: Some("/etc/pki/akmods/certs/fedora_1_a.der".to_string()),
        enrolled_list: None,
        test_key: None,
        list_new: None,
    };
    assert_eq!(detect_secure_boot_key_check(&probe).code, "mok-not-needed");
    probe.sb_state = Some("SecureBoot enabled".to_string());
    assert_eq!(detect_secure_boot_key_check(&probe).code, "mok-not-enrolled");
    probe.list_new = Some(CommandOutcome {
        success: true,
        stdout: "[key 1]".to_string(),
        stderr: String::new(),
    });
    assert_eq!(
        detect_secure_boot_key_check(&probe).code,
        "mok-pending-enrollment"
    );
    probe.test_key = Some(CommandOutcome {
        success: false,
        stdout: String::new(),
        stderr: "public_key.der is already enrolled".to_string(),
    });
    let item = detect_secure_boot_key_check(&probe);
    assert_eq!(item.code, "mok-enrolled");
    assert_eq!(item.health, Health::Good);
}

#[test]
fn nvidia_and_platform_profile_checks() {
    let nvidia = detect_nvidia_check(false, None, false);
    assert_ne!(nvidia.health, Health::Good);
    let profile = detect_platform_profile_check(Some("balanced\n"), Some("low-power balanced performance\n"));
    assert_eq!(profile.code, "platform-balanced");
    assert_eq!(profile.health, Health::Good);
}

#[test]
fn smoke_test_reports_every_check() {
    let mut probes = bare_probes();
    probes.kernel = Some("6.19.10-200.fc43.x86_64".to_string());
    let snapshot = collect_snapshot(&probes);
    let lines = smoke_test_report(&snapshot);
    assert_eq!(lines.len(), 10);
    assert_eq!(lines[0], "app_id=com.caioregis.GalaxyBookSetup");
    assert_eq!(lines[1], "app_name=Galaxy Book Setup");
    assert_eq!(lines[4], "kernel=6.19.10-200.fc43.x86_64");
    assert!(lines[6].starts_with("checks="));
    assert_eq!(lines[6].matches(',').count(), 16);
    assert_eq!(lines[8], "camera_app_installed=false");
    assert_eq!(lines[9], "sound_app_installed=false");
    assert_eq!(smoke_test_verdict(&snapshot), Ok(()));
}

#[test]
fn smoke_test_fails_on_blank_kernel() {
    let mut snapshot = collect_snapshot(&bare_probes());
    snapshot.system.kernel = "  ".to_string();
    assert_eq!(
        smoke_test_verdict(&snapshot),
        Err("Kernel não pode estar vazio no smoke test.".to_string())
    );
}

#[test]
fn camera_after_kernel_update_suggests_driver_priority_and_reboot() {
    let mut probes = bare_probes();
    probes.camera_packages = statuses(camera_packages(), true);
    probes.kernel_log = Some(
        "ov02c10 i2c-OVTI02C1:00: error -EINVAL: external clock 26000000 is not supported\n\
         ov02c10 i2c-OVTI02C1:00: probe with driver ov02c10 failed with error -22"
            .to_string(),
    );
    probes.module_file = Some("/lib/modules/6.19.10/updates/ov02c10.ko".to_string());
    probes.module_owner = Some("kmod-galaxybook-ov02c10".to_string());
    probes.proc_modules = Some("ov02c10 28672 0 - Live 0x0000000000000000\n".to_string());
    probes.libcamera_output = Some("Available cameras:\n".to_string());
    let snapshot = collect_snapshot(&probes);
    assert_eq!(snapshot.libcamera.health, Health::Error);
    assert_eq!(snapshot.libcamera.code, "libcamera-clock-probe-failed");
    assert_eq!(
        suggested_actions(&snapshot, DiagnosticKey::Libcamera),
        vec![ActionKey::ForceDriverPriority, ActionKey::Reboot]
    );
}

#[test]
fn missing_camera_without_clock_error_stays_a_warning() {
    let mut probes = bare_probes();
    probes.module_file = Some("/lib/modules/6.19.10/updates/ov02c10.ko".to_string());
    probes.proc_modules = Some("ov02c10 28672 0 - Live 0x0000000000000000\n".to_string());
    probes.libcamera_output = Some("Available cameras:\n".to_string());
    let snapshot = collect_snapshot(&probes);
    assert_eq!(snapshot.libcamera.health, Health::Warning);
    assert_eq!(snapshot.libcamera.code, "libcamera-missing");
}

#[test]
fn smoke_test_passes_without_a_kernel_reading() {
    let snapshot = collect_snapshot(&bare_probes());
    assert_eq!(snapshot.system.kernel, "Desconhecido");
    assert_eq!(smoke_test_verdict(&snapshot), Ok(()));
}

#[test]
fn blank_kernel_reading_counts_as_unknown() {
    let mut probes = bare_probes();
    probes.kernel = Some(" \n".to_string());
    let (snapshot, lines, verdict) = smoke_test(&probes);
    assert_eq!(snapshot.system.kernel, "Desconhecido");
    assert_eq!(lines[4], "kernel=Desconhecido");
    assert_eq!(verdict, Ok(()));
}
