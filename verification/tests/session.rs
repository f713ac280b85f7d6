use galaxybook_setup::commands::{OPEN_FINGERPRINT_SETTINGS_COMMAND, REBOOT_COMMAND, RESTORE_INTEL_CAMERA_COMMAND};
use galaxybook_setup::diagnostics::{ActionKey, DiagnosticAlertCounts, DiagnosticKey};
use galaxybook_setup::model::{CheckItem, Health, SetupSnapshot, SystemSummary};
use galaxybook_setup::session::{
    action_buttons_sensitivity, action_plan, begin_command, confirm_secure_boot_password,
    finish_command, install_updates_request, launch_failure_message, launcher_badge,
    launcher_entry_uri, notification_step, secure_boot_dialog_command, spawn_failure_report,
    suggested_panel, suggestions_available, update_button_state, ActionPlan, CommandCompletion,
    CommandMode, CommandReport, CommandRequest, LaunchTarget, NotificationStep,
    SECURE_BOOT_DONE_TEXT,
};

fn ok(code: &'static str) -> CheckItem {
    CheckItem {
        title: "Teste",
        detail: "tudo certo".to_string(),
        health: Health::Good,
        code,
    }
}

fn snapshot() -> SetupSnapshot {
    SetupSnapshot {
        system: SystemSummary {
            notebook: String::new(),
            fedora: String::new(),
            kernel: String::new(),
            secure_boot: String::new(),
        },
        packages: ok("packages-installed"),
        akmods: ok("akmods-ok"),
        module: ok("module-patched"),
        libcamera: ok("libcamera-ready"),
        browser_camera: ok("browser-ready"),
        boot: ok("boot-ok"),
        speakers: ok("speakers-ready"),
        sound_app: ok("sound-app-ready"),
        fingerprint_reader: ok("fingerprint-reader-ready"),
        fingerprint_login: ok("fingerprint-login-ready"),
        gpu: ok("gpu-ok"),
        secure_boot_key: ok("mok-enrolled"),
        platform_profile: ok("platform-balanced"),
        clipboard_extension: ok("ready"),
        gsconnect_extension: ok("ready"),
        desktop_icons_extension: ok("ready"),
        dock_extension: ok("dash-to-dock-ready"),
        recommendation_title: String::new(),
        recommendation_body: String::new(),
        install_main_support_command: "dnf install main".to_string(),
        install_command: "dnf install camera".to_string(),
        install_sound_app_command: "dnf install sound".to_string(),
        repair_command: "akmods".to_string(),
        enable_camera_module_command: "modprobe".to_string(),
        force_camera_command: "force".to_string(),
        restore_intel_camera_command: "restore".to_string(),
        enable_browser_camera_command: "bridge".to_string(),
        enable_speaker_command: "speakers".to_string(),
        prepare_secure_boot_key_command: "mokutil --import".to_string(),
        repair_nvidia_command: "nvidia".to_string(),
        set_balanced_profile_command: "balanced".to_string(),
        repair_fingerprint_command: "fprintd".to_string(),
        enable_fingerprint_auth_command: "authselect".to_string(),
        open_fingerprint_settings_command: "gnome-control-center users".to_string(),
        apply_clipboard_profile_command: "clipboard".to_string(),
        apply_gsconnect_profile_command: "gsconnect".to_string(),
        apply_desktop_icons_profile_command: "ding".to_string(),
        apply_dock_profile_command: "dock".to_string(),
        reboot_command: "ignored".to_string(),
        camera_app_installed: true,
        sound_app_installed: false,
    }
}

fn run_request(plan: ActionPlan) -> CommandRequest {
    match plan {
        ActionPlan::Run(request) => request,
        other => panic!("expected a command, got {other:?}"),
    }
}

#[test]
fn privileged_action_runs_the_snapshot_command() {
    let request = run_request(action_plan(&Some(snapshot()), ActionKey::RepairDriver));
    assert_eq!(request.title, "Reparar o driver");
    assert_eq!(request.command, "akmods");
    assert_eq!(request.stdin_data, None);
    assert_eq!(
        request.success_message,
        "Reparo concluído. Reinicie o sistema para aplicar o módulo atualizado."
    );
    assert!(request.refresh_after);
    assert_eq!(request.mode, CommandMode::Privileged);
}

#[test]
fn desktop_profiles_run_as_the_user() {
    let request = run_request(action_plan(&Some(snapshot()), ActionKey::ApplyDockProfile));
    assert_eq!(request.command, "dock");
    assert_eq!(request.mode, CommandMode::User);
    assert!(request.refresh_after);
}

#[test]
fn reboot_uses_its_fixed_command_and_does_not_refresh() {
    let request = run_request(action_plan(&Some(snapshot()), ActionKey::Reboot));
    assert_eq!(request.command, REBOOT_COMMAND);
    assert!(!request.refresh_after);
    assert_eq!(request.success_message, "Reinicialização solicitada.");
}

#[test]
fn actions_without_snapshot_fall_back() {
    let restore = run_request(action_plan(&None, ActionKey::RestoreIntelIpu6));
    assert_eq!(restore.command, RESTORE_INTEL_CAMERA_COMMAND);
    let settings = run_request(action_plan(&None, ActionKey::OpenFingerprintSettings));
    assert_eq!(settings.command, OPEN_FINGERPRINT_SETTINGS_COMMAND);
    assert_eq!(settings.mode, CommandMode::User);
    assert!(!settings.refresh_after);
    let install = run_request(action_plan(&None, ActionKey::InstallCamera));
    assert_eq!(install.command, "");
    assert_eq!(begin_command(false, &install), None);
}

#[test]
fn special_actions_do_not_run_commands() {
    assert_eq!(
        action_plan(&Some(snapshot()), ActionKey::PrepareSecureBootKey),
        ActionPlan::AskSecureBootPassword
    );
    assert_eq!(
        action_plan(&None, ActionKey::OpenCamera),
        ActionPlan::Launch(LaunchTarget::CameraApp)
    );
    assert_eq!(
        action_plan(&None, ActionKey::OpenSoundApp),
        ActionPlan::Launch(LaunchTarget::SoundApp)
    );
}

#[test]
fn commands_start_only_when_idle_and_not_blank() {
    let request = run_request(action_plan(&Some(snapshot()), ActionKey::RepairNvidia));
    assert_eq!(
        begin_command(false, &request).as_deref(),
        Some("Executando: Reparar suporte NVIDIA…")
    );
    assert_eq!(begin_command(true, &request), None);
    let mut blank = request.clone();
    blank.command = " \n\t".to_string();
    assert_eq!(begin_command(false, &blank), None);
}

#[test]
fn finished_commands_toast_or_explain() {
    let request = run_request(action_plan(&Some(snapshot()), ActionKey::SetBalancedProfile));
    let success = CommandReport {
        success: true,
        output: "ok".to_string(),
    };
    assert_eq!(
        finish_command(&request, &success, true),
        CommandCompletion::Succeeded {
            toast: "Perfil balanced aplicado com sucesso.".to_string(),
            refresh: true,
        }
    );
    let failure = CommandReport {
        success: false,
        output: "  ".to_string(),
    };
    assert_eq!(
        finish_command(&request, &failure, false),
        CommandCompletion::Failed {
            title: "Definir perfil balanceado".to_string(),
            output: "A ação falhou, mas não retornou saída textual.".to_string(),
        }
    );
}

#[test]
fn spawn_failures_name_the_mode() {
    let report = spawn_failure_report(CommandMode::Privileged, "no pkexec");
    assert!(!report.success);
    assert_eq!(report.output, "Falha ao iniciar a ação privilegiada: no pkexec");
    let report = spawn_failure_report(CommandMode::User, "no bash");
    assert_eq!(report.output, "Falha ao iniciar a ação local: no bash");
}

#[test]
fn secure_boot_dialog_needs_idle_window_and_command() {
    assert_eq!(
        secure_boot_dialog_command(false, &Some(snapshot())).as_deref(),
        Some("mokutil --import")
    );
    assert_eq!(secure_boot_dialog_command(true, &Some(snapshot())), None);
    assert_eq!(secure_boot_dialog_command(false, &None), None);
}

#[test]
fn secure_boot_confirmation_checks_passwords() {
    assert_eq!(
        confirm_secure_boot_password("mokutil --import", "abc", "xyz"),
        Err("As duas senhas do MOK precisam ser idênticas.".to_string())
    );
    let request = confirm_secure_boot_password("mokutil --import", "abc", "abc").unwrap();
    assert_eq!(request.title, "Preparar chave do Secure Boot");
    assert_eq!(request.command, "mokutil --import");
    assert_eq!(request.stdin_data.as_deref(), Some("abc\nabc\n"));
    assert_eq!(request.success_message, SECURE_BOOT_DONE_TEXT);
    assert!(request.refresh_after);
    assert_eq!(request.mode, CommandMode::Privileged);
}

#[test]
fn notifications_follow_changes_in_the_alerts() {
    let clear = DiagnosticAlertCounts::default();
    let warn = DiagnosticAlertCounts { warnings: 2, errors: 0 };
    let err = DiagnosticAlertCounts { warnings: 2, errors: 1 };
    assert_eq!(notification_step(Some(warn), clear), NotificationStep::Withdraw);
    assert_eq!(notification_step(None, warn), NotificationStep::Keep);
    assert_eq!(notification_step(Some(warn), warn), NotificationStep::Keep);
    assert_eq!(
        notification_step(Some(warn), err),
        NotificationStep::Send { high_priority: true }
    );
    assert_eq!(
        notification_step(Some(err), warn),
        NotificationStep::Send { high_priority: false }
    );
}

#[test]
fn badge_counts_alerts() {
    let badge = launcher_badge(DiagnosticAlertCounts { warnings: 4, errors: 2 });
    assert_eq!(badge.count, 6);
    assert!(badge.count_visible);
    assert!(badge.urgent);
    let badge = launcher_badge(DiagnosticAlertCounts::default());
    assert_eq!(badge.count, 0);
    assert!(!badge.count_visible);
    assert!(!badge.urgent);
    assert_eq!(
        launcher_entry_uri(),
        "application://com.caioregis.GalaxyBookSetup.desktop"
    );
}

#[test]
fn buttons_follow_busy_state_and_installed_apps() {
    let state = action_buttons_sensitivity(true, false, &Some(snapshot()));
    assert!(state.actions);
    assert!(state.open_camera);
    assert!(!state.open_sound);
    let state = action_buttons_sensitivity(true, true, &Some(snapshot()));
    assert!(!state.actions && !state.open_camera && !state.open_sound);
    let state = action_buttons_sensitivity(true, false, &None);
    assert!(state.actions && !state.open_camera);
}

#[test]
fn update_button_shows_pending_updates() {
    let none = update_button_state(&None, false);
    assert!(!none.visible && !none.sensitive && none.tooltip.is_none());
    let empty = update_button_state(&Some(vec![]), false);
    assert!(!empty.visible && !empty.sensitive && empty.tooltip.is_none());
    let some = update_button_state(&Some(vec!["galaxybook-camera".to_string()]), true);
    assert!(some.visible);
    assert!(!some.sensitive);
    assert_eq!(
        some.tooltip.as_deref(),
        Some("Baixar e instalar atualizações: galaxybook-camera")
    );
}

#[test]
fn updates_install_only_from_an_active_button() {
    assert!(install_updates_request(true, false).is_none());
    let request = install_updates_request(true, true).unwrap();
    assert_eq!(request.title, "Atualizar pacotes");
    assert!(request.command.contains("packages=(galaxybook-setup galaxybook-camera"));
    assert_eq!(request.mode, CommandMode::Privileged);
}

#[test]
fn suggested_panel_describes_the_diagnostic() {
    let mut s = snapshot();
    s.secure_boot_key = CheckItem {
        title: "Chave do Secure Boot",
        detail: "sem chave".to_string(),
        health: Health::Error,
        code: "mok-key-missing",
    };
    let panel = suggested_panel(&Some(s.clone()), DiagnosticKey::SecureBootKey);
    assert_eq!(panel.title, "Chave do Secure Boot");
    assert_eq!(panel.status, "Erro");
    assert_eq!(panel.detail, "sem chave");
    assert_eq!(
        panel.actions,
        vec![ActionKey::PrepareSecureBootKey, ActionKey::Reboot]
    );
    assert!(suggestions_available(&s, DiagnosticKey::SecureBootKey));
    assert!(!suggestions_available(&s, DiagnosticKey::Packages));
    let waiting = suggested_panel(&None, DiagnosticKey::Packages);
    assert_eq!(waiting.title, "Diagnóstico indisponível");
    assert_eq!(waiting.status, "Aguardando leitura");
    assert!(waiting.actions.is_empty());
}

#[test]
fn launch_messages_name_the_application() {
    assert_eq!(
        launch_failure_message(LaunchTarget::SoundApp, "boom"),
        "Falha ao abrir o painel de som: boom"
    );
    assert_eq!(
        launch_failure_message(LaunchTarget::CameraApp, "boom"),
        "Falha ao abrir o app da câmera: boom"
    );
}
