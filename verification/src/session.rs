//! The decisions of the setup window: what each quick action runs, when a
//! command may start, how its end is reported, and what the notification,
//! the launcher badge, the buttons and the suggested-actions page show.
//!
//! The window performs what these functions decide (running commands,
//! showing dialogs, sending notifications) and hands the outcome back.
use vstd::prelude::*;

use crate::actions::{explained_output, format_command_output, mok_password_input, password_problem,
    secure_boot_password_error, setup_update_packages, update_button_tooltip};
use crate::commands::{
    upgrade_installed_packages_command, upgrade_script, CAMERA_APP_DESKTOP_ID,
    OPEN_FINGERPRINT_SETTINGS_COMMAND, REBOOT_COMMAND, RESTORE_INTEL_CAMERA_COMMAND,
    SOUND_APP_DESKTOP_ID,
};
use crate::diagnostics::{
    action_metadata, action_title, dedupe, dedupe_action_keys, diagnostic_item, item_of, suggested,
    suggested_actions, ActionKey, DiagnosticAlertCounts, DiagnosticKey,
};
use crate::model::{concat2, concat3, health_label, owned, SetupSnapshot};
use crate::text::{chars_of, is_blank, is_blank_exec, join, views};

verus! {

/// Whether a command runs as the desktop user or through `pkexec`.
#[derive(Clone, Copy, Debug, PartialEq, Eq, Structural)]
pub enum CommandMode {
    User,
    Privileged,
}

/// A shell command the window is asked to run.
#[derive(Clone, Debug, PartialEq, Eq)]
pub struct CommandRequest {
    /// Names the action in the toast and in the result dialog.
    pub title: String,
    pub command: String,
    /// Written to the command's standard input, where there is any.
    pub stdin_data: Option<String>,
    /// Shown in a toast when the command succeeds.
    pub success_message: String,
    /// The diagnostics are read again after a success.
    pub refresh_after: bool,
    pub mode: CommandMode,
}

/// A desktop application a quick action opens.
#[derive(Clone, Copy, Debug, PartialEq, Eq, Structural)]
pub enum LaunchTarget {
    CameraApp,
    SoundApp,
}

/// What a quick action does.
#[derive(Clone, Debug, PartialEq, Eq)]
pub enum ActionPlan {
    /// Run a shell command.
    Run(CommandRequest),
    /// Ask for the temporary MOK password before preparing the key.
    AskSecureBootPassword,
    /// Open an installed application.
    Launch(LaunchTarget),
}

/// The actions whose commands run as the desktop user.
pub open spec fn action_mode(key: ActionKey) -> CommandMode {
    match key {
        ActionKey::OpenFingerprintSettings | ActionKey::ApplyClipboardProfile
        | ActionKey::ApplyGsconnectProfile | ActionKey::ApplyDesktopIconsProfile
        | ActionKey::ApplyDockProfile => CommandMode::User,
        _ => CommandMode::Privileged,
    }
}

/// Every command action reads the diagnostics again after a success, except
/// opening the fingerprint settings and rebooting.
pub open spec fn action_refreshes(key: ActionKey) -> bool {
    key != ActionKey::OpenFingerprintSettings && key != ActionKey::Reboot
}

/// The toast shown when an action's command succeeds.
pub open spec fn action_success_message(key: ActionKey) -> Seq<char> {
    match key {
        ActionKey::InstallMainSupport => "Pacotes principais instalados. Atualize o diagnóstico e use as ações específicas se câmera ou alto-falantes ainda precisarem de ajuste."@,
        ActionKey::InstallCamera => "Instalação concluída. Reinicie o sistema para carregar o driver."@,
        ActionKey::InstallSoundApp => "Galaxy Book Sound instalado. Abra o painel para ajustar equalizador, perfis e Atmos compatível."@,
        ActionKey::RepairDriver => "Reparo concluído. Reinicie o sistema para aplicar o módulo atualizado."@,
        ActionKey::EnableCameraModule => "Carregamento do ov02c10 ajustado. Se a câmera ainda não aparecer, reinicie o sistema para validar o boot completo."@,
        ActionKey::ForceDriverPriority => "Ajuste concluído. Se o módulo ainda estiver em uso, reinicie o sistema antes de validar a câmera."@,
        ActionKey::RestoreIntelIpu6 => "Restauração concluída. Se a câmera continuar ausente no libcamera, reinicie o sistema antes de validar novamente."@,
        ActionKey::EnableBrowserCamera => "Bridge V4L2 ativado. Se os nós crus do IPU6 ainda aparecerem na sessão atual, faça logout/login antes de validar Meet, Discord e outros apps."@,
        ActionKey::EnableSpeakers => "Fluxo dos alto-falantes concluído. Se os módulos MAX98390 já aparecerem no kernel, teste a saída Speaker imediatamente. Reinicie só se o sistema continuar preso ao estado anterior."@,
        ActionKey::PrepareSecureBootKey => SECURE_BOOT_DONE_TEXT@,
        ActionKey::RepairFingerprintStack => "Stack de fingerprint reinstalado. Atualize o diagnóstico e abra o cadastro de digitais se quiser testar novamente."@,
        ActionKey::EnableFingerprintAuth => "Integração do authselect com fingerprint aplicada com sucesso."@,
        ActionKey::OpenFingerprintSettings => "As configurações de usuários foram abertas para gerenciar as digitais."@,
        ActionKey::RepairNvidia => "Fluxo NVIDIA concluído. Reinicie o sistema se os módulos ainda não aparecerem carregados."@,
        ActionKey::SetBalancedProfile => "Perfil balanced aplicado com sucesso."@,
        ActionKey::ApplyClipboardProfile => "Perfil do histórico da área de transferência aplicado com sucesso."@,
        ActionKey::ApplyGsconnectProfile => "Perfil do GSConnect aplicado com sucesso."@,
        ActionKey::ApplyDesktopIconsProfile => "Perfil dos ícones da área de trabalho aplicado com sucesso."@,
        ActionKey::ApplyDockProfile => "Perfil da dock aplicado com sucesso."@,
        ActionKey::Reboot => "Reinicialização solicitada."@,
        ActionKey::OpenCamera => seq![],
        ActionKey::OpenSoundApp => seq![],
    }
}

/// The snapshot's command for an action (empty for those without one).
pub open spec fn snapshot_command(s: SetupSnapshot, key: ActionKey) -> Seq<char> {
    match key {
        ActionKey::InstallMainSupport => s.install_main_support_command@,
        ActionKey::InstallCamera => s.install_command@,
        ActionKey::InstallSoundApp => s.install_sound_app_command@,
        ActionKey::RepairDriver => s.repair_command@,
        ActionKey::EnableCameraModule => s.enable_camera_module_command@,
        ActionKey::ForceDriverPriority => s.force_camera_command@,
        ActionKey::RestoreIntelIpu6 => s.restore_intel_camera_command@,
        ActionKey::EnableBrowserCamera => s.enable_browser_camera_command@,
        ActionKey::EnableSpeakers => s.enable_speaker_command@,
        ActionKey::PrepareSecureBootKey => s.prepare_secure_boot_key_command@,
        ActionKey::RepairFingerprintStack => s.repair_fingerprint_command@,
        ActionKey::EnableFingerprintAuth => s.enable_fingerprint_auth_command@,
        ActionKey::OpenFingerprintSettings => s.open_fingerprint_settings_command@,
        ActionKey::RepairNvidia => s.repair_nvidia_command@,
        ActionKey::SetBalancedProfile => s.set_balanced_profile_command@,
        ActionKey::ApplyClipboardProfile => s.apply_clipboard_profile_command@,
        ActionKey::ApplyGsconnectProfile => s.apply_gsconnect_profile_command@,
        ActionKey::ApplyDesktopIconsProfile => s.apply_desktop_icons_profile_command@,
        ActionKey::ApplyDockProfile => s.apply_dock_profile_command@,
        ActionKey::Reboot => s.reboot_command@,
        ActionKey::OpenCamera => seq![],
        ActionKey::OpenSoundApp => seq![],
    }
}

/// The command an action runs before any diagnostics were read.
pub open spec fn fallback_command(key: ActionKey) -> Seq<char> {
    match key {
        ActionKey::RestoreIntelIpu6 => RESTORE_INTEL_CAMERA_COMMAND@,
        ActionKey::OpenFingerprintSettings => OPEN_FINGERPRINT_SETTINGS_COMMAND@,
        _ => seq![],
    }
}

/// The command an action runs: the reboot command always, otherwise the
/// snapshot's command, or the fallback while there is no snapshot.
pub open spec fn planned_command(s: Option<SetupSnapshot>, key: ActionKey) -> Seq<char> {
    if key == ActionKey::Reboot {
        REBOOT_COMMAND@
    } else {
        match s {
            Some(s) => snapshot_command(s, key),
            None => fallback_command(key),
        }
    }
}

/// `r` asks for exactly this command.
pub open spec fn requests(
    r: CommandRequest,
    title: Seq<char>,
    command: Seq<char>,
    stdin_data: Option<Seq<char>>,
    success_message: Seq<char>,
    refresh_after: bool,
    mode: CommandMode,
) -> bool {
    &&& r.title@ == title
    &&& r.command@ == command
    &&& crate::checks::opt_view(r.stdin_data) == stdin_data
    &&& r.success_message@ == success_message
    &&& r.refresh_after == refresh_after
    &&& r.mode == mode
}

/// What a quick action does, given the last snapshot (where there is one).
pub open spec fn plan(s: Option<SetupSnapshot>, key: ActionKey, p: ActionPlan) -> bool {
    match key {
        ActionKey::PrepareSecureBootKey => p == ActionPlan::AskSecureBootPassword,
        ActionKey::OpenCamera => p == ActionPlan::Launch(LaunchTarget::CameraApp),
        ActionKey::OpenSoundApp => p == ActionPlan::Launch(LaunchTarget::SoundApp),
        _ => p matches ActionPlan::Run(r) && requests(
            r,
            action_title(key),
            planned_command(s, key),
            None,
            action_success_message(key),
            action_refreshes(key),
            action_mode(key),
        ),
    }
}

/// Shown when the MOK key preparation succeeds.
pub const SECURE_BOOT_DONE_TEXT: &'static str = "Fluxo do Secure Boot concluído. Se o pedido de importação foi criado agora, reinicie e conclua o Enroll MOK no boot antes de repetir a ação do driver.";

fn success_message_of(key: ActionKey) -> (r: &'static str)
    ensures
        r@ == action_success_message(key),
{
    proof {
        reveal_strlit("");
    }
    match key {
        ActionKey::InstallMainSupport => "Pacotes principais instalados. Atualize o diagnóstico e use as ações específicas se câmera ou alto-falantes ainda precisarem de ajuste.",
        ActionKey::InstallCamera => "Instalação concluída. Reinicie o sistema para carregar o driver.",
        ActionKey::InstallSoundApp => "Galaxy Book Sound instalado. Abra o painel para ajustar equalizador, perfis e Atmos compatível.",
        ActionKey::RepairDriver => "Reparo concluído. Reinicie o sistema para aplicar o módulo atualizado.",
        ActionKey::EnableCameraModule => "Carregamento do ov02c10 ajustado. Se a câmera ainda não aparecer, reinicie o sistema para validar o boot completo.",
        ActionKey::ForceDriverPriority => "Ajuste concluído. Se o módulo ainda estiver em uso, reinicie o sistema antes de validar a câmera.",
        ActionKey::RestoreIntelIpu6 => "Restauração concluída. Se a câmera continuar ausente no libcamera, reinicie o sistema antes de validar novamente.",
        ActionKey::EnableBrowserCamera => "Bridge V4L2 ativado. Se os nós crus do IPU6 ainda aparecerem na sessão atual, faça logout/login antes de validar Meet, Discord e outros apps.",
        ActionKey::EnableSpeakers => "Fluxo dos alto-falantes concluído. Se os módulos MAX98390 já aparecerem no kernel, teste a saída Speaker imediatamente. Reinicie só se o sistema continuar preso ao estado anterior.",
        ActionKey::PrepareSecureBootKey => SECURE_BOOT_DONE_TEXT,
        ActionKey::RepairFingerprintStack => "Stack de fingerprint reinstalado. Atualize o diagnóstico e abra o cadastro de digitais se quiser testar novamente.",
        ActionKey::EnableFingerprintAuth => "Integração do authselect com fingerprint aplicada com sucesso.",
        ActionKey::OpenFingerprintSettings => "As configurações de usuários foram abertas para gerenciar as digitais.",
        ActionKey::RepairNvidia => "Fluxo NVIDIA concluído. Reinicie o sistema se os módulos ainda não aparecerem carregados.",
        ActionKey::SetBalancedProfile => "Perfil balanced aplicado com sucesso.",
        ActionKey::ApplyClipboardProfile => "Perfil do histórico da área de transferência aplicado com sucesso.",
        ActionKey::ApplyGsconnectProfile => "Perfil do GSConnect aplicado com sucesso.",
        ActionKey::ApplyDesktopIconsProfile => "Perfil dos ícones da área de trabalho aplicado com sucesso.",
        ActionKey::ApplyDockProfile => "Perfil da dock aplicado com sucesso.",
        ActionKey::Reboot => "Reinicialização solicitada.",
        ActionKey::OpenCamera => "",
        ActionKey::OpenSoundApp => "",
    }
}

fn snapshot_command_of(s: &SetupSnapshot, key: ActionKey) -> (r: &str)
    ensures
        r@ == snapshot_command(*s, key),
{
    proof {
        reveal_strlit("");
    }
    match key {
        ActionKey::InstallMainSupport => s.install_main_support_command.as_str(),
        ActionKey::InstallCamera => s.install_command.as_str(),
        ActionKey::InstallSoundApp => s.install_sound_app_command.as_str(),
        ActionKey::RepairDriver => s.repair_command.as_str(),
        ActionKey::EnableCameraModule => s.enable_camera_module_command.as_str(),
        ActionKey::ForceDriverPriority => s.force_camera_command.as_str(),
        ActionKey::RestoreIntelIpu6 => s.restore_intel_camera_command.as_str(),
        ActionKey::EnableBrowserCamera => s.enable_browser_camera_command.as_str(),
        ActionKey::EnableSpeakers => s.enable_speaker_command.as_str(),
        ActionKey::PrepareSecureBootKey => s.prepare_secure_boot_key_command.as_str(),
        ActionKey::RepairFingerprintStack => s.repair_fingerprint_command.as_str(),
        ActionKey::EnableFingerprintAuth => s.enable_fingerprint_auth_command.as_str(),
        ActionKey::OpenFingerprintSettings => s.open_fingerprint_settings_command.as_str(),
        ActionKey::RepairNvidia => s.repair_nvidia_command.as_str(),
        ActionKey::SetBalancedProfile => s.set_balanced_profile_command.as_str(),
        ActionKey::ApplyClipboardProfile => s.apply_clipboard_profile_command.as_str(),
        ActionKey::ApplyGsconnectProfile => s.apply_gsconnect_profile_command.as_str(),
        ActionKey::ApplyDesktopIconsProfile => s.apply_desktop_icons_profile_command.as_str(),
        ActionKey::ApplyDockProfile => s.apply_dock_profile_command.as_str(),
        ActionKey::Reboot => s.reboot_command.as_str(),
        ActionKey::OpenCamera => "",
        ActionKey::OpenSoundApp => "",
    }
}

fn fallback_command_of(key: ActionKey) -> (r: &'static str)
    ensures
        r@ == fallback_command(key),
{
    match key {
        ActionKey::RestoreIntelIpu6 => RESTORE_INTEL_CAMERA_COMMAND,
        ActionKey::OpenFingerprintSettings => OPEN_FINGERPRINT_SETTINGS_COMMAND,
        _ => {
            proof {
                reveal_strlit("");
            }
            ""
        },
    }
}

fn mode_of(key: ActionKey) -> (r: CommandMode)
    ensures
        r == action_mode(key),
{
    match key {
        ActionKey::OpenFingerprintSettings | ActionKey::ApplyClipboardProfile
        | ActionKey::ApplyGsconnectProfile | ActionKey::ApplyDesktopIconsProfile
        | ActionKey::ApplyDockProfile => CommandMode::User,
        _ => CommandMode::Privileged,
    }
}

/// Decides what a quick action does: the Secure Boot key asks for a
/// password, the two "open" actions launch their application, and every other
/// action runs its command under the action's title.
pub fn action_plan(snapshot: &Option<SetupSnapshot>, key: ActionKey) -> (r: ActionPlan)
    ensures
        plan(*snapshot, key, r),
{
    match key {
        ActionKey::PrepareSecureBootKey => ActionPlan::AskSecureBootPassword,
        ActionKey::OpenCamera => ActionPlan::Launch(LaunchTarget::CameraApp),
        ActionKey::OpenSoundApp => ActionPlan::Launch(LaunchTarget::SoundApp),
        _ => {
            let command = if key == ActionKey::Reboot {
                owned(REBOOT_COMMAND)
            } else {
                match snapshot {
                    Some(s) => owned(snapshot_command_of(s, key)),
                    None => owned(fallback_command_of(key)),
                }
            };
            let meta = action_metadata(key);
            let request = CommandRequest {
                title: owned(meta.title),
                command,
                stdin_data: None,
                success_message: owned(success_message_of(key)),
                refresh_after: key != ActionKey::OpenFingerprintSettings && key != ActionKey::Reboot,
                mode: mode_of(key),
            };
            ActionPlan::Run(request)
        },
    }
}

// ---------------------------------------------------------------------------
// Running a command
// ---------------------------------------------------------------------------

/// The toast shown when a command starts.
pub open spec fn running_toast(title: Seq<char>) -> Seq<char> {
    "Executando: "@ + title + "…"@
}

/// Starts a command unless another one is running or the command is blank;
/// returns the toast to show when it starts. While it runs, the window is
/// busy: no other command starts and the action buttons are insensitive.
pub fn begin_command(running: bool, request: &CommandRequest) -> (r: Option<String>)
    ensures
        r is Some <==> (!running && !is_blank(request.command@)),
        r matches Some(t) ==> t@ == running_toast(request.title@),
{
    if running {
        return None;
    }
    let chars = chars_of(request.command.as_str());
    if is_blank_exec(chars.as_slice()) {
        return None;
    }
    Some(concat3("Executando: ", request.title.as_str(), "…"))
}

/// What came back from a command: whether it succeeded and what it printed
/// (or why it could not start).
#[derive(Clone, Debug, PartialEq, Eq)]
pub struct CommandReport {
    pub success: bool,
    pub output: String,
}

/// The report of a command that could not be started.
pub open spec fn spawn_failure_text(mode: CommandMode, error: Seq<char>) -> Seq<char> {
    match mode {
        CommandMode::Privileged => "Falha ao iniciar a ação privilegiada: "@ + error,
        CommandMode::User => "Falha ao iniciar a ação local: "@ + error,
    }
}

/// Reports a command that could not be started, with the reason.
pub fn spawn_failure_report(mode: CommandMode, error: &str) -> (r: CommandReport)
    ensures
        !r.success,
        r.output@ == spawn_failure_text(mode, error@),
{
    let output = match mode {
        CommandMode::Privileged => concat2("Falha ao iniciar a ação privilegiada: ", error),
        CommandMode::User => concat2("Falha ao iniciar a ação local: ", error),
    };
    CommandReport { success: false, output }
}

/// How the window answers the end of a command.
#[derive(Clone, Debug, PartialEq, Eq)]
pub enum CommandCompletion {
    /// A toast, and a new round of diagnostics where asked for.
    Succeeded { toast: String, refresh: bool },
    /// A dialog with the command's title and its explained output.
    Failed { title: String, output: String },
}

/// Ends a command: the window is no longer busy; a success shows the
/// request's message and refreshes where the request asks for it, a failure
/// shows the output with the Secure Boot advice where it applies (which
/// advice depends on whether the akmods public key file exists).
pub fn finish_command(request: &CommandRequest, report: &CommandReport, public_key_exists: bool) -> (r:
    CommandCompletion)
    ensures
        report.success ==> (r matches CommandCompletion::Succeeded { toast, refresh } && toast@
            == request.success_message@ && refresh == request.refresh_after),
        !report.success ==> (r matches CommandCompletion::Failed { title, output } && title@
            == request.title@ && output@ == explained_output(report.output@, public_key_exists)),
{
    if report.success {
        CommandCompletion::Succeeded {
            toast: owned(request.success_message.as_str()),
            refresh: request.refresh_after,
        }
    } else {
        CommandCompletion::Failed {
            title: owned(request.title.as_str()),
            output: format_command_output(report.output.as_str(), public_key_exists),
        }
    }
}

/// Shown when the window lost track of a running command.
pub const COMMAND_LOST_TEXT: &'static str = "Falha ao acompanhar a ação solicitada.";

// ---------------------------------------------------------------------------
// Secure Boot key
// ---------------------------------------------------------------------------

/// The command the MOK password dialog will run, where the dialog may open:
/// no action is running and the snapshot holds a command that is not blank.
pub fn secure_boot_dialog_command(running: bool, snapshot: &Option<SetupSnapshot>) -> (r: Option<
    String,
>)
    ensures
        r is Some <==> (!running && snapshot is Some && !is_blank(
            snapshot->0.prepare_secure_boot_key_command@,
        )),
        r matches Some(c) ==> c@ == snapshot->0.prepare_secure_boot_key_command@,
{
    if running {
        return None;
    }
    match snapshot {
        None => None,
        Some(s) => {
            let chars = chars_of(s.prepare_secure_boot_key_command.as_str());
            if is_blank_exec(chars.as_slice()) {
                None
            } else {
                Some(owned(s.prepare_secure_boot_key_command.as_str()))
            }
        },
    }
}

/// Confirms the MOK password dialog: the problem with the two passwords,
/// where there is one, or the privileged command that imports the key with
/// both passwords on its standard input.
pub fn confirm_secure_boot_password(command: &str, password: &str, confirmation: &str) -> (r: Result<
    CommandRequest,
    String,
>)
    ensures
        r is Err <==> password_problem(password@, confirmation@) is Some,
        r matches Err(e) ==> password_problem(password@, confirmation@) == Some(e@),
        r matches Ok(req) ==> requests(
            req,
            action_title(ActionKey::PrepareSecureBootKey),
            command@,
            Some(password@ + "\n"@ + confirmation@ + "\n"@),
            SECURE_BOOT_DONE_TEXT@,
            true,
            CommandMode::Privileged,
        ),
{
    match secure_boot_password_error(password, confirmation) {
        Some(e) => Err(e),
        None => {
            let meta = action_metadata(ActionKey::PrepareSecureBootKey);
            Ok(
                CommandRequest {
                    title: owned(meta.title),
                    command: owned(command),
                    stdin_data: Some(mok_password_input(password, confirmation)),
                    success_message: owned(SECURE_BOOT_DONE_TEXT),
                    refresh_after: true,
                    mode: CommandMode::Privileged,
                },
            )
        },
    }
}

// ---------------------------------------------------------------------------
// Applications
// ---------------------------------------------------------------------------

/// The desktop file of an application.
pub fn launch_desktop_id(target: LaunchTarget) -> (r: &'static str)
    ensures
        target == LaunchTarget::CameraApp ==> r == CAMERA_APP_DESKTOP_ID,
        target == LaunchTarget::SoundApp ==> r == SOUND_APP_DESKTOP_ID,
{
    match target {
        LaunchTarget::CameraApp => CAMERA_APP_DESKTOP_ID,
        LaunchTarget::SoundApp => SOUND_APP_DESKTOP_ID,
    }
}

/// The toast shown when an application is not installed.
pub open spec fn launch_missing_text(target: LaunchTarget) -> Seq<char> {
    match target {
        LaunchTarget::CameraApp => "O Galaxy Book Câmera não foi encontrado no sistema."@,
        LaunchTarget::SoundApp => "O Galaxy Book Sound não foi encontrado no sistema."@,
    }
}

/// The toast shown when an application is not installed.
pub fn launch_missing_message(target: LaunchTarget) -> (r: &'static str)
    ensures
        r@ == launch_missing_text(target),
{
    match target {
        LaunchTarget::CameraApp => "O Galaxy Book Câmera não foi encontrado no sistema.",
        LaunchTarget::SoundApp => "O Galaxy Book Sound não foi encontrado no sistema.",
    }
}

/// The toast shown when an application failed to start.
pub open spec fn launch_failure_text(target: LaunchTarget, error: Seq<char>) -> Seq<char> {
    match target {
        LaunchTarget::CameraApp => "Falha ao abrir o app da câmera: "@ + error,
        LaunchTarget::SoundApp => "Falha ao abrir o painel de som: "@ + error,
    }
}

/// The toast shown when an application failed to start.
pub fn launch_failure_message(target: LaunchTarget, error: &str) -> (r: String)
    ensures
        r@ == launch_failure_text(target, error@),
{
    match target {
        LaunchTarget::CameraApp => concat2("Falha ao abrir o app da câmera: ", error),
        LaunchTarget::SoundApp => concat2("Falha ao abrir o painel de som: ", error),
    }
}

// ---------------------------------------------------------------------------
// Notifications and the launcher badge
// ---------------------------------------------------------------------------

/// What happens to the desktop notification after a round of diagnostics.
#[derive(Clone, Copy, Debug, PartialEq, Eq, Structural)]
pub enum NotificationStep {
    /// No alert is left: the notification goes away.
    Withdraw,
    /// Nothing changed (or this is the first round): nothing is sent.
    Keep,
    /// The alerts changed: a new notification, urgent where there are errors.
    Send { high_priority: bool },
}

/// The counts hold no warning and no error.
pub open spec fn clear(c: DiagnosticAlertCounts) -> bool {
    c.warnings == 0 && c.errors == 0
}

/// Decides the notification after a round of diagnostics, given the counts
/// of the round before (none on the first round).
pub fn notification_step(previous: Option<DiagnosticAlertCounts>, counts: DiagnosticAlertCounts) -> (r:
    NotificationStep)
    ensures
        clear(counts) ==> r == NotificationStep::Withdraw,
        !clear(counts) && (previous is None || previous == Some(counts)) ==> r
            == NotificationStep::Keep,
        !clear(counts) && previous is Some && previous != Some(counts) ==> r
            == (NotificationStep::Send { high_priority: counts.errors > 0 }),
{
    if counts.warnings == 0 && counts.errors == 0 {
        return NotificationStep::Withdraw;
    }
    match previous {
        None => NotificationStep::Keep,
        Some(p) => {
            if p.warnings == counts.warnings && p.errors == counts.errors {
                NotificationStep::Keep
            } else {
                NotificationStep::Send { high_priority: counts.errors > 0 }
            }
        },
    }
}

/// The launcher entry's badge.
#[derive(Clone, Copy, Debug, PartialEq, Eq, Structural)]
pub struct LauncherBadge {
    pub count: u32,
    pub count_visible: bool,
    pub urgent: bool,
}

/// The badge shows the number of alerts, is visible while there is any and
/// urgent while there are errors.
pub fn launcher_badge(counts: DiagnosticAlertCounts) -> (r: LauncherBadge)
    requires
        counts.warnings + counts.errors <= u32::MAX,
    ensures
        r.count == counts.warnings + counts.errors,
        r.count_visible == !clear(counts),
        r.urgent == (counts.errors > 0),
{
    LauncherBadge {
        count: counts.total(),
        count_visible: !counts.is_clear(),
        urgent: counts.errors > 0,
    }
}

/// The launcher entry the badge belongs to.
pub fn launcher_entry_uri() -> (r: String)
    ensures
        r@ == "application://"@ + crate::commands::APP_ID@ + ".desktop"@,
{
    concat3("application://", crate::commands::APP_ID, ".desktop")
}

// ---------------------------------------------------------------------------
// Buttons
// ---------------------------------------------------------------------------

/// Which quick-action buttons accept clicks.
#[derive(Clone, Copy, Debug, PartialEq, Eq, Structural)]
pub struct ButtonSensitivity {
    /// Every button that runs a command.
    pub actions: bool,
    pub open_camera: bool,
    pub open_sound: bool,
}

/// The buttons accept clicks where asked and while no action runs; the two
/// "open" buttons also need their application installed, as the snapshot
/// says.
pub fn action_buttons_sensitivity(sensitive: bool, running: bool, snapshot: &Option<SetupSnapshot>) -> (r:
    ButtonSensitivity)
    ensures
        r.actions == (sensitive && !running),
        r.open_camera == (r.actions && snapshot is Some && snapshot->0.camera_app_installed),
        r.open_sound == (r.actions && snapshot is Some && snapshot->0.sound_app_installed),
{
    let allowed = sensitive && !running;
    let (camera, sound) = match snapshot {
        Some(s) => (s.camera_app_installed, s.sound_app_installed),
        None => (false, false),
    };
    ButtonSensitivity { actions: allowed, open_camera: allowed && camera, open_sound: allowed && sound }
}

/// The update button.
#[derive(Clone, Debug, PartialEq, Eq)]
pub struct UpdateButton {
    pub visible: bool,
    pub sensitive: bool,
    /// A new tooltip, where it changes.
    pub tooltip: Option<String>,
}

/// The update button after the package manager answered (`None` where the
/// query failed): shown while updates are pending, clickable unless an action
/// runs, with the packages in its tooltip.
pub fn update_button_state(updates: &Option<Vec<String>>, running: bool) -> (r: UpdateButton)
    ensures
        updates is None ==> !r.visible && !r.sensitive && r.tooltip is None,
        updates matches Some(p) ==> {
            &&& r.visible == (p.len() > 0)
            &&& r.sensitive == (p.len() > 0 && !running)
            &&& (r.tooltip is Some <==> p.len() > 0)
            &&& (r.tooltip matches Some(t) ==> t@ == "Baixar e instalar atualizações: "@ + join(
                views(p@),
                ", "@,
            ))
        },
{
    match updates {
        None => UpdateButton { visible: false, sensitive: false, tooltip: None },
        Some(p) => {
            let has = p.len() > 0;
            let tooltip = if has {
                Some(update_button_tooltip(p))
            } else {
                None
            };
            UpdateButton { visible: has, sensitive: has && !running, tooltip }
        },
    }
}

/// The title of the update action.
pub const UPDATE_TITLE: &'static str = "Atualizar pacotes";

/// Shown when the updates are installed.
pub const UPDATE_DONE_TEXT: &'static str = "Atualizações instaladas. Reinicie os apps atualizados antes de continuar.";

/// The update command, where the update button is visible and accepts clicks.
pub fn install_updates_request(visible: bool, sensitive: bool) -> (r: Option<CommandRequest>)
    ensures
        r is Some <==> (visible && sensitive),
        r matches Some(req) ==> requests(
            req,
            UPDATE_TITLE@,
            upgrade_script(
                seq![
                    "galaxybook-setup"@,
                    "galaxybook-camera"@,
                    "galaxybook-ov02c10-kmod-common"@,
                    "akmod-galaxybook-ov02c10"@,
                    "galaxybook-sound"@,
                    "galaxybook-max98390-kmod-common"@,
                    "akmod-galaxybook-max98390"@,
                ],
            ),
            None,
            UPDATE_DONE_TEXT@,
            true,
            CommandMode::Privileged,
        ),
{
    if !(visible && sensitive) {
        return None;
    }
    let packages = setup_update_packages();
    Some(
        CommandRequest {
            title: owned(UPDATE_TITLE),
            command: upgrade_installed_packages_command(packages.as_slice()),
            stdin_data: None,
            success_message: owned(UPDATE_DONE_TEXT),
            refresh_after: true,
            mode: CommandMode::Privileged,
        },
    )
}

// ---------------------------------------------------------------------------
// Diagnostics page
// ---------------------------------------------------------------------------

/// Shown on the recommendation rows while the diagnostics are read.
pub const REFRESHING_TITLE: &'static str = "Atualizando diagnóstico…";

/// Shown on the recommendation rows while the diagnostics are read.
pub const REFRESHING_BODY: &'static str = "Aguarde enquanto o setup verifica pacotes, driver, akmods, câmera, áudio, fingerprint, GPU, plataforma e integrações do desktop.";

/// Shown when a round of diagnostics was lost.
pub const REFRESH_FAILED_TEXT: &'static str = "Falha ao atualizar o diagnóstico.";

/// A diagnostic row offers its suggested actions where it has any.
pub fn suggestions_available(snapshot: &SetupSnapshot, key: DiagnosticKey) -> (r: bool)
    ensures
        r == (suggested(*snapshot, key).len() > 0),
{
    let actions = suggested_actions(snapshot, key);
    actions.len() > 0
}

/// The suggested-actions page of a diagnostic.
#[derive(Clone, Debug, PartialEq, Eq)]
pub struct SuggestedPanel {
    pub title: String,
    pub status: String,
    pub detail: String,
    /// One row per action; an empty list shows the "no automation" row.
    pub actions: Vec<ActionKey>,
}

/// Title of the row shown where a diagnostic has no suggested action.
pub const NO_AUTOMATION_TITLE: &'static str = "Sem automação disponível";

/// Subtitle of the row shown where a diagnostic has no suggested action.
pub const NO_AUTOMATION_SUBTITLE: &'static str = "Este diagnóstico ainda não tem uma ação rápida dedicada no setup. O painel geral de ações continua disponível sem filtro.";

/// Fills the suggested-actions page: the diagnostic's title, health label,
/// detail and actions (each once), or a note that the diagnostics were not
/// read yet.
pub fn suggested_panel(snapshot: &Option<SetupSnapshot>, key: DiagnosticKey) -> (r: SuggestedPanel)
    ensures
        snapshot is None ==> {
            &&& r.title@ == "Diagnóstico indisponível"@
            &&& r.status@ == "Aguardando leitura"@
            &&& r.detail@ == "Atualize o diagnóstico antes de abrir as ações sugeridas."@
            &&& r.actions@.len() == 0
        },
        *snapshot matches Some(s) ==> {
            &&& r.title@ == item_of(s, key).title@
            &&& r.status@ == health_label(item_of(s, key).health)
            &&& r.detail@ == item_of(s, key).detail@
            &&& r.actions@ == dedupe(suggested(s, key))
        },
{
    match snapshot {
        None => SuggestedPanel {
            title: owned("Diagnóstico indisponível"),
            status: owned("Aguardando leitura"),
            detail: owned("Atualize o diagnóstico antes de abrir as ações sugeridas."),
            actions: Vec::new(),
        },
        Some(s) => {
            let item = diagnostic_item(s, key);
            let actions = suggested_actions(s, key);
            SuggestedPanel {
                title: owned(item.title),
                status: owned(item.health.label()),
                detail: owned(item.detail.as_str()),
                actions: dedupe_action_keys(actions.as_slice()),
            }
        },
    }
}

} // verus!
