//! What the setup offers for each diagnostic: the quick actions, the alert
//! counts behind notifications and the launcher badge, and the suggested
//! actions of each diagnostic row.
use vstd::prelude::*;

use crate::model::{concat3, owned, CheckItem, Health, SetupSnapshot};
use crate::text::{join, str_eq};

verus! {

/// A quick action the setup can run.
#[derive(Clone, Copy, Debug, PartialEq, Eq, Structural)]
pub enum ActionKey {
    InstallMainSupport,
    InstallCamera,
    InstallSoundApp,
    RepairDriver,
    EnableCameraModule,
    ForceDriverPriority,
    RestoreIntelIpu6,
    EnableBrowserCamera,
    EnableSpeakers,
    PrepareSecureBootKey,
    RepairFingerprintStack,
    EnableFingerprintAuth,
    OpenFingerprintSettings,
    RepairNvidia,
    SetBalancedProfile,
    ApplyClipboardProfile,
    ApplyGsconnectProfile,
    ApplyDesktopIconsProfile,
    ApplyDockProfile,
    Reboot,
    OpenCamera,
    OpenSoundApp,
}

/// Title and subtitle of a quick action.
#[derive(Clone, Copy, Debug, PartialEq, Eq)]
pub struct ActionMetadata {
    pub title: &'static str,
    pub subtitle: &'static str,
}

/// Title of a quick action.
pub open spec fn action_title(key: ActionKey) -> Seq<char> {
    match key {
        ActionKey::InstallMainSupport => "Instalar suporte principal"@,
        ActionKey::InstallCamera => "Instalar suporte da câmera"@,
        ActionKey::InstallSoundApp => "Instalar Galaxy Book Sound"@,
        ActionKey::RepairDriver => "Reparar o driver"@,
        ActionKey::EnableCameraModule => "Habilitar driver da câmera"@,
        ActionKey::ForceDriverPriority => "Ajustar prioridade do driver"@,
        ActionKey::RestoreIntelIpu6 => "Restaurar stack Intel IPU6"@,
        ActionKey::EnableBrowserCamera => "Ativar câmera para navegador"@,
        ActionKey::EnableSpeakers => "Ativar alto-falantes internos"@,
        ActionKey::PrepareSecureBootKey => "Preparar chave do Secure Boot"@,
        ActionKey::RepairFingerprintStack => "Reinstalar stack de fingerprint"@,
        ActionKey::EnableFingerprintAuth => "Ativar login por digital"@,
        ActionKey::OpenFingerprintSettings => "Abrir cadastro de digitais"@,
        ActionKey::RepairNvidia => "Reparar suporte NVIDIA"@,
        ActionKey::SetBalancedProfile => "Definir perfil balanceado"@,
        ActionKey::ApplyClipboardProfile => "Ativar histórico da área de transferência"@,
        ActionKey::ApplyGsconnectProfile => "Ativar GSConnect"@,
        ActionKey::ApplyDesktopIconsProfile => "Ativar ícones na área de trabalho"@,
        ActionKey::ApplyDockProfile => "Aplicar perfil da dock"@,
        ActionKey::Reboot => "Reiniciar o sistema"@,
        ActionKey::OpenCamera => "Abrir Galaxy Book Câmera"@,
        ActionKey::OpenSoundApp => "Abrir Galaxy Book Sound"@,
    }
}

/// Subtitle of a quick action.
pub open spec fn action_subtitle(key: ActionKey) -> Seq<char> {
    match key {
        ActionKey::InstallMainSupport => "Instala Galaxy Book Câmera, driver OV02C10 e suporte MAX98390 para começar pelo setup sem depender de instalação manual dos outros pacotes."@,
        ActionKey::InstallCamera => "Instala o driver corrigido e o aplicativo Galaxy Book Câmera usando privilégios administrativos."@,
        ActionKey::InstallSoundApp => "Instala o painel de som do Galaxy Book para equalizador, perfis e Atmos compatível via PipeWire."@,
        ActionKey::RepairDriver => "Reconstrói o módulo com akmods para o kernel atual e atualiza a árvore de módulos."@,
        ActionKey::EnableCameraModule => "Garante o carregamento do ov02c10 no boot, ajusta o softdep do IPU6 e carrega o módulo agora no kernel."@,
        ActionKey::ForceDriverPriority => "Compila o módulo corrigido, assina quando o Secure Boot estiver ativo e o instala em /lib/modules/.../updates sem compressão incompatível."@,
        ActionKey::RestoreIntelIpu6 => "Remove o override manual em /updates, reinstala o stack Intel empacotado e volta ao caminho que já funcionava com a câmera do sistema."@,
        ActionKey::EnableBrowserCamera => "Expõe a câmera interna como webcam V4L2 para Meet, Discord, Teams e outros apps WebRTC usando o bridge do sistema e oculta os nós crus do IPU6 no PipeWire."@,
        ActionKey::EnableSpeakers => "Instala o suporte MAX98390, reconstrói os módulos dos amplificadores, instala manualmente o driver no kernel atual quando necessário e habilita o serviço de I2C usado pelos alto-falantes internos."@,
        ActionKey::PrepareSecureBootKey => "Prepara a chave do akmods para o Secure Boot e cria o pedido de importação no MOK. A senha temporária definida aqui será pedida na tela azul do boot quando você escolher 'Enroll MOK'."@,
        ActionKey::RepairFingerprintStack => "Reinstala fprintd e libfprint e reinicia o daemon para recuperar o leitor quando o sensor aparece, mas o cadastro ou a autenticação falham."@,
        ActionKey::EnableFingerprintAuth => "Habilita with-fingerprint no authselect, aplica as mudanças do perfil PAM atual e devolve o estado final do authselect."@,
        ActionKey::OpenFingerprintSettings => "Abre as configurações de usuários do GNOME para cadastrar, revisar ou refazer as digitais do usuário atual."@,
        ActionKey::RepairNvidia => "Instala ou reconstrói o akmod-nvidia para o kernel atual. O nvidia-smi permanece opcional."@,
        ActionKey::SetBalancedProfile => "Aplica o perfil balanced da plataforma para uso geral, equilibrando ventoinha, temperatura e desempenho."@,
        ActionKey::ApplyClipboardProfile => "Instala e habilita a extensão de clipboard usada como perfil recomendado neste notebook."@,
        ActionKey::ApplyGsconnectProfile => "Instala o GSConnect, habilita a extensão e reaplica o perfil usado neste notebook para integração com o celular."@,
        ActionKey::ApplyDesktopIconsProfile => "Instala o Desktop Icons NG, habilita a extensão e reaplica o perfil usado neste notebook."@,
        ActionKey::ApplyDockProfile => "Ativa o Dash to Dock e reaplica a dock inferior auto-ocultável, com clique ciclando janelas, prévia, lixeira e unidades montadas visíveis."@,
        ActionKey::Reboot => "Aplica mudanças pendentes do driver e reinicia a sessão inteira do notebook."@,
        ActionKey::OpenCamera => "Abre o aplicativo final da câmera quando ele estiver instalado no sistema."@,
        ActionKey::OpenSoundApp => "Abre o painel de som com equalizador, perfis e Atmos compatível quando ele estiver instalado no sistema."@,
    }
}

fn metadata(title: &'static str, subtitle: &'static str) -> (r: ActionMetadata)
    ensures
        r.title == title,
        r.subtitle == subtitle,
{
    ActionMetadata { title, subtitle }
}

/// Title and subtitle of a quick action.
pub fn action_metadata(key: ActionKey) -> (r: ActionMetadata)
    ensures
        r.title@ == action_title(key),
        r.subtitle@ == action_subtitle(key),
{
    match key {
        ActionKey::InstallMainSupport => metadata(
            "Instalar suporte principal",
            "Instala Galaxy Book Câmera, driver OV02C10 e suporte MAX98390 para começar pelo setup sem depender de instalação manual dos outros pacotes.",
        ),
        ActionKey::InstallCamera => metadata(
            "Instalar suporte da câmera",
            "Instala o driver corrigido e o aplicativo Galaxy Book Câmera usando privilégios administrativos.",
        ),
        ActionKey::InstallSoundApp => metadata(
            "Instalar Galaxy Book Sound",
            "Instala o painel de som do Galaxy Book para equalizador, perfis e Atmos compatível via PipeWire.",
        ),
        ActionKey::RepairDriver => metadata(
            "Reparar o driver",
            "Reconstrói o módulo com akmods para o kernel atual e atualiza a árvore de módulos.",
        ),
        ActionKey::EnableCameraModule => metadata(
            "Habilitar driver da câmera",
            "Garante o carregamento do ov02c10 no boot, ajusta o softdep do IPU6 e carrega o módulo agora no kernel.",
        ),
        ActionKey::ForceDriverPriority => metadata(
            "Ajustar prioridade do driver",
            "Compila o módulo corrigido, assina quando o Secure Boot estiver ativo e o instala em /lib/modules/.../updates sem compressão incompatível.",
        ),
        ActionKey::RestoreIntelIpu6 => metadata(
            "Restaurar stack Intel IPU6",
            "Remove o override manual em /updates, reinstala o stack Intel empacotado e volta ao caminho que já funcionava com a câmera do sistema.",
        ),
        ActionKey::EnableBrowserCamera => metadata(
            "Ativar câmera para navegador",
            "Expõe a câmera interna como webcam V4L2 para Meet, Discord, Teams e outros apps WebRTC usando o bridge do sistema e oculta os nós crus do IPU6 no PipeWire.",
        ),
        ActionKey::EnableSpeakers => metadata(
            "Ativar alto-falantes internos",
            "Instala o suporte MAX98390, reconstrói os módulos dos amplificadores, instala manualmente o driver no kernel atual quando necessário e habilita o serviço de I2C usado pelos alto-falantes internos.",
        ),
        ActionKey::PrepareSecureBootKey => metadata(
            "Preparar chave do Secure Boot",
            "Prepara a chave do akmods para o Secure Boot e cria o pedido de importação no MOK. A senha temporária definida aqui será pedida na tela azul do boot quando você escolher 'Enroll MOK'.",
        ),
        ActionKey::RepairFingerprintStack => metadata(
            "Reinstalar stack de fingerprint",
            "Reinstala fprintd e libfprint e reinicia o daemon para recuperar o leitor quando o sensor aparece, mas o cadastro ou a autenticação falham.",
        ),
        ActionKey::EnableFingerprintAuth => metadata(
            "Ativar login por digital",
            "Habilita with-fingerprint no authselect, aplica as mudanças do perfil PAM atual e devolve o estado final do authselect.",
        ),
        ActionKey::OpenFingerprintSettings => metadata(
            "Abrir cadastro de digitais",
            "Abre as configurações de usuários do GNOME para cadastrar, revisar ou refazer as digitais do usuário atual.",
        ),
        ActionKey::RepairNvidia => metadata(
            "Reparar suporte NVIDIA",
            "Instala ou reconstrói o akmod-nvidia para o kernel atual. O nvidia-smi permanece opcional.",
        ),
        ActionKey::SetBalancedProfile => metadata(
            "Definir perfil balanceado",
            "Aplica o perfil balanced da plataforma para uso geral, equilibrando ventoinha, temperatura e desempenho.",
        ),
        ActionKey::ApplyClipboardProfile => metadata(
            "Ativar histórico da área de transferência",
            "Instala e habilita a extensão de clipboard usada como perfil recomendado neste notebook.",
        ),
        ActionKey::ApplyGsconnectProfile => metadata(
            "Ativar GSConnect",
            "Instala o GSConnect, habilita a extensão e reaplica o perfil usado neste notebook para integração com o celular.",
        ),
        ActionKey::ApplyDesktopIconsProfile => metadata(
            "Ativar ícones na área de trabalho",
            "Instala o Desktop Icons NG, habilita a extensão e reaplica o perfil usado neste notebook.",
        ),
        ActionKey::ApplyDockProfile => metadata(
            "Aplicar perfil da dock",
            "Ativa o Dash to Dock e reaplica a dock inferior auto-ocultável, com clique ciclando janelas, prévia, lixeira e unidades montadas visíveis.",
        ),
        ActionKey::Reboot => metadata(
            "Reiniciar o sistema",
            "Aplica mudanças pendentes do driver e reinicia a sessão inteira do notebook.",
        ),
        ActionKey::OpenCamera => metadata(
            "Abrir Galaxy Book Câmera",
            "Abre o aplicativo final da câmera quando ele estiver instalado no sistema.",
        ),
        ActionKey::OpenSoundApp => metadata(
            "Abrir Galaxy Book Sound",
            "Abre o painel de som com equalizador, perfis e Atmos compatível quando ele estiver instalado no sistema.",
        ),
    }
}

/// `s` with later repetitions of an action left out.
pub open spec fn dedupe(s: Seq<ActionKey>) -> Seq<ActionKey>
    decreases s.len(),
{
    if s.len() == 0 {
        seq![]
    } else {
        let d = dedupe(s.drop_last());
        if d.contains(s.last()) {
            d
        } else {
            d.push(s.last())
        }
    }
}

/// No action occurs twice.
pub open spec fn no_duplicates(s: Seq<ActionKey>) -> bool {
    forall|i: int, j: int| 0 <= i < j < s.len() ==> s[i] != s[j]
}

/// Each action once, in the order of its first occurrence.
pub fn dedupe_action_keys(actions: &[ActionKey]) -> (r: Vec<ActionKey>)
    ensures
        r@ == dedupe(actions@),
{
    let mut deduped: Vec<ActionKey> = Vec::new();
    let mut i: usize = 0;
    while i < actions.len()
        invariant
            0 <= i <= actions.len(),
            deduped@ == dedupe(actions@.take(i as int)),
        decreases actions.len() - i,
    {
        let a = actions[i];
        assert(actions@.take(i + 1).drop_last() =~= actions@.take(i as int));
        assert(actions@.take(i + 1).last() == a);
        let mut found = false;
        let mut j: usize = 0;
        while j < deduped.len()
            invariant
                0 <= j <= deduped.len(),
                found == (exists|k: int| 0 <= k < j && deduped@[k] == a),
            decreases deduped.len() - j,
        {
            if deduped[j] == a {
                found = true;
            }
            j = j + 1;
        }
        assert(found == deduped@.contains(a));
        if !found {
            deduped.push(a);
        }
        i = i + 1;
    }
    assert(actions@.take(actions.len() as int) =~= actions@);
    deduped
}

/// One row of the diagnostics list.
#[derive(Clone, Copy, Debug, PartialEq, Eq, Structural)]
pub enum DiagnosticKey {
    Packages,
    Akmods,
    Module,
    Libcamera,
    BrowserCamera,
    Boot,
    Speakers,
    SoundApp,
    FingerprintReader,
    FingerprintLogin,
    Gpu,
    SecureBootKey,
    PlatformProfile,
    Clipboard,
    Gsconnect,
    DesktopIcons,
    Dock,
}

/// The check a diagnostic row shows.
pub open spec fn item_of(s: SetupSnapshot, key: DiagnosticKey) -> CheckItem {
    match key {
        DiagnosticKey::Packages => s.packages,
        DiagnosticKey::Akmods => s.akmods,
        DiagnosticKey::Module => s.module,
        DiagnosticKey::Libcamera => s.libcamera,
        DiagnosticKey::BrowserCamera => s.browser_camera,
        DiagnosticKey::Boot => s.boot,
        DiagnosticKey::Speakers => s.speakers,
        DiagnosticKey::SoundApp => s.sound_app,
        DiagnosticKey::FingerprintReader => s.fingerprint_reader,
        DiagnosticKey::FingerprintLogin => s.fingerprint_login,
        DiagnosticKey::Gpu => s.gpu,
        DiagnosticKey::SecureBootKey => s.secure_boot_key,
        DiagnosticKey::PlatformProfile => s.platform_profile,
        DiagnosticKey::Clipboard => s.clipboard_extension,
        DiagnosticKey::Gsconnect => s.gsconnect_extension,
        DiagnosticKey::DesktopIcons => s.desktop_icons_extension,
        DiagnosticKey::Dock => s.dock_extension,
    }
}

/// The check a diagnostic row shows.
pub fn diagnostic_item(snapshot: &SetupSnapshot, key: DiagnosticKey) -> (r: &CheckItem)
    ensures
        *r == item_of(*snapshot, key),
{
    match key {
        DiagnosticKey::Packages => &snapshot.packages,
        DiagnosticKey::Akmods => &snapshot.akmods,
        DiagnosticKey::Module => &snapshot.module,
        DiagnosticKey::Libcamera => &snapshot.libcamera,
        DiagnosticKey::BrowserCamera => &snapshot.browser_camera,
        DiagnosticKey::Boot => &snapshot.boot,
        DiagnosticKey::Speakers => &snapshot.speakers,
        DiagnosticKey::SoundApp => &snapshot.sound_app,
        DiagnosticKey::FingerprintReader => &snapshot.fingerprint_reader,
        DiagnosticKey::FingerprintLogin => &snapshot.fingerprint_login,
        DiagnosticKey::Gpu => &snapshot.gpu,
        DiagnosticKey::SecureBootKey => &snapshot.secure_boot_key,
        DiagnosticKey::PlatformProfile => &snapshot.platform_profile,
        DiagnosticKey::Clipboard => &snapshot.clipboard_extension,
        DiagnosticKey::Gsconnect => &snapshot.gsconnect_extension,
        DiagnosticKey::DesktopIcons => &snapshot.desktop_icons_extension,
        DiagnosticKey::Dock => &snapshot.dock_extension,
    }
}

/// The health of every diagnostic, in list order.
pub open spec fn healths(s: SetupSnapshot) -> Seq<Health> {
    seq![
        s.packages.health,
        s.akmods.health,
        s.module.health,
        s.libcamera.health,
        s.browser_camera.health,
        s.boot.health,
        s.speakers.health,
        s.sound_app.health,
        s.fingerprint_reader.health,
        s.fingerprint_login.health,
        s.gpu.health,
        s.secure_boot_key.health,
        s.platform_profile.health,
        s.clipboard_extension.health,
        s.gsconnect_extension.health,
        s.desktop_icons_extension.health,
        s.dock_extension.health,
    ]
}

/// How many of the healths equal `h`.
pub open spec fn count_health(hs: Seq<Health>, h: Health) -> nat
    decreases hs.len(),
{
    if hs.len() == 0 {
        0
    } else {
        count_health(hs.drop_last(), h) + if hs.last() == h {
            1nat
        } else {
            0nat
        }
    }
}

/// Warnings and errors among the diagnostics.
#[derive(Clone, Copy, Debug, Default, PartialEq, Eq, Structural)]
pub struct DiagnosticAlertCounts {
    pub warnings: u32,
    pub errors: u32,
}

impl DiagnosticAlertCounts {
    /// All alerts.
    pub fn total(self) -> (r: u32)
        requires
            self.warnings + self.errors <= u32::MAX,
        ensures
            r == self.warnings + self.errors,
    {
        self.warnings + self.errors
    }

    /// No warning and no error.
    pub fn is_clear(self) -> (r: bool)
        requires
            self.warnings + self.errors <= u32::MAX,
        ensures
            r == (self.warnings + self.errors == 0),
    {
        self.total() == 0
    }
}

proof fn lemma_count_bound(hs: Seq<Health>, h: Health)
    ensures
        count_health(hs, h) <= hs.len(),
    decreases hs.len(),
{
    if hs.len() > 0 {
        lemma_count_bound(hs.drop_last(), h);
    }
}

/// Counts the warnings and errors among all diagnostics.
pub fn diagnostic_alert_counts(snapshot: &SetupSnapshot) -> (r: DiagnosticAlertCounts)
    ensures
        r.warnings == count_health(healths(*snapshot), Health::Warning),
        r.errors == count_health(healths(*snapshot), Health::Error),
{
    let items: Vec<Health> = vec![
        snapshot.packages.health,
        snapshot.akmods.health,
        snapshot.module.health,
        snapshot.libcamera.health,
        snapshot.browser_camera.health,
        snapshot.boot.health,
        snapshot.speakers.health,
        snapshot.sound_app.health,
        snapshot.fingerprint_reader.health,
        snapshot.fingerprint_login.health,
        snapshot.gpu.health,
        snapshot.secure_boot_key.health,
        snapshot.platform_profile.health,
        snapshot.clipboard_extension.health,
        snapshot.gsconnect_extension.health,
        snapshot.desktop_icons_extension.health,
        snapshot.dock_extension.health,
    ];
    let ghost hs = healths(*snapshot);
    assert(items@ =~= hs);
    let mut warnings: u32 = 0;
    let mut errors: u32 = 0;
    let mut i: usize = 0;
    while i < items.len()
        invariant
            0 <= i <= items.len(),
            items@ == hs,
            hs.len() == 17,
            warnings == count_health(hs.take(i as int), Health::Warning),
            errors == count_health(hs.take(i as int), Health::Error),
        decreases items.len() - i,
    {
        proof {
            assert(hs.take(i + 1).drop_last() =~= hs.take(i as int));
            lemma_count_bound(hs.take(i as int), Health::Warning);
            lemma_count_bound(hs.take(i as int), Health::Error);
        }
        match items[i] {
            Health::Warning => warnings = warnings + 1,
            Health::Error => errors = errors + 1,
            Health::Good | Health::Unknown => {},
        }
        i = i + 1;
    }
    assert(hs.take(17) =~= hs);
    DiagnosticAlertCounts { warnings, errors }
}

// ---------------------------------------------------------------------------
// Summaries
// ---------------------------------------------------------------------------

/// The decimal digit for `d < 10`.
pub open spec fn digit_char(d: nat) -> char {
    if d == 0 { '0' } else if d == 1 { '1' } else if d == 2 { '2' } else if d == 3 { '3' }
    else if d == 4 { '4' } else if d == 5 { '5' } else if d == 6 { '6' } else if d == 7 { '7' }
    else if d == 8 { '8' } else { '9' }
}

/// The decimal notation of `n`.
pub open spec fn decimal(n: nat) -> Seq<char>
    decreases n,
{
    if n < 10 {
        seq![digit_char(n)]
    } else {
        decimal(n / 10).push(digit_char(n % 10))
    }
}

fn digit_str(d: u32) -> (r: &'static str)
    requires
        d < 10,
    ensures
        r@ == seq![digit_char(d as nat)],
{
    let r = match d {
        0 => "0",
        1 => "1",
        2 => "2",
        3 => "3",
        4 => "4",
        5 => "5",
        6 => "6",
        7 => "7",
        8 => "8",
        _ => "9",
    };
    proof {
        reveal_strlit("0");
        reveal_strlit("1");
        reveal_strlit("2");
        reveal_strlit("3");
        reveal_strlit("4");
        reveal_strlit("5");
        reveal_strlit("6");
        reveal_strlit("7");
        reveal_strlit("8");
        reveal_strlit("9");
    }
    assert(r@ =~= seq![digit_char(d as nat)]);
    r
}

/// Writes `n` in decimal.
pub fn decimal_string(n: u32) -> (r: String)
    ensures
        r@ == decimal(n as nat),
    decreases n,
{
    if n < 10 {
        owned(digit_str(n))
    } else {
        let mut r = decimal_string(n / 10);
        r.append(digit_str(n % 10));
        r
    }
}

/// "1 erro" or "n erros" (and likewise for alerts).
pub open spec fn count_phrase(n: nat, singular: Seq<char>, plural: Seq<char>) -> Seq<char> {
    decimal(n) + if n == 1 {
        singular
    } else {
        plural
    }
}

/// The phrase for the errors and the one for the warnings, where there are any.
pub open spec fn alert_parts(c: DiagnosticAlertCounts) -> Seq<Seq<char>> {
    let e = if c.errors > 0 {
        seq![count_phrase(c.errors as nat, " erro"@, " erros"@)]
    } else {
        seq![]
    };
    let w = if c.warnings > 0 {
        seq![count_phrase(c.warnings as nat, " alerta"@, " alertas"@)]
    } else {
        seq![]
    };
    e + w
}

/// One sentence about the warnings and errors.
pub open spec fn counts_summary(c: DiagnosticAlertCounts) -> Seq<char> {
    let parts = alert_parts(c);
    if parts.len() == 0 {
        "Nenhum alerta nos diagnósticos."@
    } else {
        join(parts, " e "@) + " nos diagnósticos."@
    }
}

fn count_phrase_exec(n: u32, singular: &str, plural: &str) -> (r: String)
    ensures
        r@ == count_phrase(n as nat, singular@, plural@),
{
    let mut r = decimal_string(n);
    if n == 1 {
        r.append(singular);
    } else {
        r.append(plural);
    }
    r
}

/// Says how many errors and warnings the diagnostics hold.
pub fn diagnostic_counts_summary(counts: DiagnosticAlertCounts) -> (r: String)
    ensures
        r@ == counts_summary(counts),
{
    let mut parts: Vec<String> = Vec::new();
    if counts.errors > 0 {
        parts.push(count_phrase_exec(counts.errors, " erro", " erros"));
    }
    if counts.warnings > 0 {
        parts.push(count_phrase_exec(counts.warnings, " alerta", " alertas"));
    }
    assert(crate::text::views(parts@) =~= alert_parts(counts));
    if parts.len() == 0 {
        owned("Nenhum alerta nos diagnósticos.")
    } else {
        let mut r = crate::model::join_strings(&parts, " e ");
        r.append(" nos diagnósticos.");
        r
    }
}

/// Title of the desktop notification about the alerts.
pub fn diagnostic_notification_title(counts: DiagnosticAlertCounts) -> (r: String)
    ensures
        r@ == crate::commands::APP_NAME@ + ": "@ + counts_summary(counts),
{
    let summary = diagnostic_counts_summary(counts);
    concat3(crate::commands::APP_NAME, ": ", summary.as_str())
}

/// Body of the desktop notification: the summary and the recommended next
/// step.
pub fn diagnostic_notification_body(snapshot: &SetupSnapshot, counts: DiagnosticAlertCounts) -> (r:
    String)
    ensures
        r@ == counts_summary(counts) + " Próximo passo: "@ + snapshot.recommendation_body@,
{
    let summary = diagnostic_counts_summary(counts);
    concat3(summary.as_str(), " Próximo passo: ", snapshot.recommendation_body.as_str())
}

// ---------------------------------------------------------------------------
// Suggested actions
// ---------------------------------------------------------------------------

/// Adds the Secure Boot key steps around a non-empty list of driver actions:
/// preparing the key first and a reboot last while the key is missing or not
/// enrolled, a reboot first while its enrollment is pending.
pub open spec fn with_secure_boot(code: Seq<char>, actions: Seq<ActionKey>) -> Seq<ActionKey> {
    if actions.len() == 0 {
        actions
    } else if code == "mok-key-missing"@ || code == "mok-not-enrolled"@ {
        dedupe(seq![ActionKey::PrepareSecureBootKey] + actions + seq![ActionKey::Reboot])
    } else if code == "mok-pending-enrollment"@ {
        dedupe(seq![ActionKey::Reboot] + actions)
    } else {
        dedupe(actions)
    }
}

/// Adds the Secure Boot key steps to a list of driver actions.
pub fn with_secure_boot_actions(snapshot: &SetupSnapshot, actions: Vec<ActionKey>) -> (r: Vec<ActionKey>)
    ensures
        r@ == with_secure_boot(snapshot.secure_boot_key.code@, actions@),
{
    if actions.len() == 0 {
        return actions;
    }
    let mut actions = actions;
    let ghost a0 = actions@;
    let code = snapshot.secure_boot_key.code;
    if str_eq(code, "mok-key-missing") || str_eq(code, "mok-not-enrolled") {
        actions.insert(0, ActionKey::PrepareSecureBootKey);
        actions.push(ActionKey::Reboot);
        assert(actions@ =~= seq![ActionKey::PrepareSecureBootKey] + a0 + seq![ActionKey::Reboot]);
    } else if str_eq(code, "mok-pending-enrollment") {
        actions.insert(0, ActionKey::Reboot);
        assert(actions@ =~= seq![ActionKey::Reboot] + a0);
    }
    dedupe_action_keys(actions.as_slice())
}

/// The actions of a driver row before the Secure Boot steps are added.
pub open spec fn module_actions(code: Seq<char>) -> Seq<ActionKey> {
    if code == "module-not-loaded"@ {
        seq![ActionKey::EnableCameraModule, ActionKey::Reboot]
    } else if code == "module-manual-override"@ {
        seq![ActionKey::RestoreIntelIpu6, ActionKey::Reboot]
    } else if code == "module-in-tree"@ {
        seq![ActionKey::ForceDriverPriority, ActionKey::Reboot]
    } else if code == "module-missing"@ || code == "module-unknown"@ || code
        == "module-patched-path-missing"@ {
        seq![ActionKey::RepairDriver, ActionKey::Reboot]
    } else {
        seq![]
    }
}

/// The libcamera row's actions when the module row has this code.
pub open spec fn libcamera_module_actions(module_code: Seq<char>) -> Seq<ActionKey> {
    if module_code == "module-not-loaded"@ {
        seq![ActionKey::EnableCameraModule, ActionKey::Reboot]
    } else if module_code == "module-in-tree"@ {
        seq![ActionKey::ForceDriverPriority, ActionKey::Reboot]
    } else if module_code == "module-manual-override"@ || module_code == "module-patched"@ {
        seq![ActionKey::RestoreIntelIpu6, ActionKey::Reboot]
    } else if module_code == "module-missing"@ || module_code == "module-unknown"@ || module_code
        == "module-patched-path-missing"@ {
        seq![ActionKey::RepairDriver, ActionKey::Reboot]
    } else {
        seq![ActionKey::RestoreIntelIpu6, ActionKey::Reboot]
    }
}

/// The actions the setup suggests for a diagnostic row.
pub open spec fn suggested(s: SetupSnapshot, key: DiagnosticKey) -> Seq<ActionKey> {
    let item = item_of(s, key);
    let code = item.code@;
    let good = item.health == Health::Good;
    let sbk = s.secure_boot_key.code@;
    match key {
        DiagnosticKey::Packages => with_secure_boot(
            sbk,
            if code == "packages-missing"@ {
                seq![ActionKey::InstallMainSupport]
            } else {
                seq![]
            },
        ),
        DiagnosticKey::Akmods => with_secure_boot(
            sbk,
            if code == "akmods-failed"@ {
                seq![ActionKey::RepairDriver, ActionKey::Reboot]
            } else {
                seq![]
            },
        ),
        DiagnosticKey::Module => with_secure_boot(sbk, module_actions(code)),
        DiagnosticKey::Libcamera => with_secure_boot(
            sbk,
            if good {
                seq![]
            } else if code == "libcamera-permission-blocked"@ {
                seq![ActionKey::EnableBrowserCamera]
            } else if code == "libcamera-clock-probe-failed"@ {
                seq![ActionKey::ForceDriverPriority, ActionKey::Reboot]
            } else {
                libcamera_module_actions(s.module.code@)
            },
        ),
        DiagnosticKey::BrowserCamera => if good {
            seq![]
        } else {
            seq![ActionKey::EnableBrowserCamera, ActionKey::Reboot]
        },
        DiagnosticKey::Boot => with_secure_boot(
            sbk,
            if good {
                seq![]
            } else {
                seq![ActionKey::RepairDriver, ActionKey::ForceDriverPriority, ActionKey::Reboot]
            },
        ),
        DiagnosticKey::Speakers => with_secure_boot(
            sbk,
            if good || code == "speakers-unsupported"@ {
                seq![]
            } else if item.health == Health::Error {
                seq![ActionKey::EnableSpeakers]
            } else {
                seq![ActionKey::EnableSpeakers, ActionKey::Reboot]
            },
        ),
        DiagnosticKey::SoundApp => if code == "sound-app-ready"@ {
            seq![]
        } else if s.speakers.health != Health::Good && s.speakers.code@ != "speakers-unsupported"@ {
            seq![ActionKey::EnableSpeakers, ActionKey::InstallSoundApp]
        } else {
            seq![ActionKey::InstallSoundApp]
        },
        DiagnosticKey::FingerprintReader => if code == "fingerprint-reader-ready"@ {
            seq![]
        } else {
            seq![ActionKey::RepairFingerprintStack]
        },
        DiagnosticKey::FingerprintLogin => if code == "fingerprint-login-ready"@ {
            seq![]
        } else if code == "fingerprint-auth-disabled"@ {
            seq![ActionKey::EnableFingerprintAuth, ActionKey::OpenFingerprintSettings]
        } else if code == "fingerprint-enrollment-missing"@ || code
            == "fingerprint-auth-and-enrollment-missing"@ {
            seq![ActionKey::OpenFingerprintSettings, ActionKey::EnableFingerprintAuth]
        } else {
            seq![
                ActionKey::RepairFingerprintStack,
                ActionKey::EnableFingerprintAuth,
                ActionKey::OpenFingerprintSettings,
            ]
        },
        DiagnosticKey::Gpu => with_secure_boot(
            sbk,
            if good {
                seq![]
            } else {
                seq![ActionKey::RepairNvidia, ActionKey::Reboot]
            },
        ),
        DiagnosticKey::SecureBootKey => if code == "mok-enrolled"@ || code == "mok-not-needed"@ {
            seq![]
        } else if code == "mok-pending-enrollment"@ {
            seq![ActionKey::Reboot]
        } else {
            seq![ActionKey::PrepareSecureBootKey, ActionKey::Reboot]
        },
        DiagnosticKey::PlatformProfile => if code == "platform-balanced"@ {
            seq![]
        } else {
            seq![ActionKey::SetBalancedProfile]
        },
        DiagnosticKey::Clipboard => if good {
            seq![]
        } else {
            seq![ActionKey::ApplyClipboardProfile]
        },
        DiagnosticKey::Gsconnect => if good {
            seq![]
        } else {
            seq![ActionKey::ApplyGsconnectProfile]
        },
        DiagnosticKey::DesktopIcons => if good {
            seq![]
        } else {
            seq![ActionKey::ApplyDesktopIconsProfile]
        },
        DiagnosticKey::Dock => if good {
            seq![]
        } else {
            seq![ActionKey::ApplyDockProfile]
        },
    }
}

fn module_actions_exec(code: &str) -> (r: Vec<ActionKey>)
    ensures
        r@ == module_actions(code@),
{
    let r = if str_eq(code, "module-not-loaded") {
        vec![ActionKey::EnableCameraModule, ActionKey::Reboot]
    } else if str_eq(code, "module-manual-override") {
        vec![ActionKey::RestoreIntelIpu6, ActionKey::Reboot]
    } else if str_eq(code, "module-in-tree") {
        vec![ActionKey::ForceDriverPriority, ActionKey::Reboot]
    } else if str_eq(code, "module-missing") || str_eq(code, "module-unknown") || str_eq(
        code,
        "module-patched-path-missing",
    ) {
        vec![ActionKey::RepairDriver, ActionKey::Reboot]
    } else {
        vec![]
    };
    assert(r@ =~= module_actions(code@));
    r
}

fn libcamera_module_actions_exec(code: &str) -> (r: Vec<ActionKey>)
    ensures
        r@ == libcamera_module_actions(code@),
{
    let r = if str_eq(code, "module-not-loaded") {
        vec![ActionKey::EnableCameraModule, ActionKey::Reboot]
    } else if str_eq(code, "module-in-tree") {
        vec![ActionKey::ForceDriverPriority, ActionKey::Reboot]
    } else if str_eq(code, "module-manual-override") || str_eq(code, "module-patched") {
        vec![ActionKey::RestoreIntelIpu6, ActionKey::Reboot]
    } else if str_eq(code, "module-missing") || str_eq(code, "module-unknown") || str_eq(
        code,
        "module-patched-path-missing",
    ) {
        vec![ActionKey::RepairDriver, ActionKey::Reboot]
    } else {
        vec![ActionKey::RestoreIntelIpu6, ActionKey::Reboot]
    };
    assert(r@ =~= libcamera_module_actions(code@));
    r
}

/// The actions the setup suggests for a diagnostic row.
pub fn suggested_actions(snapshot: &SetupSnapshot, key: DiagnosticKey) -> (r: Vec<ActionKey>)
    ensures
        r@ == suggested(*snapshot, key),
{
    let item = diagnostic_item(snapshot, key);
    let code = item.code;
    let good = item.health == Health::Good;
    let r: Vec<ActionKey> = match key {
        DiagnosticKey::Packages => {
            let v: Vec<ActionKey> = {
                let a = if str_eq(code, "packages-missing") {
                    vec![ActionKey::InstallMainSupport]
                } else {
                    vec![]
                };
                assert(a@ =~= if code@ == "packages-missing"@ {
                    seq![ActionKey::InstallMainSupport]
                } else {
                    seq![]
                });
                with_secure_boot_actions(snapshot, a)
            };
            assert(v@ =~= suggested(*snapshot, key));
            v
        },
        DiagnosticKey::Akmods => {
            let v: Vec<ActionKey> = {
                let a = if str_eq(code, "akmods-failed") {
                    vec![ActionKey::RepairDriver, ActionKey::Reboot]
                } else {
                    vec![]
                };
                assert(a@ =~= if code@ == "akmods-failed"@ {
                    seq![ActionKey::RepairDriver, ActionKey::Reboot]
                } else {
                    seq![]
                });
                with_secure_boot_actions(snapshot, a)
            };
            assert(v@ =~= suggested(*snapshot, key));
            v
        },
        DiagnosticKey::Module => {
            let v = with_secure_boot_actions(snapshot, module_actions_exec(code));
            assert(v@ =~= suggested(*snapshot, key));
            v
        },
        DiagnosticKey::Libcamera => {
            let v: Vec<ActionKey> = {
                let a = if good {
                    vec![]
                } else if str_eq(code, "libcamera-permission-blocked") {
                    vec![ActionKey::EnableBrowserCamera]
                } else if str_eq(code, "libcamera-clock-probe-failed") {
                    vec![ActionKey::ForceDriverPriority, ActionKey::Reboot]
                } else {
                    libcamera_module_actions_exec(snapshot.module.code)
                };
                assert(a@ =~= if good {
                    seq![]
                } else if code@ == "libcamera-permission-blocked"@ {
                    seq![ActionKey::EnableBrowserCamera]
                } else if code@ == "libcamera-clock-probe-failed"@ {
                    seq![ActionKey::ForceDriverPriority, ActionKey::Reboot]
                } else {
                    libcamera_module_actions(snapshot.module.code@)
                });
                with_secure_boot_actions(snapshot, a)
            };
            assert(v@ =~= suggested(*snapshot, key));
            v
        },
        DiagnosticKey::BrowserCamera => {
            let v: Vec<ActionKey> = {
                if good {
                    vec![]
                } else {
                    vec![ActionKey::EnableBrowserCamera, ActionKey::Reboot]
                }
            };
            assert(v@ =~= suggested(*snapshot, key));
            v
        },
        DiagnosticKey::Boot => {
            let v: Vec<ActionKey> = {
                let a = if good {
                    vec![]
                } else {
                    vec![ActionKey::RepairDriver, ActionKey::ForceDriverPriority, ActionKey::Reboot]
                };
                assert(a@ =~= if good {
                    seq![]
                } else {
                    seq![ActionKey::RepairDriver, ActionKey::ForceDriverPriority, ActionKey::Reboot]
                });
                with_secure_boot_actions(snapshot, a)
            };
            assert(v@ =~= suggested(*snapshot, key));
            v
        },
        DiagnosticKey::Speakers => {
            let v: Vec<ActionKey> = {
                let a = if good || str_eq(code, "speakers-unsupported") {
                    vec![]
                } else if item.health == Health::Error {
                    vec![ActionKey::EnableSpeakers]
                } else {
                    vec![ActionKey::EnableSpeakers, ActionKey::Reboot]
                };
                assert(a@ =~= if good || code@ == "speakers-unsupported"@ {
                    seq![]
                } else if item.health == Health::Error {
                    seq![ActionKey::EnableSpeakers]
                } else {
                    seq![ActionKey::EnableSpeakers, ActionKey::Reboot]
                });
                with_secure_boot_actions(snapshot, a)
            };
            assert(v@ =~= suggested(*snapshot, key));
            v
        },
        DiagnosticKey::SoundApp => {
            let v: Vec<ActionKey> = {
                if str_eq(code, "sound-app-ready") {
                    vec![]
                } else if snapshot.speakers.health != Health::Good && !str_eq(
                    snapshot.speakers.code,
                    "speakers-unsupported",
                ) {
                    vec![ActionKey::EnableSpeakers, ActionKey::InstallSoundApp]
                } else {
                    vec![ActionKey::InstallSoundApp]
                }
            };
            assert(v@ =~= suggested(*snapshot, key));
            v
        },
        DiagnosticKey::FingerprintReader => {
            let v: Vec<ActionKey> = {
                if str_eq(code, "fingerprint-reader-ready") {
                    vec![]
                } else {
                    vec![ActionKey::RepairFingerprintStack]
                }
            };
            assert(v@ =~= suggested(*snapshot, key));
            v
        },
        DiagnosticKey::FingerprintLogin => {
            let v: Vec<ActionKey> = {
                if str_eq(code, "fingerprint-login-ready") {
                    vec![]
                } else if str_eq(code, "fingerprint-auth-disabled") {
                    vec![ActionKey::EnableFingerprintAuth, ActionKey::OpenFingerprintSettings]
                } else if str_eq(code, "fingerprint-enrollment-missing") || str_eq(
                    code,
                    "fingerprint-auth-and-enrollment-missing",
                ) {
                    vec![ActionKey::OpenFingerprintSettings, ActionKey::EnableFingerprintAuth]
                } else {
                    vec![
                        ActionKey::RepairFingerprintStack,
                        ActionKey::EnableFingerprintAuth,
                        ActionKey::OpenFingerprintSettings,
                    ]
                }
            };
            assert(v@ =~= suggested(*snapshot, key));
            v
        },
        DiagnosticKey::Gpu => {
            let v: Vec<ActionKey> = {
                let a = if good {
                    vec![]
                } else {
                    vec![ActionKey::RepairNvidia, ActionKey::Reboot]
                };
                assert(a@ =~= if good {
                    seq![]
                } else {
                    seq![ActionKey::RepairNvidia, ActionKey::Reboot]
                });
                with_secure_boot_actions(snapshot, a)
            };
            assert(v@ =~= suggested(*snapshot, key));
            v
        },
        DiagnosticKey::SecureBootKey => {
            let v: Vec<ActionKey> = {
                if str_eq(code, "mok-enrolled") || str_eq(code, "mok-not-needed") {
                    vec![]
                } else if str_eq(code, "mok-pending-enrollment") {
                    vec![ActionKey::Reboot]
                } else {
                    vec![ActionKey::PrepareSecureBootKey, ActionKey::Reboot]
                }
            };
            assert(v@ =~= suggested(*snapshot, key));
            v
        },
        DiagnosticKey::PlatformProfile => {
            let v: Vec<ActionKey> = {
                if str_eq(code, "platform-balanced") {
                    vec![]
                } else {
                    vec![ActionKey::SetBalancedProfile]
                }
            };
            assert(v@ =~= suggested(*snapshot, key));
            v
        },
        DiagnosticKey::Clipboard => {
            let v: Vec<ActionKey> = {
                if good {
                    vec![]
                } else {
                    vec![ActionKey::ApplyClipboardProfile]
                }
            };
            assert(v@ =~= suggested(*snapshot, key));
            v
        },
        DiagnosticKey::Gsconnect => {
            let v: Vec<ActionKey> = {
                if good {
                    vec![]
                } else {
                    vec![ActionKey::ApplyGsconnectProfile]
                }
            };
            assert(v@ =~= suggested(*snapshot, key));
            v
        },
        DiagnosticKey::DesktopIcons => {
            let v: Vec<ActionKey> = {
                if good {
                    vec![]
                } else {
                    vec![ActionKey::ApplyDesktopIconsProfile]
                }
            };
            assert(v@ =~= suggested(*snapshot, key));
            v
        },
        DiagnosticKey::Dock => {
            let v: Vec<ActionKey> = {
                if good {
                    vec![]
                } else {
                    vec![ActionKey::ApplyDockProfile]
                }
            };
            assert(v@ =~= suggested(*snapshot, key));
            v
        },
    };
    assert(r@ =~= suggested(*snapshot, key));
    r
}

} // verus!
