//! The individual diagnostics: each turns what the system reported into a
//! [`CheckItem`].
use vstd::prelude::*;

use crate::model::{check, concat2, concat3, join_strs, owned, CheckItem, CheckView, Health};
use crate::parse::{module_listed, module_loaded, secure_boot_state, secure_boot_enabled};
use crate::text::{contains, join, str_eq, str_views, trim, trim_str, views};

verus! {

/// Extension id of the dock whose profile the setup maintains.
pub const DASH_TO_DOCK_EXTENSION_ID: &'static str = "dash-to-dock@micxgx.gmail.com";

/// Extension id used for the GSConnect check and profile.
pub const GSCONNECT_EXTENSION_ID: &'static str = "gsconnect@andyholmes.github.io";

/// Extension id used for the desktop icons check and profile.
pub const DESKTOP_ICONS_EXTENSION_ID: &'static str = "ding@rastersoft.com";

/// Extension id installed by the clipboard profile.
pub const CLIPBOARD_PROFILE_EXTENSION_ID: &'static str = "clipboard-indicator@tudmotu.com";

// ---------------------------------------------------------------------------
// GNOME extensions
// ---------------------------------------------------------------------------

/// The ids that occur in `list`, in the order of `ids`.
pub open spec fn ids_in(ids: Seq<Seq<char>>, list: Seq<Seq<char>>) -> Seq<Seq<char>>
    decreases ids.len(),
{
    if ids.len() == 0 {
        seq![]
    } else {
        let rest = ids_in(ids.drop_last(), list);
        if list.contains(ids.last()) {
            rest.push(ids.last())
        } else {
            rest
        }
    }
}

/// The state of a group of alternative extensions.
pub open spec fn extension_check_spec(
    title: Seq<char>,
    ids: Seq<Seq<char>>,
    enabled: Seq<Seq<char>>,
    installed: Seq<Seq<char>>,
    missing_detail: Seq<char>,
) -> CheckView {
    let on = ids_in(ids, enabled);
    let present = ids_in(ids, installed);
    if on.len() > 0 {
        check(title, "Ativa: "@ + join(on, ", "@), Health::Good, "extension-enabled"@)
    } else if present.len() > 0 {
        check(
            title,
            "Instalada, mas desativada: "@ + join(present, ", "@),
            Health::Warning,
            "extension-installed-disabled"@,
        )
    } else {
        check(title, missing_detail, Health::Unknown, "extension-missing"@)
    }
}

/// Whether `s` is one of the strings in `list`.
pub fn list_contains(list: &[String], s: &str) -> (r: bool)
    ensures
        r == views(list@).contains(s@),
{
    let mut i: usize = 0;
    while i < list.len()
        invariant
            0 <= i <= list.len(),
            forall|j: int| 0 <= j < i ==> list@[j]@ != s@,
        decreases list.len() - i,
    {
        if str_eq(list[i].as_str(), s) {
            assert(views(list@)[i as int] == s@);
            return true;
        }
        i = i + 1;
    }
    proof {
        if views(list@).contains(s@) {
            let j: int = choose|j: int| 0 <= j < views(list@).len() && views(list@)[j] == s@;
            assert(list@[j]@ == s@);
        }
    }
    false
}

/// The ids found in `list`, in the order of `ids`.
fn ids_in_exec<'a>(ids: &[&'a str], list: &[String]) -> (r: Vec<&'a str>)
    ensures
        str_views(r@) == ids_in(str_views(ids@), views(list@)),
{
    let mut r: Vec<&str> = Vec::new();
    let mut i: usize = 0;
    while i < ids.len()
        invariant
            0 <= i <= ids.len(),
            str_views(r@) == ids_in(str_views(ids@).take(i as int), views(list@)),
        decreases ids.len() - i,
    {
        let ghost prev = str_views(r@);
        assert(str_views(ids@).take(i + 1).drop_last() =~= str_views(ids@).take(i as int));
        assert(str_views(ids@).take(i + 1).last() == ids@[i as int]@);
        if list_contains(list, ids[i]) {
            r.push(ids[i]);
            assert(str_views(r@) =~= prev.push(ids@[i as int]@));
        }
        i = i + 1;
    }
    assert(str_views(ids@).take(ids.len() as int) =~= str_views(ids@));
    r
}

/// Judges a group of alternative GNOME extensions: enabled, installed but
/// disabled, or absent.
pub fn extension_check(
    title: &'static str,
    ids: &[&str],
    enabled_extensions: &[String],
    installed_extensions: &[String],
    missing_detail: &str,
) -> (r: CheckItem)
    ensures
        r@ == extension_check_spec(
            title@,
            str_views(ids@),
            views(enabled_extensions@),
            views(installed_extensions@),
            missing_detail@,
        ),
{
    let enabled = ids_in_exec(ids, enabled_extensions);
    if enabled.len() > 0 {
        let list = join_strs(&enabled, ", ");
        return CheckItem {
            title,
            detail: concat2("Ativa: ", list.as_str()),
            health: Health::Good,
            code: "extension-enabled",
        };
    }
    let installed = ids_in_exec(ids, installed_extensions);
    if installed.len() > 0 {
        let list = join_strs(&installed, ", ");
        return CheckItem {
            title,
            detail: concat2("Instalada, mas desativada: ", list.as_str()),
            health: Health::Warning,
            code: "extension-installed-disabled",
        };
    }
    CheckItem { title, detail: owned(missing_detail), health: Health::Unknown, code: "extension-missing" }
}

// ---------------------------------------------------------------------------
// Dash to Dock
// ---------------------------------------------------------------------------

/// One `gsettings` key of the recommended dock profile.
#[derive(Clone, Copy, Debug, PartialEq, Eq)]
pub struct DockSetting {
    pub key: &'static str,
    pub value: &'static str,
    pub label: &'static str,
}

/// The recommended dock profile: key, expected value and how the detail
/// names a deviation.
pub open spec fn dock_profile() -> Seq<(Seq<char>, Seq<char>, Seq<char>)> {
    seq![
        ("dock-position"@, "'BOTTOM'"@, "posição inferior"@),
        ("dock-fixed"@, "false"@, "dock flutuante"@),
        ("autohide"@, "true"@, "auto-ocultação"@),
        ("autohide-in-fullscreen"@, "true"@, "auto-ocultação em tela cheia"@),
        ("click-action"@, "'cycle-windows'"@, "clique para alternar janelas"@),
        ("shift-click-action"@, "'minimize'"@, "Shift+clique minimiza"@),
        ("middle-click-action"@, "'launch'"@, "clique do meio abre nova instância"@),
        ("dash-max-icon-size"@, "48"@, "ícones em 48 px"@),
        ("show-trash"@, "true"@, "lixeira visível"@),
        ("show-mounts"@, "true"@, "unidades visíveis"@),
        ("show-mounts-only-mounted"@, "true"@, "apenas unidades montadas"@),
        ("show-mounts-network"@, "false"@, "ocultar unidades de rede"@),
        ("isolate-locations"@, "true"@, "locais isolados"@),
        ("show-windows-preview"@, "true"@, "prévia das janelas"@),
        ("show-icons-emblems"@, "true"@, "emblemas dos ícones"@),
        ("show-icons-notifications-counter"@, "true"@, "contador de notificações"@),
        ("show-show-apps-button"@, "true"@, "botão de aplicativos"@),
        ("show-apps-always-in-the-edge"@, "true"@, "botão de aplicativos na borda"@),
        ("scroll-action"@, "'do-nothing'"@, "rolagem sem ação na dock"@),
    ]
}

/// The view of a profile row.
pub open spec fn dock_setting_view(s: DockSetting) -> (Seq<char>, Seq<char>, Seq<char>) {
    (s.key@, s.value@, s.label@)
}

fn setting(key: &'static str, value: &'static str, label: &'static str) -> (r: DockSetting)
    ensures
        r.key == key,
        r.value == value,
        r.label == label,
{
    DockSetting { key, value, label }
}

/// The rows of the recommended dock profile.
pub fn dash_to_dock_profile_settings() -> (r: Vec<DockSetting>)
    ensures
        r@.map_values(|s: DockSetting| dock_setting_view(s)) == dock_profile(),
{
    let r = vec![
        setting("dock-position", "'BOTTOM'", "posição inferior"),
        setting("dock-fixed", "false", "dock flutuante"),
        setting("autohide", "true", "auto-ocultação"),
        setting("autohide-in-fullscreen", "true", "auto-ocultação em tela cheia"),
        setting("click-action", "'cycle-windows'", "clique para alternar janelas"),
        setting("shift-click-action", "'minimize'", "Shift+clique minimiza"),
        setting("middle-click-action", "'launch'", "clique do meio abre nova instância"),
        setting("dash-max-icon-size", "48", "ícones em 48 px"),
        setting("show-trash", "true", "lixeira visível"),
        setting("show-mounts", "true", "unidades visíveis"),
        setting("show-mounts-only-mounted", "true", "apenas unidades montadas"),
        setting("show-mounts-network", "false", "ocultar unidades de rede"),
        setting("isolate-locations", "true", "locais isolados"),
        setting("show-windows-preview", "true", "prévia das janelas"),
        setting("show-icons-emblems", "true", "emblemas dos ícones"),
        setting("show-icons-notifications-counter", "true", "contador de notificações"),
        setting("show-show-apps-button", "true", "botão de aplicativos"),
        setting("show-apps-always-in-the-edge", "true", "botão de aplicativos na borda"),
        setting("scroll-action", "'do-nothing'", "rolagem sem ação na dock"),
    ];
    assert(r@.map_values(|s: DockSetting| dock_setting_view(s)) =~= dock_profile());
    r
}

/// Labels of the profile rows whose current value differs from the expected
/// one; a value that could not be read counts as different.
pub open spec fn mismatch_labels(
    profile: Seq<(Seq<char>, Seq<char>, Seq<char>)>,
    current: Seq<Option<Seq<char>>>,
) -> Seq<Seq<char>>
    decreases profile.len(),
{
    if profile.len() == 0 {
        seq![]
    } else {
        let rest = mismatch_labels(profile.drop_last(), current);
        let i: int = profile.len() - 1;
        if i < current.len() && current[i] == Some(profile.last().1) {
            rest
        } else {
            rest.push(profile.last().2)
        }
    }
}

/// The views of optional strings.
pub open spec fn opt_views(v: Seq<Option<String>>) -> Seq<Option<Seq<char>>> {
    v.map_values(|o: Option<String>| match o {
        Some(s) => Some(s@),
        None => None,
    })
}

/// Labels of the dock profile rows that the current values (one per row, in
/// profile order, as `gsettings get` printed them) do not match.
pub fn dash_to_dock_profile_mismatches(current: &[Option<String>]) -> (r: Vec<&'static str>)
    ensures
        str_views(r@) == mismatch_labels(dock_profile(), opt_views(current@)),
{
    let settings = dash_to_dock_profile_settings();
    let ghost prof = dock_profile();
    let ghost cur = opt_views(current@);
    let mut r: Vec<&'static str> = Vec::new();
    let mut i: usize = 0;
    while i < settings.len()
        invariant
            0 <= i <= settings.len(),
            settings@.map_values(|s: DockSetting| dock_setting_view(s)) == prof,
            prof == dock_profile(),
            cur == opt_views(current@),
            str_views(r@) == mismatch_labels(prof.take(i as int), cur),
        decreases settings.len() - i,
    {
        let s = settings[i];
        assert(prof[i as int] == dock_setting_view(s));
        assert(prof.take(i + 1).drop_last() =~= prof.take(i as int));
        assert(prof.take(i + 1).last() == prof[i as int]);
        let matched = if i < current.len() {
            match &current[i] {
                Some(v) => str_eq(v.as_str(), s.value),
                None => false,
            }
        } else {
            false
        };
        assert(i < current.len() ==> cur[i as int] == match current@[i as int] {
            Some(v) => Some(v@),
            None => None,
        });
        let ghost prev = str_views(r@);
        if !matched {
            r.push(s.label);
            assert(str_views(r@) =~= prev.push(s.label@));
        }
        i = i + 1;
    }
    assert(prof.take(settings.len() as int) =~= prof);
    r
}

/// The dock diagnostic from whether Dash to Dock is enabled or installed and
/// which profile rows deviate.
pub open spec fn dock_check_spec(enabled: bool, installed: bool, mismatches: Seq<Seq<char>>) -> CheckView {
    if enabled && mismatches.len() == 0 {
        check(
            "Dock do GNOME"@,
            "Dash to Dock ativo com dock inferior auto-ocultável, clique ciclando janelas, ícones em 48 px, lixeira e unidades montadas visíveis."@,
            Health::Good,
            "dash-to-dock-ready"@,
        )
    } else if enabled {
        check(
            "Dock do GNOME"@,
            "Dash to Dock ativo, mas fora do perfil recomendado em: "@ + join(mismatches, ", "@),
            Health::Warning,
            "dash-to-dock-mismatch"@,
        )
    } else if installed {
        check(
            "Dock do GNOME"@,
            "Instalada, mas desativada: "@ + "dash-to-dock@micxgx.gmail.com"@,
            Health::Warning,
            "dash-to-dock-disabled"@,
        )
    } else {
        check(
            "Dock do GNOME"@,
            "A extensão Dash to Dock não está instalada."@,
            Health::Unknown,
            "dash-to-dock-missing"@,
        )
    }
}

/// Judges the dock from its state and the profile rows that deviate.
pub fn dash_to_dock_check_from_state(enabled: bool, installed: bool, mismatches: &[&str]) -> (r:
    CheckItem)
    ensures
        r@ == dock_check_spec(enabled, installed, str_views(mismatches@)),
{
    if enabled && mismatches.len() == 0 {
        return CheckItem {
            title: "Dock do GNOME",
            detail: owned(
                "Dash to Dock ativo com dock inferior auto-ocultável, clique ciclando janelas, ícones em 48 px, lixeira e unidades montadas visíveis.",
            ),
            health: Health::Good,
            code: "dash-to-dock-ready",
        };
    }
    if enabled {
        let mut v: Vec<&str> = Vec::new();
        let mut i: usize = 0;
        while i < mismatches.len()
            invariant
                0 <= i <= mismatches.len(),
                v@ == mismatches@.take(i as int),
            decreases mismatches.len() - i,
        {
            v.push(mismatches[i]);
            assert(mismatches@.take(i + 1) =~= mismatches@.take(i as int).push(mismatches@[i as int]));
            i = i + 1;
        }
        assert(mismatches@.take(mismatches.len() as int) =~= mismatches@);
        let list = join_strs(&v, ", ");
        return CheckItem {
            title: "Dock do GNOME",
            detail: concat2("Dash to Dock ativo, mas fora do perfil recomendado em: ", list.as_str()),
            health: Health::Warning,
            code: "dash-to-dock-mismatch",
        };
    }
    if installed {
        return CheckItem {
            title: "Dock do GNOME",
            detail: concat2("Instalada, mas desativada: ", DASH_TO_DOCK_EXTENSION_ID),
            health: Health::Warning,
            code: "dash-to-dock-disabled",
        };
    }
    CheckItem {
        title: "Dock do GNOME",
        detail: owned("A extensão Dash to Dock não está instalada."),
        health: Health::Unknown,
        code: "dash-to-dock-missing",
    }
}

/// The dock diagnostic from the extension lists and the current values of the
/// profile keys (read only where the dock is enabled).
pub open spec fn detect_dock_spec(
    enabled_extensions: Seq<Seq<char>>,
    installed_extensions: Seq<Seq<char>>,
    current: Seq<Option<Seq<char>>>,
) -> CheckView {
    let enabled = enabled_extensions.contains("dash-to-dock@micxgx.gmail.com"@);
    let installed = installed_extensions.contains("dash-to-dock@micxgx.gmail.com"@);
    let mismatches = if enabled {
        mismatch_labels(dock_profile(), current)
    } else {
        seq![]
    };
    dock_check_spec(enabled, installed, mismatches)
}

/// Judges the dock from the enabled and installed extensions and the current
/// profile values.
pub fn detect_dash_to_dock_check(
    enabled_extensions: &[String],
    installed_extensions: &[String],
    current_values: &[Option<String>],
) -> (r: CheckItem)
    ensures
        r@ == detect_dock_spec(
            views(enabled_extensions@),
            views(installed_extensions@),
            opt_views(current_values@),
        ),
{
    let enabled = list_contains(enabled_extensions, DASH_TO_DOCK_EXTENSION_ID);
    let installed = list_contains(installed_extensions, DASH_TO_DOCK_EXTENSION_ID);
    let mismatches = if enabled {
        dash_to_dock_profile_mismatches(current_values)
    } else {
        Vec::new()
    };
    assert(!enabled ==> str_views(mismatches@) =~= Seq::<Seq<char>>::empty());
    dash_to_dock_check_from_state(enabled, installed, mismatches.as_slice())
}

// ---------------------------------------------------------------------------
// Process output
// ---------------------------------------------------------------------------

/// What a finished command printed and whether it exited successfully.
#[derive(Clone, Debug, PartialEq, Eq)]
pub struct CommandOutcome {
    pub success: bool,
    pub stdout: String,
    pub stderr: String,
}

/// The text of a command's output: trimmed stdout and stderr, joined by a
/// newline where both have text.
pub open spec fn output_text(stdout: Seq<char>, stderr: Seq<char>) -> Seq<char> {
    let o = trim(stdout);
    let e = trim(stderr);
    if o.len() > 0 && e.len() == 0 {
        o
    } else if o.len() == 0 && e.len() > 0 {
        e
    } else if o.len() > 0 && e.len() > 0 {
        o + "\n"@ + e
    } else {
        seq![]
    }
}

/// Combines the trimmed stdout and stderr of a command into one text.
pub fn command_output_text(stdout: &str, stderr: &str) -> (r: String)
    ensures
        r@ == output_text(stdout@, stderr@),
{
    let o = trim_str(stdout);
    let e = trim_str(stderr);
    let o_empty = o.as_str().is_empty();
    let e_empty = e.as_str().is_empty();
    if !o_empty && e_empty {
        o
    } else if o_empty && !e_empty {
        e
    } else if !o_empty && !e_empty {
        concat3(o.as_str(), "\n", e.as_str())
    } else {
        String::new()
    }
}

/// What `systemctl is-enabled` said: its trimmed stdout, else its trimmed
/// stderr, else nothing.
pub open spec fn enabled_state_text(stdout: Seq<char>, stderr: Seq<char>) -> Option<Seq<char>> {
    if trim(stdout).len() > 0 {
        Some(trim(stdout))
    } else if trim(stderr).len() > 0 {
        Some(trim(stderr))
    } else {
        None
    }
}

/// Reads the answer of `systemctl is-enabled`.
pub fn unit_enabled_state(stdout: &str, stderr: &str) -> (r: Option<String>)
    ensures
        r matches Some(s) ==> enabled_state_text(stdout@, stderr@) == Some(s@),
        r is None ==> enabled_state_text(stdout@, stderr@) is None,
{
    let o = trim_str(stdout);
    if !o.as_str().is_empty() {
        return Some(o);
    }
    let e = trim_str(stderr);
    if !e.as_str().is_empty() {
        Some(e)
    } else {
        None
    }
}

/// The view of an optional string.
pub open spec fn opt_view(o: Option<String>) -> Option<Seq<char>> {
    match o {
        Some(s) => Some(s@),
        None => None,
    }
}

/// The view of an optional string slice.
pub open spec fn opt_str_view(o: Option<&str>) -> Option<Seq<char>> {
    match o {
        Some(s) => Some(s@),
        None => None,
    }
}

/// An optional string borrowed as an optional slice.
pub fn opt_as_str(o: &Option<String>) -> (r: Option<&str>)
    ensures
        opt_str_view(r) == opt_view(*o),
{
    match o {
        Some(s) => Some(s.as_str()),
        None => None,
    }
}

/// `/proc/modules`, where it could be read, lists the module.
pub open spec fn module_listed_opt(proc_modules: Option<Seq<char>>, name: Seq<char>) -> bool {
    proc_modules matches Some(m) && module_listed(m, name)
}

/// Whether `/proc/modules`, where it could be read, lists the module.
pub fn module_loaded_opt(proc_modules: Option<&str>, name: &str) -> (r: bool)
    ensures
        r == module_listed_opt(opt_str_view(proc_modules), name@),
{
    match proc_modules {
        Some(m) => module_loaded(m, name),
        None => false,
    }
}

// ---------------------------------------------------------------------------
// NVIDIA
// ---------------------------------------------------------------------------

/// The NVIDIA driver diagnostic.
pub open spec fn nvidia_check_spec(akmod_installed: bool, modules_loaded: bool, smi_installed: bool) -> CheckView {
    if modules_loaded {
        check(
            "Driver NVIDIA"@,
            if smi_installed {
                "Módulos NVIDIA carregados. O utilitário nvidia-smi também está instalado."@
            } else {
                "Módulos NVIDIA carregados. O utilitário nvidia-smi continua opcional e não está instalado."@
            },
            Health::Good,
            "nvidia-ready"@,
        )
    } else if akmod_installed {
        check(
            "Driver NVIDIA"@,
            "O pacote akmod-nvidia está instalado, mas os módulos não estão carregados para o kernel atual."@,
            Health::Warning,
            "nvidia-akmod-installed"@,
        )
    } else {
        check(
            "Driver NVIDIA"@,
            "O suporte NVIDIA ainda não foi instalado. O setup trata o akmod-nvidia como o pacote principal para esta etapa."@,
            Health::Unknown,
            "nvidia-missing"@,
        )
    }
}

/// Judges the NVIDIA driver from the `akmod-nvidia` and
/// `xorg-x11-drv-nvidia-cuda` packages and `/proc/modules`.
pub fn detect_nvidia_check(akmod_installed: bool, proc_modules: Option<&str>, smi_installed: bool) -> (r:
    CheckItem)
    ensures
        r@ == nvidia_check_spec(
            akmod_installed,
            module_listed_opt(opt_str_view(proc_modules), "nvidia"@),
            smi_installed,
        ),
{
    let modules_loaded = module_loaded_opt(proc_modules, "nvidia");
    if modules_loaded {
        let detail = if smi_installed {
            owned("Módulos NVIDIA carregados. O utilitário nvidia-smi também está instalado.")
        } else {
            owned(
                "Módulos NVIDIA carregados. O utilitário nvidia-smi continua opcional e não está instalado.",
            )
        };
        return CheckItem { title: "Driver NVIDIA", detail, health: Health::Good, code: "nvidia-ready" };
    }
    if akmod_installed {
        return CheckItem {
            title: "Driver NVIDIA",
            detail: owned(
                "O pacote akmod-nvidia está instalado, mas os módulos não estão carregados para o kernel atual.",
            ),
            health: Health::Warning,
            code: "nvidia-akmod-installed",
        };
    }
    CheckItem {
        title: "Driver NVIDIA",
        detail: owned(
            "O suporte NVIDIA ainda não foi instalado. O setup trata o akmod-nvidia como o pacote principal para esta etapa.",
        ),
        health: Health::Unknown,
        code: "nvidia-missing",
    }
}

// ---------------------------------------------------------------------------
// Secure Boot key
// ---------------------------------------------------------------------------

/// What the system said about Secure Boot and the akmods signing key.
#[derive(Clone, Debug, PartialEq, Eq)]
pub struct SecureBootKeyProbe {
    /// Output of `mokutil --sb-state`, where it succeeded.
    pub sb_state: Option<String>,
    pub public_key_exists: bool,
    pub private_key_exists: bool,
    /// The path the akmods public key resolves to.
    pub key_path: Option<String>,
    /// `mokutil --list-enrolled`, where it could be run.
    pub enrolled_list: Option<CommandOutcome>,
    /// `mokutil --test-key` on the public key, where it could be run.
    pub test_key: Option<CommandOutcome>,
    /// `mokutil --list-new`, where it could be run.
    pub list_new: Option<CommandOutcome>,
}

/// The key is in the enrolled list: its common name shows up as `CN=`.
pub open spec fn key_listed(key_path: Option<Seq<char>>, enrolled: Option<CommandOutcome>) -> bool {
    &&& key_path matches Some(p)
    &&& crate::parse::file_stem(p) matches Some(cn)
    &&& enrolled matches Some(o)
    &&& contains(output_text(o.stdout@, o.stderr@), "CN="@ + cn)
}

/// `mokutil --test-key` says the key is enrolled.
pub open spec fn test_key_enrolled(test_key: Option<CommandOutcome>) -> bool {
    test_key matches Some(o) && (o.success || contains(
        crate::text::ascii_lower(output_text(o.stdout@, o.stderr@)),
        "already enrolled"@,
    ))
}

/// `mokutil --list-new` succeeded and listed something.
pub open spec fn request_pending(list_new: Option<CommandOutcome>) -> bool {
    list_new matches Some(o) && o.success && trim(o.stdout@).len() > 0
}

/// The Secure Boot key diagnostic.
pub open spec fn secure_boot_key_spec(p: SecureBootKeyProbe) -> CheckView {
    let title = "Chave do Secure Boot"@;
    match secure_boot_state(opt_view(p.sb_state)) {
        None => check(
            title,
            "O setup não conseguiu consultar o estado do Secure Boot/MOK neste sistema."@,
            Health::Unknown,
            "mok-unavailable"@,
        ),
        Some(false) => check(
            title,
            "Secure Boot está desativado. O MOK do akmods não é necessário para carregar módulos externos neste boot."@,
            Health::Good,
            "mok-not-needed"@,
        ),
        Some(true) => if !p.public_key_exists || !p.private_key_exists {
            check(
                title,
                "Secure Boot está ativo, mas o akmods ainda não tem a chave local pronta em /etc/pki/akmods. Prepare a chave do Secure Boot antes de instalar ou carregar módulos externos."@,
                Health::Error,
                "mok-key-missing"@,
            )
        } else if key_listed(opt_view(p.key_path), p.enrolled_list) || test_key_enrolled(p.test_key) {
            check(
                title,
                "A chave pública do akmods já está inscrita no MOK. Os módulos externos podem ser assinados e aceitos pelo Secure Boot neste host."@,
                Health::Good,
                "mok-enrolled"@,
            )
        } else if request_pending(p.list_new) {
            check(
                title,
                "A chave do akmods já foi preparada e o pedido de importação está pendente no MOK. Reinicie o notebook e conclua 'Enroll MOK' na tela azul do boot."@,
                Health::Warning,
                "mok-pending-enrollment"@,
            )
        } else {
            check(
                title,
                "Secure Boot está ativo e a chave local do akmods existe, mas ainda não foi aceita no MOK. Use a ação rápida dedicada antes de tentar carregar módulos externos."@,
                Health::Error,
                "mok-not-enrolled"@,
            )
        },
    }
}

/// Judges whether the akmods key is ready for Secure Boot.
pub fn detect_secure_boot_key_check(p: &SecureBootKeyProbe) -> (r: CheckItem)
    ensures
        r@ == secure_boot_key_spec(*p),
{
    let title = "Chave do Secure Boot";
    let enabled = secure_boot_enabled(opt_as_str(&p.sb_state));
    match enabled {
        None => {
            return CheckItem {
                title,
                detail: owned(
                    "O setup não conseguiu consultar o estado do Secure Boot/MOK neste sistema.",
                ),
                health: Health::Unknown,
                code: "mok-unavailable",
            };
        },
        Some(false) => {
            return CheckItem {
                title,
                detail: owned(
                    "Secure Boot está desativado. O MOK do akmods não é necessário para carregar módulos externos neste boot.",
                ),
                health: Health::Good,
                code: "mok-not-needed",
            };
        },
        Some(true) => {},
    }
    if !p.public_key_exists || !p.private_key_exists {
        return CheckItem {
            title,
            detail: owned(
                "Secure Boot está ativo, mas o akmods ainda não tem a chave local pronta em /etc/pki/akmods. Prepare a chave do Secure Boot antes de instalar ou carregar módulos externos.",
            ),
            health: Health::Error,
            code: "mok-key-missing",
        };
    }
    let mut listed = false;
    if let Some(path) = &p.key_path {
        if let Some(cn) = crate::parse::akmods_key_cn_from_path(path.as_str()) {
            if let Some(o) = &p.enrolled_list {
                let text = command_output_text(o.stdout.as_str(), o.stderr.as_str());
                listed = crate::parse::mok_enrolled_list_contains_key(text.as_str(), cn.as_str());
            }
        }
    }
    let tested = match &p.test_key {
        Some(o) => {
            let text = command_output_text(o.stdout.as_str(), o.stderr.as_str());
            crate::parse::mokutil_test_key_reports_enrolled(o.success, text.as_str())
        },
        None => false,
    };
    if listed || tested {
        return CheckItem {
            title,
            detail: owned(
                "A chave pública do akmods já está inscrita no MOK. Os módulos externos podem ser assinados e aceitos pelo Secure Boot neste host.",
            ),
            health: Health::Good,
            code: "mok-enrolled",
        };
    }
    let pending = match &p.list_new {
        Some(o) => o.success && !trim_str(o.stdout.as_str()).as_str().is_empty(),
        None => false,
    };
    if pending {
        return CheckItem {
            title,
            detail: owned(
                "A chave do akmods já foi preparada e o pedido de importação está pendente no MOK. Reinicie o notebook e conclua 'Enroll MOK' na tela azul do boot.",
            ),
            health: Health::Warning,
            code: "mok-pending-enrollment",
        };
    }
    CheckItem {
        title,
        detail: owned(
            "Secure Boot está ativo e a chave local do akmods existe, mas ainda não foi aceita no MOK. Use a ação rápida dedicada antes de tentar carregar módulos externos.",
        ),
        health: Health::Error,
        code: "mok-not-enrolled",
    }
}

// ---------------------------------------------------------------------------
// Platform profile
// ---------------------------------------------------------------------------

/// The platform profile diagnostic from the trimmed contents of
/// `platform_profile` and `platform_profile_choices`.
pub open spec fn platform_profile_spec(current: Option<Seq<char>>, choices: Option<Seq<char>>) -> CheckView {
    let title = "Perfil de uso"@;
    match (current, choices) {
        (Some(c), Some(ch)) => if c == "balanced"@ {
            check(
                title,
                "Ativo: balanced. Perfil recomendado para uso geral, equilibrando ruído da ventoinha, temperatura e desempenho. Opções disponíveis: "@
                    + ch,
                Health::Good,
                "platform-balanced"@,
            )
        } else {
            check(
                title,
                "Ativo: "@ + c
                    + ". Para uso geral, o perfil balanced costuma ser o ponto mais estável entre ventoinha, temperatura e desempenho. Opções disponíveis: "@
                    + ch,
                Health::Warning,
                "platform-nonbalanced"@,
            )
        },
        (Some(c), None) => if c == "balanced"@ {
            check(
                title,
                "Ativo: balanced. Perfil recomendado para uso geral, equilibrando ventoinha, temperatura e desempenho."@,
                Health::Good,
                "platform-balanced"@,
            )
        } else {
            check(
                title,
                "Ativo: "@ + c + ". O perfil balanced é o recomendado para uso geral neste notebook."@,
                Health::Warning,
                "platform-nonbalanced"@,
            )
        },
        _ => check(
            title,
            "Este sistema não expôs a interface ACPI de platform_profile."@,
            Health::Unknown,
            "platform-unavailable"@,
        ),
    }
}

/// The trimmed view of an optional text.
pub open spec fn trimmed(o: Option<Seq<char>>) -> Option<Seq<char>> {
    match o {
        Some(s) => Some(trim(s)),
        None => None,
    }
}

/// A file's contents without surrounding whitespace, where it could be read.
pub fn read_trimmed(raw: Option<&str>) -> (r: Option<String>)
    ensures
        opt_view(r) == trimmed(opt_str_view(raw)),
{
    match raw {
        Some(s) => Some(trim_str(s)),
        None => None,
    }
}

/// Judges the ACPI platform profile from the raw contents of
/// `/sys/firmware/acpi/platform_profile` and `platform_profile_choices`.
pub fn detect_platform_profile_check(current: Option<&str>, choices: Option<&str>) -> (r: CheckItem)
    ensures
        r@ == platform_profile_spec(trimmed(opt_str_view(current)), trimmed(opt_str_view(choices))),
{
    let title = "Perfil de uso";
    let current = read_trimmed(current);
    let choices = read_trimmed(choices);
    match (current, choices) {
        (Some(c), Some(ch)) => {
            if str_eq(c.as_str(), "balanced") {
                CheckItem {
                    title,
                    detail: concat2(
                        "Ativo: balanced. Perfil recomendado para uso geral, equilibrando ruído da ventoinha, temperatura e desempenho. Opções disponíveis: ",
                        ch.as_str(),
                    ),
                    health: Health::Good,
                    code: "platform-balanced",
                }
            } else {
                let mut d = concat3(
                    "Ativo: ",
                    c.as_str(),
                    ". Para uso geral, o perfil balanced costuma ser o ponto mais estável entre ventoinha, temperatura e desempenho. Opções disponíveis: ",
                );
                d.append(ch.as_str());
                CheckItem { title, detail: d, health: Health::Warning, code: "platform-nonbalanced" }
            }
        },
        (Some(c), None) => {
            if str_eq(c.as_str(), "balanced") {
                CheckItem {
                    title,
                    detail: owned(
                        "Ativo: balanced. Perfil recomendado para uso geral, equilibrando ventoinha, temperatura e desempenho.",
                    ),
                    health: Health::Good,
                    code: "platform-balanced",
                }
            } else {
                CheckItem {
                    title,
                    detail: concat3(
                        "Ativo: ",
                        c.as_str(),
                        ". O perfil balanced é o recomendado para uso geral neste notebook.",
                    ),
                    health: Health::Warning,
                    code: "platform-nonbalanced",
                }
            }
        },
        _ => CheckItem {
            title,
            detail: owned("Este sistema não expôs a interface ACPI de platform_profile."),
            health: Health::Unknown,
            code: "platform-unavailable",
        },
    }
}

} // verus!
