//! One round of diagnostics: from what the system reported to the snapshot
//! the setup window shows.
use vstd::prelude::*;

use crate::checks::{
    extension_check, extension_check_spec, opt_as_str, opt_str_view, opt_view, trimmed,
    CommandOutcome, SecureBootKeyProbe,
};
use crate::commands::{
    build_clipboard_profile_command, build_dash_to_dock_profile_command,
    build_desktop_icons_profile_command, build_gsconnect_profile_command,
};
use crate::devices::{BridgeProbe, FingerprintProbe, SpeakerProbe, VideoNode};
use crate::model::{
    check, concat2, concat3, join_strings, names_with, owned, package_presence, CheckItem,
    CheckView, Health, ModuleOrigin, PackageStatus, SetupSnapshot, SystemSummary,
};
use crate::parse::{
    akmods_log_failed, clock_error, first_matching_line, libcamera_lists_camera, module_origin,
};
use crate::text::{contains, join, str_views, trim, trim_str, views};

verus! {

// ---------------------------------------------------------------------------
// Command output
// ---------------------------------------------------------------------------

/// The text a successful command printed: its trimmed stdout, else its
/// trimmed stderr; nothing where it failed or printed nothing.
pub open spec fn command_text_spec(o: CommandOutcome) -> Option<Seq<char>> {
    if !o.success {
        None
    } else if trim(o.stdout@).len() > 0 {
        Some(trim(o.stdout@))
    } else if trim(o.stderr@).len() > 0 {
        Some(trim(o.stderr@))
    } else {
        None
    }
}

/// The text of a finished command, as the diagnostics read it.
pub fn command_text(o: &CommandOutcome) -> (r: Option<String>)
    ensures
        opt_view(r) == command_text_spec(*o),
{
    if !o.success {
        return None;
    }
    let out = trim_str(o.stdout.as_str());
    if !out.as_str().is_empty() {
        return Some(out);
    }
    let err = trim_str(o.stderr.as_str());
    if !err.as_str().is_empty() {
        Some(err)
    } else {
        None
    }
}

// ---------------------------------------------------------------------------
// Package lists
// ---------------------------------------------------------------------------

/// The main camera packages.
pub fn camera_packages() -> (r: Vec<&'static str>)
    ensures
        str_views(r@) == seq![
            "galaxybook-ov02c10-kmod-common"@,
            "akmod-galaxybook-ov02c10"@,
            "galaxybook-camera"@,
        ],
{
    let r = vec!["galaxybook-ov02c10-kmod-common", "akmod-galaxybook-ov02c10", "galaxybook-camera"];
    assert(str_views(r@) =~= seq![
        "galaxybook-ov02c10-kmod-common"@,
        "akmod-galaxybook-ov02c10"@,
        "galaxybook-camera"@,
    ]);
    r
}

/// The packages of the browser camera bridge.
pub fn browser_packages() -> (r: Vec<&'static str>)
    ensures
        str_views(r@) == seq![
            "v4l2-relayd"@,
            "v4l2loopback"@,
            "gstreamer1-plugins-icamerasrc"@,
            "v4l-utils"@,
        ],
{
    let r = vec!["v4l2-relayd", "v4l2loopback", "gstreamer1-plugins-icamerasrc", "v4l-utils"];
    assert(str_views(r@) =~= seq![
        "v4l2-relayd"@,
        "v4l2loopback"@,
        "gstreamer1-plugins-icamerasrc"@,
        "v4l-utils"@,
    ]);
    r
}

/// The packages of the speaker support.
pub fn speaker_packages() -> (r: Vec<&'static str>)
    ensures
        str_views(r@) == seq!["galaxybook-max98390-kmod-common"@, "akmod-galaxybook-max98390"@],
{
    let r = vec!["galaxybook-max98390-kmod-common", "akmod-galaxybook-max98390"];
    assert(str_views(r@) =~= seq!["galaxybook-max98390-kmod-common"@, "akmod-galaxybook-max98390"@]);
    r
}

/// The packages of the fingerprint stack.
pub fn fingerprint_packages() -> (r: Vec<&'static str>)
    ensures
        str_views(r@) == seq!["fprintd"@, "libfprint"@],
{
    let r = vec!["fprintd", "libfprint"];
    assert(str_views(r@) =~= seq!["fprintd"@, "libfprint"@]);
    r
}

/// The known clipboard history extensions.
pub open spec fn clipboard_extension_ids() -> Seq<Seq<char>> {
    seq![
        "clipboard-indicator@tudmotu.com"@,
        "clipboard-history@alexsaveau.dev"@,
        "GPaste@gnome-shell-extensions.gnome.org"@,
        "pano@elhan.io"@,
    ]
}

/// The known clipboard history extensions.
pub fn clipboard_extension_id_list() -> (r: Vec<&'static str>)
    ensures
        str_views(r@) == clipboard_extension_ids(),
{
    let r = vec![
        "clipboard-indicator@tudmotu.com",
        "clipboard-history@alexsaveau.dev",
        "GPaste@gnome-shell-extensions.gnome.org",
        "pano@elhan.io",
    ];
    assert(str_views(r@) =~= clipboard_extension_ids());
    r
}

// ---------------------------------------------------------------------------
// Summary
// ---------------------------------------------------------------------------

/// The notebook line from the trimmed DMI vendor and product names.
pub open spec fn notebook_text(vendor: Option<Seq<char>>, product: Option<Seq<char>>) -> Seq<char> {
    match (vendor, product) {
        (Some(v), Some(p)) => v + " "@ + p,
        (None, Some(p)) => p,
        (Some(v), None) => v,
        (None, None) => "Galaxy Book (modelo não identificado)"@,
    }
}

/// Names the notebook from the raw contents of `sys_vendor` and
/// `product_name`.
pub fn detect_notebook(sys_vendor: Option<&str>, product_name: Option<&str>) -> (r: String)
    ensures
        r@ == notebook_text(trimmed(opt_str_view(sys_vendor)), trimmed(opt_str_view(product_name))),
{
    let vendor = crate::checks::read_trimmed(sys_vendor);
    let product = crate::checks::read_trimmed(product_name);
    match (vendor, product) {
        (Some(v), Some(p)) => concat3(v.as_str(), " ", p.as_str()),
        (None, Some(p)) => p,
        (Some(v), None) => v,
        (None, None) => owned("Galaxy Book (modelo não identificado)"),
    }
}

/// The Fedora line from the raw contents of `/etc/fedora-release`.
pub open spec fn fedora_text(release: Option<Seq<char>>) -> Seq<char> {
    match release {
        Some(r) => trim(r),
        None => "Fedora (versão não identificada)"@,
    }
}

/// Names the Fedora release.
pub fn detect_fedora_release(release: Option<&str>) -> (r: String)
    ensures
        r@ == fedora_text(opt_str_view(release)),
{
    match release {
        Some(s) => trim_str(s),
        None => owned("Fedora (versão não identificada)"),
    }
}

// ---------------------------------------------------------------------------
// Camera checks
// ---------------------------------------------------------------------------

/// The main camera packages diagnostic.
pub open spec fn package_check_spec(installed: Seq<Seq<char>>, missing: Seq<Seq<char>>) -> CheckView {
    if missing.len() == 0 {
        check(
            "Pacotes principais"@,
            "Instalados: "@ + join(installed, ", "@),
            Health::Good,
            "packages-installed"@,
        )
    } else {
        check(
            "Pacotes principais"@,
            "Faltando: "@ + join(missing, ", "@),
            Health::Warning,
            "packages-missing"@,
        )
    }
}

fn package_check(p: &crate::model::PackagePresence) -> (r: CheckItem)
    ensures
        r@ == package_check_spec(views(p.installed@), views(p.missing@)),
{
    if p.missing.len() == 0 {
        let list = join_strings(&p.installed, ", ");
        CheckItem {
            title: "Pacotes principais",
            detail: concat2("Instalados: ", list.as_str()),
            health: Health::Good,
            code: "packages-installed",
        }
    } else {
        let list = join_strings(&p.missing, ", ");
        CheckItem {
            title: "Pacotes principais",
            detail: concat2("Faltando: ", list.as_str()),
            health: Health::Warning,
            code: "packages-missing",
        }
    }
}

/// The akmods diagnostic.
pub open spec fn akmods_check_spec(driver_installed: bool, failed: bool) -> CheckView {
    if driver_installed {
        if failed {
            check(
                "Akmods no boot"@,
                "Falhou ao gerar o módulo para o kernel atual."@,
                Health::Error,
                "akmods-failed"@,
            )
        } else {
            check(
                "Akmods no boot"@,
                "Nenhuma falha do akmods encontrada no boot atual."@,
                Health::Good,
                "akmods-ok"@,
            )
        }
    } else {
        check(
            "Akmods no boot"@,
            "O driver ainda não foi instalado, então o akmods não executou esse fluxo."@,
            Health::Unknown,
            "akmods-unavailable"@,
        )
    }
}

fn akmods_check(driver_installed: bool, failed: bool) -> (r: CheckItem)
    ensures
        r@ == akmods_check_spec(driver_installed, failed),
{
    if driver_installed {
        if failed {
            CheckItem {
                title: "Akmods no boot",
                detail: owned("Falhou ao gerar o módulo para o kernel atual."),
                health: Health::Error,
                code: "akmods-failed",
            }
        } else {
            CheckItem {
                title: "Akmods no boot",
                detail: owned("Nenhuma falha do akmods encontrada no boot atual."),
                health: Health::Good,
                code: "akmods-ok",
            }
        }
    } else {
        CheckItem {
            title: "Akmods no boot",
            detail: owned("O driver ainda não foi instalado, então o akmods não executou esse fluxo."),
            health: Health::Unknown,
            code: "akmods-unavailable",
        }
    }
}

/// The active module diagnostic.
pub open spec fn module_check_spec(
    origin: ModuleOrigin,
    path: Option<Seq<char>>,
    loaded: bool,
    manual_override: bool,
    owner: Option<Seq<char>>,
    clock: bool,
) -> CheckView {
    let title = "Módulo ativo"@;
    match (origin, path) {
        (ModuleOrigin::Patched, Some(p)) => if !loaded {
            check(
                title,
                "O módulo corrigido existe em "@ + p
                    + ", mas ainda não foi carregado no kernel. Habilite o carregamento automático e recarregue o driver pela seção de ações rápidas."@,
                Health::Error,
                "module-not-loaded"@,
            )
        } else if manual_override {
            check(
                title,
                "Usando um override manual em "@ + p
                    + ". Como esse arquivo não pertence a um RPM, ele pode divergir do stack Intel IPU6 que o restante do sistema espera."@,
                Health::Warning,
                "module-manual-override"@,
            )
        } else {
            check(
                title,
                match owner {
                    Some(o) => "Usando módulo externo em "@ + p + ", fornecido por "@ + o + "."@,
                    None => "Usando módulo externo: "@ + p,
                },
                Health::Good,
                "module-patched"@,
            )
        },
        (ModuleOrigin::Patched, None) => check(
            title,
            "O sistema indicou um módulo externo, mas o caminho não pôde ser lido."@,
            Health::Warning,
            "module-patched-path-missing"@,
        ),
        (ModuleOrigin::InTree, Some(p)) => check(
            title,
            "O sistema está usando o módulo in-tree do kernel: "@ + p
                + ". Use a ação rápida para ajustar a prioridade do driver corrigido."@,
            if clock {
                Health::Error
            } else {
                Health::Warning
            },
            "module-in-tree"@,
        ),
        (ModuleOrigin::InTree, None) => check(
            title,
            "O sistema parece ter caído para o módulo in-tree. Use a ação rápida para ajustar a prioridade do driver corrigido."@,
            if clock {
                Health::Error
            } else {
                Health::Warning
            },
            "module-in-tree"@,
        ),
        (ModuleOrigin::Missing, _) => check(
            title,
            "Não foi possível localizar o módulo ov02c10 via modinfo."@,
            Health::Error,
            "module-missing"@,
        ),
        (ModuleOrigin::Unknown, Some(p)) => check(
            title,
            "Módulo localizado, mas sem origem claramente classificada: "@ + p,
            Health::Warning,
            "module-unknown"@,
        ),
        (ModuleOrigin::Unknown, None) => check(
            title,
            "Origem do módulo ov02c10 não pôde ser determinada."@,
            Health::Unknown,
            "module-unknown"@,
        ),
    }
}

fn module_check(
    origin: ModuleOrigin,
    path: Option<&str>,
    loaded: bool,
    manual_override: bool,
    owner: Option<&str>,
    clock: bool,
) -> (r: CheckItem)
    ensures
        r@ == module_check_spec(
            origin,
            opt_str_view(path),
            loaded,
            manual_override,
            opt_str_view(owner),
            clock,
        ),
{
    let title = "Módulo ativo";
    let in_tree_health = if clock {
        Health::Error
    } else {
        Health::Warning
    };
    match (origin, path) {
        (ModuleOrigin::Patched, Some(p)) => {
            if !loaded {
                CheckItem {
                    title,
                    detail: concat3(
                        "O módulo corrigido existe em ",
                        p,
                        ", mas ainda não foi carregado no kernel. Habilite o carregamento automático e recarregue o driver pela seção de ações rápidas.",
                    ),
                    health: Health::Error,
                    code: "module-not-loaded",
                }
            } else if manual_override {
                CheckItem {
                    title,
                    detail: concat3(
                        "Usando um override manual em ",
                        p,
                        ". Como esse arquivo não pertence a um RPM, ele pode divergir do stack Intel IPU6 que o restante do sistema espera.",
                    ),
                    health: Health::Warning,
                    code: "module-manual-override",
                }
            } else {
                let detail = match owner {
                    Some(o) => {
                        let mut d = concat3("Usando módulo externo em ", p, ", fornecido por ");
                        d.append(o);
                        d.append(".");
                        d
                    },
                    None => concat2("Usando módulo externo: ", p),
                };
                CheckItem { title, detail, health: Health::Good, code: "module-patched" }
            }
        },
        (ModuleOrigin::Patched, None) => CheckItem {
            title,
            detail: owned("O sistema indicou um módulo externo, mas o caminho não pôde ser lido."),
            health: Health::Warning,
            code: "module-patched-path-missing",
        },
        (ModuleOrigin::InTree, Some(p)) => CheckItem {
            title,
            detail: concat3(
                "O sistema está usando o módulo in-tree do kernel: ",
                p,
                ". Use a ação rápida para ajustar a prioridade do driver corrigido.",
            ),
            health: in_tree_health,
            code: "module-in-tree",
        },
        (ModuleOrigin::InTree, None) => CheckItem {
            title,
            detail: owned(
                "O sistema parece ter caído para o módulo in-tree. Use a ação rápida para ajustar a prioridade do driver corrigido.",
            ),
            health: in_tree_health,
            code: "module-in-tree",
        },
        (ModuleOrigin::Missing, _) => CheckItem {
            title,
            detail: owned("Não foi possível localizar o módulo ov02c10 via modinfo."),
            health: Health::Error,
            code: "module-missing",
        },
        (ModuleOrigin::Unknown, Some(p)) => CheckItem {
            title,
            detail: concat2("Módulo localizado, mas sem origem claramente classificada: ", p),
            health: Health::Warning,
            code: "module-unknown",
        },
        (ModuleOrigin::Unknown, None) => CheckItem {
            title,
            detail: owned("Origem do módulo ov02c10 não pôde ser determinada."),
            health: Health::Unknown,
            code: "module-unknown",
        },
    }
}

/// The patterns that mark the camera's line in `cam -l`.
pub open spec fn camera_line_patterns() -> Seq<Seq<char>> {
    seq!["Internal front camera"@, "'ov02c10'"@]
}

/// Shown when `cam -l` misses the camera after the boot's early probe of the
/// sensor failed on the 26 MHz clock.
pub const CLOCK_PROBE_FAILED_TEXT: &'static str = "O boot tentou iniciar o ov02c10 antes de o driver corrigido estar pronto e registrou que o clock externo de 26 MHz não é suportado. Mesmo com o módulo corrigido carregado agora, o grafo de mídia do IPU6 deste boot foi criado sem o sensor, então o caminho direto do Galaxy Book Câmera não lista a câmera. Ajuste a prioridade do driver pela seção de ações rápidas e reinicie.";

/// The boot's early probe of the sensor failed on the 26 MHz clock while the
/// patched module is the one loaded now.
pub open spec fn clock_probe_failed(origin: ModuleOrigin, loaded: bool, clock: bool) -> bool {
    origin == ModuleOrigin::Patched && loaded && clock
}

/// The direct libcamera path diagnostic. When `cam` runs but misses the
/// camera and the boot's early probe failed on the clock (`probe_failed`),
/// the path is reported as failed.
pub open spec fn libcamera_check_spec(output: Option<Seq<char>>, blocked: bool, probe_failed: bool) -> CheckView {
    let title = "Caminho direto do Galaxy Book Câmera"@;
    match output {
        Some(o) => if libcamera_lists_camera(o) {
            check(
                title,
                match first_matching_line(o, camera_line_patterns()) {
                    Some(line) => line,
                    None => "A câmera interna apareceu no caminho direto usado pelo Galaxy Book Câmera."@,
                },
                Health::Good,
                "libcamera-ready"@,
            )
        } else if probe_failed {
            check(title, CLOCK_PROBE_FAILED_TEXT@, Health::Error, "libcamera-clock-probe-failed"@)
        } else {
            check(
                title,
                "A ferramenta cam executou, mas o caminho direto usado pelo Galaxy Book Câmera não listou a câmera interna. Isso não significa, por si só, que Snapshot, navegador ou o sistema também falharam."@,
                Health::Warning,
                "libcamera-missing"@,
            )
        },
        None => if blocked {
            check(
                title,
                "O caminho direto do libcamera perdeu acesso aos nós crus do IPU6 porque uma configuração antiga da câmera para navegador removeu o uaccess desses dispositivos. Reaplique a ação rápida da câmera para navegador para migrar o bridge para o fluxo novo, que mantém o libcamera e a webcam virtual funcionando juntos."@,
                Health::Error,
                "libcamera-permission-blocked"@,
            )
        } else {
            check(
                title,
                "A ferramenta 'cam' não está disponível ou falhou ao executar, então o setup não conseguiu validar o caminho direto usado pelo Galaxy Book Câmera."@,
                Health::Unknown,
                "libcamera-unavailable"@,
            )
        },
    }
}

fn libcamera_check(output: Option<&str>, blocked: bool, probe_failed: bool) -> (r: CheckItem)
    ensures
        r@ == libcamera_check_spec(opt_str_view(output), blocked, probe_failed),
{
    let title = "Caminho direto do Galaxy Book Câmera";
    match output {
        Some(o) => {
            if crate::parse::libcamera_output_has_camera(o) {
                let patterns: Vec<&str> = vec!["Internal front camera", "'ov02c10'"];
                assert(str_views(patterns@) =~= camera_line_patterns());
                let detail = match crate::parse::extract_first_matching_line(o, &patterns) {
                    Some(line) => line,
                    None => owned(
                        "A câmera interna apareceu no caminho direto usado pelo Galaxy Book Câmera.",
                    ),
                };
                CheckItem { title, detail, health: Health::Good, code: "libcamera-ready" }
            } else if probe_failed {
                CheckItem {
                    title,
                    detail: owned(CLOCK_PROBE_FAILED_TEXT),
                    health: Health::Error,
                    code: "libcamera-clock-probe-failed",
                }
            } else {
                CheckItem {
                    title,
                    detail: owned(
                        "A ferramenta cam executou, mas o caminho direto usado pelo Galaxy Book Câmera não listou a câmera interna. Isso não significa, por si só, que Snapshot, navegador ou o sistema também falharam.",
                    ),
                    health: Health::Warning,
                    code: "libcamera-missing",
                }
            }
        },
        None => {
            if blocked {
                CheckItem {
                    title,
                    detail: owned(
                        "O caminho direto do libcamera perdeu acesso aos nós crus do IPU6 porque uma configuração antiga da câmera para navegador removeu o uaccess desses dispositivos. Reaplique a ação rápida da câmera para navegador para migrar o bridge para o fluxo novo, que mantém o libcamera e a webcam virtual funcionando juntos.",
                    ),
                    health: Health::Error,
                    code: "libcamera-permission-blocked",
                }
            } else {
                CheckItem {
                    title,
                    detail: owned(
                        "A ferramenta 'cam' não está disponível ou falhou ao executar, então o setup não conseguiu validar o caminho direto usado pelo Galaxy Book Câmera.",
                    ),
                    health: Health::Unknown,
                    code: "libcamera-unavailable",
                }
            }
        },
    }
}

/// The boot errors diagnostic.
pub open spec fn boot_check_spec(clock: bool) -> CheckView {
    if clock {
        check(
            "Erros no boot"@,
            "O boot registrou que o driver in-tree não suporta o clock externo de 26 MHz nesta máquina."@,
            Health::Error,
            "boot-clock-error"@,
        )
    } else {
        check(
            "Erros no boot"@,
            "Nenhum erro de clock/probe do ov02c10 foi encontrado no boot atual."@,
            Health::Good,
            "boot-ok"@,
        )
    }
}

fn boot_check(clock: bool) -> (r: CheckItem)
    ensures
        r@ == boot_check_spec(clock),
{
    if clock {
        CheckItem {
            title: "Erros no boot",
            detail: owned(
                "O boot registrou que o driver in-tree não suporta o clock externo de 26 MHz nesta máquina.",
            ),
            health: Health::Error,
            code: "boot-clock-error",
        }
    } else {
        CheckItem {
            title: "Erros no boot",
            detail: owned("Nenhum erro de clock/probe do ov02c10 foi encontrado no boot atual."),
            health: Health::Good,
            code: "boot-ok",
        }
    }
}

// ---------------------------------------------------------------------------
// The whole snapshot
// ---------------------------------------------------------------------------

/// The kernel line of the summary: the text of `uname -r`, or "Desconhecido"
/// where it gave none or only whitespace.
pub open spec fn kernel_line(kernel: Option<Seq<char>>) -> Seq<char> {
    match kernel {
        Some(k) => if crate::text::is_blank(k) {
            "Desconhecido"@
        } else {
            k
        },
        None => "Desconhecido"@,
    }
}

/// Everything the diagnostics read from the system in one round.
#[derive(Clone, Debug, PartialEq, Eq)]
pub struct SystemProbes {
    /// Raw contents of `/sys/devices/virtual/dmi/id/sys_vendor`.
    pub sys_vendor: Option<String>,
    /// Raw contents of `/sys/devices/virtual/dmi/id/product_name`.
    pub product_name: Option<String>,
    /// Raw contents of `/etc/fedora-release`.
    pub fedora_release: Option<String>,
    /// Text of `uname -r`.
    pub kernel: Option<String>,
    /// Secure Boot and the akmods key.
    pub secure_boot_key: SecureBootKeyProbe,
    /// The main camera packages, in the order of [`camera_packages`].
    pub camera_packages: Vec<PackageStatus>,
    /// Text of `journalctl -b -u akmods --no-pager`.
    pub akmods_log: Option<String>,
    /// Text of `modinfo -n ov02c10`.
    pub module_file: Option<String>,
    /// Package that owns the module file, from `rpm -qf`.
    pub module_owner: Option<String>,
    /// Raw contents of `/proc/modules`.
    pub proc_modules: Option<String>,
    /// Text of `journalctl -b -k --no-pager`.
    pub kernel_log: Option<String>,
    /// Standard output of `cam -l`, where it succeeded.
    pub libcamera_output: Option<String>,
    /// `/etc/udev/rules.d/90-hide-ipu6-v4l2.rules` exists.
    pub browser_rule_exists: bool,
    /// The entries of `/sys/class/video4linux`.
    pub video_nodes: Vec<VideoNode>,
    /// The bridge packages, in the order of [`browser_packages`].
    pub browser_packages: Vec<PackageStatus>,
    /// Text of `wpctl status`.
    pub wpctl_status: Option<String>,
    /// The V4L2 bridge.
    pub bridge: BridgeProbe,
    /// The internal speakers.
    pub speakers: SpeakerProbe,
    /// `galaxybook-sound` is installed or on the path.
    pub sound_app_installed: bool,
    /// The fingerprint stack.
    pub fingerprint: FingerprintProbe,
    /// `akmod-nvidia` is installed.
    pub nvidia_akmod_installed: bool,
    /// `xorg-x11-drv-nvidia-cuda` is installed.
    pub nvidia_cuda_installed: bool,
    /// Raw contents of `/sys/firmware/acpi/platform_profile`.
    pub platform_profile: Option<String>,
    /// Raw contents of `/sys/firmware/acpi/platform_profile_choices`.
    pub platform_profile_choices: Option<String>,
    /// Text of `gsettings get org.gnome.shell enabled-extensions`.
    pub enabled_extensions: Option<String>,
    /// Directory names under the system and user extension folders.
    pub installed_extensions: Vec<String>,
    /// `gsettings get` of each dock profile key, in profile order.
    pub dock_values: Vec<Option<String>>,
}

/// The enabled GNOME Shell extensions.
pub open spec fn enabled_extension_ids(output: Option<Seq<char>>) -> Seq<Seq<char>> {
    match output {
        Some(o) => crate::parse::gsettings_strings(o),
        None => seq![],
    }
}

/// The log text, or nothing where it could not be read.
pub open spec fn or_empty(o: Option<Seq<char>>) -> Seq<char> {
    match o {
        Some(s) => s,
        None => seq![],
    }
}

/// The module file sits under `/updates/`, belongs to no package, and the
/// packaged driver is not installed: someone copied it there by hand.
pub open spec fn manual_override(path: Option<Seq<char>>, owner: Option<Seq<char>>, packaged: bool) -> bool {
    path matches Some(p) && contains(p, "/updates/"@) && owner is None && !packaged
}

/// The recommendation inputs that the snapshot derives from its probes.
pub open spec fn snapshot_recommendation_state(p: SystemProbes, r: SetupSnapshot) -> crate::recommend::RecommendationState {
    let packaged = names_with(p.camera_packages@, true).contains("akmod-galaxybook-ov02c10"@);
    crate::recommend::RecommendationState {
        missing_packages: names_with(p.camera_packages@, false).len() > 0,
        akmods_failed: akmods_log_failed(or_empty(opt_view(p.akmods_log))),
        module_origin: module_origin(opt_view(p.module_file)),
        manual_updates_override: manual_override(opt_view(p.module_file), opt_view(p.module_owner), packaged),
        clock_error: clock_error(or_empty(opt_view(p.kernel_log))),
        module_loaded: crate::checks::module_listed_opt(opt_view(p.proc_modules), "ov02c10"@),
        libcamera_detected: p.libcamera_output matches Some(o) && libcamera_lists_camera(o@),
        libcamera_permission_blocked: crate::devices::rule_blocks(p.browser_rule_exists, p.video_nodes@),
        camera_source_ready: p.wpctl_status matches Some(o) && crate::parse::camera_source_listed(o@),
        browser_camera_ready: r.browser_camera.health == Health::Good,
        camera_app_installed: names_with(p.camera_packages@, true).contains("galaxybook-camera"@),
        speaker_supported: r.speakers.health != Health::Unknown,
        speaker_ready: r.speakers.health == Health::Good,
        sound_app_installed: p.sound_app_installed,
    }
}

/// Runs every diagnostic on what the system reported.
#[verifier::rlimit(60)]
#[verifier::spinoff_prover]
pub fn collect_snapshot(p: &SystemProbes) -> (r: SetupSnapshot)
    ensures
        r.system.notebook@ == notebook_text(trimmed(opt_view(p.sys_vendor)), trimmed(opt_view(p.product_name))),
        r.system.fedora@ == fedora_text(opt_view(p.fedora_release)),
        r.system.kernel@ == kernel_line(opt_view(p.kernel)),
        r.system.secure_boot@ == crate::parse::secure_boot_summary(opt_view(p.secure_boot_key.sb_state)),
        r.packages@ == package_check_spec(
            names_with(p.camera_packages@, true),
            names_with(p.camera_packages@, false),
        ),
        r.akmods@ == akmods_check_spec(
            names_with(p.camera_packages@, true).contains("akmod-galaxybook-ov02c10"@),
            akmods_log_failed(or_empty(opt_view(p.akmods_log))),
        ),
        r.module@ == module_check_spec(
            module_origin(opt_view(p.module_file)),
            opt_view(p.module_file),
            crate::checks::module_listed_opt(opt_view(p.proc_modules), "ov02c10"@),
            manual_override(
                opt_view(p.module_file),
                opt_view(p.module_owner),
                names_with(p.camera_packages@, true).contains("akmod-galaxybook-ov02c10"@),
            ),
            opt_view(p.module_owner),
            clock_error(or_empty(opt_view(p.kernel_log))),
        ),
        r.libcamera@ == libcamera_check_spec(
            opt_view(p.libcamera_output),
            crate::devices::rule_blocks(p.browser_rule_exists, p.video_nodes@),
            clock_probe_failed(
                module_origin(opt_view(p.module_file)),
                crate::checks::module_listed_opt(opt_view(p.proc_modules), "ov02c10"@),
                clock_error(or_empty(opt_view(p.kernel_log))),
            ),
        ),
        r.browser_camera@ == crate::devices::browser_camera_spec(
            names_with(p.browser_packages@, false),
            p.libcamera_output matches Some(o) && libcamera_lists_camera(o@),
            p.wpctl_status matches Some(o) && crate::parse::camera_source_listed(o@),
            p.bridge,
        ),
        r.boot@ == boot_check_spec(clock_error(or_empty(opt_view(p.kernel_log)))),
        r.speakers@ == crate::devices::speakers_spec(p.speakers),
        r.sound_app@ == crate::devices::sound_app_spec(p.sound_app_installed),
        r.fingerprint_reader@ == crate::devices::fingerprint_reader_spec(
            match opt_view(p.fingerprint.lsusb) {
                Some(o) => first_matching_line(o, crate::devices::sensor_patterns()),
                None => None,
            },
            names_with(p.fingerprint.packages@, false),
            match p.fingerprint.fprintd_list {
                Some(l) => crate::parse::enrollment_state(l@),
                None => crate::model::FingerprintEnrollmentState::Unavailable,
            },
        ),
        r.fingerprint_login@ == crate::devices::fingerprint_login_spec(
            (match opt_view(p.fingerprint.lsusb) {
                Some(o) => first_matching_line(o, crate::devices::sensor_patterns()),
                None => None,
            }) is Some,
            names_with(p.fingerprint.packages@, false).len() == 0,
            p.fingerprint.authselect matches Some(a) && crate::parse::authselect_lists_fingerprint(a@),
            match p.fingerprint.fprintd_list {
                Some(l) => crate::parse::enrollment_state(l@),
                None => crate::model::FingerprintEnrollmentState::Unavailable,
            },
        ),
        r.gpu@ == crate::checks::nvidia_check_spec(
            p.nvidia_akmod_installed,
            crate::checks::module_listed_opt(opt_view(p.proc_modules), "nvidia"@),
            p.nvidia_cuda_installed,
        ),
        r.secure_boot_key@ == crate::checks::secure_boot_key_spec(p.secure_boot_key),
        r.platform_profile@ == crate::checks::platform_profile_spec(
            trimmed(opt_view(p.platform_profile)),
            trimmed(opt_view(p.platform_profile_choices)),
        ),
        r.clipboard_extension@ == extension_check_spec(
            "Histórico da área de transferência"@,
            clipboard_extension_ids(),
            enabled_extension_ids(opt_view(p.enabled_extensions)),
            views(p.installed_extensions@),
            "Nenhuma extensão conhecida de histórico da área de transferência foi encontrada."@,
        ),
        r.gsconnect_extension@ == extension_check_spec(
            "GSConnect"@,
            seq![crate::checks::GSCONNECT_EXTENSION_ID@],
            enabled_extension_ids(opt_view(p.enabled_extensions)),
            views(p.installed_extensions@),
            "O GSConnect não está instalado."@,
        ),
        r.desktop_icons_extension@ == extension_check_spec(
            "Ícones na área de trabalho"@,
            seq![crate::checks::DESKTOP_ICONS_EXTENSION_ID@],
            enabled_extension_ids(opt_view(p.enabled_extensions)),
            views(p.installed_extensions@),
            "A extensão Desktop Icons NG não está instalada."@,
        ),
        r.dock_extension@ == crate::checks::detect_dock_spec(
            enabled_extension_ids(opt_view(p.enabled_extensions)),
            views(p.installed_extensions@),
            crate::checks::opt_views(p.dock_values@),
        ),
        (r.recommendation_title@, r.recommendation_body@) == crate::recommend::recommendation(
            r.secure_boot_key.code@,
            snapshot_recommendation_state(*p, r),
        ),
        r.install_main_support_command@ == crate::commands::INSTALL_MAIN_SUPPORT_COMMAND@,
        r.install_command@ == crate::commands::INSTALL_CAMERA_COMMAND@,
        r.repair_command@ == crate::commands::REPAIR_CAMERA_COMMAND@,
        r.enable_camera_module_command@ == crate::commands::ENABLE_CAMERA_MODULE_COMMAND@,
        r.force_camera_command@ == crate::commands::FORCE_CAMERA_DRIVER_COMMAND@,
        r.restore_intel_camera_command@ == crate::commands::RESTORE_INTEL_CAMERA_COMMAND@,
        r.enable_browser_camera_command@ == crate::commands::ENABLE_BROWSER_CAMERA_COMMAND@,
        r.enable_speaker_command@ == crate::commands::ENABLE_SPEAKER_COMMAND@,
        r.prepare_secure_boot_key_command@ == crate::commands::PREPARE_SECURE_BOOT_KEY_COMMAND@,
        r.install_sound_app_command@ == crate::commands::INSTALL_SOUND_APP_COMMAND@,
        r.repair_nvidia_command@ == crate::commands::REPAIR_NVIDIA_COMMAND@,
        r.set_balanced_profile_command@ == crate::commands::SET_BALANCED_PROFILE_COMMAND@,
        r.repair_fingerprint_command@ == crate::commands::REPAIR_FINGERPRINT_COMMAND@,
        r.enable_fingerprint_auth_command@ == crate::commands::ENABLE_FINGERPRINT_AUTH_COMMAND@,
        r.open_fingerprint_settings_command@ == crate::commands::OPEN_FINGERPRINT_SETTINGS_COMMAND@,
        r.apply_clipboard_profile_command@ == crate::commands::extension_script(
            crate::checks::CLIPBOARD_PROFILE_EXTENSION_ID@,
            seq![],
        ),
        r.apply_gsconnect_profile_command@ == crate::commands::extension_script(
            crate::checks::GSCONNECT_EXTENSION_ID@,
            seq![crate::commands::GSCONNECT_PRELUDE@],
        ),
        r.apply_desktop_icons_profile_command@ == crate::commands::extension_script(
            crate::checks::DESKTOP_ICONS_EXTENSION_ID@,
            seq![],
        ),
        r.apply_dock_profile_command@ == crate::commands::dock_script(),
        r.reboot_command@ == crate::commands::REBOOT_COMMAND@,
        r.camera_app_installed == names_with(p.camera_packages@, true).contains("galaxybook-camera"@),
        r.sound_app_installed == p.sound_app_installed,
{
    let system = SystemSummary {
        notebook: detect_notebook(opt_as_str(&p.sys_vendor), opt_as_str(&p.product_name)),
        fedora: detect_fedora_release(opt_as_str(&p.fedora_release)),
        kernel: match &p.kernel {
            Some(k) => {
                let chars = crate::text::chars_of(k.as_str());
                if crate::text::is_blank_exec(chars.as_slice()) {
                    owned("Desconhecido")
                } else {
                    owned(k.as_str())
                }
            },
            None => owned("Desconhecido"),
        },
        secure_boot: crate::parse::detect_secure_boot(opt_as_str(&p.secure_boot_key.sb_state)),
    };
    let secure_boot_key = crate::checks::detect_secure_boot_key_check(&p.secure_boot_key);
    proof {
        reveal_strlit("");
        assert(""@ =~= Seq::<char>::empty());
    }

    let packages = package_presence(&p.camera_packages);
    let camera_app_installed = crate::checks::list_contains(packages.installed.as_slice(), "galaxybook-camera");
    let packaged_driver = crate::checks::list_contains(
        packages.installed.as_slice(),
        "akmod-galaxybook-ov02c10",
    );
    let package_item = package_check(&packages);

    let akmods_failed = match &p.akmods_log {
        Some(log) => crate::parse::akmods_failed(log.as_str()),
        None => crate::parse::akmods_failed(""),
    };
    let akmods_item = akmods_check(packaged_driver, akmods_failed);

    let module_file = opt_as_str(&p.module_file);
    let origin = crate::parse::module_origin_from_path(module_file);
    let module_owner = opt_as_str(&p.module_owner);
    let module_loaded = crate::checks::module_loaded_opt(opt_as_str(&p.proc_modules), "ov02c10");
    let manual_updates_override = match module_file {
        Some(path) => crate::text::str_contains(path, "/updates/") && module_owner.is_none()
            && !packaged_driver,
        None => false,
    };
    let clock = match &p.kernel_log {
        Some(log) => crate::parse::detect_clock_error(log.as_str()),
        None => crate::parse::detect_clock_error(""),
    };
    let module_item = module_check(origin, module_file, module_loaded, manual_updates_override, module_owner, clock);

    let libcamera_detected = match &p.libcamera_output {
        Some(o) => crate::parse::libcamera_output_has_camera(o.as_str()),
        None => false,
    };
    let blocked = crate::devices::browser_camera_rule_blocks_libcamera(
        p.browser_rule_exists,
        p.video_nodes.as_slice(),
    );
    let probe_failed = origin == ModuleOrigin::Patched && module_loaded && clock;
    let libcamera_item = libcamera_check(opt_as_str(&p.libcamera_output), blocked, probe_failed);

    let browser_presence = package_presence(&p.browser_packages);
    let camera_source_ready = crate::parse::detect_system_camera_source_ready(opt_as_str(&p.wpctl_status));
    let browser_camera = crate::devices::detect_browser_camera_check(
        &browser_presence,
        libcamera_detected,
        camera_source_ready,
        &p.bridge,
    );
    let speakers = crate::devices::detect_speakers_check(&p.speakers);
    let sound_app = crate::devices::detect_sound_app_check(p.sound_app_installed);
    let fingerprint = crate::devices::collect_fingerprint_context(&p.fingerprint);
    let fingerprint_reader = crate::devices::detect_fingerprint_reader_check(&fingerprint);
    let fingerprint_login = crate::devices::detect_fingerprint_login_check(&fingerprint);
    let boot = boot_check(clock);
    let gpu = crate::checks::detect_nvidia_check(
        p.nvidia_akmod_installed,
        opt_as_str(&p.proc_modules),
        p.nvidia_cuda_installed,
    );
    let platform_profile = crate::checks::detect_platform_profile_check(
        opt_as_str(&p.platform_profile),
        opt_as_str(&p.platform_profile_choices),
    );

    let enabled_extensions = match &p.enabled_extensions {
        Some(o) => crate::parse::parse_gsettings_string_array(o.as_str()),
        None => Vec::new(),
    };
    assert(views(enabled_extensions@) =~= enabled_extension_ids(opt_view(p.enabled_extensions)));
    let clipboard_ids = clipboard_extension_id_list();
    let clipboard_extension = extension_check(
        "Histórico da área de transferência",
        clipboard_ids.as_slice(),
        enabled_extensions.as_slice(),
        p.installed_extensions.as_slice(),
        "Nenhuma extensão conhecida de histórico da área de transferência foi encontrada.",
    );
    let gsconnect_ids: Vec<&str> = vec![crate::checks::GSCONNECT_EXTENSION_ID];
    assert(str_views(gsconnect_ids@) =~= seq![crate::checks::GSCONNECT_EXTENSION_ID@]);
    let gsconnect_extension = extension_check(
        "GSConnect",
        gsconnect_ids.as_slice(),
        enabled_extensions.as_slice(),
        p.installed_extensions.as_slice(),
        "O GSConnect não está instalado.",
    );
    let icons_ids: Vec<&str> = vec![crate::checks::DESKTOP_ICONS_EXTENSION_ID];
    assert(str_views(icons_ids@) =~= seq![crate::checks::DESKTOP_ICONS_EXTENSION_ID@]);
    let desktop_icons_extension = extension_check(
        "Ícones na área de trabalho",
        icons_ids.as_slice(),
        enabled_extensions.as_slice(),
        p.installed_extensions.as_slice(),
        "A extensão Desktop Icons NG não está instalada.",
    );
    let dock_extension = crate::checks::detect_dash_to_dock_check(
        enabled_extensions.as_slice(),
        p.installed_extensions.as_slice(),
        p.dock_values.as_slice(),
    );

    let (recommendation_title, recommendation_body) = crate::recommend::recommend_next_step(
        &secure_boot_key,
        &packages,
        akmods_failed,
        origin,
        manual_updates_override,
        clock,
        module_loaded,
        libcamera_detected,
        blocked,
        camera_source_ready,
        browser_camera.health == Health::Good,
        camera_app_installed,
        speakers.health != Health::Unknown,
        speakers.health == Health::Good,
        p.sound_app_installed,
    );

    SetupSnapshot {
        system,
        packages: package_item,
        akmods: akmods_item,
        module: module_item,
        libcamera: libcamera_item,
        browser_camera,
        boot,
        speakers,
        sound_app,
        fingerprint_reader,
        fingerprint_login,
        gpu,
        secure_boot_key,
        platform_profile,
        clipboard_extension,
        gsconnect_extension,
        desktop_icons_extension,
        dock_extension,
        recommendation_title,
        recommendation_body,
        install_main_support_command: owned(crate::commands::INSTALL_MAIN_SUPPORT_COMMAND),
        install_command: owned(crate::commands::INSTALL_CAMERA_COMMAND),
        repair_command: owned(crate::commands::REPAIR_CAMERA_COMMAND),
        enable_camera_module_command: owned(crate::commands::ENABLE_CAMERA_MODULE_COMMAND),
        force_camera_command: owned(crate::commands::FORCE_CAMERA_DRIVER_COMMAND),
        restore_intel_camera_command: owned(crate::commands::RESTORE_INTEL_CAMERA_COMMAND),
        enable_browser_camera_command: owned(crate::commands::ENABLE_BROWSER_CAMERA_COMMAND),
        enable_speaker_command: owned(crate::commands::ENABLE_SPEAKER_COMMAND),
        prepare_secure_boot_key_command: owned(crate::commands::PREPARE_SECURE_BOOT_KEY_COMMAND),
        install_sound_app_command: owned(crate::commands::INSTALL_SOUND_APP_COMMAND),
        repair_nvidia_command: owned(crate::commands::REPAIR_NVIDIA_COMMAND),
        set_balanced_profile_command: owned(crate::commands::SET_BALANCED_PROFILE_COMMAND),
        repair_fingerprint_command: owned(crate::commands::REPAIR_FINGERPRINT_COMMAND),
        enable_fingerprint_auth_command: owned(crate::commands::ENABLE_FINGERPRINT_AUTH_COMMAND),
        open_fingerprint_settings_command: owned(crate::commands::OPEN_FINGERPRINT_SETTINGS_COMMAND),
        apply_clipboard_profile_command: build_clipboard_profile_command(),
        apply_gsconnect_profile_command: build_gsconnect_profile_command(),
        apply_desktop_icons_profile_command: build_desktop_icons_profile_command(),
        apply_dock_profile_command: build_dash_to_dock_profile_command(),
        reboot_command: owned(crate::commands::REBOOT_COMMAND),
        camera_app_installed,
        sound_app_installed: p.sound_app_installed,
    }
}

} // verus!
