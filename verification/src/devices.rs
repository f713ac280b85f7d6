//! Diagnostics of the notebook's devices: the browser camera bridge, the
//! internal speakers, the sound app and the fingerprint reader.
use vstd::prelude::*;

use crate::checks::{opt_as_str, opt_str_view, opt_view};
use crate::model::{
    check, concat2, concat3, join_strings, owned, CheckItem, CheckView,
    FingerprintEnrollmentState, Health, PackagePresence,
};
use crate::parse::{
    enrollment_state, first_matching_line, has_uaccess, module_listed,
};
use crate::text::{contains, join, starts_with, str_contains, str_eq, str_starts_with, str_views, trim, trim_str, views};

verus! {

// ---------------------------------------------------------------------------
// Video nodes
// ---------------------------------------------------------------------------

/// One entry of a `video4linux` directory in sysfs.
#[derive(Clone, Debug, PartialEq, Eq)]
pub struct VideoNode {
    /// The entry's file name, such as `video0`.
    pub entry: String,
    /// Contents of its `name` file, where it could be read.
    pub name: Option<String>,
    /// `udevadm info -q property` for its device node, where it succeeded.
    pub udev_properties: Option<String>,
}

/// The device node of the first entry whose trimmed name is `label`.
pub open spec fn first_named(nodes: Seq<VideoNode>, label: Seq<char>) -> Option<Seq<char>>
    decreases nodes.len(),
{
    if nodes.len() == 0 {
        None
    } else if nodes[0].name matches Some(n) && trim(n@) == label {
        Some("/dev/"@ + nodes[0].entry@)
    } else {
        first_named(nodes.drop_first(), label)
    }
}

/// Finds the virtual video device whose name is `card_label`, as `/dev/…`.
pub fn find_virtual_video_device_by_name(nodes: &[VideoNode], card_label: &str) -> (r: Option<String>)
    ensures
        opt_view(r) == first_named(nodes@, card_label@),
{
    let mut i: usize = 0;
    assert(nodes@.skip(0) =~= nodes@);
    while i < nodes.len()
        invariant
            0 <= i <= nodes.len(),
            first_named(nodes@, card_label@) == first_named(nodes@.skip(i as int), card_label@),
        decreases nodes.len() - i,
    {
        assert(nodes@.skip(i as int)[0] == nodes@[i as int]);
        assert(nodes@.skip(i as int).drop_first() =~= nodes@.skip(i + 1));
        if let Some(n) = &nodes[i].name {
            let t = trim_str(n.as_str());
            if str_eq(t.as_str(), card_label) {
                return Some(concat2("/dev/", nodes[i].entry.as_str()));
            }
        }
        i = i + 1;
    }
    None
}

/// A raw IPU6 capture or CSI2 node.
pub open spec fn is_raw_ipu6(n: VideoNode) -> bool {
    n.name matches Some(x) && (starts_with(x@, "Intel IPU6 ISYS Capture"@) || starts_with(
        x@,
        "Intel IPU6 CSI2"@,
    ))
}

/// An old browser-camera udev rule is present and has taken `uaccess` from
/// every raw IPU6 node, so the direct libcamera path cannot open them.
pub open spec fn rule_blocks(rule_exists: bool, nodes: Seq<VideoNode>) -> bool {
    &&& rule_exists
    &&& exists|i: int| 0 <= i < nodes.len() && is_raw_ipu6(#[trigger] nodes[i])
    &&& forall|i: int|
        0 <= i < nodes.len() && is_raw_ipu6(#[trigger] nodes[i]) ==> !(
        nodes[i].udev_properties matches Some(o) && has_uaccess(o@))
}

fn is_raw_ipu6_exec(n: &VideoNode) -> (b: bool)
    ensures
        b == is_raw_ipu6(*n),
{
    match &n.name {
        Some(x) => str_starts_with(x.as_str(), "Intel IPU6 ISYS Capture") || str_starts_with(
            x.as_str(),
            "Intel IPU6 CSI2",
        ),
        None => false,
    }
}

/// Whether `/etc/udev/rules.d/90-hide-ipu6-v4l2.rules` exists and every raw
/// IPU6 node among `/sys/class/video4linux` lost `uaccess`.
pub fn browser_camera_rule_blocks_libcamera(rule_exists: bool, nodes: &[VideoNode]) -> (r: bool)
    ensures
        r == rule_blocks(rule_exists, nodes@),
{
    if !rule_exists {
        return false;
    }
    let mut any_raw = false;
    let mut i: usize = 0;
    while i < nodes.len()
        invariant
            0 <= i <= nodes.len(),
            rule_exists,
            any_raw == (exists|j: int| 0 <= j < i && is_raw_ipu6(#[trigger] nodes@[j])),
            forall|j: int|
                0 <= j < i && is_raw_ipu6(#[trigger] nodes@[j]) ==> !(
                nodes@[j].udev_properties matches Some(o) && has_uaccess(o@)),
        decreases nodes.len() - i,
    {
        if is_raw_ipu6_exec(&nodes[i]) {
            any_raw = true;
            let access = crate::parse::video_device_has_uaccess(
                opt_as_str(&nodes[i].udev_properties),
            );
            if access {
                assert(is_raw_ipu6(nodes@[i as int]));
                return false;
            }
        }
        i = i + 1;
    }
    any_raw
}

// ---------------------------------------------------------------------------
// Browser camera bridge
// ---------------------------------------------------------------------------

/// What the system said about the V4L2 bridge.
#[derive(Clone, Debug, PartialEq, Eq)]
pub struct BridgeProbe {
    /// `systemctl is-active v4l2-relayd@icamerasrc.service` succeeded.
    pub relay_active: bool,
    /// What `systemctl is-enabled v4l2-relayd@icamerasrc.service` answered.
    pub relay_enabled: Option<String>,
    /// The virtual webcam's device node.
    pub loopback_device: Option<String>,
    /// `v4l2-ctl -D` on that device, where it succeeded.
    pub loopback_description: Option<String>,
}

/// The browser camera diagnostic.
pub open spec fn browser_camera_spec(
    missing: Seq<Seq<char>>,
    libcamera_detected: bool,
    camera_source_ready: bool,
    b: BridgeProbe,
) -> CheckView {
    let title = "Navegador e comunicadores"@;
    let device = opt_view(b.loopback_device);
    let capture = device is Some && (b.loopback_description matches Some(o) && contains(
        o@,
        "Video Capture"@,
    ));
    let enabled = opt_view(b.relay_enabled);
    if missing.len() > 0 {
        check(
            title,
            "Faltando pacotes do bridge V4L2: "@ + join(missing, ", "@),
            Health::Warning,
            "browser-packages-missing"@,
        )
    } else if b.relay_active && enabled == Some("enabled"@) && device is Some && capture {
        check(
            title,
            "Bridge V4L2 ativo em "@ + device->0
                + ". A webcam virtual já pode ser usada por Meet, Discord, Teams e outros apps."@,
            Health::Good,
            "browser-ready"@,
        )
    } else if b.relay_active && enabled == Some("enabled-runtime"@) && device is Some && capture {
        check(
            title,
            "Bridge ativo em "@ + device->0
                + ", mas só habilitado para a sessão atual. Ative novamente pela ação rápida para persistir após reboot."@,
            Health::Warning,
            "browser-runtime-only"@,
        )
    } else if b.relay_active && device is Some && capture {
        check(
            title,
            "Bridge ativo em "@ + device->0
                + ", mas o serviço ainda não está habilitado de forma persistente. Ative a câmera para navegador pela seção de ações rápidas."@,
            Health::Warning,
            "browser-service-not-persistent"@,
        )
    } else if !b.relay_active && device is Some && capture {
        check(
            title,
            "A webcam virtual existe em "@ + device->0
                + ", mas o relay está parado. Ative a câmera para navegador para manter Meet, Discord e outros apps funcionando de forma previsível."@,
            Health::Warning,
            "browser-relay-stopped"@,
        )
    } else if b.relay_active && device is Some && !capture {
        check(
            title,
            "O relay está ativo, mas "@ + device->0
                + " ainda não expôs um nó de captura utilizável. Reaplique a ação rápida da câmera para navegador."@,
            Health::Warning,
            "browser-device-not-capture"@,
        )
    } else if camera_source_ready {
        check(
            title,
            "A câmera já aparece nas fontes do sistema, mas a webcam virtual ainda não foi ativada. Use a ação rápida para expor a câmera como dispositivo V4L2 para Meet, Discord, Teams e outros apps WebRTC."@,
            Health::Warning,
            "browser-system-source-ready"@,
        )
    } else if libcamera_detected {
        check(
            title,
            "A câmera base já está funcional no libcamera, mas o bridge V4L2 para navegador ainda não foi ativado."@,
            Health::Warning,
            "browser-libcamera-ready"@,
        )
    } else {
        check(
            title,
            "O bridge V4L2 para navegador ainda não foi ativado e a câmera também não apareceu nas fontes do sistema. Use a ação rápida para configurar a webcam virtual e reavalie o estado da câmera base se o problema persistir."@,
            Health::Warning,
            "browser-missing"@,
        )
    }
}

/// Judges the V4L2 bridge that browsers and communication apps use.
pub fn detect_browser_camera_check(
    packages: &PackagePresence,
    libcamera_detected: bool,
    camera_source_ready: bool,
    bridge: &BridgeProbe,
) -> (r: CheckItem)
    ensures
        r@ == browser_camera_spec(
            views(packages.missing@),
            libcamera_detected,
            camera_source_ready,
            *bridge,
        ),
{
    let title = "Navegador e comunicadores";
    if packages.missing.len() > 0 {
        let list = join_strings(&packages.missing, ", ");
        return CheckItem {
            title,
            detail: concat2("Faltando pacotes do bridge V4L2: ", list.as_str()),
            health: Health::Warning,
            code: "browser-packages-missing",
        };
    }
    let capture = match &bridge.loopback_device {
        Some(_) => crate::parse::v4l2_device_supports_capture(
            opt_as_str(&bridge.loopback_description),
        ),
        None => false,
    };
    let (is_enabled, is_runtime) = match &bridge.relay_enabled {
        Some(s) => (str_eq(s.as_str(), "enabled"), str_eq(s.as_str(), "enabled-runtime")),
        None => (false, false),
    };
    let active = bridge.relay_active;
    if let Some(device) = &bridge.loopback_device {
        let d = device.as_str();
        if active && is_enabled && capture {
            return CheckItem {
                title,
                detail: concat3(
                    "Bridge V4L2 ativo em ",
                    d,
                    ". A webcam virtual já pode ser usada por Meet, Discord, Teams e outros apps.",
                ),
                health: Health::Good,
                code: "browser-ready",
            };
        }
        if active && is_runtime && capture {
            return CheckItem {
                title,
                detail: concat3(
                    "Bridge ativo em ",
                    d,
                    ", mas só habilitado para a sessão atual. Ative novamente pela ação rápida para persistir após reboot.",
                ),
                health: Health::Warning,
                code: "browser-runtime-only",
            };
        }
        if active && capture {
            return CheckItem {
                title,
                detail: concat3(
                    "Bridge ativo em ",
                    d,
                    ", mas o serviço ainda não está habilitado de forma persistente. Ative a câmera para navegador pela seção de ações rápidas.",
                ),
                health: Health::Warning,
                code: "browser-service-not-persistent",
            };
        }
        if !active && capture {
            return CheckItem {
                title,
                detail: concat3(
                    "A webcam virtual existe em ",
                    d,
                    ", mas o relay está parado. Ative a câmera para navegador para manter Meet, Discord e outros apps funcionando de forma previsível.",
                ),
                health: Health::Warning,
                code: "browser-relay-stopped",
            };
        }
        if active && !capture {
            return CheckItem {
                title,
                detail: concat3(
                    "O relay está ativo, mas ",
                    d,
                    " ainda não expôs um nó de captura utilizável. Reaplique a ação rápida da câmera para navegador.",
                ),
                health: Health::Warning,
                code: "browser-device-not-capture",
            };
        }
    }
    if camera_source_ready {
        return CheckItem {
            title,
            detail: owned(
                "A câmera já aparece nas fontes do sistema, mas a webcam virtual ainda não foi ativada. Use a ação rápida para expor a câmera como dispositivo V4L2 para Meet, Discord, Teams e outros apps WebRTC.",
            ),
            health: Health::Warning,
            code: "browser-system-source-ready",
        };
    }
    if libcamera_detected {
        return CheckItem {
            title,
            detail: owned(
                "A câmera base já está funcional no libcamera, mas o bridge V4L2 para navegador ainda não foi ativado.",
            ),
            health: Health::Warning,
            code: "browser-libcamera-ready",
        };
    }
    CheckItem {
        title,
        detail: owned(
            "O bridge V4L2 para navegador ainda não foi ativado e a câmera também não apareceu nas fontes do sistema. Use a ação rápida para configurar a webcam virtual e reavalie o estado da câmera base se o problema persistir.",
        ),
        health: Health::Warning,
        code: "browser-missing",
    }
}

// ---------------------------------------------------------------------------
// Internal speakers
// ---------------------------------------------------------------------------

/// What the system said about the MAX98390 speaker amplifiers.
#[derive(Clone, Debug, PartialEq, Eq)]
pub struct SpeakerProbe {
    /// Entry names under `/sys/bus/acpi/devices`.
    pub acpi_devices: Vec<String>,
    /// Contents of the `name` file of each entry under `/sys/bus/i2c/devices`,
    /// where it could be read.
    pub i2c_device_names: Vec<Option<String>>,
    /// `galaxybook-max98390-kmod-common` and `akmod-galaxybook-max98390`.
    pub packages: Vec<crate::model::PackageStatus>,
    /// Contents of `/proc/modules`, where it could be read.
    pub proc_modules: Option<String>,
    /// `modinfo -n snd-hda-scodec-max98390`, where it succeeded.
    pub core_module_path: Option<String>,
    /// `modinfo -n snd-hda-scodec-max98390-i2c`, where it succeeded.
    pub i2c_module_path: Option<String>,
    /// The `systemd-modules-load` journal of this boot, where it was read.
    pub modules_load_journal: Option<String>,
    /// `max98390-hda-i2c-setup.service` is active.
    pub setup_active: bool,
    /// What `systemctl is-enabled` answered for that service.
    pub setup_enabled: Option<String>,
}

/// ACPI or I2C exposes a MAX98390 amplifier.
pub open spec fn max98390_present(acpi: Seq<String>, i2c: Seq<Option<String>>) -> bool {
    ||| exists|i: int| 0 <= i < acpi.len() && starts_with((#[trigger] acpi[i])@, "MAX98390:"@)
    ||| exists|i: int| 0 <= i < i2c.len() && (#[trigger] i2c[i] matches Some(n) && contains(n@, "MAX98390"@))
}

/// Whether ACPI or I2C exposes a MAX98390 amplifier.
pub fn has_max98390_device(acpi: &[String], i2c: &[Option<String>]) -> (r: bool)
    ensures
        r == max98390_present(acpi@, i2c@),
{
    let mut i: usize = 0;
    while i < acpi.len()
        invariant
            0 <= i <= acpi.len(),
            forall|j: int| 0 <= j < i ==> !starts_with((#[trigger] acpi@[j])@, "MAX98390:"@),
        decreases acpi.len() - i,
    {
        if str_starts_with(acpi[i].as_str(), "MAX98390:") {
            assert(starts_with(acpi@[i as int]@, "MAX98390:"@));
            return true;
        }
        i = i + 1;
    }
    let mut k: usize = 0;
    while k < i2c.len()
        invariant
            0 <= k <= i2c.len(),
            forall|j: int| 0 <= j < acpi.len() ==> !starts_with((#[trigger] acpi@[j])@, "MAX98390:"@),
            forall|j: int|
                0 <= j < k ==> !(#[trigger] i2c@[j] matches Some(n) && contains(n@, "MAX98390"@)),
        decreases i2c.len() - k,
    {
        if let Some(n) = &i2c[k] {
            if str_contains(n.as_str(), "MAX98390") {
                assert(i2c@[k as int] matches Some(n) && contains(n@, "MAX98390"@));
                return true;
            }
        }
        k = k + 1;
    }
    false
}

/// The internal speakers diagnostic.
pub open spec fn speakers_spec(p: SpeakerProbe) -> CheckView {
    let title = "Alto-falantes internos"@;
    let missing = crate::model::names_with(p.packages@, false);
    let modules = opt_view(p.proc_modules);
    let core_loaded = modules matches Some(m) && module_listed(m, "snd_hda_scodec_max98390"@);
    let i2c_loaded = modules matches Some(m) && module_listed(m, "snd_hda_scodec_max98390_i2c"@);
    let indexed = p.core_module_path is Some && p.i2c_module_path is Some;
    let load_failure = p.modules_load_journal matches Some(j) && crate::parse::speaker_modules_missing(j@);
    let enabled = p.setup_enabled matches Some(s) && starts_with(s@, "enabled"@);
    if !max98390_present(p.acpi_devices@, p.i2c_device_names@) {
        check(
            title,
            "Este sistema não expôs amplificadores MAX98390 via ACPI ou I2C, então o setup não aplicou o fluxo específico dos alto-falantes Galaxy Book."@,
            Health::Unknown,
            "speakers-unsupported"@,
        )
    } else if missing.len() > 0 {
        check(
            title,
            "O hardware MAX98390 foi detectado, mas ainda faltam pacotes do suporte de speakers: "@
                + join(missing, ", "@),
            Health::Warning,
            "speakers-packages-missing"@,
        )
    } else if !indexed {
        check(
            title,
            if load_failure {
                "O suporte MAX98390 foi instalado, mas o kernel atual ainda não expõe os módulos snd-hda-scodec-max98390 e snd-hda-scodec-max98390-i2c. O boot já registrou falha ao procurar esses módulos, então o próximo passo é reconstruir e instalar manualmente o driver pela seção de ações rápidas."@
            } else {
                "O suporte MAX98390 foi instalado, mas o kernel atual ainda não expõe os módulos snd-hda-scodec-max98390 e snd-hda-scodec-max98390-i2c via modinfo. Reconstrua e instale manualmente o driver pela seção de ações rápidas antes de testar a saída Speaker novamente."@
            },
            Health::Error,
            "speakers-modules-missing"@,
        )
    } else if core_loaded && i2c_loaded && (p.setup_active || enabled) {
        check(
            title,
            "O suporte MAX98390 está instalado, os módulos dos amplificadores estão carregados e o serviço de I2C está pronto para o boot."@,
            Health::Good,
            "speakers-ready"@,
        )
    } else if core_loaded && i2c_loaded {
        check(
            title,
            "Os módulos MAX98390 estão carregados, mas o serviço que cria os dispositivos I2C no boot ainda não está ativo de forma persistente."@,
            Health::Warning,
            "speakers-service-disabled"@,
        )
    } else {
        check(
            title,
            "O hardware MAX98390 foi detectado, mas os módulos dos amplificadores ainda não estão carregados. Ative o suporte dos alto-falantes pela seção de ações rápidas."@,
            Health::Warning,
            "speakers-modules-unloaded"@,
        )
    }
}

/// Judges the internal speakers: hardware, packages, modules and the I2C
/// setup service.
pub fn detect_speakers_check(p: &SpeakerProbe) -> (r: CheckItem)
    ensures
        r@ == speakers_spec(*p),
{
    let title = "Alto-falantes internos";
    if !has_max98390_device(p.acpi_devices.as_slice(), p.i2c_device_names.as_slice()) {
        return CheckItem {
            title,
            detail: owned(
                "Este sistema não expôs amplificadores MAX98390 via ACPI ou I2C, então o setup não aplicou o fluxo específico dos alto-falantes Galaxy Book.",
            ),
            health: Health::Unknown,
            code: "speakers-unsupported",
        };
    }
    let packages = crate::model::package_presence(&p.packages);
    let modules = opt_as_str(&p.proc_modules);
    let core_loaded = crate::checks::module_loaded_opt(modules, "snd_hda_scodec_max98390");
    let i2c_loaded = crate::checks::module_loaded_opt(modules, "snd_hda_scodec_max98390_i2c");
    let indexed = p.core_module_path.is_some() && p.i2c_module_path.is_some();
    let load_failure = crate::parse::speaker_modules_missing_in_boot(
        opt_as_str(&p.modules_load_journal),
    );
    let enabled = match &p.setup_enabled {
        Some(s) => str_starts_with(s.as_str(), "enabled"),
        None => false,
    };
    if packages.missing.len() > 0 {
        let list = join_strings(&packages.missing, ", ");
        return CheckItem {
            title,
            detail: concat2(
                "O hardware MAX98390 foi detectado, mas ainda faltam pacotes do suporte de speakers: ",
                list.as_str(),
            ),
            health: Health::Warning,
            code: "speakers-packages-missing",
        };
    }
    if !indexed {
        let detail = if load_failure {
            owned(
                "O suporte MAX98390 foi instalado, mas o kernel atual ainda não expõe os módulos snd-hda-scodec-max98390 e snd-hda-scodec-max98390-i2c. O boot já registrou falha ao procurar esses módulos, então o próximo passo é reconstruir e instalar manualmente o driver pela seção de ações rápidas.",
            )
        } else {
            owned(
                "O suporte MAX98390 foi instalado, mas o kernel atual ainda não expõe os módulos snd-hda-scodec-max98390 e snd-hda-scodec-max98390-i2c via modinfo. Reconstrua e instale manualmente o driver pela seção de ações rápidas antes de testar a saída Speaker novamente.",
            )
        };
        return CheckItem { title, detail, health: Health::Error, code: "speakers-modules-missing" };
    }
    if core_loaded && i2c_loaded && (p.setup_active || enabled) {
        return CheckItem {
            title,
            detail: owned(
                "O suporte MAX98390 está instalado, os módulos dos amplificadores estão carregados e o serviço de I2C está pronto para o boot.",
            ),
            health: Health::Good,
            code: "speakers-ready",
        };
    }
    if core_loaded && i2c_loaded {
        return CheckItem {
            title,
            detail: owned(
                "Os módulos MAX98390 estão carregados, mas o serviço que cria os dispositivos I2C no boot ainda não está ativo de forma persistente.",
            ),
            health: Health::Warning,
            code: "speakers-service-disabled",
        };
    }
    CheckItem {
        title,
        detail: owned(
            "O hardware MAX98390 foi detectado, mas os módulos dos amplificadores ainda não estão carregados. Ative o suporte dos alto-falantes pela seção de ações rápidas.",
        ),
        health: Health::Warning,
        code: "speakers-modules-unloaded",
    }
}

// ---------------------------------------------------------------------------
// Sound app
// ---------------------------------------------------------------------------

/// The Galaxy Book Sound diagnostic.
pub open spec fn sound_app_spec(installed: bool) -> CheckView {
    if installed {
        check(
            "Galaxy Book Sound"@,
            "O painel de som está instalado e pronto para equalizador, perfis e Atmos compatível via PipeWire."@,
            Health::Good,
            "sound-app-ready"@,
        )
    } else {
        check(
            "Galaxy Book Sound"@,
            "O painel de som ainda não está instalado. Use-o para equalizador, perfis prontos e Atmos compatível depois que o MAX98390 estiver funcional."@,
            Health::Unknown,
            "sound-app-missing"@,
        )
    }
}

/// Judges whether the Galaxy Book Sound panel is installed.
pub fn detect_sound_app_check(sound_app_installed: bool) -> (r: CheckItem)
    ensures
        r@ == sound_app_spec(sound_app_installed),
{
    if sound_app_installed {
        CheckItem {
            title: "Galaxy Book Sound",
            detail: owned(
                "O painel de som está instalado e pronto para equalizador, perfis e Atmos compatível via PipeWire.",
            ),
            health: Health::Good,
            code: "sound-app-ready",
        }
    } else {
        CheckItem {
            title: "Galaxy Book Sound",
            detail: owned(
                "O painel de som ainda não está instalado. Use-o para equalizador, perfis prontos e Atmos compatível depois que o MAX98390 estiver funcional.",
            ),
            health: Health::Unknown,
            code: "sound-app-missing",
        }
    }
}

// ---------------------------------------------------------------------------
// Fingerprint
// ---------------------------------------------------------------------------

/// What the system said about the fingerprint stack.
#[derive(Clone, Debug, PartialEq, Eq)]
pub struct FingerprintProbe {
    /// `fprintd` and `libfprint`.
    pub packages: Vec<crate::model::PackageStatus>,
    /// `lsusb`, where it succeeded.
    pub lsusb: Option<String>,
    /// `authselect current`, where it succeeded.
    pub authselect: Option<String>,
    /// `fprintd-list` for the current user, where there is one and it
    /// succeeded.
    pub fprintd_list: Option<String>,
}

/// What the fingerprint checks decide on.
#[derive(Clone, Debug, PartialEq, Eq)]
pub struct FingerprintContext {
    pub sensor_line: Option<String>,
    pub missing_packages: Vec<String>,
    pub authselect_enabled: bool,
    pub list_state: FingerprintEnrollmentState,
}

/// The `lsusb` patterns of the supported fingerprint sensors.
pub open spec fn sensor_patterns() -> Seq<Seq<char>> {
    seq!["1c7a:05a1"@, "LighTuning Technology Inc. ETU905A80-E"@, "Egis"@, "LighTuning"@]
}

/// The `lsusb` patterns of the supported fingerprint sensors.
pub fn fingerprint_sensor_patterns() -> (r: Vec<&'static str>)
    ensures
        str_views(r@) == sensor_patterns(),
{
    let r = vec!["1c7a:05a1", "LighTuning Technology Inc. ETU905A80-E", "Egis", "LighTuning"];
    assert(str_views(r@) =~= sensor_patterns());
    r
}

/// The `lsusb` line of the fingerprint sensor, where there is one.
pub fn detect_fingerprint_sensor_line(lsusb: Option<&str>) -> (r: Option<String>)
    ensures
        opt_view(r) == match opt_str_view(lsusb) {
            Some(o) => first_matching_line(o, sensor_patterns()),
            None => None,
        },
{
    match lsusb {
        Some(o) => {
            let patterns = fingerprint_sensor_patterns();
            let r = crate::parse::extract_first_matching_line(o, &patterns);
            r
        },
        None => None,
    }
}

/// Gathers what the fingerprint checks need from the probe.
pub fn collect_fingerprint_context(p: &FingerprintProbe) -> (r: FingerprintContext)
    ensures
        opt_view(r.sensor_line) == match opt_view(p.lsusb) {
            Some(o) => first_matching_line(o, sensor_patterns()),
            None => None,
        },
        views(r.missing_packages@) == crate::model::names_with(p.packages@, false),
        r.authselect_enabled == (p.authselect matches Some(a)
            && crate::parse::authselect_lists_fingerprint(a@)),
        r.list_state == match p.fprintd_list {
            Some(l) => enrollment_state(l@),
            None => FingerprintEnrollmentState::Unavailable,
        },
{
    let packages = crate::model::package_presence(&p.packages);
    let sensor_line = detect_fingerprint_sensor_line(opt_as_str(&p.lsusb));
    let authselect_enabled = match &p.authselect {
        Some(a) => crate::parse::authselect_has_fingerprint(a.as_str()),
        None => false,
    };
    let list_state = match &p.fprintd_list {
        Some(l) => crate::parse::fingerprint_enrollment_state(l.as_str()),
        None => FingerprintEnrollmentState::Unavailable,
    };
    FingerprintContext {
        sensor_line,
        missing_packages: packages.missing,
        authselect_enabled,
        list_state,
    }
}

/// The fingerprint reader diagnostic.
pub open spec fn fingerprint_reader_spec(
    sensor: Option<Seq<char>>,
    missing: Seq<Seq<char>>,
    state: FingerprintEnrollmentState,
) -> CheckView {
    let title = "Leitor de digital"@;
    match sensor {
        None => check(
            title,
            "Nenhum leitor de digital compatível foi detectado via lsusb neste boot. Em modelos sem sensor integrado, esse estado é esperado."@,
            Health::Unknown,
            "fingerprint-reader-missing"@,
        ),
        Some(s) => if missing.len() > 0 {
            check(
                title,
                "Sensor detectado em "@ + s + ", mas o stack ainda está incompleto. Faltam pacotes: "@
                    + join(missing, ", "@),
                Health::Warning,
                "fingerprint-stack-missing"@,
            )
        } else {
            match state {
                FingerprintEnrollmentState::Enrolled | FingerprintEnrollmentState::NotEnrolled => check(
                    title,
                    "Sensor detectado em "@ + s
                        + ". O stack fprintd/libfprint respondeu normalmente para o usuário atual."@,
                    Health::Good,
                    "fingerprint-reader-ready"@,
                ),
                FingerprintEnrollmentState::Busy => check(
                    title,
                    "Sensor detectado em "@ + s
                        + ", mas o leitor respondeu como ocupado. Reaplique o stack antes de tentar um novo cadastro."@,
                    Health::Warning,
                    "fingerprint-reader-busy"@,
                ),
                FingerprintEnrollmentState::NoDevice => check(
                    title,
                    "Sensor detectado em "@ + s
                        + ", mas o fprintd não expôs um dispositivo utilizável nesta sessão."@,
                    Health::Warning,
                    "fingerprint-reader-no-device"@,
                ),
                FingerprintEnrollmentState::Unavailable => check(
                    title,
                    "Sensor detectado em "@ + s
                        + ", mas o setup não conseguiu validar a resposta do fprintd nesta sessão."@,
                    Health::Warning,
                    "fingerprint-reader-unavailable"@,
                ),
            }
        },
    }
}

/// Judges the fingerprint reader.
pub fn detect_fingerprint_reader_check(context: &FingerprintContext) -> (r: CheckItem)
    ensures
        r@ == fingerprint_reader_spec(
            opt_view(context.sensor_line),
            views(context.missing_packages@),
            context.list_state,
        ),
{
    let title = "Leitor de digital";
    let sensor_line = match &context.sensor_line {
        Some(s) => s.as_str(),
        None => {
            return CheckItem {
                title,
                detail: owned(
                    "Nenhum leitor de digital compatível foi detectado via lsusb neste boot. Em modelos sem sensor integrado, esse estado é esperado.",
                ),
                health: Health::Unknown,
                code: "fingerprint-reader-missing",
            };
        },
    };
    if context.missing_packages.len() > 0 {
        let list = join_strings(&context.missing_packages, ", ");
        let mut d = concat3(
            "Sensor detectado em ",
            sensor_line,
            ", mas o stack ainda está incompleto. Faltam pacotes: ",
        );
        d.append(list.as_str());
        return CheckItem { title, detail: d, health: Health::Warning, code: "fingerprint-stack-missing" };
    }
    match context.list_state {
        FingerprintEnrollmentState::Enrolled | FingerprintEnrollmentState::NotEnrolled => CheckItem {
            title,
            detail: concat3(
                "Sensor detectado em ",
                sensor_line,
                ". O stack fprintd/libfprint respondeu normalmente para o usuário atual.",
            ),
            health: Health::Good,
            code: "fingerprint-reader-ready",
        },
        FingerprintEnrollmentState::Busy => CheckItem {
            title,
            detail: concat3(
                "Sensor detectado em ",
                sensor_line,
                ", mas o leitor respondeu como ocupado. Reaplique o stack antes de tentar um novo cadastro.",
            ),
            health: Health::Warning,
            code: "fingerprint-reader-busy",
        },
        FingerprintEnrollmentState::NoDevice => CheckItem {
            title,
            detail: concat3(
                "Sensor detectado em ",
                sensor_line,
                ", mas o fprintd não expôs um dispositivo utilizável nesta sessão.",
            ),
            health: Health::Warning,
            code: "fingerprint-reader-no-device",
        },
        FingerprintEnrollmentState::Unavailable => CheckItem {
            title,
            detail: concat3(
                "Sensor detectado em ",
                sensor_line,
                ", mas o setup não conseguiu validar a resposta do fprintd nesta sessão.",
            ),
            health: Health::Warning,
            code: "fingerprint-reader-unavailable",
        },
    }
}

/// The fingerprint login diagnostic.
pub open spec fn fingerprint_login_spec(
    sensor_present: bool,
    stack_complete: bool,
    authselect_enabled: bool,
    state: FingerprintEnrollmentState,
) -> CheckView {
    let title = "Login por digital"@;
    if !sensor_present {
        check(
            title,
            "Sem leitor de digital detectado neste boot, o setup não avaliou cadastro nem integração com authselect."@,
            Health::Unknown,
            "fingerprint-login-unavailable"@,
        )
    } else if !stack_complete {
        check(
            title,
            "O leitor foi detectado, mas o stack de fingerprint ainda não está completo. Reinstale fprintd/libfprint antes de validar cadastro e login."@,
            Health::Warning,
            "fingerprint-login-stack-missing"@,
        )
    } else {
        match (authselect_enabled, state) {
            (true, FingerprintEnrollmentState::Enrolled) => check(
                title,
                "Authselect já está com with-fingerprint ativo e o usuário atual tem pelo menos uma digital cadastrada."@,
                Health::Good,
                "fingerprint-login-ready"@,
            ),
            (true, FingerprintEnrollmentState::NotEnrolled) => check(
                title,
                "O stack já responde e o authselect está pronto, mas o usuário atual ainda não cadastrou nenhuma digital."@,
                Health::Warning,
                "fingerprint-enrollment-missing"@,
            ),
            (false, FingerprintEnrollmentState::Enrolled) => check(
                title,
                "Há digital cadastrada para o usuário atual, mas o authselect ainda não está com with-fingerprint habilitado."@,
                Health::Warning,
                "fingerprint-auth-disabled"@,
            ),
            (false, FingerprintEnrollmentState::NotEnrolled) => check(
                title,
                "O leitor já responde, mas ainda faltam dois passos: habilitar with-fingerprint no authselect e cadastrar a digital do usuário atual."@,
                Health::Warning,
                "fingerprint-auth-and-enrollment-missing"@,
            ),
            (_, FingerprintEnrollmentState::Busy) => check(
                title,
                "O leitor respondeu como ocupado. Reaplique o stack e depois abra o cadastro de usuários para refazer a digital com o sensor liberado."@,
                Health::Warning,
                "fingerprint-login-busy"@,
            ),
            (_, FingerprintEnrollmentState::NoDevice) => check(
                title,
                "O sensor apareceu no USB, mas o fprintd não expôs um dispositivo utilizável para validar cadastro e autenticação nesta sessão."@,
                Health::Warning,
                "fingerprint-login-no-device"@,
            ),
            (_, FingerprintEnrollmentState::Unavailable) => check(
                title,
                "O leitor foi detectado, mas o setup não conseguiu validar cadastro e authselect nesta sessão."@,
                Health::Unknown,
                "fingerprint-login-unavailable"@,
            ),
        }
    }
}

/// Judges whether fingerprint login is ready.
pub fn detect_fingerprint_login_check(context: &FingerprintContext) -> (r: CheckItem)
    ensures
        r@ == fingerprint_login_spec(
            context.sensor_line is Some,
            context.missing_packages@.len() == 0,
            context.authselect_enabled,
            context.list_state,
        ),
{
    let title = "Login por digital";
    if context.sensor_line.is_none() {
        return CheckItem {
            title,
            detail: owned(
                "Sem leitor de digital detectado neste boot, o setup não avaliou cadastro nem integração com authselect.",
            ),
            health: Health::Unknown,
            code: "fingerprint-login-unavailable",
        };
    }
    if context.missing_packages.len() > 0 {
        return CheckItem {
            title,
            detail: owned(
                "O leitor foi detectado, mas o stack de fingerprint ainda não está completo. Reinstale fprintd/libfprint antes de validar cadastro e login.",
            ),
            health: Health::Warning,
            code: "fingerprint-login-stack-missing",
        };
    }
    match (context.authselect_enabled, context.list_state) {
        (true, FingerprintEnrollmentState::Enrolled) => CheckItem {
            title,
            detail: owned(
                "Authselect já está com with-fingerprint ativo e o usuário atual tem pelo menos uma digital cadastrada.",
            ),
            health: Health::Good,
            code: "fingerprint-login-ready",
        },
        (true, FingerprintEnrollmentState::NotEnrolled) => CheckItem {
            title,
            detail: owned(
                "O stack já responde e o authselect está pronto, mas o usuário atual ainda não cadastrou nenhuma digital.",
            ),
            health: Health::Warning,
            code: "fingerprint-enrollment-missing",
        },
        (false, FingerprintEnrollmentState::Enrolled) => CheckItem {
            title,
            detail: owned(
                "Há digital cadastrada para o usuário atual, mas o authselect ainda não está com with-fingerprint habilitado.",
            ),
            health: Health::Warning,
            code: "fingerprint-auth-disabled",
        },
        (false, FingerprintEnrollmentState::NotEnrolled) => CheckItem {
            title,
            detail: owned(
                "O leitor já responde, mas ainda faltam dois passos: habilitar with-fingerprint no authselect e cadastrar a digital do usuário atual.",
            ),
            health: Health::Warning,
            code: "fingerprint-auth-and-enrollment-missing",
        },
        (_, FingerprintEnrollmentState::Busy) => CheckItem {
            title,
            detail: owned(
                "O leitor respondeu como ocupado. Reaplique o stack e depois abra o cadastro de usuários para refazer a digital com o sensor liberado.",
            ),
            health: Health::Warning,
            code: "fingerprint-login-busy",
        },
        (_, FingerprintEnrollmentState::NoDevice) => CheckItem {
            title,
            detail: owned(
                "O sensor apareceu no USB, mas o fprintd não expôs um dispositivo utilizável para validar cadastro e autenticação nesta sessão.",
            ),
            health: Health::Warning,
            code: "fingerprint-login-no-device",
        },
        (_, FingerprintEnrollmentState::Unavailable) => CheckItem {
            title,
            detail: owned(
                "O leitor foi detectado, mas o setup não conseguiu validar cadastro e authselect nesta sessão.",
            ),
            health: Health::Unknown,
            code: "fingerprint-login-unavailable",
        },
    }
}

} // verus!
