//! The shell commands behind the quick actions, and the ones the setup
//! builds for GNOME extensions, the dock profile and package updates.
use vstd::prelude::*;

use crate::checks::{dock_profile, dash_to_dock_profile_settings, DockSetting, DASH_TO_DOCK_EXTENSION_ID};
use crate::model::owned;
use crate::text::{join, str_views};

verus! {

/// Application id of the setup app.
pub const APP_ID: &'static str = "com.caioregis.GalaxyBookSetup";

/// Display name of the setup app.
pub const APP_NAME: &'static str = "Galaxy Book Setup";

/// Desktop id of the Galaxy Book Camera app.
pub const CAMERA_APP_DESKTOP_ID: &'static str = "com.caioregis.GalaxyBookCamera.desktop";

/// Desktop id of the Galaxy Book Sound app.
pub const SOUND_APP_DESKTOP_ID: &'static str = "com.caioregis.GalaxyBookSound.desktop";

/// Public half of the akmods signing key.
pub const AKMODS_PUBLIC_KEY_PATH: &'static str = "/etc/pki/akmods/certs/public_key.der";

/// Private half of the akmods signing key.
pub const AKMODS_PRIVATE_KEY_PATH: &'static str = "/etc/pki/akmods/private/private_key.priv";

/// libcamera tuning file shipped by the camera app.
pub const CAMERA_APP_TUNING_FILE: &'static str = "/usr/share/galaxybook-camera/libcamera/simple/ov02c10.yaml";

/// Installs the camera app, the OV02C10 driver and MAX98390 support.
pub const INSTALL_MAIN_SUPPORT_COMMAND: &'static str = "dnf install -y galaxybook-camera galaxybook-ov02c10-kmod-common akmod-galaxybook-ov02c10 galaxybook-max98390-kmod-common akmod-galaxybook-max98390 i2c-tools";

/// Installs the camera driver and app.
pub const INSTALL_CAMERA_COMMAND: &'static str = "dnf install -y galaxybook-ov02c10-kmod-common akmod-galaxybook-ov02c10 galaxybook-camera";

/// Installs Galaxy Book Sound.
pub const INSTALL_SOUND_APP_COMMAND: &'static str = "dnf install -y galaxybook-sound";

/// Rebuilds the camera module with akmods.
pub const REPAIR_CAMERA_COMMAND: &'static str = r#"akmods --force --akmod galaxybook-ov02c10 --kernels "$(uname -r)" && depmod -a"#;

/// Loads `ov02c10` at boot and now.
pub const ENABLE_CAMERA_MODULE_COMMAND: &'static str = r#"set -euo pipefail
install -d /etc/modules-load.d /etc/modprobe.d
cat > /etc/modules-load.d/galaxybook-ov02c10.conf <<'EOF'
ov02c10
EOF
cat > /etc/modprobe.d/galaxybook-ov02c10.conf <<'EOF'
softdep intel_ipu6_isys pre: ov02c10
EOF
akmods_key_enrolled() {
  local test_output
  if test_output="$(mokutil --test-key /etc/pki/akmods/certs/public_key.der 2>&1)"; then
    return 0
  fi
  printf '%s' "$test_output" | grep -qi 'already enrolled'
}
module_path="$(modinfo -n ov02c10 2>/dev/null || true)"
secure_boot_state="$(mokutil --sb-state 2>/dev/null || true)"
if printf '%s' "$secure_boot_state" | grep -qi 'enabled' \
  && printf '%s' "$module_path" | grep -Eq '/(updates|extra)/' \
  && [ -r /etc/pki/akmods/certs/public_key.der ] \
  && ! akmods_key_enrolled; then
  echo "Secure Boot está ativo, mas a chave do akmods ainda não foi inscrita no MOK. Execute 'sudo mokutil --import /etc/pki/akmods/certs/public_key.der', defina a senha, reinicie e conclua 'Enroll MOK' antes de tentar carregar o módulo novamente." >&2
  exit 1
fi
modprobe ov02c10
lsmod | grep '^ov02c10 '
"#;

/// Builds, signs and installs the fixed camera module under `updates/`.
pub const FORCE_CAMERA_DRIVER_COMMAND: &'static str = r#"set -euo pipefail
kernel="$(uname -r)"
workdir="$(mktemp -d)"
cleanup() {
  rm -rf "$workdir"
}
trap cleanup EXIT

ensure_akmods_secure_boot_ready() {
  if [ ! -r /etc/pki/akmods/private/private_key.priv ] || [ ! -r /etc/pki/akmods/certs/public_key.der ]; then
    echo "Secure Boot está ativo, mas a chave do akmods não está disponível para assinar o módulo." >&2
    exit 1
  fi

  local test_output
  if test_output="$(mokutil --test-key /etc/pki/akmods/certs/public_key.der 2>&1)"; then
    return 0
  fi

  if ! printf '%s' "$test_output" | grep -qi 'already enrolled'; then
    echo "Secure Boot está ativo, mas a chave do akmods ainda não foi inscrita no MOK. Execute 'sudo mokutil --import /etc/pki/akmods/certs/public_key.der', defina a senha, reinicie e conclua 'Enroll MOK' antes de tentar carregar o módulo novamente." >&2
    exit 1
  fi
}

akmods --force --akmod galaxybook-ov02c10 --kernels "$kernel"

source_rpm="$(readlink -f /usr/src/akmods/galaxybook-ov02c10-kmod.latest)"
if [ ! -f "$source_rpm" ]; then
  echo "O source RPM do akmod não foi encontrado em /usr/src/akmods." >&2
  exit 1
fi

if [ ! -d "/usr/src/kernels/$kernel" ]; then
  echo "Os headers do kernel atual não estão instalados: /usr/src/kernels/$kernel" >&2
  exit 1
fi

rpm2cpio "$source_rpm" | (cd "$workdir" && cpio -idm --quiet)
archive="$(find "$workdir" -maxdepth 1 -name 'galaxybook-ov02c10-kmod-*.tar.gz' | head -n1)"
if [ -z "$archive" ]; then
  echo "Não foi possível localizar o tarball do driver dentro do source RPM." >&2
  exit 1
fi

tar -C "$workdir" -xf "$archive"
srcdir="$(find "$workdir" -maxdepth 1 -mindepth 1 -type d -name 'galaxybook-ov02c10-kmod-*' | head -n1)"
if [ -z "$srcdir" ]; then
  echo "Não foi possível extrair a árvore do driver corrigido." >&2
  exit 1
fi

make -C "/usr/src/kernels/$kernel" M="$srcdir/module" modules
install -d "/lib/modules/$kernel/updates"
rm -f \
  "/lib/modules/$kernel/updates/ov02c10.ko" \
  "/lib/modules/$kernel/updates/ov02c10.ko.xz"

secure_boot_state="$(mokutil --sb-state 2>/dev/null || true)"
if printf '%s' "$secure_boot_state" | grep -qi 'enabled'; then
  ensure_akmods_secure_boot_ready
  sign_file="/usr/src/kernels/$kernel/scripts/sign-file"
  if [ ! -x "$sign_file" ]; then
    sign_file="/lib/modules/$kernel/build/scripts/sign-file"
  fi

  if [ ! -x "$sign_file" ]; then
    echo "O utilitário sign-file do kernel não foi encontrado para $kernel." >&2
    exit 1
  fi

  "$sign_file" sha256 \
    /etc/pki/akmods/private/private_key.priv \
    /etc/pki/akmods/certs/public_key.der \
    "$srcdir/module/ov02c10.ko"
fi

install -m 0644 "$srcdir/module/ov02c10.ko" "/lib/modules/$kernel/updates/ov02c10.ko"
if command -v restorecon >/dev/null 2>&1; then
  restorecon "/lib/modules/$kernel/updates/ov02c10.ko" || true
fi
depmod -a "$kernel"

if lsmod | grep -q '^ov02c10 '; then
  modprobe -r ov02c10 || true
fi
modprobe ov02c10
lsmod | grep '^ov02c10 '
modinfo -n ov02c10
modinfo -F signer "/lib/modules/$kernel/updates/ov02c10.ko" || true
"#;

/// Restores the packaged Intel IPU6 stack.
pub const RESTORE_INTEL_CAMERA_COMMAND: &'static str = r#"set -euo pipefail
kernel="$(uname -r)"

dnf install -y \
  akmod-intel-ipu6 \
  ipu6-camera-bins \
  ipu6-camera-hal \
  gstreamer1-plugins-icamerasrc \
  libcamera \
  libcamera-ipa \
  libcamera-v4l2 \
  pipewire-plugin-libcamera

rm -f \
  "/lib/modules/$kernel/updates/ov02c10.ko" \
  "/lib/modules/$kernel/updates/ov02c10.ko.xz"

akmods --force --akmod intel-ipu6 --kernels "$kernel" || true
depmod -a "$kernel"

if lsmod | grep -q '^ov02c10 '; then
  modprobe -r ov02c10 || true
fi
modprobe ov02c10
lsmod | grep '^ov02c10 '
modinfo -n ov02c10
"#;

/// Sets up the V4L2 bridge for browsers.
pub const ENABLE_BROWSER_CAMERA_COMMAND: &'static str = r#"set -euo pipefail
dnf install -y \
  v4l2-relayd \
  v4l2loopback \
  gstreamer1-plugins-icamerasrc \
  v4l-utils

install -d /etc/v4l2-relayd.d /etc/modprobe.d /etc/wireplumber/wireplumber.conf.d
cat > /etc/v4l2-relayd.d/icamerasrc.conf <<'EOF'
VIDEOSRC="icamerasrc"
FORMAT=NV12
WIDTH=1280
HEIGHT=720
FRAMERATE=30/1
CARD_LABEL="Intel MIPI Camera"
EOF

cat > /etc/modprobe.d/galaxybook-v4l2loopback.conf <<'EOF'
options v4l2loopback exclusive_caps=1 card_label="Intel MIPI Camera"
EOF

rm -f /etc/udev/rules.d/90-hide-ipu6-v4l2.rules

cat > /etc/wireplumber/wireplumber.conf.d/50-disable-ipu6-v4l2.conf <<'EOF'
monitor.v4l2.rules = [
  {
    matches = [
      { node.name = "~v4l2_input.pci-0000_00_05*" }
    ]
    actions = {
      update-props = {
        node.disabled = true
      }
    }
  }
]
EOF

udevadm control --reload-rules || true
udevadm trigger --action=change --subsystem-match=video4linux || true

systemctl stop v4l2-relayd@icamerasrc.service || true
modprobe -r v4l2loopback || true
modprobe v4l2loopback || true
udevadm settle || true

systemctl enable --now v4l2-relayd.service
systemctl enable --now v4l2-relayd@icamerasrc.service
systemctl restart v4l2-relayd@icamerasrc.service

device="$(grep -l -m1 -E '^Intel MIPI Camera$' /sys/devices/virtual/video4linux/*/name 2>/dev/null | xargs -r basename || true)"
if [ -n "$device" ] && command -v v4l2-ctl >/dev/null 2>&1; then
  v4l2-ctl -D -d "/dev/$device" || true
fi

echo "O bridge V4L2 foi configurado e qualquer regra antiga que removia o acesso direto do libcamera aos nós crus do IPU6 foi descartada. Faça logout/login ou reinicie a sessão se a lista de câmeras ainda não refletir o novo estado."
"#;

/// Builds, signs and installs the MAX98390 speaker modules.
pub const ENABLE_SPEAKER_COMMAND: &'static str = r#"set -euo pipefail
kernel="$(uname -r)"
workdir="$(mktemp -d)"
cleanup() {
  rm -rf "$workdir"
}
trap cleanup EXIT

ensure_akmods_secure_boot_ready() {
  if [ ! -r /etc/pki/akmods/private/private_key.priv ] || [ ! -r /etc/pki/akmods/certs/public_key.der ]; then
    echo "Secure Boot está ativo, mas a chave do akmods não está disponível para assinar os módulos MAX98390." >&2
    exit 1
  fi

  local test_output
  if test_output="$(mokutil --test-key /etc/pki/akmods/certs/public_key.der 2>&1)"; then
    return 0
  fi

  if ! printf '%s' "$test_output" | grep -qi 'already enrolled'; then
    echo "Secure Boot está ativo, mas a chave do akmods ainda não foi inscrita no MOK. Execute 'sudo mokutil --import /etc/pki/akmods/certs/public_key.der', defina a senha, reinicie e conclua 'Enroll MOK' antes de tentar carregar os módulos MAX98390 novamente." >&2
    exit 1
  fi
}

dnf install -y \
  galaxybook-max98390-kmod-common \
  akmod-galaxybook-max98390 \
  i2c-tools

akmods --force --akmod galaxybook-max98390 --kernels "$kernel"

source_rpm="$(readlink -f /usr/src/akmods/galaxybook-max98390-kmod.latest)"
if [ ! -f "$source_rpm" ]; then
  echo "O source RPM do suporte MAX98390 não foi encontrado em /usr/src/akmods." >&2
  exit 1
fi

if [ ! -d "/usr/src/kernels/$kernel" ]; then
  echo "Os headers do kernel atual não estão instalados: /usr/src/kernels/$kernel" >&2
  exit 1
fi

rpm2cpio "$source_rpm" | (cd "$workdir" && cpio -idm --quiet)
archive="$(find "$workdir" -maxdepth 1 -name 'galaxybook-max98390-kmod-*.tar.gz' | head -n1)"
if [ -z "$archive" ]; then
  echo "Não foi possível localizar o tarball do suporte MAX98390 dentro do source RPM." >&2
  exit 1
fi

tar -C "$workdir" -xf "$archive"
srcdir="$(find "$workdir" -maxdepth 1 -mindepth 1 -type d -name 'galaxybook-max98390-kmod-*' | head -n1)"
if [ -z "$srcdir" ]; then
  echo "Não foi possível extrair a árvore do suporte MAX98390." >&2
  exit 1
fi

make -C "/usr/src/kernels/$kernel" M="$srcdir/module" modules

updates_dir="/lib/modules/$kernel/updates/sound/hda/codecs/side-codecs"
install -d "$updates_dir"
rm -f \
  "$updates_dir/snd-hda-scodec-max98390.ko" \
  "$updates_dir/snd-hda-scodec-max98390.ko.xz" \
  "$updates_dir/snd-hda-scodec-max98390-i2c.ko" \
  "$updates_dir/snd-hda-scodec-max98390-i2c.ko.xz"

secure_boot_state="$(mokutil --sb-state 2>/dev/null || true)"
if printf '%s' "$secure_boot_state" | grep -qi 'enabled'; then
  ensure_akmods_secure_boot_ready
  sign_file="/usr/src/kernels/$kernel/scripts/sign-file"
  if [ ! -x "$sign_file" ]; then
    sign_file="/lib/modules/$kernel/build/scripts/sign-file"
  fi

  if [ ! -x "$sign_file" ]; then
    echo "O utilitário sign-file do kernel não foi encontrado para $kernel." >&2
    exit 1
  fi

  "$sign_file" sha256 \
    /etc/pki/akmods/private/private_key.priv \
    /etc/pki/akmods/certs/public_key.der \
    "$srcdir/module/snd-hda-scodec-max98390.ko"
  "$sign_file" sha256 \
    /etc/pki/akmods/private/private_key.priv \
    /etc/pki/akmods/certs/public_key.der \
    "$srcdir/module/snd-hda-scodec-max98390-i2c.ko"
fi

install -m 0644 "$srcdir/module/snd-hda-scodec-max98390.ko" \
  "$updates_dir/snd-hda-scodec-max98390.ko"
install -m 0644 "$srcdir/module/snd-hda-scodec-max98390-i2c.ko" \
  "$updates_dir/snd-hda-scodec-max98390-i2c.ko"

if command -v restorecon >/dev/null 2>&1; then
  restorecon "$updates_dir/snd-hda-scodec-max98390.ko" || true
  restorecon "$updates_dir/snd-hda-scodec-max98390-i2c.ko" || true
fi

depmod -a "$kernel"

modprobe snd-hda-scodec-max98390
modprobe snd-hda-scodec-max98390-i2c

systemctl enable max98390-hda-i2c-setup.service
systemctl enable max98390-hda-check-upstream.service || true
systemctl start max98390-hda-i2c-setup.service
systemctl start max98390-hda-check-upstream.service || true

lsmod | grep '^snd_hda_scodec_max98390' || true
modinfo -n snd-hda-scodec-max98390
modinfo -n snd-hda-scodec-max98390-i2c
"#;

/// Generates the akmods key and requests its MOK enrollment.
pub const PREPARE_SECURE_BOOT_KEY_COMMAND: &'static str = r#"set -euo pipefail
public_key="/etc/pki/akmods/certs/public_key.der"
private_key="/etc/pki/akmods/private/private_key.priv"

if ! command -v mokutil >/dev/null 2>&1; then
  echo "O utilitário mokutil não está disponível neste sistema." >&2
  exit 1
fi

if ! command -v kmodgenca >/dev/null 2>&1; then
  echo "O utilitário kmodgenca não está disponível neste sistema." >&2
  exit 1
fi

install -d /etc/pki/akmods/certs /etc/pki/akmods/private

if [ ! -r "$public_key" ] || [ ! -r "$private_key" ]; then
  kmodgenca -a -f
fi

if [ ! -r "$public_key" ] || [ ! -r "$private_key" ]; then
  echo "Não foi possível gerar a chave local do akmods." >&2
  exit 1
fi

test_output=""
if test_output="$(mokutil --test-key "$public_key" 2>&1)" \
  || printf '%s' "$test_output" | grep -qi 'already enrolled'; then
  echo "A chave do akmods já está inscrita no MOK." >&2
  exit 0
fi

hash_file="$(mktemp)"
cleanup() {
  rm -f "$hash_file"
}
trap cleanup EXIT
chmod 600 "$hash_file"

mokutil --generate-hash | tail -n1 > "$hash_file"
mokutil --import "$public_key" --hash-file "$hash_file"

if mokutil --list-new 2>/dev/null | grep -q .; then
  echo "O pedido de importação da chave do akmods foi criado. Reinicie o notebook e conclua 'Enroll MOK' na tela azul do boot usando a senha definida nesta etapa."
else
  echo "A chave do akmods foi preparada, mas o mokutil não listou nenhum pedido pendente. Revise a saída acima antes de continuar." >&2
fi
"#;

/// Installs or rebuilds the NVIDIA driver.
pub const REPAIR_NVIDIA_COMMAND: &'static str = r#"dnf install -y akmod-nvidia && akmods --force --kernels "$(uname -r)" && depmod -a && dracut --force"#;

/// Switches the platform profile to `balanced`.
pub const SET_BALANCED_PROFILE_COMMAND: &'static str = r#"if [ -w /sys/firmware/acpi/platform_profile ]; then printf 'balanced' > /sys/firmware/acpi/platform_profile; cat /sys/firmware/acpi/platform_profile; else echo 'O perfil da plataforma não está disponível neste sistema.' >&2; exit 1; fi"#;

/// Reinstalls fprintd and libfprint.
pub const REPAIR_FINGERPRINT_COMMAND: &'static str = r#"dnf reinstall -y fprintd libfprint && systemctl restart fprintd && rpm -q fprintd libfprint"#;

/// Enables fingerprint login in authselect.
pub const ENABLE_FINGERPRINT_AUTH_COMMAND: &'static str = r#"authselect enable-feature with-fingerprint && authselect apply-changes && authselect current"#;

/// Opens the GNOME user settings for fingerprint enrollment.
pub const OPEN_FINGERPRINT_SETTINGS_COMMAND: &'static str = r#"if ! command -v gnome-control-center >/dev/null 2>&1; then echo "O gnome-control-center não está disponível neste sistema." >&2; exit 1; fi
nohup gnome-control-center user-accounts >/dev/null 2>&1 &
echo "As configurações de Usuários foram abertas para gerenciar o cadastro de digitais."
"#;

/// Reboots the system.
pub const REBOOT_COMMAND: &'static str = "systemctl reboot -i";

/// Piece 1 of the extension profile script, around the extension id.
pub const EXTENSION_SCRIPT_1: &'static str = r#"
if ! command -v gnome-extensions >/dev/null 2>&1; then
  echo "O utilitário gnome-extensions não está disponível neste sistema." >&2
  exit 1
fi

python3 - '"#;

/// Piece 2 of the extension profile script, around the extension id.
pub const EXTENSION_SCRIPT_2: &'static str = r#"' <<'PY'
import json
import os
import re
import subprocess
import sys
import tempfile
import urllib.parse
import urllib.request

uuid = sys.argv[1]
shell_version = "50"

try:
    shell_output = subprocess.check_output(
        ["gnome-shell", "--version"],
        text=True,
    ).strip()
    match = re.search(r"(\d+)", shell_output)
    if match:
        shell_version = match.group(1)
except Exception:
    pass

info_url = (
    "https://extensions.gnome.org/extension-info/"
    "?uuid={uuid}&shell_version={shell_version}"
).format(
    uuid=urllib.parse.quote(uuid),
    shell_version=urllib.parse.quote(shell_version),
)

with urllib.request.urlopen(info_url, timeout=20) as response:
    data = json.load(response)

download_url = urllib.parse.urljoin(
    "https://extensions.gnome.org",
    data["download_url"],
)

fd, archive_path = tempfile.mkstemp(suffix=".shell-extension.zip")
os.close(fd)

try:
    urllib.request.urlretrieve(download_url, archive_path)
    subprocess.check_call(
        ["gnome-extensions", "install", "--force", archive_path]
    )
finally:
    try:
        os.unlink(archive_path)
    except FileNotFoundError:
        pass
PY

gnome-extensions enable '"#;

/// Piece 3 of the extension profile script, around the extension id.
pub const EXTENSION_SCRIPT_3: &'static str = r#"'
gnome-extensions info '"#;

/// Piece 4 of the extension profile script, around the extension id.
pub const EXTENSION_SCRIPT_4: &'static str = r#"' || true
"#;

/// Start of the dock profile script, before the schema.
pub const DOCK_SCRIPT_1: &'static str = r#"set -euo pipefail
schema=""#;

/// Dock profile script between the schema and the extension id.
pub const DOCK_SCRIPT_2: &'static str = r#""
extension_id=""#;

/// Dock profile script after the extension id, before the settings.
pub const DOCK_SCRIPT_3: &'static str = r#""

if ! rpm -q gnome-shell-extension-dash-to-dock >/dev/null 2>&1; then
  pkexec sh -lc 'dnf install -y gnome-shell-extension-dash-to-dock'
fi

if ! gsettings list-schemas | grep -qx "$schema"; then
  echo "A extensão Dash to Dock não está instalada neste sistema." >&2
  exit 1
fi

if command -v gnome-extensions >/dev/null 2>&1; then
  gnome-extensions enable "$extension_id" >/dev/null 2>&1 || true
fi

"#;

/// End of the dock profile script, after the settings.
pub const DOCK_SCRIPT_END: &'static str = r#"gsettings get "$schema" dock-position
gsettings get "$schema" autohide
gsettings get "$schema" click-action
gsettings get "$schema" show-trash
gsettings get "$schema" show-mounts
"#;

/// The dconf schema of Dash to Dock.
pub const DASH_TO_DOCK_SCHEMA: &'static str = "org.gnome.shell.extensions.dash-to-dock";

/// Extra command run before the GSConnect profile.
pub const GSCONNECT_PRELUDE: &'static str = r#"pkexec sh -lc 'dnf install -y nautilus-python || true'"#;

/// Start of the package update script, before the package list.
pub const UPGRADE_SCRIPT_1: &'static str = r#"set -euo pipefail
packages=("#;

/// End of the package update script, after the package list.
pub const UPGRADE_SCRIPT_2: &'static str = r#")
installed=()
for package in "${packages[@]}"; do
  if rpm -q "$package" >/dev/null 2>&1; then
    installed+=("$package")
  fi
done
if [ "${#installed[@]}" -eq 0 ]; then
  echo "Nenhum pacote do Galaxy Book está instalado para atualizar."
  exit 0
fi
dnf upgrade -y "${installed[@]}"
"#;

/// Each prelude command on a line of its own.
pub open spec fn prelude_lines(p: Seq<Seq<char>>) -> Seq<char>
    decreases p.len(),
{
    if p.len() == 0 {
        seq![]
    } else {
        prelude_lines(p.drop_last()) + p.last() + "\n"@
    }
}

/// The script that installs and enables a GNOME extension from
/// extensions.gnome.org, after the prelude commands.
pub open spec fn extension_script(id: Seq<char>, prelude: Seq<Seq<char>>) -> Seq<char> {
    "set -euo pipefail\n\n"@ + prelude_lines(prelude) + EXTENSION_SCRIPT_1@ + id
        + EXTENSION_SCRIPT_2@ + id + EXTENSION_SCRIPT_3@ + id + EXTENSION_SCRIPT_4@
}

/// Builds the script that installs and enables a GNOME extension.
pub fn build_gnome_extension_profile_command(extension_id: &str, prelude_commands: &[&str]) -> (r:
    String)
    ensures
        r@ == extension_script(extension_id@, str_views(prelude_commands@)),
{
    let mut command = owned("set -euo pipefail\n\n");
    let ghost base = command@;
    let mut i: usize = 0;
    while i < prelude_commands.len()
        invariant
            0 <= i <= prelude_commands.len(),
            command@ == base + prelude_lines(str_views(prelude_commands@).take(i as int)),
        decreases prelude_commands.len() - i,
    {
        let ghost before = command@;
        command.append(prelude_commands[i]);
        command.append("\n");
        proof {
            let p = str_views(prelude_commands@);
            assert(p.take(i + 1).drop_last() =~= p.take(i as int));
            assert(p.take(i + 1).last() == prelude_commands@[i as int]@);
            assert(command@ =~= base + prelude_lines(p.take(i + 1)));
        }
        i = i + 1;
    }
    assert(str_views(prelude_commands@).take(prelude_commands.len() as int) =~= str_views(
        prelude_commands@,
    ));
    command.append(EXTENSION_SCRIPT_1);
    command.append(extension_id);
    command.append(EXTENSION_SCRIPT_2);
    command.append(extension_id);
    command.append(EXTENSION_SCRIPT_3);
    command.append(extension_id);
    command.append(EXTENSION_SCRIPT_4);
    command
}

/// The clipboard history profile script.
pub fn build_clipboard_profile_command() -> (r: String)
    ensures
        r@ == extension_script(crate::checks::CLIPBOARD_PROFILE_EXTENSION_ID@, seq![]),
{
    let prelude: Vec<&str> = Vec::new();
    assert(str_views(prelude@) =~= Seq::<Seq<char>>::empty());
    build_gnome_extension_profile_command(crate::checks::CLIPBOARD_PROFILE_EXTENSION_ID, prelude.as_slice())
}

/// The GSConnect profile script, which first installs `nautilus-python`.
pub fn build_gsconnect_profile_command() -> (r: String)
    ensures
        r@ == extension_script(crate::checks::GSCONNECT_EXTENSION_ID@, seq![GSCONNECT_PRELUDE@]),
{
    let prelude: Vec<&str> = vec![GSCONNECT_PRELUDE];
    assert(str_views(prelude@) =~= seq![GSCONNECT_PRELUDE@]);
    build_gnome_extension_profile_command(crate::checks::GSCONNECT_EXTENSION_ID, prelude.as_slice())
}

/// The desktop icons profile script.
pub fn build_desktop_icons_profile_command() -> (r: String)
    ensures
        r@ == extension_script(crate::checks::DESKTOP_ICONS_EXTENSION_ID@, seq![]),
{
    let prelude: Vec<&str> = Vec::new();
    assert(str_views(prelude@) =~= Seq::<Seq<char>>::empty());
    build_gnome_extension_profile_command(crate::checks::DESKTOP_ICONS_EXTENSION_ID, prelude.as_slice())
}

/// One `gsettings set` line per profile row.
pub open spec fn settings_lines(p: Seq<(Seq<char>, Seq<char>, Seq<char>)>) -> Seq<char>
    decreases p.len(),
{
    if p.len() == 0 {
        seq![]
    } else {
        settings_lines(p.drop_last()) + "gsettings set \"$schema\" "@ + p.last().0 + " "@ + p.last().1
            + "\n"@
    }
}

/// The script that enables Dash to Dock and writes the recommended profile.
pub open spec fn dock_script() -> Seq<char> {
    DOCK_SCRIPT_1@ + DASH_TO_DOCK_SCHEMA@ + DOCK_SCRIPT_2@ + DASH_TO_DOCK_EXTENSION_ID@
        + DOCK_SCRIPT_3@ + settings_lines(dock_profile()) + DOCK_SCRIPT_END@
}

/// Builds the dock profile script.
pub fn build_dash_to_dock_profile_command() -> (r: String)
    ensures
        r@ == dock_script(),
{
    let mut command = owned(DOCK_SCRIPT_1);
    command.append(DASH_TO_DOCK_SCHEMA);
    command.append(DOCK_SCRIPT_2);
    command.append(DASH_TO_DOCK_EXTENSION_ID);
    command.append(DOCK_SCRIPT_3);
    let ghost base = command@;
    let settings = dash_to_dock_profile_settings();
    let ghost prof = dock_profile();
    let mut i: usize = 0;
    while i < settings.len()
        invariant
            0 <= i <= settings.len(),
            settings@.map_values(|s: DockSetting| crate::checks::dock_setting_view(s)) == prof,
            prof == dock_profile(),
            command@ == base + settings_lines(prof.take(i as int)),
        decreases settings.len() - i,
    {
        let s = settings[i];
        assert(prof[i as int] == crate::checks::dock_setting_view(s));
        command.append("gsettings set \"$schema\" ");
        command.append(s.key);
        command.append(" ");
        command.append(s.value);
        command.append("\n");
        proof {
            assert(prof.take(i + 1).drop_last() =~= prof.take(i as int));
            assert(prof.take(i + 1).last() == prof[i as int]);
            assert(command@ =~= base + settings_lines(prof.take(i + 1)));
        }
        i = i + 1;
    }
    assert(prof.take(settings.len() as int) =~= prof);
    command.append(DOCK_SCRIPT_END);
    command
}

/// The script that upgrades whichever of the given packages are installed.
pub open spec fn upgrade_script(packages: Seq<Seq<char>>) -> Seq<char> {
    UPGRADE_SCRIPT_1@ + join(packages, " "@) + UPGRADE_SCRIPT_2@
}

/// Builds the script that upgrades the installed Galaxy Book packages.
pub fn upgrade_installed_packages_command(packages: &[&str]) -> (r: String)
    ensures
        r@ == upgrade_script(str_views(packages@)),
{
    let mut list: Vec<&str> = Vec::new();
    let mut i: usize = 0;
    while i < packages.len()
        invariant
            0 <= i <= packages.len(),
            list@ == packages@.take(i as int),
        decreases packages.len() - i,
    {
        list.push(packages[i]);
        assert(packages@.take(i + 1) =~= packages@.take(i as int).push(packages@[i as int]));
        i = i + 1;
    }
    assert(packages@.take(packages.len() as int) =~= packages@);
    let joined = crate::model::join_strs(&list, " ");
    let mut command = owned(UPGRADE_SCRIPT_1);
    command.append(joined.as_str());
    command.append(UPGRADE_SCRIPT_2);
    command
}

} // verus!
