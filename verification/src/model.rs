//! The diagnostic data model: health levels, check results, the system
//! summary and the full snapshot shown by the setup window.
use vstd::prelude::*;

use crate::text::{join, lemma_join_push, str_views, views};

verus! {

/// How a diagnostic judged the part of the system it looked at.
#[derive(Clone, Copy, Debug, PartialEq, Eq, Structural)]
pub enum Health {
    Good,
    Warning,
    Error,
    Unknown,
}

/// Icon shown for a health level.
pub open spec fn health_icon_name(h: Health) -> Seq<char> {
    match h {
        Health::Good => "object-select-symbolic"@,
        Health::Warning => "dialog-warning-symbolic"@,
        Health::Error => "dialog-error-symbolic"@,
        Health::Unknown => "dialog-question-symbolic"@,
    }
}

/// Badge text shown for a health level.
pub open spec fn health_label(h: Health) -> Seq<char> {
    match h {
        Health::Good => "OK"@,
        Health::Warning => "Atenção"@,
        Health::Error => "Erro"@,
        Health::Unknown => "Indefinido"@,
    }
}

/// Style class of the badge for a health level.
pub open spec fn health_css_class(h: Health) -> Seq<char> {
    match h {
        Health::Good => "status-pill-good"@,
        Health::Warning => "status-pill-warning"@,
        Health::Error => "status-pill-error"@,
        Health::Unknown => "status-pill-unknown"@,
    }
}

impl Health {
    pub fn icon_name(self) -> (s: &'static str)
        ensures
            s@ == health_icon_name(self),
    {
        match self {
            Health::Good => "object-select-symbolic",
            Health::Warning => "dialog-warning-symbolic",
            Health::Error => "dialog-error-symbolic",
            Health::Unknown => "dialog-question-symbolic",
        }
    }

    pub fn label(self) -> (s: &'static str)
        ensures
            s@ == health_label(self),
    {
        match self {
            Health::Good => "OK",
            Health::Warning => "Atenção",
            Health::Error => "Erro",
            Health::Unknown => "Indefinido",
        }
    }

    pub fn css_class(self) -> (s: &'static str)
        ensures
            s@ == health_css_class(self),
    {
        match self {
            Health::Good => "status-pill-good",
            Health::Warning => "status-pill-warning",
            Health::Error => "status-pill-error",
            Health::Unknown => "status-pill-unknown",
        }
    }
}

/// Where the active `ov02c10` camera module comes from.
#[derive(Clone, Copy, Debug, PartialEq, Eq, Structural)]
pub enum ModuleOrigin {
    Patched,
    InTree,
    Missing,
    Unknown,
}

/// What `fprintd-list` said about the current user's fingerprints.
#[derive(Clone, Copy, Debug, PartialEq, Eq, Structural)]
pub enum FingerprintEnrollmentState {
    Enrolled,
    NotEnrolled,
    Busy,
    NoDevice,
    Unavailable,
}

/// The result of one diagnostic.
#[derive(Clone, Debug, PartialEq, Eq)]
pub struct CheckItem {
    pub title: &'static str,
    pub detail: String,
    pub health: Health,
    pub code: &'static str,
}

/// The mathematical content of a [`CheckItem`].
pub struct CheckView {
    pub title: Seq<char>,
    pub detail: Seq<char>,
    pub health: Health,
    pub code: Seq<char>,
}

impl View for CheckItem {
    type V = CheckView;

    open spec fn view(&self) -> CheckView {
        CheckView { title: self.title@, detail: self.detail@, health: self.health, code: self.code@ }
    }
}

/// A check result made of its four parts.
pub open spec fn check(title: Seq<char>, detail: Seq<char>, health: Health, code: Seq<char>) -> CheckView {
    CheckView { title, detail, health, code }
}

/// The notebook, Fedora release, kernel and Secure Boot lines of the summary.
#[derive(Clone, Debug, PartialEq, Eq)]
pub struct SystemSummary {
    pub notebook: String,
    pub fedora: String,
    pub kernel: String,
    pub secure_boot: String,
}

/// Everything the setup window shows after one round of diagnostics.
#[derive(Clone, Debug, PartialEq, Eq)]
pub struct SetupSnapshot {
    pub system: SystemSummary,
    pub packages: CheckItem,
    pub akmods: CheckItem,
    pub module: CheckItem,
    pub libcamera: CheckItem,
    pub browser_camera: CheckItem,
    pub boot: CheckItem,
    pub speakers: CheckItem,
    pub sound_app: CheckItem,
    pub fingerprint_reader: CheckItem,
    pub fingerprint_login: CheckItem,
    pub gpu: CheckItem,
    pub secure_boot_key: CheckItem,
    pub platform_profile: CheckItem,
    pub clipboard_extension: CheckItem,
    pub gsconnect_extension: CheckItem,
    pub desktop_icons_extension: CheckItem,
    pub dock_extension: CheckItem,
    pub recommendation_title: String,
    pub recommendation_body: String,
    pub install_main_support_command: String,
    pub install_command: String,
    pub repair_command: String,
    pub enable_camera_module_command: String,
    pub force_camera_command: String,
    pub restore_intel_camera_command: String,
    pub enable_browser_camera_command: String,
    pub enable_speaker_command: String,
    pub prepare_secure_boot_key_command: String,
    pub install_sound_app_command: String,
    pub repair_nvidia_command: String,
    pub set_balanced_profile_command: String,
    pub repair_fingerprint_command: String,
    pub enable_fingerprint_auth_command: String,
    pub open_fingerprint_settings_command: String,
    pub apply_clipboard_profile_command: String,
    pub apply_gsconnect_profile_command: String,
    pub apply_desktop_icons_profile_command: String,
    pub apply_dock_profile_command: String,
    pub reboot_command: String,
    pub camera_app_installed: bool,
    pub sound_app_installed: bool,
}

/// Whether one RPM package answered `rpm -q` successfully.
#[derive(Clone, Debug, PartialEq, Eq)]
pub struct PackageStatus {
    pub name: String,
    pub installed: bool,
}

/// A package list split into installed and missing names, each in the order
/// of the list.
#[derive(Clone, Debug, Default, PartialEq, Eq)]
pub struct PackagePresence {
    pub installed: Vec<String>,
    pub missing: Vec<String>,
}

/// Names of the packages with the given installation state, in list order.
pub open spec fn names_with(p: Seq<PackageStatus>, installed: bool) -> Seq<Seq<char>>
    decreases p.len(),
{
    if p.len() == 0 {
        seq![]
    } else {
        let rest = names_with(p.drop_last(), installed);
        if p.last().installed == installed {
            rest.push(p.last().name@)
        } else {
            rest
        }
    }
}

/// Splits package statuses into installed and missing names.
pub fn package_presence(statuses: &Vec<PackageStatus>) -> (r: PackagePresence)
    ensures
        views(r.installed@) == names_with(statuses@, true),
        views(r.missing@) == names_with(statuses@, false),
{
    let mut installed: Vec<String> = Vec::new();
    let mut missing: Vec<String> = Vec::new();
    let mut i: usize = 0;
    while i < statuses.len()
        invariant
            0 <= i <= statuses.len(),
            views(installed@) == names_with(statuses@.take(i as int), true),
            views(missing@) == names_with(statuses@.take(i as int), false),
        decreases statuses.len() - i,
    {
        let ghost before_i = installed@;
        let ghost before_m = missing@;
        assert(statuses@.take(i + 1).drop_last() =~= statuses@.take(i as int));
        let name = statuses[i].name.clone();
        if statuses[i].installed {
            installed.push(name);
            assert(views(installed@) =~= views(before_i).push(name@));
        } else {
            missing.push(name);
            assert(views(missing@) =~= views(before_m).push(name@));
        }
        i = i + 1;
    }
    assert(statuses@.take(statuses.len() as int) =~= statuses@);
    PackagePresence { installed, missing }
}

/// Joins strings with a separator.
pub fn join_strings(list: &Vec<String>, sep: &str) -> (r: String)
    ensures
        r@ == join(views(list@), sep@),
{
    let mut r = String::new();
    let mut i: usize = 0;
    while i < list.len()
        invariant
            0 <= i <= list.len(),
            r@ == join(views(list@.take(i as int)), sep@),
        decreases list.len() - i,
    {
        proof {
            lemma_join_push(views(list@.take(i as int)), sep@, list@[i as int]@);
            assert(views(list@.take(i + 1)) =~= views(list@.take(i as int)).push(list@[i as int]@));
        }
        if i > 0 {
            r.append(sep);
        }
        r.append(list[i].as_str());
        i = i + 1;
    }
    assert(list@.take(list.len() as int) =~= list@);
    r
}

/// Joins string slices with a separator.
pub fn join_strs(list: &Vec<&str>, sep: &str) -> (r: String)
    ensures
        r@ == join(str_views(list@), sep@),
{
    let mut r = String::new();
    let mut i: usize = 0;
    while i < list.len()
        invariant
            0 <= i <= list.len(),
            r@ == join(str_views(list@.take(i as int)), sep@),
        decreases list.len() - i,
    {
        proof {
            lemma_join_push(str_views(list@.take(i as int)), sep@, list@[i as int]@);
            assert(str_views(list@.take(i + 1)) =~= str_views(list@.take(i as int)).push(list@[i as int]@));
        }
        if i > 0 {
            r.append(sep);
        }
        r.append(list[i]);
        i = i + 1;
    }
    assert(list@.take(list.len() as int) =~= list@);
    r
}

/// A string made of two parts.
pub fn concat2(a: &str, b: &str) -> (r: String)
    ensures
        r@ == a@ + b@,
{
    let mut r = String::from_str(a);
    r.append(b);
    r
}

/// A string made of three parts.
pub fn concat3(a: &str, b: &str, c: &str) -> (r: String)
    ensures
        r@ == a@ + b@ + c@,
{
    let mut r = String::from_str(a);
    r.append(b);
    r.append(c);
    r
}

/// A string made of five parts.
pub fn concat5(a: &str, b: &str, c: &str, d: &str, e: &str) -> (r: String)
    ensures
        r@ == a@ + b@ + c@ + d@ + e@,
{
    let mut r = String::from_str(a);
    r.append(b);
    r.append(c);
    r.append(d);
    r.append(e);
    r
}

/// A copy of a string slice.
pub fn owned(s: &str) -> (r: String)
    ensures
        r@ == s@,
{
    String::from_str(s)
}

} // verus!
