use galaxybook_setup::checks::{
    dash_to_dock_check_from_state, extension_check, GSCONNECT_EXTENSION_ID,
};
use galaxybook_setup::devices::{detect_browser_camera_check, BridgeProbe};
use galaxybook_setup::model::{Health, PackagePresence};

fn no_bridge() -> BridgeProbe {
    BridgeProbe {
        relay_active: false,
        relay_enabled: None,
        loopback_device: None,
        loopback_description: None,
    }
}

#[test]
fn extension_check_marks_installed_but_disabled_as_warning() {
    let item = extension_check(
        "GSConnect",
        &[GSCONNECT_EXTENSION_ID],
        &[],
        &[GSCONNECT_EXTENSION_ID.to_string()],
        "missing",
    );
    assert_eq!(item.health, Health::Warning);
}

#[test]
fn dash_to_dock_check_is_good_when_profile_matches() {
    let item = dash_to_dock_check_from_state(true, true, &[]);
    assert_eq!(item.health, Health::Good);
    assert_eq!(item.code, "dash-to-dock-ready");
}

#[test]
fn dash_to_dock_check_warns_on_profile_drift() {
    let item = dash_to_dock_check_from_state(true, true, &["auto-ocultação", "lixeira visível"]);
    assert_eq!(item.health, Health::Warning);
    assert_eq!(item.code, "dash-to-dock-mismatch");
    assert!(item.detail.contains("auto-ocultação"));
    assert!(item.detail.contains("lixeira visível"));
}

#[test]
fn browser_camera_check_warns_when_bridge_and_system_source_are_missing() {
    let packages = PackagePresence {
        installed: vec![],
        missing: vec![],
    };
    let item = detect_browser_camera_check(&packages, false, false, &no_bridge());
    assert_eq!(item.health, Health::Warning);
    assert!(item.detail.contains("fontes do sistema"));
}

#[test]
fn browser_camera_check_accepts_system_source_without_libcamera_direct() {
    let packages = PackagePresence {
        installed: vec![],
        missing: vec![],
    };
    let item = detect_browser_camera_check(&packages, false, true, &no_bridge());
    assert_eq!(item.health, Health::Warning);
    assert!(item.detail.contains("já aparece nas fontes do sistema"));
}
