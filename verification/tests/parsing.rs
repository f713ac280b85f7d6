use galaxybook_setup::model::{FingerprintEnrollmentState, ModuleOrigin};
use galaxybook_setup::parse::{
    akmods_key_cn_from_path, authselect_has_fingerprint, detect_clock_error,
    fingerprint_enrollment_state, libcamera_output_has_camera, mok_enrolled_list_contains_key,
    module_origin_from_path, mokutil_test_key_reports_enrolled, parse_gsettings_string_array,
    parse_secure_boot,
};

#[test]
fn module_origin_detects_external_driver_paths() {
    assert_eq!(
        module_origin_from_path(Some(
            "/lib/modules/6.19.10/extra/intel-ipu6/drivers/media/i2c/ov02c10.ko.xz"
        )),
        ModuleOrigin::Patched
    );
    assert_eq!(
        module_origin_from_path(Some("/lib/modules/6.19.10/updates/ov02c10.ko")),
        ModuleOrigin::Patched
    );
}

#[test]
fn module_origin_detects_in_tree_driver_paths() {
    assert_eq!(
        module_origin_from_path(Some(
            "/lib/modules/6.19.10/kernel/drivers/media/i2c/ov02c10.ko.xz"
        )),
        ModuleOrigin::InTree
    );
}

#[test]
fn clock_error_detection_matches_known_boot_failure() {
    let logs = "
            ov02c10 i2c-OVTI02C1:00: error -EINVAL: external clock 26000000 is not supported
            ov02c10 i2c-OVTI02C1:00: probe with driver ov02c10 failed with error -22
        ";
    assert!(detect_clock_error(logs));
}

#[test]
fn secure_boot_parser_understands_mokutil_output() {
    assert_eq!(parse_secure_boot("SecureBoot enabled"), "Ativado");
    assert_eq!(parse_secure_boot("SecureBoot disabled"), "Desativado");
    assert_eq!(parse_secure_boot("whatever"), "Não foi possível verificar");
}

#[test]
fn mokutil_test_key_parser_accepts_already_enrolled_output() {
    assert!(mokutil_test_key_reports_enrolled(
        false,
        "/etc/pki/akmods/certs/public_key.der is already enrolled"
    ));
    assert!(!mokutil_test_key_reports_enrolled(
        false,
        "Failed to open /etc/pki/akmods/certs/public_key.der"
    ));
}

#[test]
fn akmods_key_cn_parser_uses_canonical_cert_name() {
    let path = "/etc/pki/akmods/certs/fedora_1751571965_c906e85a.der";
    assert_eq!(
        akmods_key_cn_from_path(path).as_deref(),
        Some("fedora_1751571965_c906e85a")
    );
}

#[test]
fn enrolled_list_parser_matches_current_akmods_cn() {
    let enrolled = "Subject: O=fedora, OU=fedora, emailAddress=akmods@fedora, L=None, ST=None, C=BR, CN=fedora_1751571965_c906e85a";
    assert!(mok_enrolled_list_contains_key(
        enrolled,
        "fedora_1751571965_c906e85a"
    ));
}

#[test]
fn parse_gsettings_array_extracts_extension_ids() {
    let parsed = parse_gsettings_string_array(
        "['ding@rastersoft.com', 'gsconnect@andyholmes.github.io']",
    );
    assert_eq!(
        parsed,
        vec![
            "ding@rastersoft.com".to_string(),
            "gsconnect@andyholmes.github.io".to_string()
        ]
    );
}

#[test]
fn libcamera_detection_accepts_sensor_name_output() {
    let output = "Available cameras:\n1: 'ov02c10' (_SB_.PC00.LNK0)\n";
    assert!(libcamera_output_has_camera(output));
}

#[test]
fn authselect_parser_detects_fingerprint_feature() {
    assert!(authselect_has_fingerprint(
        "Profile ID: sssd\nEnabled features:\n- with-fingerprint\n- with-mdns4\n"
    ));
    assert!(!authselect_has_fingerprint(
        "Profile ID: sssd\nEnabled features:\n- with-mdns4\n"
    ));
}

#[test]
fn fingerprint_state_detects_not_enrolled_output() {
    let output = "found 1 devices\nUsing device /net/reactivated/Fprint/Device/0\nUser regiscaio has no fingers enrolled for Egis Technology (LighTuning) Match-on-Chip.";
    assert_eq!(
        fingerprint_enrollment_state(output),
        FingerprintEnrollmentState::NotEnrolled
    );
}
