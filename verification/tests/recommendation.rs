use galaxybook_setup::model::{CheckItem, Health, ModuleOrigin, PackagePresence};
use galaxybook_setup::recommend::recommend_next_step;

fn ok_secure_boot_key_item() -> CheckItem {
    CheckItem {
        title: "Chave do Secure Boot",
        detail: String::new(),
        health: Health::Good,
        code: "mok-enrolled",
    }
}

fn installed_camera_driver() -> PackagePresence {
    PackagePresence {
        installed: vec!["akmod-galaxybook-ov02c10".into()],
        missing: vec![],
    }
}

#[test]
fn recommendation_prefers_install_when_packages_are_missing() {
    let packages = PackagePresence {
        installed: vec![],
        missing: vec!["akmod-galaxybook-ov02c10".into()],
    };
    let (title, _) = recommend_next_step(
        &ok_secure_boot_key_item(),
        &packages,
        false,
        ModuleOrigin::Missing,
        false,
        false,
        false,
        false,
        false,
        false,
        false,
        false,
        false,
        false,
        false,
    );
    assert_eq!(title, "Instalação pendente");
}

#[test]
fn recommendation_detects_unloaded_patched_driver() {
    let (title, _) = recommend_next_step(
        &ok_secure_boot_key_item(),
        &installed_camera_driver(),
        false,
        ModuleOrigin::Patched,
        false,
        false,
        false,
        false,
        false,
        false,
        false,
        true,
        false,
        false,
        false,
    );
    assert_eq!(title, "O driver corrigido não foi carregado");
}

#[test]
fn browser_camera_recommendation_kicks_in_after_libcamera_is_ready() {
    let (title, _) = recommend_next_step(
        &ok_secure_boot_key_item(),
        &installed_camera_driver(),
        false,
        ModuleOrigin::Patched,
        false,
        false,
        true,
        true,
        false,
        true,
        false,
        true,
        false,
        false,
        false,
    );
    assert_eq!(title, "Compatibilidade com navegador pendente");
}

#[test]
fn speaker_recommendation_appears_when_camera_flow_is_ready() {
    let (title, _) = recommend_next_step(
        &ok_secure_boot_key_item(),
        &installed_camera_driver(),
        false,
        ModuleOrigin::Patched,
        false,
        false,
        true,
        true,
        false,
        true,
        true,
        true,
        true,
        false,
        false,
    );
    assert_eq!(title, "Suporte dos alto-falantes pendente");
}

#[test]
fn sound_app_recommendation_appears_after_speakers_are_ready() {
    let (title, _) = recommend_next_step(
        &ok_secure_boot_key_item(),
        &installed_camera_driver(),
        false,
        ModuleOrigin::Patched,
        false,
        false,
        true,
        true,
        false,
        true,
        true,
        true,
        true,
        true,
        false,
    );
    assert_eq!(title, "Painel de som opcional ainda não instalado");
}

#[test]
fn recommendation_prioritizes_secure_boot_key_before_packages() {
    let secure_boot_key = CheckItem {
        title: "Chave do Secure Boot",
        detail: String::new(),
        health: Health::Error,
        code: "mok-not-enrolled",
    };
    let packages = PackagePresence {
        installed: vec![],
        missing: vec!["akmod-galaxybook-ov02c10".into()],
    };
    let (title, _) = recommend_next_step(
        &secure_boot_key,
        &packages,
        false,
        ModuleOrigin::Missing,
        false,
        false,
        false,
        false,
        false,
        false,
        false,
        false,
        false,
        false,
        false,
    );
    assert_eq!(title, "Prepare a chave do Secure Boot");
}

#[test]
fn recommendation_detects_browser_rule_blocking_libcamera() {
    let (title, _) = recommend_next_step(
        &ok_secure_boot_key_item(),
        &installed_camera_driver(),
        false,
        ModuleOrigin::Patched,
        false,
        false,
        true,
        false,
        true,
        true,
        true,
        true,
        false,
        false,
        false,
    );
    assert_eq!(title, "O bridge do navegador bloqueou o libcamera");
}

#[test]
fn pending_enrollment_is_recommended_before_packages() {
    let secure_boot_key = CheckItem {
        title: "Chave do Secure Boot",
        detail: String::new(),
        health: Health::Warning,
        code: "mok-pending-enrollment",
    };
    let packages = PackagePresence {
        installed: vec![],
        missing: vec!["akmod-galaxybook-ov02c10".into()],
    };
    let (title, _) = recommend_next_step(
        &secure_boot_key,
        &packages,
        true,
        ModuleOrigin::InTree,
        true,
        true,
        false,
        false,
        true,
        false,
        false,
        false,
        true,
        false,
        false,
    );
    assert_eq!(title, "Concluir inscrição do MOK");
}

#[test]
fn everything_ready_gives_the_ready_recommendation() {
    let (title, _) = recommend_next_step(
        &ok_secure_boot_key_item(),
        &installed_camera_driver(),
        false,
        ModuleOrigin::Patched,
        false,
        false,
        true,
        true,
        false,
        true,
        true,
        true,
        true,
        true,
        true,
    );
    assert_eq!(title, "Fluxo principal da câmera parece pronto");
}
