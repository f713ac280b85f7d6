use galaxybook_setup::actions::{
    collect_command_output, format_command_output, mok_password_input,
    output_mentions_secure_boot_key_rejection, secure_boot_password_error,
    update_button_tooltip, update_secure_boot_password_state, EMPTY_OUTPUT_TEXT,
    REJECTION_HELP_NO_KEY,
};
use galaxybook_setup::commands::upgrade_installed_packages_command;
use galaxybook_setup::diagnostics::{action_metadata, dedupe_action_keys, ActionKey};

#[test]
fn secure_boot_rejection_output_is_detected() {
    assert!(output_mentions_secure_boot_key_rejection(
        "modprobe: ERROR: could not insert 'ov02c10': Key was rejected by service"
    ));
    assert!(!output_mentions_secure_boot_key_rejection(
        "modprobe: FATAL: Module ov02c10 not found"
    ));
}

#[test]
fn secure_boot_password_validation_requires_matching_values() {
    assert_eq!(
        secure_boot_password_error("abc", "xyz"),
        Some("As duas senhas do MOK precisam ser idênticas.".into())
    );
}

#[test]
fn secure_boot_password_validation_accepts_matching_values() {
    assert_eq!(secure_boot_password_error("abc", "abc"), None);
}

#[test]
fn blank_password_asks_for_both_fields() {
    assert_eq!(
        secure_boot_password_error("  ", "abc"),
        Some("Defina e confirme a senha temporária do MOK para continuar.".into())
    );
}

#[test]
fn password_form_stays_quiet_while_empty() {
    let state = update_secure_boot_password_state("", "");
    assert_eq!(state.error, None);
    assert!(!state.confirm_enabled);
    let state = update_secure_boot_password_state("abc", "");
    assert_eq!(
        state.error.as_deref(),
        Some("Defina e confirme a senha temporária do MOK para continuar.")
    );
    assert!(!state.confirm_enabled);
    let state = update_secure_boot_password_state("abc", "abc");
    assert_eq!(state.error, None);
    assert!(state.confirm_enabled);
}

#[test]
fn mok_input_repeats_the_password() {
    assert_eq!(mok_password_input("abc", "abc"), "abc\nabc\n");
}

#[test]
fn empty_failure_output_gets_a_note() {
    assert_eq!(format_command_output("  \n", true), EMPTY_OUTPUT_TEXT);
}

#[test]
fn plain_failure_output_is_shown_as_is() {
    assert_eq!(
        format_command_output("dnf: no match", false),
        "dnf: no match"
    );
}

#[test]
fn rejected_key_output_gets_advice_in_front() {
    let output = "modprobe: ERROR: could not insert 'ov02c10': Key was rejected by service";
    let with_key = format_command_output(output, true);
    assert!(with_key.starts_with("O kernel rejeitou o módulo"));
    assert!(with_key.contains("mokutil --test-key /etc/pki/akmods/certs/public_key.der"));
    assert!(with_key.ends_with(&format!("\n\n---\n\n{output}")));
    let without_key = format_command_output(output, false);
    assert_eq!(without_key, format!("{REJECTION_HELP_NO_KEY}\n\n---\n\n{output}"));
}

#[test]
fn command_output_joins_trimmed_streams() {
    assert_eq!(collect_command_output(" out \n", "\n err "), "out\n\nerr");
    assert_eq!(collect_command_output("out", "   "), "out");
    assert_eq!(collect_command_output("", "err"), "err");
    assert_eq!(collect_command_output("", ""), "");
}

#[test]
fn update_tooltip_lists_packages() {
    let packages = vec!["galaxybook-camera".to_string(), "galaxybook-sound".to_string()];
    assert_eq!(
        update_button_tooltip(&packages),
        "Baixar e instalar atualizações: galaxybook-camera, galaxybook-sound"
    );
}

#[test]
fn upgrade_script_lists_the_packages() {
    let script = upgrade_installed_packages_command(&["a", "b"]);
    assert!(script.starts_with("set -euo pipefail\npackages=(a b)\n"));
    assert!(script.ends_with("dnf upgrade -y \"${installed[@]}\"\n"));
}

#[test]
fn action_catalog_titles() {
    assert_eq!(action_metadata(ActionKey::InstallMainSupport).title, "Instalar suporte principal");
    assert_eq!(action_metadata(ActionKey::Reboot).title, "Reiniciar o sistema");
    assert_eq!(
        action_metadata(ActionKey::PrepareSecureBootKey).title,
        "Preparar chave do Secure Boot"
    );
}

#[test]
fn dedupe_keeps_first_occurrences_in_order() {
    let deduped = dedupe_action_keys(&[
        ActionKey::Reboot,
        ActionKey::RepairDriver,
        ActionKey::Reboot,
        ActionKey::ForceDriverPriority,
        ActionKey::RepairDriver,
    ]);
    assert_eq!(
        deduped,
        vec![
            ActionKey::Reboot,
            ActionKey::RepairDriver,
            ActionKey::ForceDriverPriority
        ]
    );
    assert_eq!(dedupe_action_keys(&deduped), deduped);
    assert_eq!(dedupe_action_keys(&[]), Vec::<ActionKey>::new());
}
