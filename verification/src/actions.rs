//! Pieces of the quick actions: how a failed action's output is explained,
//! how a command's output is gathered, the MOK password form and the
//! package update button.
use vstd::prelude::*;

use crate::commands::AKMODS_PUBLIC_KEY_PATH;
use crate::model::{concat2, concat3, concat5, join_strings, owned};
use crate::text::{contains, join, str_contains, str_eq, trim, trim_str, views};

verus! {

// ---------------------------------------------------------------------------
// Command output
// ---------------------------------------------------------------------------

/// The output shows the kernel refusing a module signed with a key that MOK
/// does not know.
pub open spec fn mentions_key_rejection(output: Seq<char>) -> bool {
    contains(output, "Key was rejected by service"@) || contains(output, "key was rejected by service"@)
}

/// Whether a command's output shows a module rejected by Secure Boot.
pub fn output_mentions_secure_boot_key_rejection(output: &str) -> (r: bool)
    ensures
        r == mentions_key_rejection(output@),
{
    str_contains(output, "Key was rejected by service") || str_contains(
        output,
        "key was rejected by service",
    )
}

/// First piece of the remediation shown when the key file exists.
pub const REJECTION_HELP_1: &'static str = "O kernel rejeitou o módulo porque o Secure Boot continua ativo, mas a chave usada pelo akmods não foi aceita pelo MOK.\n\nVerifique com:\n  mokutil --test-key ";

/// Second piece of the remediation shown when the key file exists.
pub const REJECTION_HELP_2: &'static str = "\n\nSe a saída disser que a chave já está inscrita (\"already enrolled\"), o MOK atual já conhece essa chave e o problema precisa ser investigado por outro ponto. Se a chave ainda não estiver inscrita, execute:\n  sudo mokutil --import ";

/// Last piece of the remediation shown when the key file exists.
pub const REJECTION_HELP_3: &'static str = "\n\nDepois reinicie, entre em \"Enroll MOK\" na tela azul do boot, confirme a senha definida no import e só então repita a ação.";

/// Remediation shown when the akmods public key is missing.
pub const REJECTION_HELP_NO_KEY: &'static str = "O kernel rejeitou o módulo porque o Secure Boot continua ativo, mas o sistema não encontrou a chave pública do akmods em /etc/pki/akmods/certs/public_key.der. Gere ou reinstale a chave do akmods antes de repetir a ação.";

/// Shown for a failed action that printed nothing.
pub const EMPTY_OUTPUT_TEXT: &'static str = "A ação falhou, mas não retornou saída textual.";

/// What the result dialog of a failed action shows: the output (or a note
/// that there was none), preceded by Secure Boot advice where the kernel
/// rejected a module.
pub open spec fn explained_output(output: Seq<char>, public_key_exists: bool) -> Seq<char> {
    let text = if trim(output).len() == 0 {
        EMPTY_OUTPUT_TEXT@
    } else {
        output
    };
    if !mentions_key_rejection(text) {
        text
    } else {
        let remediation = if public_key_exists {
            REJECTION_HELP_1@ + AKMODS_PUBLIC_KEY_PATH@ + REJECTION_HELP_2@ + AKMODS_PUBLIC_KEY_PATH@
                + REJECTION_HELP_3@
        } else {
            REJECTION_HELP_NO_KEY@
        };
        remediation + "\n\n---\n\n"@ + text
    }
}

/// Prepares a failed action's output for the result dialog; whether the
/// akmods public key file exists decides which advice follows a Secure Boot
/// rejection.
pub fn format_command_output(output: &str, public_key_exists: bool) -> (r: String)
    ensures
        r@ == explained_output(output@, public_key_exists),
{
    let t = trim_str(output);
    let text = if t.as_str().is_empty() {
        owned(EMPTY_OUTPUT_TEXT)
    } else {
        owned(output)
    };
    if !output_mentions_secure_boot_key_rejection(text.as_str()) {
        return text;
    }
    let mut r = if public_key_exists {
        concat5(
            REJECTION_HELP_1,
            AKMODS_PUBLIC_KEY_PATH,
            REJECTION_HELP_2,
            AKMODS_PUBLIC_KEY_PATH,
            REJECTION_HELP_3,
        )
    } else {
        owned(REJECTION_HELP_NO_KEY)
    };
    r.append("\n\n---\n\n");
    r.append(text.as_str());
    r
}

/// Trimmed stdout and stderr of an action, separated by a blank line where
/// both have text.
pub open spec fn combined_output(stdout: Seq<char>, stderr: Seq<char>) -> Seq<char> {
    let o = trim(stdout);
    let e = trim(stderr);
    if o.len() > 0 && e.len() > 0 {
        o + "\n\n"@ + e
    } else {
        o + e
    }
}

/// Combines what an action printed on stdout and stderr.
pub fn collect_command_output(stdout: &str, stderr: &str) -> (r: String)
    ensures
        r@ == combined_output(stdout@, stderr@),
{
    let o = trim_str(stdout);
    let e = trim_str(stderr);
    let mut combined = String::new();
    if !o.as_str().is_empty() {
        combined.append(o.as_str());
    }
    if !e.as_str().is_empty() {
        if !combined.as_str().is_empty() {
            combined.append("\n\n");
        }
        combined.append(e.as_str());
    }
    assert(combined@ =~= combined_output(stdout@, stderr@));
    combined
}

// ---------------------------------------------------------------------------
// MOK password form
// ---------------------------------------------------------------------------

/// Asked for while a field of the MOK password form is blank.
pub const PASSWORD_MISSING_TEXT: &'static str = "Defina e confirme a senha temporária do MOK para continuar.";

/// Shown while the two MOK passwords differ.
pub const PASSWORD_MISMATCH_TEXT: &'static str = "As duas senhas do MOK precisam ser idênticas.";

/// The problem with the MOK password form, where there is one.
pub open spec fn password_problem(password: Seq<char>, confirmation: Seq<char>) -> Option<Seq<char>> {
    if trim(password).len() == 0 || trim(confirmation).len() == 0 {
        Some(PASSWORD_MISSING_TEXT@)
    } else if password != confirmation {
        Some(PASSWORD_MISMATCH_TEXT@)
    } else {
        None
    }
}

/// Checks the temporary MOK password and its confirmation.
pub fn secure_boot_password_error(password: &str, confirmation: &str) -> (r: Option<String>)
    ensures
        crate::checks::opt_view(r) == password_problem(password@, confirmation@),
{
    let p = trim_str(password);
    let c = trim_str(confirmation);
    if p.as_str().is_empty() || c.as_str().is_empty() {
        return Some(owned(PASSWORD_MISSING_TEXT));
    }
    if !str_eq(password, confirmation) {
        return Some(owned(PASSWORD_MISMATCH_TEXT));
    }
    None
}

/// How the MOK password form looks after an edit.
#[derive(Clone, Debug, PartialEq, Eq)]
pub struct PasswordFormState {
    /// The error label's text; hidden where `None`.
    pub error: Option<String>,
    /// The confirm button accepts a click.
    pub confirm_enabled: bool,
}

/// Updates the MOK password form: nothing shown while both fields are empty,
/// the problem while there is one, and the confirm button enabled otherwise.
pub fn update_secure_boot_password_state(password: &str, confirmation: &str) -> (r: PasswordFormState)
    ensures
        password@.len() == 0 && confirmation@.len() == 0 ==> r.error is None && !r.confirm_enabled,
        !(password@.len() == 0 && confirmation@.len() == 0) ==> crate::checks::opt_view(r.error)
            == password_problem(password@, confirmation@) && r.confirm_enabled == password_problem(
            password@,
            confirmation@,
        ) is None,
{
    if password.is_empty() && confirmation.is_empty() {
        return PasswordFormState { error: None, confirm_enabled: false };
    }
    let error = secure_boot_password_error(password, confirmation);
    let confirm_enabled = error.is_none();
    PasswordFormState { error, confirm_enabled }
}

/// What `mokutil --import` reads on its standard input: the password twice.
pub fn mok_password_input(password: &str, confirmation: &str) -> (r: String)
    ensures
        r@ == password@ + "\n"@ + confirmation@ + "\n"@,
{
    let mut r = concat3(password, "\n", confirmation);
    r.append("\n");
    r
}

// ---------------------------------------------------------------------------
// Updates
// ---------------------------------------------------------------------------

/// The Galaxy Book packages the update button looks after.
pub fn setup_update_packages() -> (r: Vec<&'static str>)
    ensures
        crate::text::str_views(r@) == seq![
            "galaxybook-setup"@,
            "galaxybook-camera"@,
            "galaxybook-ov02c10-kmod-common"@,
            "akmod-galaxybook-ov02c10"@,
            "galaxybook-sound"@,
            "galaxybook-max98390-kmod-common"@,
            "akmod-galaxybook-max98390"@,
        ],
{
    let r = vec![
        "galaxybook-setup",
        "galaxybook-camera",
        "galaxybook-ov02c10-kmod-common",
        "akmod-galaxybook-ov02c10",
        "galaxybook-sound",
        "galaxybook-max98390-kmod-common",
        "akmod-galaxybook-max98390",
    ];
    assert(crate::text::str_views(r@) =~= seq![
        "galaxybook-setup"@,
        "galaxybook-camera"@,
        "galaxybook-ov02c10-kmod-common"@,
        "akmod-galaxybook-ov02c10"@,
        "galaxybook-sound"@,
        "galaxybook-max98390-kmod-common"@,
        "akmod-galaxybook-max98390"@,
    ]);
    r
}

/// Tooltip of the update button.
pub fn update_button_tooltip(packages: &Vec<String>) -> (r: String)
    ensures
        r@ == "Baixar e instalar atualizações: "@ + join(views(packages@), ", "@),
{
    let list = join_strings(packages, ", ");
    concat2("Baixar e instalar atualizações: ", list.as_str())
}

} // verus!
