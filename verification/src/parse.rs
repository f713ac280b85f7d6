//! Readers for the text that system tools print: `mokutil`, `modinfo`,
//! `journalctl`, `cam`, `authselect`, `fprintd-list`, `gsettings`, `udevadm`,
//! `v4l2-ctl`, `wpctl` and the contents of `/proc/modules`.
use vstd::prelude::*;

use crate::model::{FingerprintEnrollmentState, ModuleOrigin};
use crate::text::{
    ascii_lower, ascii_lower_chars, char_views, chars_of, contains, contains_exec, is_blank,
    is_blank_exec, lines, lines_of, split, split_chars, starts_with, starts_with_exec,
    str_contains, string_from_chars, trim, trim_chars,
};

verus! {

// ---------------------------------------------------------------------------
// Secure Boot and MOK
// ---------------------------------------------------------------------------

/// What the summary says about `mokutil --sb-state` output.
pub open spec fn secure_boot_text(output: Seq<char>) -> Seq<char> {
    if contains(output, "SecureBoot enabled"@) {
        "Ativado"@
    } else if contains(output, "SecureBoot disabled"@) {
        "Desativado"@
    } else {
        "Não foi possível verificar"@
    }
}

/// Reads the Secure Boot state from `mokutil --sb-state` output.
pub fn parse_secure_boot(output: &str) -> (r: &'static str)
    ensures
        r@ == secure_boot_text(output@),
{
    if str_contains(output, "SecureBoot enabled") {
        "Ativado"
    } else if str_contains(output, "SecureBoot disabled") {
        "Desativado"
    } else {
        "Não foi possível verificar"
    }
}

/// The Secure Boot line of the summary, from the `mokutil --sb-state` output
/// where the command succeeded.
pub open spec fn secure_boot_summary(output: Option<Seq<char>>) -> Seq<char> {
    match output {
        Some(o) => secure_boot_text(o),
        None => "Não foi possível verificar"@,
    }
}

/// Builds the Secure Boot line of the summary.
pub fn detect_secure_boot(output: Option<&str>) -> (r: String)
    ensures
        r@ == secure_boot_summary(
            match output {
                Some(o) => Some(o@),
                None => None,
            },
        ),
{
    match output {
        Some(o) => String::from_str(parse_secure_boot(o)),
        None => String::from_str("Não foi possível verificar"),
    }
}

/// Whether Secure Boot is on, as far as `mokutil --sb-state` told.
pub open spec fn secure_boot_state(output: Option<Seq<char>>) -> Option<bool> {
    match output {
        Some(o) => if contains(o, "SecureBoot enabled"@) {
            Some(true)
        } else if contains(o, "SecureBoot disabled"@) {
            Some(false)
        } else {
            None
        },
        None => None,
    }
}

/// Whether Secure Boot is on; `None` where the state could not be read.
pub fn secure_boot_enabled(output: Option<&str>) -> (r: Option<bool>)
    ensures
        r == secure_boot_state(
            match output {
                Some(o) => Some(o@),
                None => None,
            },
        ),
{
    match output {
        None => None,
        Some(o) => {
            if str_contains(o, "SecureBoot enabled") {
                Some(true)
            } else if str_contains(o, "SecureBoot disabled") {
                Some(false)
            } else {
                None
            }
        },
    }
}

/// `mokutil --test-key` treats an enrolled key as success, but some Fedora
/// releases report "already enrolled" with a failing status.
pub fn mokutil_test_key_reports_enrolled(success: bool, output: &str) -> (r: bool)
    ensures
        r == (success || contains(ascii_lower(output@), "already enrolled"@)),
{
    if success {
        return true;
    }
    let chars = chars_of(output);
    let lower = ascii_lower_chars(chars.as_slice());
    let pat = chars_of("already enrolled");
    contains_exec(lower.as_slice(), pat.as_slice())
}

/// Whether the `mokutil --list-enrolled` output lists a certificate with the
/// given common name.
pub fn mok_enrolled_list_contains_key(output: &str, key_cn: &str) -> (r: bool)
    ensures
        r == contains(output@, "CN="@ + key_cn@),
{
    let mut pat = chars_of("CN=");
    let cn = chars_of(key_cn);
    let mut i: usize = 0;
    let ghost base = pat@;
    while i < cn.len()
        invariant
            0 <= i <= cn.len(),
            pat@ == base + cn@.take(i as int),
        decreases cn.len() - i,
    {
        pat.push(cn[i]);
        assert(cn@.take(i + 1) =~= cn@.take(i as int).push(cn@[i as int]));
        i = i + 1;
    }
    assert(cn@.take(cn.len() as int) =~= cn@);
    let out = chars_of(output);
    contains_exec(out.as_slice(), pat.as_slice())
}

// ---------------------------------------------------------------------------
// File names
// ---------------------------------------------------------------------------

/// The last path component that names something: `Path::file_name`, which
/// skips empty and `.` components and refuses a final `..`.
pub open spec fn file_name(path: Seq<char>) -> Option<Seq<char>> {
    last_named(split(path, '/'))
}

/// The last field that is neither empty nor `.`; `None` where it is `..` or
/// where there is none.
pub open spec fn last_named(fields: Seq<Seq<char>>) -> Option<Seq<char>>
    decreases fields.len(),
{
    if fields.len() == 0 {
        None
    } else if fields.last().len() == 0 || fields.last() == "."@ {
        last_named(fields.drop_last())
    } else if fields.last() == ".."@ {
        None
    } else {
        Some(fields.last())
    }
}

/// Position of the last `.` in `s`, or -1.
pub open spec fn last_dot(s: Seq<char>) -> int
    decreases s.len(),
{
    if s.len() == 0 {
        -1
    } else if s.last() == '.' {
        s.len() - 1
    } else {
        last_dot(s.drop_last())
    }
}

/// The file name without its extension: `Path::file_stem`.
pub open spec fn file_stem(path: Seq<char>) -> Option<Seq<char>> {
    match file_name(path) {
        None => None,
        Some(name) => if last_dot(name) <= 0 {
            Some(name)
        } else {
            Some(name.take(last_dot(name)))
        },
    }
}

proof fn lemma_last_dot_bounds(s: Seq<char>)
    ensures
        -1 <= last_dot(s) < s.len(),
        last_dot(s) >= 0 ==> s[last_dot(s)] == '.',
        forall|j: int| last_dot(s) < j < s.len() ==> s[j] != '.',
    decreases s.len(),
{
    if s.len() > 0 && s.last() != '.' {
        lemma_last_dot_bounds(s.drop_last());
        assert forall|j: int| last_dot(s) < j < s.len() implies s[j] != '.' by {
            if j < s.len() - 1 {
                assert(s[j] == s.drop_last()[j]);
            }
        }
    }
}

proof fn lemma_last_dot_is(s: Seq<char>, k: int)
    requires
        -1 <= k < s.len(),
        k >= 0 ==> s[k] == '.',
        forall|j: int| k < j < s.len() ==> s[j] != '.',
    ensures
        last_dot(s) == k,
    decreases s.len(),
{
    if s.len() > 0 && s.last() != '.' {
        lemma_last_dot_is(s.drop_last(), k);
    }
}

/// Whether two character vectors are equal.
fn chars_eq(a: &[char], b: &[char]) -> (r: bool)
    ensures
        r == (a@ == b@),
{
    if a.len() != b.len() {
        return false;
    }
    let mut i: usize = 0;
    while i < a.len()
        invariant
            a.len() == b.len(),
            0 <= i <= a.len(),
            forall|j: int| 0 <= j < i ==> a@[j] == b@[j],
        decreases a.len() - i,
    {
        if a[i] != b[i] {
            return false;
        }
        i = i + 1;
    }
    assert(a@ =~= b@);
    true
}

/// The common name of the akmods certificate: the stem of the file that the
/// public key path resolves to.
pub fn akmods_key_cn_from_path(path: &str) -> (r: Option<String>)
    ensures
        r matches Some(s) ==> file_stem(path@) == Some(s@),
        r is None ==> file_stem(path@) is None,
{
    let chars = chars_of(path);
    let fields = split_chars(chars.as_slice(), '/');
    let dot = chars_of(".");
    let dotdot = chars_of("..");
    let mut n: usize = fields.len();
    proof {
        assert(char_views(fields@).take(n as int) =~= char_views(fields@));
    }
    while n > 0
        invariant
            0 <= n <= fields.len(),
            char_views(fields@) == split(path@, '/'),
            dot@ == "."@,
            dotdot@ == ".."@,
            last_named(split(path@, '/')) == last_named(char_views(fields@).take(n as int)),
        decreases n,
    {
        let f = &fields[n - 1];
        let ghost pre = char_views(fields@).take(n as int);
        assert(pre.last() == f@);
        assert(pre.drop_last() =~= char_views(fields@).take(n - 1));
        if f.len() == 0 || chars_eq(f.as_slice(), dot.as_slice()) {
            n = n - 1;
        } else if chars_eq(f.as_slice(), dotdot.as_slice()) {
            return None;
        } else {
            let mut k: usize = f.len();
            while k > 0 && f[k - 1] != '.'
                invariant
                    0 <= k <= f.len(),
                    forall|j: int| k <= j < f.len() ==> f@[j] != '.',
                decreases k,
            {
                k = k - 1;
            }
            proof {
                lemma_last_dot_is(f@, k - 1);
            }
            if k <= 1 {
                return Some(string_from_chars(f.as_slice()));
            } else {
                let stem = crate::text::sub_chars(f.as_slice(), 0, k - 1);
                assert(stem@ =~= f@.take(k - 1));
                return Some(string_from_chars(stem.as_slice()));
            }
        }
    }
    None
}

// ---------------------------------------------------------------------------
// Camera module
// ---------------------------------------------------------------------------

/// Where the module at `modinfo -n ov02c10` comes from.
pub open spec fn module_origin(path: Option<Seq<char>>) -> ModuleOrigin {
    match path {
        Some(p) => if contains(p, "/extra/"@) || contains(p, "/updates/"@) {
            ModuleOrigin::Patched
        } else if contains(p, "/kernel/"@) {
            ModuleOrigin::InTree
        } else {
            ModuleOrigin::Unknown
        },
        None => ModuleOrigin::Missing,
    }
}

/// Classifies the module path: `/extra/` or `/updates/` is the packaged
/// driver, `/kernel/` the in-tree one.
pub fn module_origin_from_path(path: Option<&str>) -> (r: ModuleOrigin)
    ensures
        r == module_origin(
            match path {
                Some(p) => Some(p@),
                None => None,
            },
        ),
{
    match path {
        Some(p) => {
            if str_contains(p, "/extra/") || str_contains(p, "/updates/") {
                ModuleOrigin::Patched
            } else if str_contains(p, "/kernel/") {
                ModuleOrigin::InTree
            } else {
                ModuleOrigin::Unknown
            }
        },
        None => ModuleOrigin::Missing,
    }
}

/// The kernel log shows the in-tree driver refusing the 26 MHz clock.
pub open spec fn clock_error(log: Seq<char>) -> bool {
    contains(log, "external clock 26000000 is not supported"@) || contains(
        log,
        "probe with driver ov02c10 failed with error -22"@,
    )
}

/// Whether the kernel log shows the known clock/probe failure of `ov02c10`.
pub fn detect_clock_error(kernel_log: &str) -> (r: bool)
    ensures
        r == clock_error(kernel_log@),
{
    str_contains(kernel_log, "external clock 26000000 is not supported") || str_contains(
        kernel_log,
        "probe with driver ov02c10 failed with error -22",
    )
}

/// The akmods journal shows that building the camera module failed.
pub open spec fn akmods_log_failed(log: Seq<char>) -> bool {
    ||| contains(log, "Building and installing galaxybook-ov02c10-kmod [FAILED]"@)
    ||| contains(log, "Building rpms failed"@)
    ||| (contains(log, "galaxybook-ov02c10/"@) && contains(log, "failed.log"@))
}

/// Whether the akmods journal of this boot shows a failed build of the camera
/// module.
pub fn akmods_failed(log: &str) -> (r: bool)
    ensures
        r == akmods_log_failed(log@),
{
    str_contains(log, "Building and installing galaxybook-ov02c10-kmod [FAILED]")
        || str_contains(log, "Building rpms failed") || (str_contains(
        log,
        "galaxybook-ov02c10/",
    ) && str_contains(log, "failed.log"))
}

/// `cam -l` lists the internal camera.
pub open spec fn libcamera_lists_camera(output: Seq<char>) -> bool {
    contains(output, "Internal front camera"@) || contains(output, "'ov02c10'"@)
}

/// Whether `cam -l` output lists the internal camera.
pub fn libcamera_output_has_camera(output: &str) -> (r: bool)
    ensures
        r == libcamera_lists_camera(output@),
{
    str_contains(output, "Internal front camera") || str_contains(output, "'ov02c10'")
}

// ---------------------------------------------------------------------------
// Lines
// ---------------------------------------------------------------------------

/// Some line of `s` begins with `p`.
pub open spec fn some_line_starts_with(s: Seq<char>, p: Seq<char>) -> bool {
    exists|i: int| 0 <= i < lines(s).len() && starts_with(#[trigger] lines(s)[i], p)
}

/// Whether some line of `text` begins with `prefix`.
pub fn any_line_starts_with(text: &str, prefix: &str) -> (r: bool)
    ensures
        r == some_line_starts_with(text@, prefix@),
{
    let chars = chars_of(text);
    let ls = lines_of(chars.as_slice());
    let p = chars_of(prefix);
    let mut i: usize = 0;
    while i < ls.len()
        invariant
            0 <= i <= ls.len(),
            char_views(ls@) == lines(text@),
            p@ == prefix@,
            forall|j: int| 0 <= j < i ==> !starts_with(lines(text@)[j], prefix@),
        decreases ls.len() - i,
    {
        assert(char_views(ls@)[i as int] == ls@[i as int]@);
        if starts_with_exec(ls[i].as_slice(), p.as_slice()) {
            return true;
        }
        i = i + 1;
    }
    false
}

/// `/proc/modules` lists the module `name` as loaded.
pub open spec fn module_listed(proc_modules: Seq<char>, name: Seq<char>) -> bool {
    some_line_starts_with(trim(proc_modules), name + " "@)
}

/// Whether the contents of `/proc/modules` list the module `name` (given with
/// the underscores the kernel uses) as loaded.
pub fn module_loaded(proc_modules: &str, name: &str) -> (r: bool)
    ensures
        r == module_listed(proc_modules@, name@),
{
    let trimmed = crate::text::trim_str(proc_modules);
    let prefix = crate::model::concat2(name, " ");
    any_line_starts_with(trimmed.as_str(), prefix.as_str())
}

/// Some pattern occurs in `s`.
pub open spec fn matches_any(s: Seq<char>, patterns: Seq<Seq<char>>) -> bool {
    exists|j: int| 0 <= j < patterns.len() && contains(s, #[trigger] patterns[j])
}

/// The first trimmed line that holds one of the patterns.
pub open spec fn first_matching(ls: Seq<Seq<char>>, patterns: Seq<Seq<char>>) -> Option<Seq<char>>
    decreases ls.len(),
{
    if ls.len() == 0 {
        None
    } else if matches_any(trim(ls[0]), patterns) {
        Some(trim(ls[0]))
    } else {
        first_matching(ls.drop_first(), patterns)
    }
}

/// The first line of `output`, trimmed, that contains one of the patterns.
pub open spec fn first_matching_line(output: Seq<char>, patterns: Seq<Seq<char>>) -> Option<
    Seq<char>,
> {
    first_matching(lines(output), patterns)
}

proof fn lemma_first_matching_skip(ls: Seq<Seq<char>>, patterns: Seq<Seq<char>>, i: int)
    requires
        0 <= i < ls.len(),
        !matches_any(trim(ls[i]), patterns),
    ensures
        first_matching(ls.skip(i), patterns) == first_matching(ls.skip(i + 1), patterns),
{
    assert(ls.skip(i).drop_first() =~= ls.skip(i + 1));
}

/// Finds the first line of `output`, trimmed, that holds one of `patterns`.
pub fn extract_first_matching_line(output: &str, patterns: &Vec<&str>) -> (r: Option<String>)
    ensures
        r matches Some(s) ==> first_matching_line(output@, crate::text::str_views(patterns@))
            == Some(s@),
        r is None ==> first_matching_line(output@, crate::text::str_views(patterns@)) is None,
{
    let ghost pats = crate::text::str_views(patterns@);
    let chars = chars_of(output);
    let ls = lines_of(chars.as_slice());
    let mut pvs: Vec<Vec<char>> = Vec::new();
    let mut k: usize = 0;
    while k < patterns.len()
        invariant
            0 <= k <= patterns.len(),
            pats == crate::text::str_views(patterns@),
            char_views(pvs@) =~= pats.take(k as int),
        decreases patterns.len() - k,
    {
        let pv = chars_of(patterns[k]);
        let ghost prev = char_views(pvs@);
        pvs.push(pv);
        assert(char_views(pvs@) =~= prev.push(pv@));
        assert(pats.take(k + 1) =~= pats.take(k as int).push(pats[k as int]));
        k = k + 1;
    }
    assert(pats.take(patterns.len() as int) =~= pats);
    let ghost all = char_views(ls@);
    assert(all.skip(0) =~= all);
    let mut i: usize = 0;
    while i < ls.len()
        invariant
            0 <= i <= ls.len(),
            all == char_views(ls@),
            all == lines(output@),
            pats == crate::text::str_views(patterns@),
            char_views(pvs@) == pats,
            first_matching(all, pats) == first_matching(all.skip(i as int), pats),
        decreases ls.len() - i,
    {
        let t = trim_chars(ls[i].as_slice());
        assert(all[i as int] == ls@[i as int]@);
        let mut j: usize = 0;
        let mut found = false;
        while j < pvs.len()
            invariant
                0 <= j <= pvs.len(),
                char_views(pvs@) == pats,
                found == (exists|q: int| 0 <= q < j && contains(t@, #[trigger] pats[q])),
            decreases pvs.len() - j,
        {
            assert(pats[j as int] == pvs@[j as int]@);
            if contains_exec(t.as_slice(), pvs[j].as_slice()) {
                found = true;
            }
            j = j + 1;
        }
        if found {
            assert(t@ == trim(all[i as int]));
            assert(matches_any(t@, pats));
            assert(all.skip(i as int)[0] == all[i as int]);
            assert(first_matching(all.skip(i as int), pats) == Some(t@));
            return Some(string_from_chars(t.as_slice()));
        }
        proof {
            lemma_first_matching_skip(all, pats, i as int);
        }
        i = i + 1;
    }
    assert(all.skip(ls.len() as int).len() == 0);
    None
}

// ---------------------------------------------------------------------------
// Fingerprint
// ---------------------------------------------------------------------------

/// `authselect current` lists the `with-fingerprint` feature.
pub open spec fn authselect_lists_fingerprint(output: Seq<char>) -> bool {
    (exists|i: int|
        0 <= i < lines(output).len() && trim(#[trigger] lines(output)[i]) == "- with-fingerprint"@)
        || contains(output, "with-fingerprint"@)
}

/// Whether `authselect current` output shows the fingerprint feature enabled.
pub fn authselect_has_fingerprint(output: &str) -> (r: bool)
    ensures
        r == authselect_lists_fingerprint(output@),
{
    let r = str_contains(output, "with-fingerprint");
    proof {
        if !r {
            assert forall|i: int|
                0 <= i < lines(output@).len() implies trim(
                #[trigger] lines(output@)[i],
            ) != "- with-fingerprint"@ by {
                lemma_line_within(output@, i);
                if trim(lines(output@)[i]) == "- with-fingerprint"@ {
                    lemma_contains_trans(lines(output@)[i], trim(lines(output@)[i]));
                    reveal_strlit("- with-fingerprint");
                    reveal_strlit("with-fingerprint");
                    assert("- with-fingerprint"@.subrange(2, 18) =~= "with-fingerprint"@);
                    lemma_contains_sub("- with-fingerprint"@, "with-fingerprint"@, 2);
                    lemma_contains_chain(
                        output@,
                        lines(output@)[i],
                        trim(lines(output@)[i]),
                        "with-fingerprint"@,
                    );
                }
            }
        }
    }
    r
}

/// The enrollment state `fprintd-list` reports; the checks run on the
/// lower-cased output, in this order.
pub open spec fn enrollment_state(output: Seq<char>) -> FingerprintEnrollmentState {
    let n = ascii_lower(output);
    if contains(n, "has no fingers enrolled"@) {
        FingerprintEnrollmentState::NotEnrolled
    } else if contains(n, "device or resource busy"@) {
        FingerprintEnrollmentState::Busy
    } else if contains(n, "no devices available"@) || contains(n, "found 0 devices"@) || contains(
        n,
        "no devices found"@,
    ) {
        FingerprintEnrollmentState::NoDevice
    } else if contains(n, "using device"@) || contains(n, "found 1 devices"@) || contains(
        n,
        "found 2 devices"@,
    ) || contains(n, "finger"@) {
        FingerprintEnrollmentState::Enrolled
    } else {
        FingerprintEnrollmentState::Unavailable
    }
}

/// Reads the enrollment state from `fprintd-list` output.
pub fn fingerprint_enrollment_state(output: &str) -> (r: FingerprintEnrollmentState)
    ensures
        r == enrollment_state(output@),
{
    let chars = chars_of(output);
    let n = ascii_lower_chars(chars.as_slice());
    let ns = n.as_slice();
    if contains_exec(ns, chars_of("has no fingers enrolled").as_slice()) {
        FingerprintEnrollmentState::NotEnrolled
    } else if contains_exec(ns, chars_of("device or resource busy").as_slice()) {
        FingerprintEnrollmentState::Busy
    } else if contains_exec(ns, chars_of("no devices available").as_slice()) || contains_exec(
        ns,
        chars_of("found 0 devices").as_slice(),
    ) || contains_exec(ns, chars_of("no devices found").as_slice()) {
        FingerprintEnrollmentState::NoDevice
    } else if contains_exec(ns, chars_of("using device").as_slice()) || contains_exec(
        ns,
        chars_of("found 1 devices").as_slice(),
    ) || contains_exec(ns, chars_of("found 2 devices").as_slice()) || contains_exec(
        ns,
        chars_of("finger").as_slice(),
    ) {
        FingerprintEnrollmentState::Enrolled
    } else {
        FingerprintEnrollmentState::Unavailable
    }
}

/// The user name from `$USER`, trimmed; `None` where it is unset or blank.
pub open spec fn user_name(raw: Option<Seq<char>>) -> Option<Seq<char>> {
    match raw {
        Some(v) => if trim(v).len() == 0 {
            None
        } else {
            Some(trim(v))
        },
        None => None,
    }
}

/// The current user's name, from the raw value of `$USER`.
pub fn current_user_name(raw: Option<&str>) -> (r: Option<String>)
    ensures
        r matches Some(s) ==> user_name(
            match raw {
                Some(v) => Some(v@),
                None => None,
            },
        ) == Some(s@),
        r is None ==> user_name(
            match raw {
                Some(v) => Some(v@),
                None => None,
            },
        ) is None,
{
    match raw {
        None => None,
        Some(v) => {
            let t = crate::text::trim_str(v);
            if t.as_str().is_empty() {
                None
            } else {
                Some(t)
            }
        },
    }
}

// ---------------------------------------------------------------------------
// Containment lemmas
// ---------------------------------------------------------------------------

/// A trimmed sequence occurs in the original.
pub proof fn lemma_trim_piece(s: Seq<char>)
    ensures
        contains(s, trim(s)),
{
    let i = lemma_trim_start_piece(s);
    let a = crate::text::trim_start(s);
    lemma_trim_end_prefix(a);
    assert(s.subrange(i, i + trim(s).len()) =~= a.take(trim(s).len() as int));
    assert(crate::text::occurs_at(s, trim(s), i));
}

proof fn lemma_trim_start_piece(s: Seq<char>) -> (i: int)
    ensures
        0 <= i,
        i + crate::text::trim_start(s).len() == s.len(),
        s.skip(i) =~= crate::text::trim_start(s),
    decreases s.len(),
{
    if s.len() > 0 && crate::text::is_ws(s[0]) {
        let i = lemma_trim_start_piece(s.drop_first());
        assert(s.skip(i + 1) =~= s.drop_first().skip(i));
        i + 1
    } else {
        assert(s.skip(0) =~= s);
        0
    }
}

proof fn lemma_trim_end_prefix(s: Seq<char>)
    ensures
        crate::text::trim_end(s).len() <= s.len(),
        s.take(crate::text::trim_end(s).len() as int) =~= crate::text::trim_end(s),
    decreases s.len(),
{
    if s.len() > 0 && crate::text::is_ws(s.last()) {
        lemma_trim_end_prefix(s.drop_last());
    }
}

/// If `t` occurs in `s` and `p` occurs in `t`, then `p` occurs in `s`.
pub proof fn lemma_contains_chain2(s: Seq<char>, t: Seq<char>, p: Seq<char>)
    requires
        contains(s, t),
        contains(t, p),
    ensures
        contains(s, p),
{
    let i: int = choose|i: int| crate::text::occurs_at(s, t, i);
    let j: int = choose|j: int| crate::text::occurs_at(t, p, j);
    assert(s.subrange(i + j, i + j + p.len()) =~= t.subrange(j, j + p.len()));
    assert(crate::text::occurs_at(s, p, i + j));
}

proof fn lemma_contains_trans(line: Seq<char>, t: Seq<char>)
    requires
        t == trim(line),
    ensures
        contains(line, t),
{
    lemma_trim_piece(line);
}

proof fn lemma_contains_sub(s: Seq<char>, p: Seq<char>, i: int)
    requires
        crate::text::occurs_at(s, p, i),
    ensures
        contains(s, p),
{
}

proof fn lemma_contains_chain(s: Seq<char>, l: Seq<char>, t: Seq<char>, p: Seq<char>)
    requires
        contains(s, l),
        contains(l, t),
        contains(t, p),
    ensures
        contains(s, p),
{
    lemma_contains_chain2(l, t, p);
    lemma_contains_chain2(s, l, p);
}

/// Every line of `s` occurs in `s`.
pub proof fn lemma_line_within(s: Seq<char>, i: int)
    requires
        0 <= i < lines(s).len(),
    ensures
        contains(s, lines(s)[i]),
    decreases s.len(),
{
    let k = crate::text::index_of(s, '\n');
    crate::text::lemma_index_of_bounds(s, '\n');
    if k >= s.len() {
        assert(s.subrange(0, s.len() as int) =~= s);
        assert(crate::text::occurs_at(s, s, 0));
    } else {
        let first = crate::text::strip_cr(s.take(k as int));
        if i == 0 {
            assert(s.subrange(0, first.len() as int) =~= first);
            assert(crate::text::occurs_at(s, first, 0));
        } else {
            let rest = s.skip((k + 1) as int);
            assert(lines(s)[i] == lines(rest)[i - 1]);
            lemma_line_within(rest, i - 1);
            let l = lines(rest)[i - 1];
            let j: int = choose|j: int| crate::text::occurs_at(rest, l, j);
            assert(s.subrange(k + 1 + j, k + 1 + j + l.len()) =~= rest.subrange(j, j + l.len()));
            assert(crate::text::occurs_at(s, l, k + 1 + j));
        }
    }
}

// ---------------------------------------------------------------------------
// Devices and services
// ---------------------------------------------------------------------------

/// `udevadm info -q property` shows the `uaccess` tag among the current tags.
pub open spec fn has_uaccess(output: Seq<char>) -> bool {
    exists|i: int|
        0 <= i < lines(output).len() && starts_with(#[trigger] lines(output)[i], "CURRENT_TAGS="@)
            && contains(lines(output)[i].skip(13), "uaccess"@)
}

/// Whether the udev properties of a video node grant `uaccess`.
pub fn video_device_has_uaccess(udev_properties: Option<&str>) -> (r: bool)
    ensures
        r == (udev_properties matches Some(o) && has_uaccess(o@)),
{
    match udev_properties {
        None => false,
        Some(o) => {
            let chars = chars_of(o);
            let ls = lines_of(chars.as_slice());
            let tag = chars_of("CURRENT_TAGS=");
            let ua = chars_of("uaccess");
            let mut i: usize = 0;
            while i < ls.len()
                invariant
                    0 <= i <= ls.len(),
                    udev_properties == Some(o),
                    char_views(ls@) == lines(o@),
                    tag@ == "CURRENT_TAGS="@,
                    ua@ == "uaccess"@,
                    forall|j: int|
                        0 <= j < i ==> !(starts_with(lines(o@)[j], "CURRENT_TAGS="@) && contains(
                            lines(o@)[j].skip(13),
                            "uaccess"@,
                        )),
                decreases ls.len() - i,
            {
                let line = &ls[i];
                assert(char_views(ls@)[i as int] == line@);
                if starts_with_exec(line.as_slice(), tag.as_slice()) {
                    proof {
                        reveal_strlit("CURRENT_TAGS=");
                    }
                    let rest = crate::text::sub_chars(line.as_slice(), 13, line.len());
                    assert(rest@ =~= line@.skip(13));
                    if contains_exec(rest.as_slice(), ua.as_slice()) {
                        assert(starts_with(lines(o@)[i as int], "CURRENT_TAGS="@) && contains(
                            lines(o@)[i as int].skip(13),
                            "uaccess"@,
                        ));
                        assert((i as int) < lines(o@).len());
                        assert(has_uaccess(o@));
                        return true;
                    }
                }
                i = i + 1;
            }
            false
        },
    }
}

/// `v4l2-ctl -D` describes a capture device.
pub fn v4l2_device_supports_capture(output: Option<&str>) -> (r: bool)
    ensures
        r == (output matches Some(o) && contains(o@, "Video Capture"@)),
{
    match output {
        Some(o) => str_contains(o, "Video Capture"),
        None => false,
    }
}

/// `wpctl status` lists the camera among the system's video sources.
pub open spec fn camera_source_listed(output: Seq<char>) -> bool {
    ||| contains(output, "Intel MIPI Camera"@)
    ||| contains(output, "ov02c10 [libcamera]"@)
    ||| contains(output, "Câmera frontal interna"@)
}

/// Whether PipeWire already offers the camera as a system source.
pub fn detect_system_camera_source_ready(wpctl_status: Option<&str>) -> (r: bool)
    ensures
        r == (wpctl_status matches Some(o) && camera_source_listed(o@)),
{
    match wpctl_status {
        Some(o) => str_contains(o, "Intel MIPI Camera") || str_contains(
            o,
            "ov02c10 [libcamera]",
        ) || str_contains(o, "Câmera frontal interna"),
        None => false,
    }
}

/// The modules-load journal shows that the MAX98390 modules were not found.
pub open spec fn speaker_modules_missing(journal: Seq<char>) -> bool {
    contains(journal, "Failed to find module 'snd_hda_scodec_max98390'"@) || contains(
        journal,
        "Failed to find module 'snd_hda_scodec_max98390_i2c'"@,
    )
}

/// Whether this boot failed to find the MAX98390 modules.
pub fn speaker_modules_missing_in_boot(journal: Option<&str>) -> (r: bool)
    ensures
        r == (journal matches Some(o) && speaker_modules_missing(o@)),
{
    match journal {
        Some(o) => str_contains(o, "Failed to find module 'snd_hda_scodec_max98390'")
            || str_contains(o, "Failed to find module 'snd_hda_scodec_max98390_i2c'"),
        None => false,
    }
}

// ---------------------------------------------------------------------------
// gsettings
// ---------------------------------------------------------------------------

/// Every second field, starting with the second, that is not blank.
pub open spec fn quoted_items(fields: Seq<Seq<char>>) -> Seq<Seq<char>>
    decreases fields.len(),
{
    if fields.len() < 2 {
        seq![]
    } else {
        let rest = quoted_items(fields.skip(2));
        if is_blank(fields[1]) {
            rest
        } else {
            seq![fields[1]] + rest
        }
    }
}

/// The strings of a `gsettings get` array such as `['a', 'b']`: the text
/// between each opening and closing quote, blank ones left out.
pub open spec fn gsettings_strings(output: Seq<char>) -> Seq<Seq<char>> {
    quoted_items(split(output, '\''))
}

/// Reads the strings of a `gsettings get` string array.
pub fn parse_gsettings_string_array(output: &str) -> (r: Vec<String>)
    ensures
        crate::text::views(r@) == gsettings_strings(output@),
{
    let chars = chars_of(output);
    let fields = split_chars(chars.as_slice(), '\'');
    let ghost all = char_views(fields@);
    let mut r: Vec<String> = Vec::new();
    let mut i: usize = 1;
    assert(all.skip(0) =~= all);
    assert(crate::text::views(r@) =~= Seq::<Seq<char>>::empty());
    while i < fields.len()
        invariant
            1 <= i,
            i <= fields.len() + 1,
            all == char_views(fields@),
            all == split(output@, '\''),
            gsettings_strings(output@) == crate::text::views(r@) + quoted_items(all.skip(i - 1)),
        decreases fields.len() + 1 - i,
    {
        let ghost tail = all.skip(i - 1);
        assert(tail[1] == all[i as int]);
        assert(tail.skip(2) =~= all.skip(i + 1));
        assert(all[i as int] == fields@[i as int]@);
        let ghost prev = crate::text::views(r@);
        if !is_blank_exec(fields[i].as_slice()) {
            let s = string_from_chars(fields[i].as_slice());
            r.push(s);
            assert(crate::text::views(r@) =~= prev.push(s@));
            assert(prev + quoted_items(tail) =~= crate::text::views(r@) + quoted_items(all.skip(i + 1)));
        }
        if i + 1 == fields.len() {
            i = i + 1;
        } else {
            i = i + 2;
        }
    }
    proof {
        let tail = all.skip(i - 1);
        assert(tail.len() < 2);
    }
    assert(crate::text::views(r@) + quoted_items(all.skip(i - 1)) =~= crate::text::views(r@));
    r
}

} // verus!
