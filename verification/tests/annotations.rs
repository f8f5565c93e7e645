use gir::annotations::cfg_condition;
use gir::annotations::cfg_condition_string;
use gir::annotations::cfg_deprecated;
use gir::annotations::cfg_deprecated_string;
use gir::annotations::doc_hidden;
use gir::annotations::not_version_condition;
use gir::annotations::version_condition;
use gir::annotations::version_condition_string;
use gir::env::Config;
use gir::env::Env;
use gir::version::Version;

fn v(major: u16, minor: u16, patch: u16) -> Version {
    Version { major, minor, patch }
}

fn test_env() -> Env {
    Env {
        config: Config {
            gir_version: "5bbf6cb".to_string(),
            girs_version: "31eb3b8".to_string(),
            min_cfg_version: v(3, 14, 0),
            single_version_file: None,
        },
        namespaces: vec!["gtk".to_string(), "gdk".to_string()],
        sys_crate_name: "gtk_sys".to_string(),
    }
}

#[test]
fn version_guard_above_minimum() {
    let env = test_env();
    assert_eq!(
        version_condition_string(&env, Some(v(3, 16, 0)), false, 0),
        Some("#[cfg(any(feature = \"v3_16\", feature = \"dox\"))]".to_string())
    );
}

#[test]
fn version_guard_at_minimum_is_absent() {
    let env = test_env();
    assert_eq!(version_condition_string(&env, Some(v(3, 14, 0)), false, 0), None);
}

#[test]
fn version_guard_below_minimum_is_absent() {
    let env = test_env();
    assert_eq!(version_condition_string(&env, Some(v(3, 4, 0)), false, 0), None);
}

#[test]
fn version_guard_without_constraint_is_absent() {
    let env = test_env();
    assert_eq!(version_condition_string(&env, None, false, 0), None);
}

#[test]
fn version_guard_commented_and_indented() {
    let env = test_env();
    assert_eq!(
        version_condition_string(&env, Some(v(3, 16, 0)), true, 2),
        Some("\t\t//#[cfg(any(feature = \"v3_16\", feature = \"dox\"))]".to_string())
    );
}

#[test]
fn version_guard_spells_out_nonzero_patch() {
    let env = test_env();
    assert_eq!(
        version_condition_string(&env, Some(v(3, 22, 1)), false, 0),
        Some("#[cfg(any(feature = \"v3_22_1\", feature = \"dox\"))]".to_string())
    );
}

#[test]
fn version_guard_writes_one_line() {
    let env = test_env();
    let mut w = String::new();
    version_condition(&mut w, &env, Some(v(3, 16, 0)), false, 1);
    assert_eq!(w, "\t#[cfg(any(feature = \"v3_16\", feature = \"dox\"))]\n");
    let mut w2 = String::new();
    version_condition(&mut w2, &env, Some(v(3, 10, 0)), false, 1);
    assert_eq!(w2, "");
}

#[test]
fn deprecation_below_minimum_is_unconditional() {
    let env = test_env();
    assert_eq!(
        cfg_deprecated_string(Some(v(3, 10, 0)), &env, false, 0),
        Some("#[deprecated]".to_string())
    );
}

#[test]
fn deprecation_above_minimum_is_guarded() {
    let env = test_env();
    assert_eq!(
        cfg_deprecated_string(Some(v(3, 16, 0)), &env, false, 0),
        Some("#[cfg_attr(feature = \"v3_16\", deprecated)]".to_string())
    );
}

#[test]
fn deprecation_without_constraint_is_absent() {
    let env = test_env();
    assert_eq!(cfg_deprecated_string(None, &env, false, 0), None);
    let mut w = String::new();
    cfg_deprecated(&mut w, &env, None, false, 0);
    assert_eq!(w, "");
}

#[test]
fn deprecation_commented_under_outer_guard() {
    let env = test_env();
    assert_eq!(
        cfg_deprecated_string(Some(v(3, 10, 0)), &env, true, 1),
        Some("\t//#[deprecated]".to_string())
    );
}

#[test]
fn negated_version_guard_selects_older_implementation() {
    let mut w = String::new();
    not_version_condition(&mut w, Some(v(3, 16, 0)), false, 0);
    assert_eq!(w, "#[cfg(any(not(feature = \"v3_16\"), feature = \"dox\"))]\n");
    let mut w2 = String::new();
    not_version_condition(&mut w2, None, false, 0);
    assert_eq!(w2, "");
}

#[test]
fn feature_guard_wraps_condition() {
    assert_eq!(
        cfg_condition_string(&Some("wayland".to_string()), false, 0),
        Some("#[cfg(any(wayland, feature = \"dox\"))]".to_string())
    );
    assert_eq!(cfg_condition_string(&None, false, 0), None);
    let mut w = String::new();
    cfg_condition(&mut w, &Some("x11".to_string()), true, 1);
    assert_eq!(w, "\t//#[cfg(any(x11, feature = \"dox\"))]\n");
}

#[test]
fn doc_hidden_only_when_asked() {
    let mut w = String::new();
    doc_hidden(&mut w, true, "", 0);
    assert_eq!(w, "#[doc(hidden)]\n");
    let mut w2 = String::new();
    doc_hidden(&mut w2, false, "", 0);
    assert_eq!(w2, "");
    let mut w3 = String::new();
    doc_hidden(&mut w3, true, "//", 1);
    assert_eq!(w3, "\t//#[doc(hidden)]\n");
}
