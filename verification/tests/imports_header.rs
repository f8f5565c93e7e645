use gir::env::Config;
use gir::env::Env;
use gir::header::single_version_file;
use gir::header::start_comments;
use gir::header::start_comments_no_version;
use gir::header::write_vec;
use gir::imports::ImportEntry;
use gir::imports::uses;
use gir::version::Version;

fn v(major: u16, minor: u16, patch: u16) -> Version {
    Version { major, minor, patch }
}

fn test_env() -> Env {
    Env {
        config: Config {
            gir_version: "5bbf6cb".to_string(),
            girs_version: "31eb3b8".to_string(),
            min_cfg_version: v(3, 14, 0),
            single_version_file: None,
        },
        namespaces: vec!["gtk".to_string()],
        sys_crate_name: "gtk_sys".to_string(),
    }
}

fn entry(name: &str, version: Option<Version>, constraints: &[&str]) -> ImportEntry {
    ImportEntry {
        name: name.to_string(),
        version,
        constraints: constraints.iter().map(|c| c.to_string()).collect(),
    }
}

#[test]
fn uses_preserves_supplied_order() {
    let env = test_env();
    let imports = vec![
        entry("glib::translate::*", None, &[]),
        entry("gtk_sys", None, &[]),
        entry("Widget", None, &[]),
    ];
    let mut w = String::new();
    uses(&mut w, &env, &imports);
    assert_eq!(w, "\nuse glib::translate::*;\nuse gtk_sys;\nuse Widget;\n");
}

#[test]
fn uses_single_feature_constraint() {
    let env = test_env();
    let imports = vec![entry("gdk::Monitor", None, &["x11"])];
    let mut w = String::new();
    uses(&mut w, &env, &imports);
    assert_eq!(w, "\n#[cfg(feature = \"x11\")]\nuse gdk::Monitor;\n");
}

#[test]
fn uses_multiple_feature_constraints_fold_into_any() {
    let env = test_env();
    let imports = vec![entry("gdk::Display", None, &["x11", "wayland"])];
    let mut w = String::new();
    uses(&mut w, &env, &imports);
    assert_eq!(
        w,
        "\n#[cfg(any(feature = \"x11\", feature = \"wayland\"))]\nuse gdk::Display;\n"
    );
}

#[test]
fn uses_adds_version_guard_above_minimum() {
    let env = test_env();
    let imports = vec![
        entry("gtk::Stack", Some(v(3, 16, 0)), &[]),
        entry("gtk::Widget", Some(v(3, 10, 0)), &[]),
    ];
    let mut w = String::new();
    uses(&mut w, &env, &imports);
    assert_eq!(
        w,
        "\n#[cfg(any(feature = \"v3_16\", feature = \"dox\"))]\nuse gtk::Stack;\nuse gtk::Widget;\n"
    );
}

#[test]
fn uses_feature_guards_precede_version_guard() {
    let env = test_env();
    let imports = vec![entry("gdk::Seat", Some(v(3, 20, 0)), &["wayland"])];
    let mut w = String::new();
    uses(&mut w, &env, &imports);
    assert_eq!(
        w,
        "\n#[cfg(feature = \"wayland\")]\n#[cfg(any(feature = \"v3_20\", feature = \"dox\"))]\nuse gdk::Seat;\n"
    );
}

#[test]
fn header_carries_revision_stamps() {
    let env = test_env();
    let mut w = String::new();
    start_comments(&mut w, &env.config);
    let expected = "// This file was generated by gir (https://github.com/gtk-rs/gir @ 5bbf6cb)\n\
        // from gir-files (https://github.com/gtk-rs/gir-files @ 31eb3b8)\n\
        // DO NOT EDIT\n";
    assert_eq!(w, expected);
}

#[test]
fn header_omits_stamps_with_single_version_file() {
    let mut conf = test_env().config;
    conf.single_version_file = Some("versions.txt".to_string());
    let mut w = String::new();
    start_comments(&mut w, &conf);
    let expected = "// This file was generated by gir (https://github.com/gtk-rs/gir)\n\
        // from gir-files (https://github.com/gtk-rs/gir-files)\n\
        // DO NOT EDIT\n";
    assert_eq!(w, expected);
    let mut w2 = String::new();
    start_comments_no_version(&mut w2);
    assert_eq!(w2, expected);
}

#[test]
fn single_version_file_lists_both_stamps() {
    let env = test_env();
    let mut w = String::new();
    single_version_file(&mut w, &env.config);
    let expected = "Generated by gir (https://github.com/gtk-rs/gir @ 5bbf6cb)\n\
        from gir-files (https://github.com/gtk-rs/gir-files @ 31eb3b8)\n";
    assert_eq!(w, expected);
}

#[test]
fn write_vec_emits_each_line() {
    let lines = vec!["use glib;".to_string(), "use gtk_sys;".to_string()];
    let mut w = String::new();
    write_vec(&mut w, &lines);
    assert_eq!(w, "use glib;\nuse gtk_sys;\n");
    let mut w2 = String::new();
    write_vec(&mut w2, &[]);
    assert_eq!(w2, "");
}
