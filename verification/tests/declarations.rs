use gir::ancestors::AncestorKind;
use gir::ancestors::Status;
use gir::ancestors::StatusedTypeId;
use gir::ancestors::format_parent_name;
use gir::ancestors::selected_parent_names;
use gir::declarations::define_auto_boxed_type;
use gir::declarations::define_boxed_type;
use gir::declarations::define_object_type;
use gir::declarations::define_shared_type;
use gir::default_impl::FunctionInfo;
use gir::default_impl::declare_default_from_new;
use gir::derives::Derive;
use gir::derives::derives;
use gir::env::Config;
use gir::env::Env;
use gir::version::Version;

fn v(major: u16, minor: u16, patch: u16) -> Version {
    Version { major, minor, patch }
}

fn test_env() -> Env {
    Env {
        config: Config {
            gir_version: "5bbf6cb".to_string(),
            girs_version: "31eb3b8".to_string(),
            min_cfg_version: v(3, 14, 0),
            single_version_file: None,
        },
        namespaces: vec!["gtk".to_string(), "gdk".to_string()],
        sys_crate_name: "gtk_sys".to_string(),
    }
}

fn ancestor(name: &str, ns_id: usize, status: Status, kind: AncestorKind) -> StatusedTypeId {
    StatusedTypeId { name: name.to_string(), ns_id, status, kind }
}

#[test]
fn object_type_with_class_and_interface_parents() {
    let env = test_env();
    let parents = vec![
        ancestor("Object", 0, Status::Available, AncestorKind::Class),
        ancestor("Buildable", 0, Status::Available, AncestorKind::Interface),
    ];
    let mut w = String::new();
    define_object_type(
        &mut w,
        &env,
        "Widget",
        "GtkWidget",
        &None,
        &None,
        "gtk_widget_get_type",
        false,
        &parents,
    );
    let expected = "\nglib_wrapper! {\n\
        \tpub struct Widget(Object<gtk_sys::GtkWidget>) @extends Object, @implements Buildable;\n\
        \n\
        \tmatch fn {\n\
        \t\tget_type => || gtk_sys::gtk_widget_get_type(),\n\
        \t}\n\
        }\n";
    assert_eq!(w, expected);
}

#[test]
fn object_type_without_parents_or_overrides() {
    let env = test_env();
    let mut w = String::new();
    define_object_type(
        &mut w,
        &env,
        "Adjustment",
        "GtkAdjustment",
        &None,
        &None,
        "gtk_adjustment_get_type",
        false,
        &[],
    );
    let expected = "\nglib_wrapper! {\n\
        \tpub struct Adjustment(Object<gtk_sys::GtkAdjustment>);\n\
        \n\
        \tmatch fn {\n\
        \t\tget_type => || gtk_sys::gtk_adjustment_get_type(),\n\
        \t}\n\
        }\n";
    assert_eq!(w, expected);
}

#[test]
fn object_type_with_class_name_overrides() {
    let env = test_env();
    let mut w = String::new();
    define_object_type(
        &mut w,
        &env,
        "Widget",
        "GtkWidget",
        &Some("GtkWidgetClass"),
        &Some("WidgetClass"),
        "gtk_widget_get_type",
        false,
        &[],
    );
    assert!(w.contains(
        "\tpub struct Widget(Object<gtk_sys::GtkWidget, gtk_sys::GtkWidgetClass, WidgetClass>);"
    ));
}

#[test]
fn interface_parents_become_prerequisites() {
    let env = test_env();
    let parents = vec![
        ancestor("Widget", 0, Status::Available, AncestorKind::Class),
        ancestor("Actionable", 0, Status::Available, AncestorKind::Interface),
    ];
    let mut w = String::new();
    define_object_type(
        &mut w,
        &env,
        "Orientable",
        "GtkOrientable",
        &None,
        &None,
        "gtk_orientable_get_type",
        true,
        &parents,
    );
    assert!(w.contains(
        "\tpub struct Orientable(Interface<gtk_sys::GtkOrientable>) @requires Widget, Actionable;"
    ));
}

#[test]
fn ignored_ancestors_are_dropped() {
    let env = test_env();
    let parents = vec![
        ancestor("Object", 0, Status::Ignored, AncestorKind::Class),
        ancestor("Buildable", 0, Status::Available, AncestorKind::Interface),
    ];
    let mut w = String::new();
    define_object_type(
        &mut w,
        &env,
        "Widget",
        "GtkWidget",
        &None,
        &None,
        "gtk_widget_get_type",
        false,
        &parents,
    );
    assert!(w.contains("\tpub struct Widget(Object<gtk_sys::GtkWidget>) @implements Buildable;"));
    assert!(!w.contains("@extends"));
}

#[test]
fn foreign_namespace_ancestors_are_qualified() {
    let env = test_env();
    let parents = vec![ancestor("Screen", 1, Status::Available, AncestorKind::Class)];
    let names = selected_parent_names(&env, &parents, None);
    assert_eq!(names, vec!["gdk::Screen".to_string()]);
    assert_eq!(format_parent_name(&env, &parents[0]), "gdk::Screen");
    let local = ancestor("Widget", 0, Status::Available, AncestorKind::Class);
    assert_eq!(format_parent_name(&env, &local), "Widget");
}

#[test]
fn boxed_type_without_accessor_has_two_bindings() {
    let env = test_env();
    let mut w = String::new();
    define_boxed_type(
        &mut w,
        &env,
        "TextIter",
        "GtkTextIter",
        "gtk_text_iter_copy",
        "gtk_text_iter_free",
        &None,
        &[],
    );
    let expected = "\nglib_wrapper! {\n\
        \tpub struct TextIter(Boxed<gtk_sys::GtkTextIter>);\n\
        \n\
        \tmatch fn {\n\
        \t\tcopy => |ptr| gtk_sys::gtk_text_iter_copy(mut_override(ptr)),\n\
        \t\tfree => |ptr| gtk_sys::gtk_text_iter_free(ptr),\n\
        \t}\n\
        }\n";
    assert_eq!(w, expected);
    assert!(!w.contains("get_type"));
}

#[test]
fn boxed_type_with_accessor_and_derives() {
    let env = test_env();
    let derive = vec![Derive {
        names: vec!["Debug".to_string(), "PartialEq".to_string()],
        cfg_condition: None,
    }];
    let mut w = String::new();
    define_boxed_type(
        &mut w,
        &env,
        "TextIter",
        "GtkTextIter",
        "gtk_text_iter_copy",
        "gtk_text_iter_free",
        &Some("gtk_text_iter_get_type".to_string()),
        &derive,
    );
    assert!(w.contains("\t#[derive(Debug, PartialEq)]\n\tpub struct TextIter"));
    assert!(w.contains("\t\tget_type => || gtk_sys::gtk_text_iter_get_type(),\n"));
}

#[test]
fn auto_boxed_type_synthesizes_copy_and_free() {
    let env = test_env();
    let mut w = String::new();
    define_auto_boxed_type(&mut w, &env, "Event", "GdkEvent", "gdk_event_get_type", &[]);
    let expected = "\nglib_wrapper! {\n\
        \tpub struct Event(Boxed<gtk_sys::GdkEvent>);\n\
        \n\
        \tmatch fn {\n\
        \t\tcopy => |ptr| gobject_sys::g_boxed_copy(gtk_sys::gdk_event_get_type(), ptr as *mut _) as *mut gtk_sys::GdkEvent,\n\
        \t\tfree => |ptr| gobject_sys::g_boxed_free(gtk_sys::gdk_event_get_type(), ptr as *mut _),\n\
        \t\tget_type => || gtk_sys::gdk_event_get_type(),\n\
        \t}\n\
        }\n";
    assert_eq!(w, expected);
}

#[test]
fn shared_type_binds_ref_and_unref() {
    let env = test_env();
    let mut w = String::new();
    define_shared_type(
        &mut w,
        &env,
        "Quark",
        "GQuark",
        "g_quark_ref",
        "g_quark_unref",
        &None,
        &[],
    );
    let expected = "\nglib_wrapper! {\n\
        \tpub struct Quark(Shared<gtk_sys::GQuark>);\n\
        \n\
        \tmatch fn {\n\
        \t\tref => |ptr| gtk_sys::g_quark_ref(ptr),\n\
        \t\tunref => |ptr| gtk_sys::g_quark_unref(ptr),\n\
        \t}\n\
        }\n";
    assert_eq!(w, expected);
}

#[test]
fn render_derives_single_unconditional_line() {
    let specs = vec![Derive {
        names: vec!["Debug".to_string(), "Clone".to_string()],
        cfg_condition: None,
    }];
    let mut w = String::new();
    derives(&mut w, &specs, 1);
    assert_eq!(w, "\t#[derive(Debug, Clone)]\n");
}

#[test]
fn render_derives_with_feature_condition() {
    let specs = vec![
        Derive { names: vec!["Debug".to_string()], cfg_condition: None },
        Derive {
            names: vec!["Serialize".to_string(), "Deserialize".to_string()],
            cfg_condition: Some("feature = \"ser\"".to_string()),
        },
    ];
    let mut w = String::new();
    derives(&mut w, &specs, 2);
    assert_eq!(
        w,
        "\t\t#[derive(Debug)]\n\t\t#[cfg_attr(feature = \"ser\", derive(Serialize, Deserialize))]\n"
    );
}

fn function(name: &str, hidden: bool, n_parameters: usize) -> FunctionInfo {
    FunctionInfo {
        name: name.to_string(),
        hidden,
        n_parameters,
        version: None,
        deprecated_version: None,
    }
}

#[test]
fn no_default_from_hidden_or_parameterized_new() {
    let env = test_env();
    let functions = vec![function("new", true, 0), function("new", false, 1)];
    let mut w = String::new();
    declare_default_from_new(&mut w, &env, "Widget", &functions);
    assert_eq!(w, "");
}

#[test]
fn default_forwards_to_visible_zero_argument_new() {
    let env = test_env();
    let mut qualifying = function("new", false, 0);
    qualifying.version = Some(v(3, 16, 0));
    let functions = vec![function("with_label", false, 1), qualifying];
    let mut w = String::new();
    declare_default_from_new(&mut w, &env, "Button", &functions);
    let expected = "\n#[cfg(any(feature = \"v3_16\", feature = \"dox\"))]\n\
        impl Default for Button {\n    fn default() -> Self {\n        Self::new()\n    }\n}\n";
    assert_eq!(w, expected);
}

#[test]
fn default_takes_first_qualifying_constructor_only() {
    let env = test_env();
    let mut first = function("new", false, 0);
    first.deprecated_version = Some(v(3, 10, 0));
    let functions = vec![first, function("new", false, 0)];
    let mut w = String::new();
    declare_default_from_new(&mut w, &env, "Box", &functions);
    let expected = "\n#[deprecated]\n\
        impl Default for Box {\n    fn default() -> Self {\n        Self::new()\n    }\n}\n";
    assert_eq!(w, expected);
}
