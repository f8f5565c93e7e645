use gir::text::escape_string;
use gir::text::join_strings;
use gir::text::tabs;

#[test]
fn test_escape_string() {
    assert_eq!(escape_string(""), "");
    assert_eq!(escape_string("no escaping here"), "no escaping here");
    assert_eq!(escape_string("'\"\\"), "'\\\"\\\\");
}

#[test]
fn escape_leaves_plain_text_alone() {
    assert_eq!(escape_string("gtk_widget_get_type"), "gtk_widget_get_type");
}

#[test]
fn escape_doubles_on_reapplication() {
    let once = escape_string("\\");
    assert_eq!(once, "\\\\");
    let twice = escape_string(&once);
    assert_eq!(twice, "\\\\\\\\");
}

#[test]
fn escape_quote_only() {
    assert_eq!(escape_string("say \"hi\""), "say \\\"hi\\\"");
}

#[test]
fn tabs_repeat_per_level() {
    assert_eq!(tabs(0), "");
    assert_eq!(tabs(1), "\t");
    assert_eq!(tabs(3), "\t\t\t");
}

#[test]
fn join_inserts_separator_between_items() {
    let items = vec!["Debug".to_string(), "Clone".to_string(), "Copy".to_string()];
    assert_eq!(join_strings(&items, ", "), "Debug, Clone, Copy");
    let one = vec!["Debug".to_string()];
    assert_eq!(join_strings(&one, ", "), "Debug");
    let none: Vec<String> = Vec::new();
    assert_eq!(join_strings(&none, ", "), "");
}
