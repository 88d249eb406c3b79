use vista_shell::notice::Notice;

#[test]
fn payloads_are_json_objects() {
    assert_eq!(
        Notice::opened("tab-0", "POS".to_string()).payload(),
        r#"{"label":"tab-0","title":"POS"}"#
    );
    assert_eq!(Notice::focused("tab-1").payload(), r#"{"label":"tab-1"}"#);
    assert_eq!(Notice::window_kept().payload(), r#"{"kind":"window"}"#);
    assert_eq!(Notice::tab_kept("tab-2").payload(), r#"{"kind":"tab","label":"tab-2"}"#);
}

#[test]
fn payloads_read_back() {
    let text = Notice::closed("a\"b\\c", "é\n").payload();
    let value: serde_json::Value = serde_json::from_str(&text).unwrap();
    assert_eq!(value["label"], "a\"b\\c");
    assert_eq!(value["active"], "é\n");
    assert_eq!(value.as_object().unwrap().len(), 2);
}

#[test]
fn notices_have_their_names() {
    assert_eq!(Notice::opened("x", "y".to_string()).name, "tab:opened");
    assert_eq!(Notice::focused("x").name, "tab:focused");
    assert_eq!(Notice::closed("x", "y").name, "tab:closed");
    assert_eq!(Notice::tab_kept("x").name, "call:close-blocked");
    assert_eq!(Notice::window_kept().name, "call:close-blocked");
}
