use kannaka_tui::config::{
    agent_name_in, choose_name, find_kannaka_binary, from_toml, load_agent_name, parse_toml, Toml,
};

fn name(content: &str) -> String {
    load_agent_name(Some(content.to_string()))
}

#[test]
fn the_display_name_comes_before_the_id() {
    assert_eq!(name("[agent]\nid = \"a1\"\ndisplay_name = \"Nova\"\n"), "Nova");
    assert_eq!(name("agent = { id = \"a1\", display_name = \"Nova\" }\n"), "Nova");
}

#[test]
fn an_empty_display_name_does_not_count() {
    assert_eq!(name("[agent]\nid = \"a1\"\ndisplay_name = \"\"\n"), "a1");
    assert_eq!(name("[agent]\nid = \"a1\"\n"), "a1");
    assert_eq!(name("[agent]\nid = \"\"\n"), "");
}

#[test]
fn without_a_name_the_agent_is_unknown() {
    assert_eq!(load_agent_name(None), "unknown");
    assert_eq!(name(""), "unknown");
    assert_eq!(name("[agent]\n"), "unknown");
    assert_eq!(name("[agent]\nid = 7\n"), "unknown");
    assert_eq!(name("agent = \"a1\"\n"), "unknown");
    assert_eq!(name("[other]\nid = \"a1\"\n"), "unknown");
    assert_eq!(name("[agent\nid = \"a1\"\n"), "unknown");
}

#[test]
fn names_are_chosen_in_order() {
    let some = |s: &str| Some(s.to_string());
    assert_eq!(choose_name(some("n"), some("i")), "n");
    assert_eq!(choose_name(some(""), some("i")), "i");
    assert_eq!(choose_name(None, some("i")), "i");
    assert_eq!(choose_name(some(""), None), "unknown");
    assert_eq!(choose_name(None, None), "unknown");
}

#[test]
fn the_first_binary_found_is_taken() {
    let some = |s: &str| Some(s.to_string());
    assert_eq!(find_kannaka_binary(&vec![None, some("/b"), some("/c")]), "/b");
    assert_eq!(find_kannaka_binary(&vec![some("/a")]), "/a");
    assert_eq!(find_kannaka_binary(&vec![None, None, None]), "kannaka");
    assert_eq!(find_kannaka_binary(&vec![]), "kannaka");
}

fn entry(key: &str, value: Toml) -> (String, Toml) {
    (key.to_string(), value)
}

fn string(s: &str) -> Toml {
    Toml::Text(s.to_string())
}

#[test]
fn the_name_stands_in_its_section() {
    let agent = Toml::Table(vec![
        entry("id", string("a1")),
        entry("display_name", Toml::Other),
    ]);
    let document = Toml::Table(vec![entry("id", string("no")), entry("agent", agent)]);
    assert_eq!(agent_name_in(&document), "a1");
    assert_eq!(agent_name_in(&Toml::Table(vec![entry("agent", string("a1"))])), "unknown");
    assert_eq!(agent_name_in(&Toml::Table(vec![entry("id", string("a1"))])), "unknown");
    assert_eq!(agent_name_in(&Toml::Other), "unknown");
}

#[test]
fn a_document_is_carried_over() {
    let document = parse_toml("a = \"x\"\nb = 1\n[c]\nd = \"y\"\ne = [1.5]\n").unwrap();
    assert_eq!(document.text("a"), Some("x".to_string()));
    assert!(matches!(document.get("b"), Some(Toml::Other)));
    assert_eq!(document.text("b"), None);
    let c = document.get("c").unwrap();
    assert_eq!(c.text("d"), Some("y".to_string()));
    assert!(matches!(c.get("e"), Some(Toml::Other)));
    assert!(document.get("d").is_none());
    assert!(parse_toml("a = ").is_none());
    assert!(parse_toml("a = 1\na = 2\n").is_none());
    let value = toml::Value::String("x".to_string());
    assert!(matches!(from_toml(value), Toml::Text(t) if t == "x"));
}
