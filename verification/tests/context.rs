use duckdb_tera_binding::context::context_from_value;
use duckdb_tera_binding::escape::resolve_autoescape;

#[test]
fn object_root_entries_become_context() {
    let v: serde_json::Value = serde_json::from_str("{\"a\": 1, \"b\": \"two\"}").unwrap();
    let c = context_from_value(&v);
    assert_eq!(c.into_json(), v);
}

#[test]
fn array_root_gives_empty_context() {
    let v: serde_json::Value = serde_json::from_str("[1,2,3]").unwrap();
    let c = context_from_value(&v);
    assert_eq!(c.into_json(), tera::Context::new().into_json());
}

#[test]
fn scalar_root_gives_empty_context() {
    let v: serde_json::Value = serde_json::from_str("\"x\"").unwrap();
    let c = context_from_value(&v);
    assert_eq!(c.into_json(), tera::Context::new().into_json());
}

#[test]
fn null_root_gives_empty_context() {
    let v: serde_json::Value = serde_json::from_str("null").unwrap();
    let c = context_from_value(&v);
    assert_eq!(c.into_json(), tera::Context::new().into_json());
}

#[test]
fn nested_values_are_kept_whole() {
    let v: serde_json::Value =
        serde_json::from_str("{\"user\": {\"name\": \"Ada\", \"tags\": [1, 2]}}").unwrap();
    let c = context_from_value(&v);
    assert_eq!(c.into_json(), v);
}

#[test]
fn resolve_autoescape_disabled_drops_suffixes() {
    let r = resolve_autoescape(false, vec![String::from("html"), String::from("xml")]);
    assert!(r.is_empty());
}

#[test]
fn resolve_autoescape_enabled_empty_list_stays_empty() {
    let r = resolve_autoescape(true, Vec::new());
    assert!(r.is_empty());
}

#[test]
fn resolve_autoescape_enabled_keeps_suffixes() {
    let r = resolve_autoescape(true, vec![String::from("html")]);
    assert_eq!(r, vec![String::from("html")]);
}

#[test]
fn configure_autoescape_disabled_clears_engine_suffixes() {
    let mut t = tera::Tera::default();
    duckdb_tera_binding::engine::configure_autoescape(
        &mut t,
        false,
        vec![String::from("html")],
    );
    assert!(t.autoescape_suffixes.is_empty());
}

#[test]
fn configure_autoescape_enabled_sets_engine_suffixes() {
    let mut t = tera::Tera::default();
    duckdb_tera_binding::engine::configure_autoescape(&mut t, true, vec![String::from("html")]);
    assert_eq!(t.autoescape_suffixes, vec!["html"]);
}
