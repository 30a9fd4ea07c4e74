use std::io::Write;

use duckdb_tera_binding::render_template;
use duckdb_tera_binding::RenderResult;

fn write_template(
    dir: &tempfile::TempDir,
    suffix: &str,
    content: &str,
) -> (tempfile::NamedTempFile, String) {
    let mut f = tempfile::Builder::new()
        .prefix("page")
        .suffix(suffix)
        .tempfile_in(dir.path())
        .unwrap();
    f.write_all(content.as_bytes()).unwrap();
    f.flush().unwrap();
    let name = f
        .path()
        .file_name()
        .unwrap()
        .to_str()
        .unwrap()
        .to_string();
    (f, name)
}

fn dir_pattern(dir: &tempfile::TempDir) -> String {
    format!("{}/*", dir.path().to_str().unwrap())
}

#[test]
fn nonexistent_pattern_is_a_load_failure() {
    let r = render_template(
        "page.html",
        "{}",
        Some(String::from("/no/such/path")),
        false,
        Vec::new(),
    );
    match r {
        RenderResult::Success(text) => panic!("unexpected success: {}", text),
        RenderResult::Failure(diag) => assert!(diag.starts_with("Template loading error:")),
    }
}

#[test]
fn unclosed_alternate_pattern_is_a_load_failure() {
    // The engine's own loader would abort on a pattern its glob parser
    // refuses; the pipeline screens it out and reports a load failure.
    let r = render_template(
        "page.html",
        "{}",
        Some(String::from("/tmp/{*")),
        false,
        Vec::new(),
    );
    match r {
        RenderResult::Success(text) => panic!("unexpected success: {}", text),
        RenderResult::Failure(diag) => assert!(diag.starts_with("Template loading error:")),
    }
}

#[test]
fn invalid_range_pattern_is_a_load_failure() {
    let r = render_template(
        "page.html",
        "{}",
        Some(String::from("/tmp/[z-a]*")),
        false,
        Vec::new(),
    );
    match r {
        RenderResult::Success(text) => panic!("unexpected success: {}", text),
        RenderResult::Failure(diag) => assert!(diag.starts_with("Template loading error:")),
    }
}

#[test]
fn missing_template_in_loaded_set_is_a_render_failure() {
    // A glob that matches nothing loads an empty set: the failure comes
    // from rendering the unknown name, not from loading.
    let r = render_template(
        "page.html",
        "{}",
        Some(String::from("/no/such/dir/*.html")),
        false,
        Vec::new(),
    );
    match r {
        RenderResult::Success(text) => panic!("unexpected success: {}", text),
        RenderResult::Failure(diag) => assert!(diag.starts_with("Tera render error:")),
    }
}

#[test]
fn path_mode_renders_loaded_template() {
    let dir = tempfile::tempdir().unwrap();
    let (_f, name) = write_template(&dir, ".html", "Hello, {{ name }}!");
    let r = render_template(
        &name,
        "{\"name\": \"World\"}",
        Some(dir_pattern(&dir)),
        false,
        Vec::new(),
    );
    match r {
        RenderResult::Success(text) => assert_eq!(text, "Hello, World!"),
        RenderResult::Failure(diag) => panic!("unexpected failure: {}", diag),
    }
}

#[test]
fn autoescape_disabled_renders_markup_unescaped() {
    let dir = tempfile::tempdir().unwrap();
    let (_f, name) = write_template(&dir, ".html", "<b>{{ v }}</b>");
    let r = render_template(
        &name,
        "{\"v\": \"<i>y</i>\"}",
        Some(dir_pattern(&dir)),
        false,
        vec![String::from("html")],
    );
    match r {
        RenderResult::Success(text) => assert_eq!(text, "<b><i>y</i></b>"),
        RenderResult::Failure(diag) => panic!("unexpected failure: {}", diag),
    }
}

#[test]
fn autoescape_enabled_escapes_matching_suffix() {
    let dir = tempfile::tempdir().unwrap();
    let (_f, name) = write_template(&dir, ".html", "{{ v }}");
    let r = render_template(
        &name,
        "{\"v\": \"<b>&</b>\"}",
        Some(dir_pattern(&dir)),
        true,
        vec![String::from("html")],
    );
    match r {
        RenderResult::Success(text) => assert_eq!(text, "&lt;b&gt;&amp;&lt;&#x2F;b&gt;"),
        RenderResult::Failure(diag) => panic!("unexpected failure: {}", diag),
    }
}

#[test]
fn autoescape_enabled_skips_other_suffix() {
    let dir = tempfile::tempdir().unwrap();
    let (_f, name) = write_template(&dir, ".txt", "{{ v }}");
    let r = render_template(
        &name,
        "{\"v\": \"<b>&</b>\"}",
        Some(dir_pattern(&dir)),
        true,
        vec![String::from("html")],
    );
    match r {
        RenderResult::Success(text) => assert_eq!(text, "<b>&</b>"),
        RenderResult::Failure(diag) => panic!("unexpected failure: {}", diag),
    }
}

#[test]
fn autoescape_enabled_with_empty_list_escapes_nothing() {
    let dir = tempfile::tempdir().unwrap();
    let (_f, name) = write_template(&dir, ".html", "{{ v }}");
    let r = render_template(
        &name,
        "{\"v\": \"<b>\"}",
        Some(dir_pattern(&dir)),
        true,
        Vec::new(),
    );
    match r {
        RenderResult::Success(text) => assert_eq!(text, "<b>"),
        RenderResult::Failure(diag) => panic!("unexpected failure: {}", diag),
    }
}
