use ravix::scaffold::{entry_action, file_contents, preflight, render_outcome, EntryAction, Preflight, ScaffoldError};

fn dst(a: &EntryAction) -> Option<(&str, bool)> {
    match a {
        EntryAction::WriteFile { dst, render } => Some((dst.as_str(), *render)),
        _ => None,
    }
}

#[test]
fn preflight_decisions() {
    assert_eq!(preflight(false, false), Preflight::Create);
    assert_eq!(preflight(false, true), Preflight::Create);
    assert_eq!(preflight(true, true), Preflight::ReplaceExisting);
    assert_eq!(preflight(true, false), Preflight::Refuse);
}

#[test]
fn docker_files_skipped_without_docker() {
    assert!(matches!(entry_action("Dockerfile.tmpl", false, false, true), EntryAction::Skip));
    assert!(matches!(entry_action("docker-compose.yml.tmpl", false, false, true), EntryAction::Skip));
    assert!(matches!(entry_action(".env.example.tmpl", false, false, true), EntryAction::Skip));
    assert_eq!(dst(&entry_action("Dockerfile.tmpl", false, true, true)), Some(("Dockerfile", true)));
    assert_eq!(dst(&entry_action(".env.example.tmpl", false, true, true)), Some((".env.example", true)));
}

#[test]
fn tests_skipped_without_tests() {
    assert!(matches!(entry_action("tests", true, true, false), EntryAction::Skip));
    assert!(matches!(entry_action("tests/api.rs.tmpl", false, true, false), EntryAction::Skip));
    assert_eq!(dst(&entry_action("tests/api.rs.tmpl", false, true, true)), Some(("tests/api.rs", true)));
}

#[test]
fn tmpl_suffix_is_stripped_and_rendered() {
    assert_eq!(dst(&entry_action("src/main.rs.tmpl", false, true, true)), Some(("src/main.rs", true)));
    assert_eq!(dst(&entry_action("src/lib.rs", false, true, true)), Some(("src/lib.rs", false)));
    assert_eq!(dst(&entry_action("src/.tmpl", false, true, true)), Some(("src/", false)));
    match entry_action("src", true, true, true) {
        EntryAction::CreateDir(d) => assert_eq!(d, "src"),
        _ => panic!("expected a directory"),
    }
    match entry_action("", true, true, true) {
        EntryAction::CreateDir(d) => assert_eq!(d, ""),
        _ => panic!("expected the root directory"),
    }
}

#[test]
fn templates_render_the_project_name() {
    let out = file_contents("name = \"{{name}}\"".to_string(), true, "blog").ok().unwrap();
    assert_eq!(out, "name = \"blog\"");
    let raw = file_contents("{{name}}".to_string(), false, "blog").ok().unwrap();
    assert_eq!(raw, "{{name}}");
    assert!(matches!(file_contents("{{#if}}".to_string(), true, "blog"), Err(ScaffoldError::Render(_))));
}

#[test]
fn scaffold_error_messages() {
    let e = ScaffoldError::DirectoryExists("blog".to_string());
    assert_eq!(e.message().unwrap(), "Directory 'blog' already exists. Use --force to overwrite.");
    let t = ScaffoldError::TemplateNotFound { template: "x".to_string(), path: "/t/x".to_string() };
    assert_eq!(t.message().unwrap(), "Template 'x' not found at /t/x");
}

#[test]
fn render_outcome_keeps_text_or_error() {
    assert_eq!(render_outcome(Ok("done".to_string())).ok().unwrap(), "done");
    let err = handlebars::RenderError::from(handlebars::RenderErrorReason::Other("bad".to_string()));
    let e = render_outcome(Err(err)).err().unwrap();
    assert!(matches!(e, ScaffoldError::Render(_)));
    assert!(e.message().is_none());
}
