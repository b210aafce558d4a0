use init_nodejs_project::catalog::{catalog, is_skipped, Template, LICENSE_NAME, VITE_CONFIG_NAME};
use init_nodejs_project::clock::current_year;
use init_nodejs_project::error::ScaffoldError;
use init_nodejs_project::guard::{is_renderable, MAX_TAGS};
use init_nodejs_project::paths::mk_output_path;
use init_nodejs_project::render::{model_of, render_catalog, Datum, RenderedOutput};
use init_nodejs_project::settings::{
    resolve_author, resolve_project_name, resolve_settings, Cli, Settings, DEFAULT_AUTHOR,
};

fn settings(author: &str, is_private: bool, name: &str, year: i32, with_vue: bool) -> Settings {
    Settings {
        author: author.to_string(),
        is_private,
        project_name: name.to_string(),
        year,
        with_vue,
    }
}

fn paths(outs: &[RenderedOutput]) -> Vec<String> {
    outs.iter().map(|o| o.path.clone()).collect()
}

fn contents_of<'a>(outs: &'a [RenderedOutput], path: &str) -> &'a str {
    outs.iter().find(|o| o.path == path).map(|o| o.contents.as_str()).unwrap()
}

#[test]
fn explicit_author_wins_over_environment() {
    let a = resolve_author(Some("carol".to_string()), Some("env-dave".to_string()));
    assert_eq!(a, "carol");
    let b = resolve_author(Some("carol".to_string()), None);
    assert_eq!(b, "carol");
}

#[test]
fn environment_author_used_when_no_argument() {
    assert_eq!(resolve_author(None, Some("env-dave".to_string())), "env-dave");
}

#[test]
fn default_author_when_nothing_given() {
    assert_eq!(resolve_author(None, None), DEFAULT_AUTHOR);
    assert_eq!(DEFAULT_AUTHOR, "no_name");
}

#[test]
fn project_name_falls_back_to_working_directory() {
    let (name, create) = resolve_project_name(None, Some("workdir".to_string())).ok().unwrap();
    assert_eq!(name, "workdir");
    assert!(!create);
}

#[test]
fn explicit_project_name_asks_for_directory() {
    let (name, create) =
        resolve_project_name(Some("demo".to_string()), Some("workdir".to_string())).ok().unwrap();
    assert_eq!(name, "demo");
    assert!(create);
}

#[test]
fn empty_explicit_name_is_taken_as_given() {
    let (name, create) =
        resolve_project_name(Some(String::new()), Some("workdir".to_string())).ok().unwrap();
    assert_eq!(name, "");
    assert!(create);
}

#[test]
fn missing_working_directory_name_is_an_error() {
    let r = resolve_project_name(Some("demo".to_string()), None);
    assert!(matches!(r, Err(ScaffoldError::NoWorkingDirName)));
    let r = resolve_project_name(None, Some(String::new()));
    assert!(matches!(r, Err(ScaffoldError::NoWorkingDirName)));
}

#[test]
fn resolve_settings_gathers_every_field() {
    let cli = Cli {
        name: Some("demo".to_string()),
        is_private: true,
        author: None,
        with_vue: true,
    };
    let r = resolve_settings(cli, Some("erin".to_string()), Some("workdir".to_string()), 2024)
        .ok()
        .unwrap();
    assert_eq!(r.settings.author, "erin");
    assert!(r.settings.is_private);
    assert_eq!(r.settings.project_name, "demo");
    assert_eq!(r.settings.year, 2024);
    assert!(r.settings.with_vue);
    assert!(r.create_dir);
}

#[test]
fn resolve_settings_fails_without_working_directory() {
    let cli = Cli { name: None, is_private: false, author: None, with_vue: false };
    assert!(matches!(resolve_settings(cli, None, None, 2024), Err(ScaffoldError::NoWorkingDirName)));
}

#[test]
fn skip_rules_follow_privacy_and_vue() {
    let private_plain = settings("a", true, "p", 2024, false);
    let public_vue = settings("a", false, "p", 2024, true);
    assert!(is_skipped(&private_plain, &LICENSE_NAME.to_string()));
    assert!(is_skipped(&private_plain, &VITE_CONFIG_NAME.to_string()));
    assert!(!is_skipped(&public_vue, &LICENSE_NAME.to_string()));
    assert!(!is_skipped(&public_vue, &VITE_CONFIG_NAME.to_string()));
    assert!(!is_skipped(&private_plain, &"package.json".to_string()));
}

#[test]
fn catalog_has_the_fixed_names() {
    let names: Vec<String> = catalog().iter().map(|t| t.name.clone()).collect();
    assert_eq!(
        names,
        vec![".npmrc", ".editorconfig", ".gitignore", "jsconfig.json", "LICENSE", "package.json", "vite.config.js"]
    );
}

#[test]
fn model_negates_privacy() {
    let m = model_of(&settings("a", true, "p", 2024, false));
    let public = m.iter().find(|f| f.key == "public").unwrap();
    assert!(matches!(public.value, Datum::Flag(false)));
    let year = m.iter().find(|f| f.key == "thisYear").unwrap();
    assert!(matches!(year.value, Datum::Number(2024)));
}

#[test]
fn package_descriptor_for_alice_demo() {
    let s = settings("alice", false, "demo", 2024, false);
    let outs = render_catalog(&s, &catalog()).ok().unwrap();
    let pkg = contents_of(&outs, "package.json");
    assert!(pkg.contains("\"author\": \"alice\""));
    assert!(pkg.contains("\"private\": false"));
    assert!(pkg.contains("\"name\": \"demo\""));
    assert!(pkg.contains("\"license\": \"MIT\""));
    assert!(pkg.contains("(2024)"));
    assert!(!pkg.contains("{{"));
}

#[test]
fn private_project_gets_every_template_but_the_license() {
    let s = settings("bob", true, "secret", 2024, true);
    let outs = render_catalog(&s, &catalog()).ok().unwrap();
    assert_eq!(
        paths(&outs),
        vec![".npmrc", ".editorconfig", ".gitignore", "jsconfig.json", "package.json", "vite.config.js"]
    );
    assert!(outs.iter().all(|o| o.path != "LICENSE"));
    let pkg = contents_of(&outs, "package.json");
    assert!(pkg.contains("\"private\": true"));
    assert!(!pkg.contains("\"license\""));
}

#[test]
fn public_project_gets_the_license() {
    let s = settings("alice", false, "demo", 2024, false);
    let outs = render_catalog(&s, &catalog()).ok().unwrap();
    assert_eq!(
        paths(&outs),
        vec![".npmrc", ".editorconfig", ".gitignore", "jsconfig.json", "LICENSE", "package.json"]
    );
    assert!(contents_of(&outs, "LICENSE").contains("Copyright (c) 2024 alice"));
}

#[test]
fn vite_config_only_with_vue() {
    let without = render_catalog(&settings("a", false, "p", 2024, false), &catalog()).ok().unwrap();
    assert!(paths(&without).iter().all(|p| p != "vite.config.js"));
    let with = render_catalog(&settings("a", false, "p", 2024, true), &catalog()).ok().unwrap();
    assert!(paths(&with).iter().any(|p| p == "vite.config.js"));
    assert!(contents_of(&with, "package.json").contains("\"vite\": \"^5.0.0\""));
}

#[test]
fn rendering_twice_gives_identical_outputs() {
    let s = settings("alice", false, "demo", 2024, true);
    let first = render_catalog(&s, &catalog()).ok().unwrap();
    let second = render_catalog(&s, &catalog()).ok().unwrap();
    assert_eq!(paths(&first), paths(&second));
    for (a, b) in first.iter().zip(second.iter()) {
        assert_eq!(a.contents, b.contents);
    }
}

#[test]
fn unknown_placeholder_is_a_template_error() {
    let templates = vec![
        Template { name: "ok.txt".to_string(), body: "{{author}}".to_string() },
        Template { name: "bad.txt".to_string(), body: "{{nope}}".to_string() },
    ];
    let r = render_catalog(&settings("a", false, "p", 2024, false), &templates);
    match r {
        Err(ScaffoldError::Template { name }) => assert_eq!(name, "bad.txt"),
        _ => panic!("expected a template error"),
    }
}

#[test]
fn placeholders_are_substituted() {
    let templates = vec![Template {
        name: "x".to_string(),
        body: "{{projectName}}/{{thisYear}}/{{private}}/{{public}}".to_string(),
    }];
    let outs = render_catalog(&settings("a", true, "proj", 1999, false), &templates).ok().unwrap();
    assert_eq!(outs[0].contents, "proj/1999/true/false");
}

#[test]
fn skipped_template_is_never_rendered() {
    let templates = vec![Template { name: "LICENSE".to_string(), body: "{{nope}}".to_string() }];
    let outs = render_catalog(&settings("a", true, "p", 2024, false), &templates).ok().unwrap();
    assert!(outs.is_empty());
}

#[test]
fn output_path_joins_with_separator() {
    assert_eq!(mk_output_path("LICENSE", "/tmp/demo"), "/tmp/demo/LICENSE");
    assert_eq!(mk_output_path("LICENSE", "/tmp/demo/"), "/tmp/demo/LICENSE");
    assert_eq!(mk_output_path("LICENSE", ""), "LICENSE");
    assert_eq!(mk_output_path("/etc/x", "/tmp"), "/etc/x");
}

#[test]
fn current_year_is_in_range_or_reports_no_local_time() {
    match current_year() {
        Ok(y) => assert!((-999_999..=999_999).contains(&y)),
        Err(e) => assert!(matches!(e, ScaffoldError::NoLocalTime)),
    }
}

#[test]
fn error_messages_name_the_template() {
    let e = ScaffoldError::Template { name: "LICENSE".to_string() };
    assert_eq!(e.message(), "failed to render data for template 'LICENSE'");
}

#[test]
fn every_catalog_body_is_renderable() {
    for t in catalog() {
        assert!(is_renderable(&t.body), "{}", t.name);
    }
}

#[test]
fn partials_and_decorators_are_not_renderable() {
    assert!(!is_renderable("{{> header}}"));
    assert!(!is_renderable("{{~> header}}"));
    assert!(!is_renderable("{{#> layout}}x{{/layout}}"));
    assert!(!is_renderable("{{#*inline \"a\"}}{{> a}}{{/inline}}{{> a}}"));
    assert!(is_renderable("a > b * c {{author}}"));
}

#[test]
fn nesting_is_bounded() {
    let at_limit = "{{x}}".repeat(MAX_TAGS);
    assert!(is_renderable(&at_limit));
    let over = "{{x}}".repeat(MAX_TAGS + 1);
    assert!(!is_renderable(&over));
    let deep = format!("{{{{author {}}}}}", "(".repeat(65));
    assert!(!is_renderable(&deep));
}

#[test]
fn self_including_partial_is_a_template_error() {
    let templates = vec![Template {
        name: "loop.txt".to_string(),
        body: "{{#*inline \"a\"}}{{> a}}{{/inline}}{{> a}}".to_string(),
    }];
    let r = render_catalog(&settings("a", false, "p", 2024, false), &templates);
    match r {
        Err(ScaffoldError::Template { name }) => assert_eq!(name, "loop.txt"),
        _ => panic!("expected a template error"),
    }
}
