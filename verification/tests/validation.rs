use instance::catalog::Config;
use instance::catalog::Project;
use instance::catalog::Settings;
use instance::catalog::Template;
use instance::validate::resolve_behavior;
use instance::validate::validate_catalog;
use instance::validate::validate_project;
use instance::validate::validate_template;
use instance::validate::SourceInfo;
use instance::validate::ValidationError;
use instance::Behavior;
use instance::TemplateType;

fn template(path: &str, call_name: &str) -> Template {
    Template {
        path: path.to_string(),
        ttype: TemplateType::Template,
        call_name: call_name.to_string(),
        rename: None,
        behavior: None,
    }
}

fn present() -> SourceInfo {
    SourceInfo { exists: true, canonical: None }
}

fn absent() -> SourceInfo {
    SourceInfo { exists: false, canonical: None }
}

#[test]
fn empty_catalog_is_valid() {
    let settings = Settings { default_behavior: None };
    let resolved = validate_template("/root", &settings, &vec![], &vec![]).unwrap();
    assert!(resolved.is_empty());
    let valid = validate_project(&resolved, &vec![]).unwrap();
    assert!(valid.is_empty());
}

#[test]
fn behavior_defaults_to_fail() {
    assert_eq!(resolve_behavior(None, None), Behavior::Fail);
}

#[test]
fn settings_default_applies() {
    assert_eq!(resolve_behavior(None, Some(Behavior::Append)), Behavior::Append);
    assert_eq!(resolve_behavior(None, Some(Behavior::Overwrite)), Behavior::Overwrite);
    assert_eq!(resolve_behavior(None, Some(Behavior::Fail)), Behavior::Fail);
}

#[test]
fn template_behavior_overrides_default() {
    assert_eq!(
        resolve_behavior(Some(Behavior::Overwrite), Some(Behavior::Append)),
        Behavior::Overwrite
    );
    assert_eq!(resolve_behavior(Some(Behavior::Fail), Some(Behavior::Append)), Behavior::Fail);
    assert_eq!(resolve_behavior(Some(Behavior::Append), None), Behavior::Append);
}

#[test]
fn valid_catalog_resolves_deterministically() {
    let settings = Settings { default_behavior: Some(Behavior::Append) };
    let templates = vec![
        Template {
            path: "conf/gitignore".to_string(),
            ttype: TemplateType::Template,
            call_name: "gitignore".to_string(),
            rename: Some(".gitignore".to_string()),
            behavior: Some(Behavior::Overwrite),
        },
        template("notes.md", "notes"),
    ];
    let sources = vec![present(), present()];
    let resolved =
        validate_template("/root/.templates", &settings, &templates, &sources).unwrap();
    assert_eq!(resolved.len(), 2);
    assert_eq!(resolved[0].path, "/root/.templates/conf/gitignore");
    assert_eq!(resolved[0].call_name, "gitignore");
    assert_eq!(resolved[0].rename, ".gitignore");
    assert_eq!(resolved[0].behavior, Behavior::Overwrite);
    assert_eq!(resolved[1].path, "/root/.templates/notes.md");
    assert_eq!(resolved[1].rename, "notes.md");
    assert_eq!(resolved[1].behavior, Behavior::Append);
}

#[test]
fn canonical_path_is_preferred() {
    let settings = Settings { default_behavior: None };
    let templates = vec![template("link.txt", "link")];
    let sources = vec![SourceInfo {
        exists: true,
        canonical: Some("/real/place/link.txt".to_string()),
    }];
    let resolved = validate_template("/root/.templates", &settings, &templates, &sources).unwrap();
    assert_eq!(resolved[0].path, "/real/place/link.txt");
    assert_eq!(resolved[0].rename, "link.txt");
    assert_eq!(resolved[0].behavior, Behavior::Fail);
}

#[test]
fn missing_templates_are_aggregated() {
    let settings = Settings { default_behavior: None };
    let templates = vec![
        template("x.txt", "x"),
        template("y.txt", "y"),
        template("z.txt", "z"),
    ];
    let sources = vec![absent(), absent(), present()];
    let err = validate_template("/root/.templates", &settings, &templates, &sources).unwrap_err();
    match err {
        ValidationError::MissingTemplatePaths(names) => {
            assert_eq!(names, vec!["x".to_string(), "y".to_string()]);
        }
        ValidationError::UnknownTemplateReference(_, _) => panic!("wrong error variant"),
    }
}

#[test]
fn projects_resolve_in_declared_order() {
    let settings = Settings { default_behavior: None };
    let templates = vec![template("a.txt", "alpha"), template("b.txt", "beta")];
    let sources = vec![present(), present()];
    let resolved = validate_template("/root", &settings, &templates, &sources).unwrap();
    let projects = vec![Project {
        templates: vec!["beta".to_string(), "alpha".to_string()],
        call_name: "both".to_string(),
    }];
    let valid = validate_project(&resolved, &projects).unwrap();
    assert_eq!(valid.len(), 1);
    assert_eq!(valid[0].call_name, "both");
    assert_eq!(valid[0].templates, vec![1, 0]);
}

#[test]
fn project_reference_is_exact_match() {
    let settings = Settings { default_behavior: None };
    let templates = vec![template("a.txt", "Alpha")];
    let sources = vec![present()];
    let resolved = validate_template("/root", &settings, &templates, &sources).unwrap();
    let projects = vec![Project {
        templates: vec!["alpha".to_string()],
        call_name: "p".to_string(),
    }];
    let err = validate_project(&resolved, &projects).unwrap_err();
    match err {
        ValidationError::UnknownTemplateReference(project, name) => {
            assert_eq!(project, "p");
            assert_eq!(name, "alpha");
        }
        ValidationError::MissingTemplatePaths(_) => panic!("wrong error variant"),
    }
}

#[test]
fn unknown_reference_names_project_and_template() {
    let settings = Settings { default_behavior: None };
    let templates = vec![template("a.txt", "alpha"), template("b.txt", "beta")];
    let sources = vec![present(), present()];
    let resolved = validate_template("/root", &settings, &templates, &sources).unwrap();
    let projects = vec![
        Project {
            templates: vec!["alpha".to_string()],
            call_name: "fine".to_string(),
        },
        Project {
            templates: vec!["alpha".to_string(), "ghost".to_string(), "beta".to_string()],
            call_name: "web".to_string(),
        },
    ];
    let err = validate_project(&resolved, &projects).unwrap_err();
    match err {
        ValidationError::UnknownTemplateReference(project, name) => {
            assert_eq!(project, "web");
            assert_eq!(name, "ghost");
        }
        ValidationError::MissingTemplatePaths(_) => panic!("wrong error variant"),
    }
}

#[test]
fn catalog_validates_both_stages() {
    let config = Config {
        settings: Settings { default_behavior: Some(Behavior::Fail) },
        templates: vec![template("a.txt", "alpha"), template("b.txt", "beta")],
        projects: Some(vec![Project {
            templates: vec!["alpha".to_string(), "beta".to_string()],
            call_name: "all".to_string(),
        }]),
    };
    let sources = vec![present(), present()];
    let (resolved, valid_projects) = validate_catalog("/r", &config, &sources).unwrap();
    assert_eq!(resolved.len(), 2);
    let valid_projects = valid_projects.unwrap();
    assert_eq!(valid_projects.len(), 1);
    assert_eq!(valid_projects[0].templates, vec![0, 1]);
}

#[test]
fn catalog_without_projects_resolves_none() {
    let config = Config {
        settings: Settings { default_behavior: None },
        templates: vec![template("a.txt", "alpha")],
        projects: None,
    };
    let sources = vec![present()];
    let (resolved, valid_projects) = validate_catalog("/r", &config, &sources).unwrap();
    assert_eq!(resolved.len(), 1);
    assert!(valid_projects.is_none());
}

#[test]
fn catalog_missing_sources_fail_before_projects() {
    let config = Config {
        settings: Settings { default_behavior: None },
        templates: vec![template("a.txt", "alpha")],
        projects: Some(vec![Project {
            templates: vec!["ghost".to_string()],
            call_name: "p".to_string(),
        }]),
    };
    let sources = vec![absent()];
    let err = validate_catalog("/r", &config, &sources).unwrap_err();
    match err {
        ValidationError::MissingTemplatePaths(names) => {
            assert_eq!(names, vec!["alpha".to_string()]);
        }
        ValidationError::UnknownTemplateReference(_, _) => panic!("wrong error variant"),
    }
}
