use instance::catalog::ValidProject;
use instance::catalog::ValidTemplate;
use instance::lookup::eq_ignore_case;
use instance::lookup::find_project;
use instance::lookup::find_template;
use instance::lookup::find_template_exact;
use instance::paths::basename;
use instance::paths::join_path;
use instance::Behavior;
use instance::TemplateType;

fn named_template(call_name: &str) -> ValidTemplate {
    ValidTemplate {
        path: format!("/tpl/{}", call_name),
        ttype: TemplateType::Template,
        call_name: call_name.to_string(),
        rename: call_name.to_string(),
        behavior: Behavior::Fail,
    }
}

#[test]
fn case_insensitive_comparison() {
    assert!(eq_ignore_case("WebApp", "webapp"));
    assert!(eq_ignore_case("rust", "RUST"));
    assert!(eq_ignore_case("", ""));
    assert!(!eq_ignore_case("webapp", "webapp2"));
    assert!(!eq_ignore_case("a_b", "a-b"));
    assert!(!eq_ignore_case("[", "{"));
}

#[test]
fn template_selection_ignores_case() {
    let templates = vec![named_template("gitignore"), named_template("WebApp")];
    assert_eq!(find_template(&templates, "WEBAPP"), Some(1));
    assert_eq!(find_template(&templates, "GitIgnore"), Some(0));
    assert_eq!(find_template(&templates, "nothing"), None);
}

#[test]
fn exact_lookup_takes_the_first_match() {
    let templates = vec![named_template("dup"), named_template("dup")];
    assert_eq!(find_template_exact(&templates, &"dup".to_string()), Some(0));
    assert_eq!(find_template_exact(&templates, &"Dup".to_string()), None);
}

#[test]
fn project_selection_ignores_case() {
    let projects = vec![
        ValidProject { templates: vec![], call_name: "Base".to_string() },
        ValidProject { templates: vec![], call_name: "full".to_string() },
    ];
    assert_eq!(find_project(&projects, "FULL"), Some(1));
    assert_eq!(find_project(&projects, "base"), Some(0));
    assert_eq!(find_project(&projects, "other"), None);
}

#[test]
fn joining_inserts_a_single_separator() {
    assert_eq!(join_path("/root/.templates", "a.txt"), "/root/.templates/a.txt");
    assert_eq!(join_path("/root/.templates/", "a.txt"), "/root/.templates/a.txt");
    assert_eq!(join_path("", "a.txt"), "a.txt");
    assert_eq!(join_path("/base", "/absolute/p"), "/absolute/p");
}

#[test]
fn basename_is_the_part_after_the_last_separator() {
    assert_eq!(basename("dir/sub/file.txt"), "file.txt");
    assert_eq!(basename("file.txt"), "file.txt");
    assert_eq!(basename("dir/"), "");
    assert_eq!(basename(""), "");
}

#[test]
fn template_type_defaults_to_plain_file() {
    assert_eq!(TemplateType::default(), TemplateType::Template);
}
