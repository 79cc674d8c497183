use zfile::path::{breadcrumbs, breadcrumbs_from, Crumb};

fn shown(crumbs: &Vec<Crumb>) -> Vec<(&str, bool)> {
    crumbs.iter().map(|c| (c.label.as_str(), c.separator_after)).collect()
}

#[test]
fn breadcrumbs_of_a_deep_path() {
    let crumbs = breadcrumbs("/home/user/docs");
    assert_eq!(
        shown(&crumbs),
        vec![("/", true), ("home", true), ("user", true), ("docs", false)]
    );
}

#[test]
fn breadcrumbs_of_the_root() {
    let crumbs = breadcrumbs("/");
    assert_eq!(shown(&crumbs), vec![("/", false)]);
}

#[test]
fn breadcrumbs_skip_what_the_path_rules_skip() {
    let crumbs = breadcrumbs("/home//user/./docs/");
    assert_eq!(
        shown(&crumbs),
        vec![("/", true), ("home", true), ("user", true), ("docs", false)]
    );
}

#[test]
fn breadcrumbs_of_the_empty_path() {
    assert!(breadcrumbs("").is_empty());
}

#[test]
fn breadcrumbs_from_labels_each_component() {
    let crumbs = breadcrumbs_from(vec![String::from("/"), String::from("usr"), String::from("lib")]);
    assert_eq!(shown(&crumbs), vec![("/", true), ("usr", true), ("lib", false)]);
}

#[test]
fn breadcrumbs_from_shows_an_empty_component_as_a_slash() {
    let crumbs = breadcrumbs_from(vec![String::new(), String::from("x")]);
    assert_eq!(shown(&crumbs), vec![("/", true), ("x", false)]);
    assert!(breadcrumbs_from(Vec::new()).is_empty());
}
