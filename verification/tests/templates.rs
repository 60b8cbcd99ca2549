use rocket::outcome::Outcome;
use rocket::templates::{ContextManager, Metadata};

fn metadata(manager: &ContextManager) -> Metadata<'_> {
    match Metadata::from_request(Some(manager)) {
        (Outcome::Success(metadata), None) => metadata,
        _ => panic!("the guard passes"),
    }
}

#[test]
fn loaded_templates_are_contained() {
    let mut manager = ContextManager::new(false);
    assert!(!metadata(&manager).contains_template("index"));
    manager.load("index".to_string());
    manager.load("hbs/about".to_string());
    manager.load("index".to_string());
    assert!(metadata(&manager).contains_template("index"));
    assert!(metadata(&manager).contains_template("hbs/about"));
    assert!(!metadata(&manager).contains_template("about"));
    assert!(!metadata(&manager).contains_template(""));
}

#[test]
fn reload_replaces_what_was_loaded() {
    let mut manager = ContextManager::new(true);
    manager.load("old".to_string());
    manager.load("kept".to_string());
    let before = metadata(&manager);
    assert!(before.contains_template("old"));
    assert!(before.contains_template("old"));
    assert!(!before.contains_template("new"));
    manager.reload(vec!["kept".to_string(), "new".to_string(), "new".to_string()]);
    let after = Metadata::new(&manager);
    assert!(!after.contains_template("old"));
    assert!(after.contains_template("kept"));
    assert!(after.contains_template("new"));
    assert!(after.reloading());
    manager.reload(vec![]);
    assert!(!metadata(&manager).contains_template("kept"));
}

#[test]
fn only_the_last_reload_and_later_loads_count() {
    let mut manager = ContextManager::new(false);
    manager.load("a".to_string());
    manager.reload(vec!["b".to_string()]);
    manager.load("c".to_string());
    manager.reload(vec!["d".to_string()]);
    manager.load("a".to_string());
    let metadata = metadata(&manager);
    assert!(metadata.contains_template("a"));
    assert!(!metadata.contains_template("b"));
    assert!(!metadata.contains_template("c"));
    assert!(metadata.contains_template("d"));
    assert!(!metadata.reloading());
}

#[test]
fn reloading_is_told() {
    assert!(metadata(&ContextManager::new(true)).reloading());
    assert!(!metadata(&ContextManager::new(false)).reloading());
}

#[test]
fn guard_without_a_fairing_fails() {
    let (outcome, report) = Metadata::from_request(None);
    match outcome {
        Outcome::Failure((status, ())) => assert_eq!(status.code, 500),
        _ => panic!("the guard fails"),
    }
    let report = report.unwrap();
    assert_eq!(report.span, Some("missing_fairing"));
    assert_eq!(report.heading, "Uninitialized template context: missing fairing.");
    assert_eq!(
        report.lines,
        vec![
            "To use templates, you must attach `Template::fairing()`.",
            "See the `Template` documentation for more information.",
        ]
    );
}
