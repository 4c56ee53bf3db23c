use yacd::pipeline::PipelineConfig;
use yacd::registry::Registry;

fn record(name: &str) -> PipelineConfig {
    PipelineConfig::from_answers(
        name,
        "./Dockerfile",
        "web:v1",
        "--platform linux/amd64",
        "registry.example.com/web",
        "k8s.yaml",
    )
}

#[test]
fn init_on_empty_registry_lists_web() {
    let mut reg = Registry::new();
    reg.add(PipelineConfig::from_answers(
        "web",
        "./Dockerfile",
        "web:v1",
        "--platform linux/amd64",
        "registry.example.com/web",
        "deploy.yaml",
    ));
    assert_eq!(reg.names(), vec!["web".to_string()]);
    let p = reg.get(0);
    assert_eq!(p.dockerfile_location, "./Dockerfile");
    assert_eq!(p.docker_image_tag, "web:v1");
    assert_eq!(p.docker_image_flags, vec!["--platform".to_string(), "linux/amd64".to_string()]);
    assert_eq!(p.push_repository, "registry.example.com/web");
}

#[test]
fn delete_web_leaves_api() {
    let mut reg = Registry::new();
    reg.add(record("web"));
    reg.add(record("api"));
    assert!(reg.remove("web"));
    assert_eq!(reg.names(), vec!["api".to_string()]);
}

#[test]
fn add_appends_last_and_grows_by_one() {
    let mut reg = Registry::from_records(vec![record("a"), record("b")]);
    reg.add(record("c"));
    assert_eq!(reg.len(), 3);
    assert_eq!(reg.get(2).name, "c");
    assert_eq!(reg.names(), vec!["a".to_string(), "b".to_string(), "c".to_string()]);
}

#[test]
fn remove_absent_name_changes_nothing() {
    let mut reg = Registry::from_records(vec![record("a"), record("b")]);
    assert!(!reg.remove("zzz"));
    assert_eq!(reg.names(), vec!["a".to_string(), "b".to_string()]);
}

#[test]
fn remove_only_match_then_again() {
    let mut reg = Registry::from_records(vec![record("a"), record("b"), record("c")]);
    assert!(reg.remove("b"));
    assert_eq!(reg.len(), 2);
    assert!(!reg.remove("b"));
    assert_eq!(reg.names(), vec!["a".to_string(), "c".to_string()]);
}

#[test]
fn duplicate_names_remove_first_only() {
    let mut first = record("dup");
    first.docker_image_tag = "first".to_string();
    let mut second = record("dup");
    second.docker_image_tag = "second".to_string();
    let mut reg = Registry::from_records(vec![record("x"), first, second]);
    assert_eq!(reg.position("dup"), Some(1));
    assert_eq!(reg.find("dup").unwrap().docker_image_tag, "first");
    assert!(reg.remove("dup"));
    assert_eq!(reg.find("dup").unwrap().docker_image_tag, "second");
    assert_eq!(reg.records().len(), 2);
}

#[test]
fn empty_registry_finds_nothing() {
    let reg = Registry::new();
    assert_eq!(reg.len(), 0);
    assert!(reg.find("web").is_none());
    assert_eq!(reg.position("web"), None);
    assert!(reg.names().is_empty());
}
