use yacd::pipeline::{copy_strings, strip_quotes, PipelineConfig};

#[test]
fn strip_quotes_removes_enclosing_pair() {
    assert_eq!(strip_quotes("'./app/Dockerfile'"), "./app/Dockerfile");
    assert_eq!(strip_quotes("''"), "");
}

#[test]
fn strip_quotes_keeps_other_answers() {
    assert_eq!(strip_quotes("./Dockerfile"), "./Dockerfile");
    assert_eq!(strip_quotes("'half"), "'half");
    assert_eq!(strip_quotes("'"), "'");
    assert_eq!(strip_quotes(""), "");
}

#[test]
fn from_answers_splits_flags_and_unquotes_paths() {
    let p = PipelineConfig::from_answers(
        "web",
        "'./Dockerfile'",
        "web:v1",
        "  --platform   linux/amd64 --no-cache ",
        "registry.example.com/web",
        "'k8s/deploy.yaml'",
    );
    assert_eq!(p.name, "web");
    assert_eq!(p.dockerfile_location, "./Dockerfile");
    assert_eq!(
        p.docker_image_flags,
        vec!["--platform".to_string(), "linux/amd64".to_string(), "--no-cache".to_string()]
    );
    assert_eq!(p.kubernetes_yaml_location, "k8s/deploy.yaml");
}

#[test]
fn from_answers_with_no_flags() {
    let p = PipelineConfig::from_answers("web", "D", "t", "   ", "r", "k");
    assert!(p.docker_image_flags.is_empty());
}

#[test]
fn duplicate_copies_every_field() {
    let p = PipelineConfig::from_answers("web", "D", "t", "-a -b", "r", "k");
    let q = p.duplicate();
    assert_eq!(q.name, p.name);
    assert_eq!(q.dockerfile_location, p.dockerfile_location);
    assert_eq!(q.docker_image_tag, p.docker_image_tag);
    assert_eq!(q.docker_image_flags, p.docker_image_flags);
    assert_eq!(q.push_repository, p.push_repository);
    assert_eq!(q.kubernetes_yaml_location, p.kubernetes_yaml_location);
    assert_eq!(copy_strings(&p.docker_image_flags), vec!["-a".to_string(), "-b".to_string()]);
}
