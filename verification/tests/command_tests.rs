use spring_initializr_cli::command::{build, join_with_commas};
use spring_initializr_cli::engine::AnswerSet;

fn answers() -> AnswerSet {
    AnswerSet {
        language: "Java".to_string(),
        build_system: "Maven".to_string(),
        boot_version: "3.2.0".to_string(),
        group: "com.example".to_string(),
        name: "demo".to_string(),
        description: "a \"quoted\" project".to_string(),
        version: "1.0".to_string(),
        packaging: "Jar".to_string(),
        java_version: "17".to_string(),
        dependencies: vec!["web".to_string(), "lombok".to_string()],
    }
}

#[test]
fn quoted_description_stays_one_token() {
    let argv = build(&answers());
    let description_tokens: Vec<&String> =
        argv.iter().filter(|t| t.starts_with("--description=")).collect();
    assert_eq!(description_tokens.len(), 1);
    assert_eq!(description_tokens[0], "--description=a \"quoted\" project");
    let dependency_tokens: Vec<&String> =
        argv.iter().filter(|t| t.starts_with("--dependencies=")).collect();
    assert_eq!(dependency_tokens.len(), 1);
    assert_eq!(dependency_tokens[0], "--dependencies=web,lombok");
}

#[test]
fn argv_is_exact() {
    let argv = build(&answers());
    let expected = vec![
        "spring",
        "init",
        "--name=demo",
        "--groupId=com.example",
        "--artifactId=demo",
        "--version=1.0",
        "--description=a \"quoted\" project",
        "--package-name=com.example.demo",
        "--dependencies=web,lombok",
        "--build=maven",
        "--type=maven-project",
        "--java-version=17",
        "--language=java",
        "--boot-version=3.2.0",
        "--packaging=jar",
        "demo",
    ];
    assert_eq!(argv, expected);
}

#[test]
fn group_segment_of_package_name_is_lowercased() {
    let mut a = answers();
    a.group = "Com.Example".to_string();
    let argv = build(&a);
    assert!(argv.contains(&"--package-name=com.example.demo".to_string()));
    assert!(argv.contains(&"--groupId=Com.Example".to_string()));
}

#[test]
fn empty_selection_still_produces_dependencies_flag() {
    let mut a = answers();
    a.dependencies = vec![];
    let argv = build(&a);
    assert!(argv.contains(&"--dependencies=".to_string()));
}

#[test]
fn build_twice_is_byte_identical() {
    let a = answers();
    let first = build(&a);
    let second = build(&a);
    assert_eq!(first, second);
}

#[test]
fn join_with_commas_has_no_surrounding_spaces() {
    assert_eq!(join_with_commas(&vec![]), "");
    assert_eq!(join_with_commas(&vec!["web".to_string()]), "web");
    assert_eq!(
        join_with_commas(&vec!["web".to_string(), "lombok".to_string(), "devtools".to_string()]),
        "web,lombok,devtools"
    );
}

#[test]
fn lowercasing_touches_the_declared_flags_only() {
    let mut a = answers();
    a.language = "Kotlin".to_string();
    a.build_system = "Gradle".to_string();
    a.packaging = "War".to_string();
    a.boot_version = "3.2.0.RC1".to_string();
    let argv = build(&a);
    assert!(argv.contains(&"--language=kotlin".to_string()));
    assert!(argv.contains(&"--build=gradle".to_string()));
    assert!(argv.contains(&"--type=gradle-project".to_string()));
    assert!(argv.contains(&"--packaging=war".to_string()));
    assert!(argv.contains(&"--boot-version=3.2.0.RC1".to_string()));
}
