use spring_initializr_cli::errors::WizardError;
use spring_initializr_cli::resolve::{
    effective_default, resolve, resolve_category, resolve_dependencies,
};
use spring_initializr_cli::schema::{
    CategoryEntry, CategoryKey, DependencyGroup, SchemaCategory, SchemaDocument,
};

fn entry(id: &str, name: &str) -> CategoryEntry {
    CategoryEntry { id: id.to_string(), name: name.to_string() }
}

fn category(default_id: &str, entries: Vec<CategoryEntry>) -> SchemaCategory {
    SchemaCategory { kind: "single-select".to_string(), default_id: default_id.to_string(), entries }
}

fn sample_document() -> SchemaDocument {
    SchemaDocument {
        language: Some(category(
            "kotlin",
            vec![entry("java", "Java"), entry("kotlin", "Kotlin"), entry("groovy", "Groovy")],
        )),
        boot_version: Some(category(
            "3.2.0",
            vec![entry("3.2.1", "3.2.1"), entry("3.2.0", "3.2.0")],
        )),
        packaging: Some(category("jar", vec![entry("jar", "Jar"), entry("war", "War")])),
        java_version: Some(category("17", vec![entry("21", "21"), entry("17", "17")])),
        dependencies: Some(vec![
            DependencyGroup {
                name: "Web".to_string(),
                entries: Some(vec!["web".to_string(), "webflux".to_string()]),
            },
            DependencyGroup {
                name: "Developer Tools".to_string(),
                entries: Some(vec!["lombok".to_string(), "devtools".to_string()]),
            },
        ]),
    }
}

#[test]
fn display_names_keep_order_and_length() {
    let cat = category(
        "kotlin",
        vec![entry("java", "Java"), entry("kotlin", "Kotlin"), entry("groovy", "Groovy")],
    );
    let resolved = resolve_category(&cat);
    assert_eq!(resolved.display_names, vec!["Java", "Kotlin", "Groovy"]);
    assert_eq!(resolved.display_names.len(), cat.entries.len());
}

#[test]
fn default_id_selects_matching_position() {
    let cat = category(
        "kotlin",
        vec![entry("java", "Java"), entry("kotlin", "Kotlin"), entry("groovy", "Groovy")],
    );
    let resolved = resolve_category(&cat);
    assert_eq!(resolved.default_index, Some(1));
    assert_eq!(effective_default(&resolved), 1);
}

#[test]
fn default_id_is_trimmed_before_comparison() {
    let cat = category(
        "  kotlin  ",
        vec![entry("java", "Java"), entry("kotlin", "Kotlin")],
    );
    let resolved = resolve_category(&cat);
    assert_eq!(resolved.default_index, Some(1));
}

#[test]
fn entry_ids_are_trimmed_before_comparison() {
    let cat = category("java", vec![entry(" java ", "Java"), entry("kotlin", "Kotlin")]);
    let resolved = resolve_category(&cat);
    assert_eq!(resolved.default_index, Some(0));
}

#[test]
fn unmatched_default_yields_none_and_falls_back_to_first() {
    let cat = category(
        "scala",
        vec![entry("java", "Java"), entry("kotlin", "Kotlin")],
    );
    let resolved = resolve_category(&cat);
    assert_eq!(resolved.default_index, None);
    assert_eq!(effective_default(&resolved), 0);
}

#[test]
fn empty_default_id_matches_nothing() {
    let cat = category("", vec![entry("java", "Java")]);
    let resolved = resolve_category(&cat);
    assert_eq!(resolved.default_index, None);
}

#[test]
fn first_of_several_matches_wins() {
    let cat = category(
        "java",
        vec![entry("kotlin", "Kotlin"), entry("java", "Java 17"), entry("java", "Java 21")],
    );
    let resolved = resolve_category(&cat);
    assert_eq!(resolved.default_index, Some(1));
}

#[test]
fn resolve_locates_each_category_by_key() {
    let doc = sample_document();
    let languages = resolve(&doc, CategoryKey::Language).unwrap();
    assert_eq!(languages.display_names, vec!["Java", "Kotlin", "Groovy"]);
    let boots = resolve(&doc, CategoryKey::BootVersion).unwrap();
    assert_eq!(boots.display_names, vec!["3.2.1", "3.2.0"]);
    assert_eq!(boots.default_index, Some(1));
    let packagings = resolve(&doc, CategoryKey::Packaging).unwrap();
    assert_eq!(packagings.default_index, Some(0));
    let javas = resolve(&doc, CategoryKey::JavaVersion).unwrap();
    assert_eq!(javas.display_names, vec!["21", "17"]);
}

#[test]
fn missing_category_is_a_schema_error() {
    let mut doc = sample_document();
    doc.packaging = None;
    let r = resolve(&doc, CategoryKey::Packaging);
    assert_eq!(r.unwrap_err(), WizardError::Schema);
    let ok = resolve(&doc, CategoryKey::Language);
    assert!(ok.is_ok());
}

#[test]
fn two_groups_of_two_flatten_to_four_identifiers_in_order() {
    let doc = sample_document();
    let ids = resolve_dependencies(&doc).unwrap();
    assert_eq!(ids, vec!["web", "webflux", "lombok", "devtools"]);
    assert!(!ids.contains(&"Web".to_string()));
    assert!(!ids.contains(&"Developer Tools".to_string()));
}

#[test]
fn group_without_member_list_offers_nothing() {
    let mut doc = sample_document();
    doc.dependencies = Some(vec![
        DependencyGroup { name: "Empty".to_string(), entries: None },
        DependencyGroup {
            name: "Web".to_string(),
            entries: Some(vec!["web".to_string()]),
        },
        DependencyGroup { name: "Drained".to_string(), entries: Some(vec![]) },
    ]);
    let ids = resolve_dependencies(&doc).unwrap();
    assert_eq!(ids, vec!["web"]);
}

#[test]
fn missing_dependency_structure_is_a_schema_error() {
    let mut doc = sample_document();
    doc.dependencies = None;
    let r = resolve_dependencies(&doc);
    assert_eq!(r.unwrap_err(), WizardError::Schema);
}
