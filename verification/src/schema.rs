//! The normalized data model of the metadata document: flat option
//! categories with a declared default, and the two-level grouped dependency
//! structure.

use vstd::prelude::*;

verus! {

/// One selectable entry of a category: the server's identifier and the
/// display name shown in the menu.
#[derive(Debug)]
pub struct CategoryEntry {
    pub id: String,
    pub name: String,
}

/// One server-declared option category, normalized: the category's declared
/// type tag, its declared default identifier, and its entries in the
/// server's order.
#[derive(Debug)]
pub struct SchemaCategory {
    pub kind: String,
    pub default_id: String,
    pub entries: Vec<CategoryEntry>,
}

/// One group of the two-level dependency structure: the group's name and the
/// identifiers of its members in the group's internal order. `None` stands
/// for a group whose member list is absent, which offers zero dependencies.
#[derive(Debug)]
pub struct DependencyGroup {
    pub name: String,
    pub entries: Option<Vec<String>>,
}

/// The metadata document as the wizard reads it. A `None` field stands for a
/// category that is absent from the document or malformed; resolution of
/// that category fails without stopping the remaining steps.
#[derive(Debug)]
pub struct SchemaDocument {
    pub language: Option<SchemaCategory>,
    pub boot_version: Option<SchemaCategory>,
    pub packaging: Option<SchemaCategory>,
    pub java_version: Option<SchemaCategory>,
    pub dependencies: Option<Vec<DependencyGroup>>,
}

/// The four flat categories the wizard consults.
#[derive(Clone, Copy, Debug, PartialEq, Eq, Structural)]
pub enum CategoryKey {
    Language,
    BootVersion,
    Packaging,
    JavaVersion,
}

/// The flat category a key selects in the document.
pub open spec fn category_of(doc: SchemaDocument, key: CategoryKey) -> Option<SchemaCategory> {
    match key {
        CategoryKey::Language => doc.language,
        CategoryKey::BootVersion => doc.boot_version,
        CategoryKey::Packaging => doc.packaging,
        CategoryKey::JavaVersion => doc.java_version,
    }
}

} // verus!
