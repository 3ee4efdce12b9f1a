//! Resolution of server categories into menu form: display names projected
//! in the server's order, the declared default mapped onto a position, and
//! the grouped dependency structure flattened into one identifier list.

use vstd::prelude::*;
use crate::errors::WizardError;
use crate::schema::{category_of, CategoryKey, DependencyGroup, SchemaCategory, SchemaDocument};
use crate::text::{trimmed, trimmed_of};

verus! {

/// A category made presentable: the display names in the server's order and
/// the position the declared default selects, if any.
#[derive(Debug)]
pub struct ResolvedOptions {
    pub display_names: Vec<String>,
    pub default_index: Option<usize>,
}

/// Entry `i`'s identifier equals the declared default, both trimmed.
pub open spec fn entry_matches(cat: SchemaCategory, i: int) -> bool {
    trimmed_of(cat.entries@[i].id@) == trimmed_of(cat.default_id@)
}

/// The display names of a category, in the server's order.
pub open spec fn names_of(cat: SchemaCategory) -> Seq<Seq<char>> {
    Seq::new(cat.entries@.len(), |i: int| cat.entries@[i].name@)
}

/// What a correct default position is: the first entry whose trimmed
/// identifier equals the trimmed declared default, or `None` when no entry
/// matches.
pub open spec fn default_index_ok(cat: SchemaCategory, d: Option<usize>) -> bool {
    match d {
        Some(i) => i < cat.entries@.len() && entry_matches(cat, i as int) && (forall|j: int|
            0 <= j < i ==> !entry_matches(cat, j)),
        None => forall|j: int| 0 <= j < cat.entries@.len() ==> !entry_matches(cat, j),
    }
}

/// The position the wizard pre-selects: the resolved default position, or
/// position 0 when the default matched no entry.
pub open spec fn effective_default_of(d: Option<usize>) -> usize {
    match d {
        Some(i) => i,
        None => 0,
    }
}

/// What a correct pre-selected position is, stated without the intermediate
/// option: the first matching entry where one exists, and position 0 where
/// none does.
pub open spec fn effective_default_ok(cat: SchemaCategory, e: usize) -> bool {
    if exists|i: int| 0 <= i < cat.entries@.len() && entry_matches(cat, i) {
        e < cat.entries@.len() && entry_matches(cat, e as int) && (forall|j: int|
            0 <= j < e ==> !entry_matches(cat, j))
    } else {
        e == 0
    }
}

/// Collapsing a correct default position with the fallback to position 0
/// yields a correct pre-selected position.
pub proof fn lemma_effective_default(cat: SchemaCategory, d: Option<usize>)
    requires
        default_index_ok(cat, d),
    ensures
        effective_default_ok(cat, effective_default_of(d)),
{
    match d {
        Some(i) => {
            assert(entry_matches(cat, i as int));
        },
        None => {
        },
    }
}

/// The position the wizard pre-selects: the resolved default position,
/// falling back to the first entry when the default matched no entry.
pub fn effective_default(r: &ResolvedOptions) -> (d: usize)
    ensures
        d == effective_default_of(r.default_index),
{
    match r.default_index {
        Some(i) => i,
        None => 0,
    }
}

/// Maps one category onto its menu form: the display names project the
/// entries in order and in full, and the default position is the first
/// trimmed identifier match of the declared default, if there is one.
pub fn resolve_category(cat: &SchemaCategory) -> (r: ResolvedOptions)
    ensures
        r.display_names.deep_view() == names_of(*cat),
        default_index_ok(*cat, r.default_index),
{
    let target = trimmed(cat.default_id.as_str());
    let mut names: Vec<String> = Vec::new();
    let mut found: Option<usize> = None;
    let n = cat.entries.len();
    let mut i: usize = 0;
    while i < n
        invariant
            n == cat.entries@.len(),
            i <= n,
            names@.len() == i,
            forall|j: int| 0 <= j < i ==> names@[j]@ == cat.entries@[j].name@,
            target@ == trimmed_of(cat.default_id@),
            match found {
                Some(k) => k < i && entry_matches(*cat, k as int) && (forall|j: int|
                    0 <= j < k ==> !entry_matches(*cat, j)),
                None => forall|j: int| 0 <= j < i ==> !entry_matches(*cat, j),
            },
        decreases n - i,
    {
        names.push(cat.entries[i].name.clone());
        if found.is_none() {
            let t = trimmed(cat.entries[i].id.as_str());
            if t == target {
                found = Some(i);
            }
        }
        i = i + 1;
    }
    proof {
        assert(names.deep_view() =~= names_of(*cat));
    }
    ResolvedOptions { display_names: names, default_index: found }
}

/// Locates the keyed category in the document and resolves it. Fails with
/// the schema error exactly when the document lacks that category; an
/// unmatched default is not an error.
pub fn resolve(doc: &SchemaDocument, key: CategoryKey) -> (r: Result<ResolvedOptions, WizardError>)
    ensures
        r is Ok <==> category_of(*doc, key) is Some,
        r matches Ok(opts) ==> opts.display_names.deep_view() == names_of(
            category_of(*doc, key).unwrap(),
        ) && default_index_ok(category_of(*doc, key).unwrap(), opts.default_index),
        r matches Err(e) ==> e is Schema,
{
    let cat_opt = match key {
        CategoryKey::Language => &doc.language,
        CategoryKey::BootVersion => &doc.boot_version,
        CategoryKey::Packaging => &doc.packaging,
        CategoryKey::JavaVersion => &doc.java_version,
    };
    match cat_opt {
        Some(cat) => Ok(resolve_category(cat)),
        None => Err(WizardError::Schema),
    }
}

/// The identifiers one group offers: its member list, or nothing when the
/// list is absent.
pub open spec fn group_ids(g: DependencyGroup) -> Seq<Seq<char>> {
    match g.entries {
        Some(v) => v.deep_view(),
        None => Seq::empty(),
    }
}

/// All dependency identifiers of the grouped structure, flattened in group
/// order and, within each group, in the group's internal order. Group names
/// themselves do not appear.
pub open spec fn flatten_groups(gs: Seq<DependencyGroup>) -> Seq<Seq<char>>
    decreases gs.len(),
{
    if gs.len() == 0 {
        Seq::empty()
    } else {
        flatten_groups(gs.drop_last()) + group_ids(gs.last())
    }
}

fn append_all(dst: &mut Vec<String>, src: &Vec<String>)
    ensures
        final(dst).deep_view() == old(dst).deep_view() + src.deep_view(),
{
    let ghost dst0 = *dst;
    let m = src.len();
    let mut k: usize = 0;
    while k < m
        invariant
            m == src@.len(),
            k <= m,
            dst@.len() == dst0@.len() + k,
            forall|j: int| 0 <= j < dst0@.len() ==> dst@[j] == dst0@[j],
            forall|j: int| 0 <= j < k ==> dst@[dst0@.len() + j] == src@[j],
        decreases m - k,
    {
        dst.push(src[k].clone());
        k = k + 1;
    }
    proof {
        assert(dst.deep_view() =~= dst0.deep_view() + src.deep_view());
    }
}

proof fn lemma_flatten_take(gs: Seq<DependencyGroup>, i: int)
    requires
        0 <= i < gs.len(),
    ensures
        flatten_groups(gs.take(i + 1)) == flatten_groups(gs.take(i)) + group_ids(gs[i]),
{
    assert(gs.take(i + 1).drop_last() =~= gs.take(i));
    assert(gs.take(i + 1).last() == gs[i]);
}

/// Flattens the two-level dependency structure into the identifier list the
/// dependency multi-select offers. Fails with the schema error exactly when
/// the dependency structure is absent; a group without members contributes
/// nothing, which is not an error.
pub fn resolve_dependencies(doc: &SchemaDocument) -> (r: Result<Vec<String>, WizardError>)
    ensures
        r is Ok <==> doc.dependencies is Some,
        r matches Ok(ids) ==> ids.deep_view() == flatten_groups(doc.dependencies.unwrap()@),
        r matches Err(e) ==> e is Schema,
{
    match &doc.dependencies {
        None => Err(WizardError::Schema),
        Some(groups) => {
            let mut ids: Vec<String> = Vec::new();
            let n = groups.len();
            let mut i: usize = 0;
            while i < n
                invariant
                    n == groups@.len(),
                    i <= n,
                    ids.deep_view() == flatten_groups(groups@.take(i as int)),
                decreases n - i,
            {
                match &groups[i].entries {
                    None => {
                        proof {
                            assert(group_ids(groups@[i as int]) =~= Seq::<Seq<char>>::empty());
                        }
                    },
                    Some(members) => {
                        append_all(&mut ids, members);
                    },
                }
                proof {
                    lemma_flatten_take(groups@, i as int);
                    assert(ids.deep_view() =~= flatten_groups(groups@.take(i + 1)));
                }
                i = i + 1;
            }
            proof {
                assert(groups@.take(n as int) =~= groups@);
            }
            Ok(ids)
        },
    }
}

/// An unmatched default selects no position, and the wizard then falls back
/// to the first entry: when no entry's trimmed identifier equals the trimmed
/// declared default, the resolved default position is `None`, and the
/// position the wizard pre-selects from it is 0.
pub proof fn lemma_unmatched_default_falls_back(cat: SchemaCategory, d: Option<usize>)
    requires
        forall|j: int| 0 <= j < cat.entries@.len() ==> !entry_matches(cat, j),
        default_index_ok(cat, d),
    ensures
        d is None,
        effective_default_of(d) == 0,
{
}

} // verus!
