//! The wizard engine: a fixed ordered sequence of prompt steps. For each
//! step the engine says what to present (a single-select with a resolved
//! default, a multi-select, or a free-text prompt with a default), and
//! records the answer handed back; a step whose category failed to resolve
//! is skipped, and its field keeps its initial empty value.

use vstd::prelude::*;
use vstd::string::StringExecFns;
use crate::errors::WizardError;
use crate::resolve::{
    effective_default, effective_default_ok, flatten_groups, names_of, resolve,
    resolve_dependencies, lemma_effective_default,
};
use crate::schema::{CategoryKey, SchemaCategory, SchemaDocument};
use crate::text::{trimmed, trimmed_of};

verus! {

/// How many steps the wizard runs.
pub const STEP_COUNT: usize = 10;

/// The wizard's steps, in their fixed order.
#[derive(Clone, Copy, Debug, PartialEq, Eq, Structural)]
pub enum WizardStep {
    Language,
    BuildSystem,
    BootVersion,
    Group,
    Name,
    Description,
    Version,
    Packaging,
    JavaVersion,
    Dependencies,
}

/// The step at a given position of the sequence.
pub open spec fn step_at(pos: int) -> WizardStep {
    if pos == 0 {
        WizardStep::Language
    } else if pos == 1 {
        WizardStep::BuildSystem
    } else if pos == 2 {
        WizardStep::BootVersion
    } else if pos == 3 {
        WizardStep::Group
    } else if pos == 4 {
        WizardStep::Name
    } else if pos == 5 {
        WizardStep::Description
    } else if pos == 6 {
        WizardStep::Version
    } else if pos == 7 {
        WizardStep::Packaging
    } else if pos == 8 {
        WizardStep::JavaVersion
    } else {
        WizardStep::Dependencies
    }
}

/// What one step presents to the user.
#[derive(Debug)]
pub enum PromptPlan {
    /// A menu of choices with one position pre-selected.
    SingleSelect { choices: Vec<String>, default_index: usize },
    /// A menu of choices of which any subset may be taken.
    MultiSelect { choices: Vec<String> },
    /// A free-text prompt with a default answer.
    FreeText { default_text: String },
}

/// One answer handed back by the interaction: the chosen position, the
/// chosen positions, or the entered text.
#[derive(Debug)]
pub enum Answer {
    Pick(usize),
    Picks(Vec<usize>),
    Text(String),
}

/// The collected decisions, one field per step. Fields of skipped steps
/// keep their initial empty value.
#[derive(Debug)]
pub struct AnswerSet {
    pub language: String,
    pub build_system: String,
    pub boot_version: String,
    pub group: String,
    pub name: String,
    pub description: String,
    pub version: String,
    pub packaging: String,
    pub java_version: String,
    pub dependencies: Vec<String>,
}

/// Every field of the answer set is empty.
pub open spec fn answer_set_empty(a: AnswerSet) -> bool {
    &&& a.language@ == Seq::<char>::empty()
    &&& a.build_system@ == Seq::<char>::empty()
    &&& a.boot_version@ == Seq::<char>::empty()
    &&& a.group@ == Seq::<char>::empty()
    &&& a.name@ == Seq::<char>::empty()
    &&& a.description@ == Seq::<char>::empty()
    &&& a.version@ == Seq::<char>::empty()
    &&& a.packaging@ == Seq::<char>::empty()
    &&& a.java_version@ == Seq::<char>::empty()
    &&& a.dependencies@ == Seq::<String>::empty()
}

impl AnswerSet {
    /// A fresh answer set: every text field empty, no dependencies selected.
    pub fn new() -> (a: AnswerSet)
        ensures
            answer_set_empty(a),
    {
        AnswerSet {
            language: String::new(),
            build_system: String::new(),
            boot_version: String::new(),
            group: String::new(),
            name: String::new(),
            description: String::new(),
            version: String::new(),
            packaging: String::new(),
            java_version: String::new(),
            dependencies: Vec::new(),
        }
    }
}

/// The identifiers a multi-select answer selects: the chosen positions
/// mapped back onto the offered list, de-duplicated, in presentation order.
pub open spec fn selected_spec(choices: Seq<Seq<char>>, picks: Seq<usize>) -> Seq<Seq<char>>
    decreases choices.len(),
{
    if choices.len() == 0 {
        Seq::empty()
    } else if picks.contains((choices.len() - 1) as usize) {
        selected_spec(choices.drop_last(), picks).push(choices.last())
    } else {
        selected_spec(choices.drop_last(), picks)
    }
}

/// Only which positions were chosen matters: two multi-select answers that
/// pick the same set of positions select the same identifiers, whatever
/// order the positions came back in and however often one repeats.
pub proof fn lemma_selection_depends_on_membership(
    choices: Seq<Seq<char>>,
    p1: Seq<usize>,
    p2: Seq<usize>,
)
    requires
        forall|x: usize| #[trigger] p1.contains(x) == p2.contains(x),
    ensures
        selected_spec(choices, p1) == selected_spec(choices, p2),
    decreases choices.len(),
{
    if choices.len() > 0 {
        lemma_selection_depends_on_membership(choices.drop_last(), p1, p2);
    }
}

proof fn lemma_selected_take(choices: Seq<Seq<char>>, picks: Seq<usize>, i: int)
    requires
        0 <= i < choices.len(),
        choices.len() <= usize::MAX,
    ensures
        selected_spec(choices.take(i + 1), picks) == (if picks.contains(i as usize) {
            selected_spec(choices.take(i), picks).push(choices[i])
        } else {
            selected_spec(choices.take(i), picks)
        }),
{
    assert(choices.take(i + 1).drop_last() =~= choices.take(i));
    assert(choices.take(i + 1).last() == choices[i]);
    assert((choices.take(i + 1).len() - 1) as usize == i as usize);
}

fn contains_pos(picks: &Vec<usize>, x: usize) -> (r: bool)
    ensures
        r == picks@.contains(x),
{
    let n = picks.len();
    let mut k: usize = 0;
    while k < n
        invariant
            n == picks@.len(),
            k <= n,
            forall|j: int| 0 <= j < k ==> picks@[j] != x,
        decreases n - k,
    {
        if picks[k] == x {
            proof {
                assert(picks@[k as int] == x);
            }
            return true;
        }
        k = k + 1;
    }
    false
}

/// Transcribes a multi-select answer back into identifiers: whatever order
/// the positions came back in, and however often one repeats, the result
/// lists each chosen identifier once, in presentation order.
pub fn transcribe_selection(choices: &Vec<String>, picks: &Vec<usize>) -> (r: Vec<String>)
    ensures
        r.deep_view() == selected_spec(choices.deep_view(), picks@),
{
    let mut r: Vec<String> = Vec::new();
    let n = choices.len();
    let mut i: usize = 0;
    while i < n
        invariant
            n == choices@.len(),
            i <= n,
            r.deep_view() == selected_spec(choices.deep_view().take(i as int), picks@),
        decreases n - i,
    {
        let picked = contains_pos(picks, i);
        if picked {
            r.push(choices[i].clone());
            proof {
                assert(r.deep_view() =~= selected_spec(
                    choices.deep_view().take(i as int),
                    picks@,
                ).push(choices.deep_view()[i as int]));
            }
        }
        proof {
            lemma_selected_take(choices.deep_view(), picks@, i as int);
        }
        i = i + 1;
    }
    proof {
        assert(choices.deep_view().take(n as int) =~= choices.deep_view());
    }
    r
}

/// The wizard: the document every category is resolved from, the answers
/// collected so far, and the position of the current step.
pub struct WizardEngine {
    pub doc: SchemaDocument,
    pub answers: AnswerSet,
    pub pos: usize,
}

/// What a correct plan for a single-select step drawn from a category is:
/// the schema error exactly when the category is absent, else the menu of
/// the category's display names with a correct pre-selected position.
pub open spec fn single_plan_ok(
    cat_opt: Option<SchemaCategory>,
    r: Result<PromptPlan, WizardError>,
) -> bool {
    match cat_opt {
        None => r matches Err(e) && e is Schema,
        Some(cat) => r matches Ok(p) && p matches PromptPlan::SingleSelect { choices, default_index }
            && choices.deep_view() == names_of(cat) && effective_default_ok(cat, default_index),
    }
}

/// What a correct plan for a free-text step is: the prompt's default text.
pub open spec fn text_plan_ok(default_text: Seq<char>, r: Result<PromptPlan, WizardError>) -> bool {
    r matches Ok(p) && p matches PromptPlan::FreeText { default_text: d } && d@ == default_text
}

/// The answer's shape fits the current step, and a chosen position lies
/// within the step's choices.
pub open spec fn answer_fits(e: WizardEngine, a: Answer) -> bool {
    match step_at(e.pos as int) {
        WizardStep::Language => e.doc.language matches Some(cat) && (a matches Answer::Pick(i)
            && i < cat.entries@.len()),
        WizardStep::BuildSystem => a matches Answer::Pick(i) && i < 2,
        WizardStep::BootVersion => e.doc.boot_version matches Some(cat) && (a matches Answer::Pick(
            i,
        ) && i < cat.entries@.len()),
        WizardStep::Group => a is Text,
        WizardStep::Name => a is Text,
        WizardStep::Description => a is Text,
        WizardStep::Version => a is Text,
        WizardStep::Packaging => e.doc.packaging matches Some(cat) && (a matches Answer::Pick(i)
            && i < cat.entries@.len()),
        WizardStep::JavaVersion => e.doc.java_version matches Some(cat) && (a matches Answer::Pick(
            i,
        ) && i < cat.entries@.len()),
        WizardStep::Dependencies => e.doc.dependencies is Some && a is Picks,
    }
}

/// How one submitted answer advances the wizard: the document is untouched,
/// the position moves one step on, the current step's field takes the
/// answer (a chosen position becomes its display name, free text is stored
/// trimmed, chosen dependency positions become their identifiers in
/// presentation order), and every other field stays as it was.
pub open spec fn submit_post(pre: WizardEngine, post: WizardEngine, a: Answer) -> bool {
    &&& post.doc == pre.doc
    &&& post.pos == pre.pos + 1
    &&& match step_at(pre.pos as int) {
        WizardStep::Language => a matches Answer::Pick(i) && post.answers == (AnswerSet {
            language: post.answers.language,
            ..pre.answers
        }) && post.answers.language@ == names_of(pre.doc.language.unwrap())[i as int],
        WizardStep::BuildSystem => a matches Answer::Pick(i) && post.answers == (AnswerSet {
            build_system: post.answers.build_system,
            ..pre.answers
        }) && post.answers.build_system@ == (if i == 0 {
            "Gradle"@
        } else {
            "Maven"@
        }),
        WizardStep::BootVersion => a matches Answer::Pick(i) && post.answers == (AnswerSet {
            boot_version: post.answers.boot_version,
            ..pre.answers
        }) && post.answers.boot_version@ == names_of(pre.doc.boot_version.unwrap())[i as int],
        WizardStep::Group => a matches Answer::Text(s) && post.answers == (AnswerSet {
            group: post.answers.group,
            ..pre.answers
        }) && post.answers.group@ == trimmed_of(s@),
        WizardStep::Name => a matches Answer::Text(s) && post.answers == (AnswerSet {
            name: post.answers.name,
            ..pre.answers
        }) && post.answers.name@ == trimmed_of(s@),
        WizardStep::Description => a matches Answer::Text(s) && post.answers == (AnswerSet {
            description: post.answers.description,
            ..pre.answers
        }) && post.answers.description@ == trimmed_of(s@),
        WizardStep::Version => a matches Answer::Text(s) && post.answers == (AnswerSet {
            version: post.answers.version,
            ..pre.answers
        }) && post.answers.version@ == trimmed_of(s@),
        WizardStep::Packaging => a matches Answer::Pick(i) && post.answers == (AnswerSet {
            packaging: post.answers.packaging,
            ..pre.answers
        }) && post.answers.packaging@ == names_of(pre.doc.packaging.unwrap())[i as int],
        WizardStep::JavaVersion => a matches Answer::Pick(i) && post.answers == (AnswerSet {
            java_version: post.answers.java_version,
            ..pre.answers
        }) && post.answers.java_version@ == names_of(pre.doc.java_version.unwrap())[i as int],
        WizardStep::Dependencies => a matches Answer::Picks(ps) && post.answers == (AnswerSet {
            dependencies: post.answers.dependencies,
            ..pre.answers
        }) && post.answers.dependencies.deep_view() == selected_spec(
            flatten_groups(pre.doc.dependencies.unwrap()@),
            ps@,
        ),
    }
}

fn step_of_pos(pos: usize) -> (s: WizardStep)
    requires
        pos < STEP_COUNT,
    ensures
        s == step_at(pos as int),
{
    if pos == 0 {
        WizardStep::Language
    } else if pos == 1 {
        WizardStep::BuildSystem
    } else if pos == 2 {
        WizardStep::BootVersion
    } else if pos == 3 {
        WizardStep::Group
    } else if pos == 4 {
        WizardStep::Name
    } else if pos == 5 {
        WizardStep::Description
    } else if pos == 6 {
        WizardStep::Version
    } else if pos == 7 {
        WizardStep::Packaging
    } else if pos == 8 {
        WizardStep::JavaVersion
    } else {
        WizardStep::Dependencies
    }
}

impl WizardEngine {
    /// A wizard at its first step, with nothing answered yet, resolving
    /// every category from the one given document.
    pub fn new(doc: SchemaDocument) -> (e: WizardEngine)
        ensures
            e.doc == doc,
            e.pos == 0,
            answer_set_empty(e.answers),
    {
        WizardEngine { doc, answers: AnswerSet::new(), pos: 0 }
    }

    /// Whether every step has been taken.
    pub fn finished(&self) -> (r: bool)
        ensures
            r == (self.pos >= STEP_COUNT),
    {
        self.pos >= STEP_COUNT
    }

    /// The step the wizard stands at, or `None` once every step is done.
    pub fn current_step(&self) -> (r: Option<WizardStep>)
        ensures
            self.pos < STEP_COUNT ==> r == Some(step_at(self.pos as int)),
            self.pos >= STEP_COUNT ==> r is None,
    {
        if self.pos < STEP_COUNT {
            Some(step_of_pos(self.pos))
        } else {
            None
        }
    }

    /// What the current step presents: a single-select over the step's
    /// category with a correct pre-selected position, the fixed build-system
    /// menu with its second entry pre-selected, a free-text prompt with the
    /// step's default text, or the dependency multi-select. Fails with the
    /// schema error exactly when the step's category is absent.
    pub fn plan_current(&self) -> (r: Result<PromptPlan, WizardError>)
        requires
            self.pos < STEP_COUNT,
        ensures
            match step_at(self.pos as int) {
                WizardStep::Language => single_plan_ok(self.doc.language, r),
                WizardStep::BuildSystem => r matches Ok(p) && p matches PromptPlan::SingleSelect {
                    choices,
                    default_index,
                } && choices.deep_view() == seq!["Gradle"@, "Maven"@] && default_index == 1,
                WizardStep::BootVersion => single_plan_ok(self.doc.boot_version, r),
                WizardStep::Group => text_plan_ok("com.example"@, r),
                WizardStep::Name => text_plan_ok("demo"@, r),
                WizardStep::Description => text_plan_ok("Demo project for Spring Boot"@, r),
                WizardStep::Version => text_plan_ok("1.0"@, r),
                WizardStep::Packaging => single_plan_ok(self.doc.packaging, r),
                WizardStep::JavaVersion => single_plan_ok(self.doc.java_version, r),
                WizardStep::Dependencies => match self.doc.dependencies {
                    None => r matches Err(e) && e is Schema,
                    Some(gs) => r matches Ok(p) && p matches PromptPlan::MultiSelect { choices }
                        && choices.deep_view() == flatten_groups(gs@),
                },
            },
    {
        match step_of_pos(self.pos) {
            WizardStep::Language => Self::plan_single(&self.doc, CategoryKey::Language),
            WizardStep::BuildSystem => {
                let choices = vec![String::from_str("Gradle"), String::from_str("Maven")];
                proof {
                    assert(choices.deep_view() =~= seq!["Gradle"@, "Maven"@]);
                }
                Ok(PromptPlan::SingleSelect { choices, default_index: 1 })
            },
            WizardStep::BootVersion => Self::plan_single(&self.doc, CategoryKey::BootVersion),
            WizardStep::Group => Ok(
                PromptPlan::FreeText { default_text: String::from_str("com.example") },
            ),
            WizardStep::Name => Ok(PromptPlan::FreeText { default_text: String::from_str("demo") }),
            WizardStep::Description => Ok(
                PromptPlan::FreeText {
                    default_text: String::from_str("Demo project for Spring Boot"),
                },
            ),
            WizardStep::Version => Ok(
                PromptPlan::FreeText { default_text: String::from_str("1.0") },
            ),
            WizardStep::Packaging => Self::plan_single(&self.doc, CategoryKey::Packaging),
            WizardStep::JavaVersion => Self::plan_single(&self.doc, CategoryKey::JavaVersion),
            WizardStep::Dependencies => match resolve_dependencies(&self.doc) {
                Ok(ids) => Ok(PromptPlan::MultiSelect { choices: ids }),
                Err(e) => Err(e),
            },
        }
    }

    fn plan_single(doc: &SchemaDocument, key: CategoryKey) -> (r: Result<PromptPlan, WizardError>)
        ensures
            single_plan_ok(crate::schema::category_of(*doc, key), r),
    {
        match resolve(doc, key) {
            Ok(opts) => {
                let d = effective_default(&opts);
                proof {
                    lemma_effective_default(
                        crate::schema::category_of(*doc, key).unwrap(),
                        opts.default_index,
                    );
                }
                Ok(PromptPlan::SingleSelect { choices: opts.display_names, default_index: d })
            },
            Err(e) => Err(e),
        }
    }

    /// Skips the current step, reporting nothing into the answer set: the
    /// position moves one step on and every answer stays as it was.
    pub fn skip(&mut self)
        requires
            old(self).pos < STEP_COUNT,
        ensures
            final(self).doc == old(self).doc,
            final(self).answers == old(self).answers,
            final(self).pos == old(self).pos + 1,
    {
        self.pos = self.pos + 1;
    }

    /// Records the answer of the current step and moves one step on, as
    /// `submit_post` states.
    pub fn submit(&mut self, a: Answer)
        requires
            old(self).pos < STEP_COUNT,
            answer_fits(*old(self), a),
        ensures
            submit_post(*old(self), *final(self), a),
    {
        let step = step_of_pos(self.pos);
        match (step, a) {
            (WizardStep::Language, Answer::Pick(i)) => {
                let cat = self.doc.language.as_ref().unwrap();
                self.answers.language = cat.entries[i].name.clone();
            },
            (WizardStep::BuildSystem, Answer::Pick(i)) => {
                self.answers.build_system = if i == 0 {
                    String::from_str("Gradle")
                } else {
                    String::from_str("Maven")
                };
            },
            (WizardStep::BootVersion, Answer::Pick(i)) => {
                let cat = self.doc.boot_version.as_ref().unwrap();
                self.answers.boot_version = cat.entries[i].name.clone();
            },
            (WizardStep::Group, Answer::Text(s)) => {
                self.answers.group = trimmed(s.as_str());
            },
            (WizardStep::Name, Answer::Text(s)) => {
                self.answers.name = trimmed(s.as_str());
            },
            (WizardStep::Description, Answer::Text(s)) => {
                self.answers.description = trimmed(s.as_str());
            },
            (WizardStep::Version, Answer::Text(s)) => {
                self.answers.version = trimmed(s.as_str());
            },
            (WizardStep::Packaging, Answer::Pick(i)) => {
                let cat = self.doc.packaging.as_ref().unwrap();
                self.answers.packaging = cat.entries[i].name.clone();
            },
            (WizardStep::JavaVersion, Answer::Pick(i)) => {
                let cat = self.doc.java_version.as_ref().unwrap();
                self.answers.java_version = cat.entries[i].name.clone();
            },
            (WizardStep::Dependencies, Answer::Picks(ps)) => {
                let ids = resolve_dependencies(&self.doc).unwrap();
                self.answers.dependencies = transcribe_selection(&ids, &ps);
            },
            _ => {
                proof {
                    assert(false);
                }
            },
        }
        self.pos = self.pos + 1;
    }
}

} // verus!
