//! Command synthesis: the completed answer set becomes an exact argument
//! vector for the external scaffolding tool. Every value stays one discrete
//! token, so text with spaces or quotes never splits and never passes
//! through a shell.

use vstd::prelude::*;
use vstd::string::StringExecFns;
use crate::engine::AnswerSet;
use crate::text::{lower_of, lowercase};

verus! {

/// The items joined by single commas, with no surrounding spaces; empty
/// input gives the empty sequence.
pub open spec fn join_comma(items: Seq<Seq<char>>) -> Seq<char>
    decreases items.len(),
{
    if items.len() == 0 {
        Seq::empty()
    } else if items.len() == 1 {
        items[0]
    } else {
        join_comma(items.drop_last()) + ","@ + items.last()
    }
}

/// The exact argument vector the builder owes a completed answer set: the
/// tool name and its subcommand, one token per flag with the flag's value
/// inside the token, and the project name as the trailing positional
/// argument.
pub open spec fn arg_tokens(a: AnswerSet) -> Seq<Seq<char>> {
    seq![
        "spring"@,
        "init"@,
        "--name="@ + a.name@,
        "--groupId="@ + a.group@,
        "--artifactId="@ + a.name@,
        "--version="@ + a.version@,
        "--description="@ + a.description@,
        "--package-name="@ + lower_of(a.group@) + "."@ + a.name@,
        "--dependencies="@ + join_comma(a.dependencies.deep_view()),
        "--build="@ + lower_of(a.build_system@),
        "--type="@ + lower_of(a.build_system@) + "-project"@,
        "--java-version="@ + a.java_version@,
        "--language="@ + lower_of(a.language@),
        "--boot-version="@ + a.boot_version@,
        "--packaging="@ + lower_of(a.packaging@),
        a.name@,
    ]
}

fn flag_token(flag: &str, value: &str) -> (r: String)
    ensures
        r@ == flag@ + value@,
{
    let mut t = String::from_str(flag);
    t.append(value);
    t
}

/// Joins the selected identifiers with commas, no surrounding spaces; an
/// empty selection gives the empty string.
pub fn join_with_commas(items: &Vec<String>) -> (r: String)
    ensures
        r@ == join_comma(items.deep_view()),
{
    let mut s = String::new();
    let n = items.len();
    let mut i: usize = 0;
    while i < n
        invariant
            n == items@.len(),
            i <= n,
            s@ == join_comma(items.deep_view().take(i as int)),
        decreases n - i,
    {
        if i > 0 {
            s.append(",");
        }
        s.append(items[i].as_str());
        proof {
            let dv = items.deep_view();
            assert(dv.take(i + 1).drop_last() =~= dv.take(i as int));
            assert(dv.take(i + 1).last() == dv[i as int]);
            if i == 0 {
                assert(s@ =~= join_comma(dv.take(1)));
            } else {
                assert(s@ =~= join_comma(dv.take(i + 1)));
            }
        }
        i = i + 1;
    }
    proof {
        assert(items.deep_view().take(n as int) =~= items.deep_view());
    }
    s
}

/// Compiles the answer set into the tool's argument vector, exactly as
/// `arg_tokens` states: pure, deterministic, one token per flag. Free-form
/// text (the description above all) stays one token however it is quoted
/// or spaced.
pub fn build(a: &AnswerSet) -> (r: Vec<String>)
    ensures
        r.deep_view() == arg_tokens(*a),
{
    let mut r: Vec<String> = Vec::new();
    r.push(String::from_str("spring"));
    r.push(String::from_str("init"));
    r.push(flag_token("--name=", a.name.as_str()));
    r.push(flag_token("--groupId=", a.group.as_str()));
    r.push(flag_token("--artifactId=", a.name.as_str()));
    r.push(flag_token("--version=", a.version.as_str()));
    r.push(flag_token("--description=", a.description.as_str()));
    let lower_group = lowercase(a.group.as_str());
    let mut pkg = String::from_str("--package-name=");
    pkg.append(lower_group.as_str());
    pkg.append(".");
    pkg.append(a.name.as_str());
    r.push(pkg);
    let joined = join_with_commas(&a.dependencies);
    let mut deps = String::from_str("--dependencies=");
    deps.append(joined.as_str());
    r.push(deps);
    let lower_build = lowercase(a.build_system.as_str());
    r.push(flag_token("--build=", lower_build.as_str()));
    let mut ty = String::from_str("--type=");
    ty.append(lower_build.as_str());
    ty.append("-project");
    r.push(ty);
    r.push(flag_token("--java-version=", a.java_version.as_str()));
    let lower_lang = lowercase(a.language.as_str());
    r.push(flag_token("--language=", lower_lang.as_str()));
    r.push(flag_token("--boot-version=", a.boot_version.as_str()));
    let lower_pack = lowercase(a.packaging.as_str());
    r.push(flag_token("--packaging=", lower_pack.as_str()));
    r.push(a.name.clone());
    proof {
        assert(r.deep_view() =~= arg_tokens(*a));
    }
    r
}

/// Command synthesis is a function of the answer set alone: two argument
/// vectors that both meet the builder's contract for the same answer set
/// are identical, token for token.
pub proof fn lemma_build_deterministic(a: AnswerSet, r1: Seq<Seq<char>>, r2: Seq<Seq<char>>)
    requires
        r1 == arg_tokens(a),
        r2 == arg_tokens(a),
    ensures
        r1 == r2,
{
}

} // verus!
