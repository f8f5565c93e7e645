//! Grouped import statements, each optionally preceded by feature guards
//! and a version guard, in exactly the order the caller supplied them.

use vstd::prelude::*;
use vstd::string::StringExecFns;

use crate::annotations::version_condition;
use crate::annotations::version_condition_text;
use crate::env::Env;
use crate::text::join_strings;
use crate::text::join_text;
use crate::text::line;
use crate::text::opt_line;
use crate::text::push_blank_line;
use crate::text::push_line;
use crate::version::Version;

verus! {

/// One import: a module path, an optional minimum-version constraint, and
/// the named feature constraints that gate it. The caller's insertion order
/// over a collection of these is preserved verbatim in the output.
pub struct ImportEntry {
    pub name: String,
    pub version: Option<Version>,
    pub constraints: Vec<String>,
}

/// One feature constraint as it appears inside a guard.
pub open spec fn feature_clause_text(c: Seq<char>) -> Seq<char> {
    "feature = \""@ + c + "\""@
}

/// The feature-guard lines for one import: a single-feature guard, an
/// "any of" guard for several features, or nothing.
pub open spec fn constraint_lines_text(constraints: Seq<Seq<char>>) -> Seq<char> {
    if constraints.len() == 1 {
        line("#[cfg(feature = \""@ + constraints[0] + "\")]"@)
    } else if constraints.len() > 1 {
        line(
            "#[cfg(any("@ + join_text(
                constraints.map_values(|c: Seq<char>| feature_clause_text(c)),
                ", "@,
            ) + "))]"@,
        )
    } else {
        Seq::empty()
    }
}

/// The full rendering of one import: its feature guards, its version guard
/// when one is needed, then the import statement itself.
pub open spec fn import_text(env: Env, e: ImportEntry) -> Seq<char> {
    constraint_lines_text(e.constraints.deep_view()) + opt_line(
        version_condition_text(env, e.version, false, 0),
    ) + line("use "@ + e.name@ + ";"@)
}

/// The renderings of the given imports, in the order supplied.
pub open spec fn imports_body_text(env: Env, imports: Seq<ImportEntry>) -> Seq<char>
    decreases imports.len(),
{
    if imports.len() == 0 {
        Seq::empty()
    } else {
        imports_body_text(env, imports.drop_last()) + import_text(env, imports.last())
    }
}

/// The import block: a leading blank line, then every import in order.
pub open spec fn uses_text(env: Env, imports: Seq<ImportEntry>) -> Seq<char> {
    line(Seq::empty()) + imports_body_text(env, imports)
}

fn feature_clause(c: &String) -> (r: String)
    ensures
        r@ == feature_clause_text(c@),
{
    let mut r = String::from_str("feature = \"");
    r.append(c.as_str());
    r.append("\"");
    proof {
        assert(r@ =~= feature_clause_text(c@));
    }
    r
}

/// Writes the import block: for each supplied import, in order, its feature
/// guards, its version guard when the constraint exceeds the configured
/// minimum, and the import statement itself.
pub fn uses(w: &mut String, env: &Env, imports: &[ImportEntry])
    ensures
        final(w)@ == old(w)@ + uses_text(*env, imports@),
{
    push_blank_line(w);
    proof {
        assert(imports@.take(0) =~= Seq::<ImportEntry>::empty());
        assert(w@ =~= old(w)@ + line(Seq::empty()) + imports_body_text(*env, imports@.take(0)));
    }
    let mut i: usize = 0;
    while i < imports.len()
        invariant
            i <= imports@.len(),
            w@ == old(w)@ + line(Seq::empty()) + imports_body_text(*env, imports@.take(i as int)),
        decreases imports@.len() - i,
    {
        let ghost w_before = w@;
        let e = &imports[i];
        if e.constraints.len() == 1 {
            let mut s = String::from_str("#[cfg(feature = \"");
            let c: &String = &e.constraints[0];
            s.append(c.as_str());
            s.append("\")]");
            proof {
                assert(e.constraints.deep_view()[0] == e.constraints@[0]@);
                assert(s@ =~= "#[cfg(feature = \""@ + e.constraints.deep_view()[0] + "\")]"@);
            }
            push_line(w, s.as_str());
        } else if e.constraints.len() > 1 {
            let ghost cdv = e.constraints.deep_view();
            let mut parts: Vec<String> = Vec::new();
            proof {
                assert(parts.deep_view() =~= cdv.take(0).map_values(
                    |c: Seq<char>| feature_clause_text(c),
                ));
            }
            let mut j: usize = 0;
            while j < e.constraints.len()
                invariant
                    j <= e.constraints@.len(),
                    cdv == e.constraints.deep_view(),
                    cdv.len() == e.constraints@.len(),
                    parts.deep_view() == cdv.take(j as int).map_values(
                        |c: Seq<char>| feature_clause_text(c),
                    ),
                decreases e.constraints@.len() - j,
            {
                let c: &String = &e.constraints[j];
                let part = feature_clause(c);
                let ghost part_view = part@;
                let ghost parts_before = parts.deep_view();
                parts.push(part);
                proof {
                    assert(cdv[j as int] == e.constraints@[j as int]@);
                    assert(parts.deep_view() =~= parts_before.push(part_view));
                    assert(cdv.take(j + 1).map_values(|c: Seq<char>| feature_clause_text(c))
                        =~= parts.deep_view());
                }
                j = j + 1;
            }
            proof {
                assert(cdv.take(e.constraints@.len() as int) =~= cdv);
            }
            let joined = join_strings(&parts, ", ");
            let mut s = String::from_str("#[cfg(any(");
            s.append(joined.as_str());
            s.append("))]");
            proof {
                assert(s@ =~= "#[cfg(any("@ + join_text(
                    cdv.map_values(|c: Seq<char>| feature_clause_text(c)),
                    ", "@,
                ) + "))]"@);
            }
            push_line(w, s.as_str());
        }
        version_condition(w, env, e.version, false, 0);
        let mut s = String::from_str("use ");
        s.append(e.name.as_str());
        s.append(";");
        push_line(w, s.as_str());
        proof {
            assert(w@ =~= w_before + import_text(*env, imports@[i as int]));
            assert(imports@.take(i + 1).drop_last() =~= imports@.take(i as int));
            assert(imports@.take(i + 1).last() == imports@[i as int]);
            assert(w@ =~= old(w)@ + line(Seq::empty()) + imports_body_text(
                *env,
                imports@.take(i + 1),
            ));
        }
        i = i + 1;
    }
    proof {
        assert(imports@.take(imports@.len() as int) =~= imports@);
        assert(w@ =~= old(w)@ + uses_text(*env, imports@));
    }
}

} // verus!
