//! The default-constructor shim: when a type's function list holds a
//! visible, zero-argument constructor literally named `new`, a trait
//! implementation forwarding to it is emitted, gated by that constructor's
//! own deprecation and version annotations.

use vstd::prelude::*;
use vstd::string::StringExecFns;

use crate::annotations::cfg_deprecated;
use crate::annotations::cfg_deprecated_text;
use crate::annotations::version_condition;
use crate::annotations::version_condition_text;
use crate::env::Env;
use crate::text::line;
use crate::text::opt_line;
use crate::text::push_blank_line;
use crate::text::push_line;
use crate::version::Version;

verus! {

/// One associated function of a type, as resolved upstream: its name, its
/// visibility, how many host-language parameters it takes, and its version
/// and deprecation constraints.
pub struct FunctionInfo {
    pub name: String,
    pub hidden: bool,
    pub n_parameters: usize,
    pub version: Option<Version>,
    pub deprecated_version: Option<Version>,
}

/// A function qualifies as the default constructor when it is visible,
/// takes no parameters, and is literally named `new`.
pub open spec fn qualifies(f: FunctionInfo) -> bool {
    !f.hidden && f.n_parameters == 0 && f.name@ == "new"@
}

/// The first qualifying constructor of the list, if any.
pub open spec fn find_new(functions: Seq<FunctionInfo>) -> Option<FunctionInfo>
    decreases functions.len(),
{
    if functions.len() == 0 {
        None
    } else if qualifies(functions[0]) {
        Some(functions[0])
    } else {
        find_new(functions.drop_first())
    }
}

proof fn lemma_find_new_at(functions: Seq<FunctionInfo>, k: int)
    requires
        0 <= k < functions.len(),
        qualifies(functions[k]),
        forall|j: int| 0 <= j < k ==> !qualifies(#[trigger] functions[j]),
    ensures
        find_new(functions) == Some(functions[k]),
    decreases k,
{
    if k > 0 {
        assert(!qualifies(functions[0]));
        lemma_find_new_at(functions.drop_first(), k - 1);
        assert(functions.drop_first()[k - 1] == functions[k]);
    }
}

proof fn lemma_find_new_none(functions: Seq<FunctionInfo>)
    requires
        forall|j: int| 0 <= j < functions.len() ==> !qualifies(#[trigger] functions[j]),
    ensures
        find_new(functions) is None,
    decreases functions.len(),
{
    if functions.len() > 0 {
        assert(forall|j: int|
            0 <= j < functions.drop_first().len() ==> !qualifies(
                #[trigger] functions.drop_first()[j],
            ));
        lemma_find_new_none(functions.drop_first());
    }
}

/// The default-implementation block for a type: empty without a qualifying
/// constructor; otherwise a blank line, the constructor's own deprecation
/// and version annotations, and a forwarding trait implementation.
pub open spec fn default_impl_text(env: Env, name: Seq<char>, functions: Seq<FunctionInfo>) -> Seq<
    char,
> {
    match find_new(functions) {
        None => Seq::empty(),
        Some(f) => line(Seq::empty()) + opt_line(
            cfg_deprecated_text(f.deprecated_version, env, false, 0),
        ) + opt_line(version_condition_text(env, f.version, false, 0)) + line(
            "impl Default for "@ + name + " {"@,
        ) + line("    fn default() -> Self {"@) + line("        Self::new()"@) + line("    }"@)
            + line("}"@),
    }
}

/// Scans the function list for a visible, zero-argument constructor named
/// `new`; when the first such constructor exists, writes a trait
/// implementation forwarding to it, gated by that constructor's own
/// deprecation and version annotations.
pub fn declare_default_from_new(w: &mut String, env: &Env, name: &str, functions: &[FunctionInfo])
    ensures
        final(w)@ == old(w)@ + default_impl_text(*env, name@, functions@),
{
    let new_name = String::from_str("new");
    proof {
        reveal_strlit("new");
    }
    let mut found: Option<usize> = None;
    let mut i: usize = 0;
    while i < functions.len()
        invariant
            i <= functions@.len(),
            new_name@ == "new"@,
            match found {
                None => forall|j: int|
                    0 <= j < i ==> !qualifies(#[trigger] functions@[j]),
                Some(k) => k < i && k < functions@.len() && qualifies(functions@[k as int])
                    && forall|j: int| 0 <= j < k ==> !qualifies(#[trigger] functions@[j]),
            },
        decreases functions@.len() - i,
    {
        if found.is_none() {
            let f = &functions[i];
            if !f.hidden && f.n_parameters == 0 && f.name == new_name {
                found = Some(i);
            }
        }
        i = i + 1;
    }
    match found {
        Some(k) => {
            proof {
                lemma_find_new_at(functions@, k as int);
            }
            let f = &functions[k];
            push_blank_line(w);
            cfg_deprecated(w, env, f.deprecated_version, false, 0);
            version_condition(w, env, f.version, false, 0);
            let mut s = String::from_str("impl Default for ");
            s.append(name);
            s.append(" {");
            push_line(w, s.as_str());
            push_line(w, "    fn default() -> Self {");
            push_line(w, "        Self::new()");
            push_line(w, "    }");
            push_line(w, "}");
            proof {
                assert(w@ =~= old(w)@ + default_impl_text(*env, name@, functions@));
            }
        },
        None => {
            proof {
                lemma_find_new_none(functions@);
                assert(w@ =~= old(w)@ + default_impl_text(*env, name@, functions@));
            }
        },
    }
}

} // verus!
