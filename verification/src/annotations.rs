//! Annotation generation: conditional-compilation guards, deprecation
//! markers and documentation-hiding markers.
//!
//! Every guard uses a fixed two-branch shape — enabled when its condition
//! holds, or when the documentation-build feature `dox` is set — so that
//! version- and feature-gated declarations stay visible to documentation
//! tooling.

use vstd::prelude::*;
use vstd::string::StringExecFns;

use crate::env::Env;
use crate::text::contains_text;
use crate::text::line;
use crate::text::opt_line;
use crate::text::opt_text;
use crate::text::tabs;
use crate::text::tabs_text;
use crate::text::push_line;
use crate::version::Version;

verus! {

/// The prefix that comments an annotation out, when the construct holding it
/// is already disabled by an outer guard.
pub open spec fn comment_text(commented: bool) -> Seq<char> {
    if commented {
        "//"@
    } else {
        Seq::empty()
    }
}

/// The deprecation marker for a constraint: unconditional once the
/// constraint is at or below the configured minimum, guarded on the
/// constraint's feature condition otherwise, absent without a constraint.
pub open spec fn cfg_deprecated_text(
    deprecated: Option<Version>,
    env: Env,
    commented: bool,
    indent: usize,
) -> Option<Seq<char>> {
    if env.spec_is_too_low_version(deprecated) {
        Some(tabs_text(indent as nat) + comment_text(commented) + "#[deprecated]"@)
    } else {
        match deprecated {
            Some(v) => Some(
                tabs_text(indent as nat) + comment_text(commented) + "#[cfg_attr("@
                    + v.to_cfg_text() + ", deprecated)]"@,
            ),
            None => None,
        }
    }
}

/// Renders the deprecation marker for a constraint, if any.
pub fn cfg_deprecated_string(
    deprecated: Option<Version>,
    env: &Env,
    commented: bool,
    indent: usize,
) -> (r: Option<String>)
    ensures
        opt_text(r) == cfg_deprecated_text(deprecated, *env, commented, indent),
{
    if env.is_too_low_version(deprecated) {
        let mut s = tabs(indent);
        if commented {
            s.append("//");
        }
        s.append("#[deprecated]");
        proof {
            assert(s@ =~= cfg_deprecated_text(deprecated, *env, commented, indent)->Some_0);
        }
        Some(s)
    } else if let Some(v) = deprecated {
        let mut s = tabs(indent);
        if commented {
            s.append("//");
        }
        s.append("#[cfg_attr(");
        let cfg = v.to_cfg();
        s.append(cfg.as_str());
        s.append(", deprecated)]");
        proof {
            assert(s@ =~= cfg_deprecated_text(deprecated, *env, commented, indent)->Some_0);
        }
        Some(s)
    } else {
        None
    }
}

/// Writes the deprecation marker for a constraint, if any, as one line.
pub fn cfg_deprecated(
    w: &mut String,
    env: &Env,
    deprecated: Option<Version>,
    commented: bool,
    indent: usize,
)
    ensures
        final(w)@ == old(w)@ + opt_line(cfg_deprecated_text(deprecated, *env, commented, indent)),
{
    let s = cfg_deprecated_string(deprecated, env, commented, indent);
    if let Some(s) = s {
        push_line(w, s.as_str());
    }
    proof {
        assert(w@ =~= old(w)@ + opt_line(
            cfg_deprecated_text(deprecated, *env, commented, indent),
        ));
    }
}

/// The version guard for a constraint: present exactly when the constraint
/// strictly exceeds the configured minimum, and always carrying the
/// documentation-build escape hatch.
pub open spec fn version_condition_text(
    env: Env,
    version: Option<Version>,
    commented: bool,
    indent: usize,
) -> Option<Seq<char>> {
    match version {
        Some(v) => if env.config.min_cfg_version.spec_lt(v) {
            Some(
                tabs_text(indent as nat) + comment_text(commented) + "#[cfg(any("@
                    + v.to_cfg_text() + ", feature = \"dox\"))]"@,
            )
        } else {
            None
        },
        None => None,
    }
}

/// Renders the version guard for a constraint, if one is needed.
pub fn version_condition_string(
    env: &Env,
    version: Option<Version>,
    commented: bool,
    indent: usize,
) -> (r: Option<String>)
    ensures
        opt_text(r) == version_condition_text(*env, version, commented, indent),
{
    match version {
        Some(v) => {
            if env.config.min_cfg_version.lt(&v) {
                let mut s = tabs(indent);
                if commented {
                    s.append("//");
                }
                s.append("#[cfg(any(");
                let cfg = v.to_cfg();
                s.append(cfg.as_str());
                s.append(", feature = \"dox\"))]");
                proof {
                    assert(s@ =~= version_condition_text(
                        *env,
                        version,
                        commented,
                        indent,
                    )->Some_0);
                }
                Some(s)
            } else {
                None
            }
        },
        None => None,
    }
}

/// Writes the version guard for a constraint, if one is needed, as one line.
pub fn version_condition(
    w: &mut String,
    env: &Env,
    version: Option<Version>,
    commented: bool,
    indent: usize,
)
    ensures
        final(w)@ == old(w)@ + opt_line(version_condition_text(*env, version, commented, indent)),
{
    let s = version_condition_string(env, version, commented, indent);
    if let Some(s) = s {
        push_line(w, s.as_str());
    }
    proof {
        assert(w@ =~= old(w)@ + opt_line(
            version_condition_text(*env, version, commented, indent),
        ));
    }
}

/// The negated version guard: selects the implementation that is valid
/// before the given version, with the documentation-build escape hatch.
pub open spec fn not_version_condition_text(
    version: Option<Version>,
    commented: bool,
    indent: usize,
) -> Option<Seq<char>> {
    match version {
        Some(v) => Some(
            tabs_text(indent as nat) + comment_text(commented) + "#[cfg(any(not("@
                + v.to_cfg_text() + "), feature = \"dox\"))]"@,
        ),
        None => None,
    }
}

/// Writes the negated version guard for a constraint, if any, as one line.
pub fn not_version_condition(w: &mut String, version: Option<Version>, commented: bool, indent: usize)
    ensures
        final(w)@ == old(w)@ + opt_line(not_version_condition_text(version, commented, indent)),
{
    if let Some(v) = version {
        let mut s = tabs(indent);
        if commented {
            s.append("//");
        }
        s.append("#[cfg(any(not(");
        let cfg = v.to_cfg();
        s.append(cfg.as_str());
        s.append("), feature = \"dox\"))]");
        proof {
            assert(s@ =~= not_version_condition_text(version, commented, indent)->Some_0);
        }
        push_line(w, s.as_str());
    }
    proof {
        assert(w@ =~= old(w)@ + opt_line(not_version_condition_text(version, commented, indent)));
    }
}

/// The feature guard for a precomputed textual condition, with the
/// documentation-build escape hatch.
pub open spec fn cfg_condition_text(
    cfg_condition: Option<Seq<char>>,
    commented: bool,
    indent: usize,
) -> Option<Seq<char>> {
    match cfg_condition {
        Some(c) => Some(
            tabs_text(indent as nat) + comment_text(commented) + "#[cfg(any("@ + c
                + ", feature = \"dox\"))]"@,
        ),
        None => None,
    }
}

/// Renders the feature guard for a condition, if one is present.
pub fn cfg_condition_string(cfg_condition: &Option<String>, commented: bool, indent: usize) -> (r:
    Option<String>)
    ensures
        opt_text(r) == cfg_condition_text(opt_text(*cfg_condition), commented, indent),
{
    match cfg_condition {
        Some(c) => {
            let mut s = tabs(indent);
            if commented {
                s.append("//");
            }
            s.append("#[cfg(any(");
            s.append(c.as_str());
            s.append(", feature = \"dox\"))]");
            proof {
                assert(s@ =~= cfg_condition_text(
                    opt_text(*cfg_condition),
                    commented,
                    indent,
                )->Some_0);
            }
            Some(s)
        },
        None => None,
    }
}

/// Writes the feature guard for a condition, if one is present, as one line.
pub fn cfg_condition(w: &mut String, cfg_condition: &Option<String>, commented: bool, indent: usize)
    ensures
        final(w)@ == old(w)@ + opt_line(
            cfg_condition_text(opt_text(*cfg_condition), commented, indent),
        ),
{
    let s = cfg_condition_string(cfg_condition, commented, indent);
    if let Some(s) = s {
        push_line(w, s.as_str());
    }
    proof {
        assert(w@ =~= old(w)@ + opt_line(
            cfg_condition_text(opt_text(*cfg_condition), commented, indent),
        ));
    }
}

/// The hide-from-documentation marker, present only when asked for.
pub open spec fn doc_hidden_text(
    doc_hidden: bool,
    comment_prefix: Seq<char>,
    indent: usize,
) -> Option<Seq<char>> {
    if doc_hidden {
        Some(tabs_text(indent as nat) + comment_prefix + "#[doc(hidden)]"@)
    } else {
        None
    }
}

/// Writes the hide-from-documentation marker, when the flag is set.
pub fn doc_hidden(w: &mut String, doc_hidden: bool, comment_prefix: &str, indent: usize)
    ensures
        final(w)@ == old(w)@ + opt_line(doc_hidden_text(doc_hidden, comment_prefix@, indent)),
{
    if doc_hidden {
        let mut s = tabs(indent);
        s.append(comment_prefix);
        s.append("#[doc(hidden)]");
        proof {
            assert(s@ =~= doc_hidden_text(true, comment_prefix@, indent)->Some_0);
        }
        push_line(w, s.as_str());
    }
    proof {
        assert(w@ =~= old(w)@ + opt_line(doc_hidden_text(doc_hidden, comment_prefix@, indent)));
    }
}

/// Law: a version guard is produced exactly for constraints strictly above
/// the configured minimum — none when the constraint is absent or at most
/// the minimum — and every produced guard carries the documentation-build
/// escape hatch `feature = "dox"`.
pub proof fn lemma_version_condition_guard(
    env: Env,
    version: Option<Version>,
    commented: bool,
    indent: usize,
)
    ensures
        version_condition_text(env, version, commented, indent) is None <==> match version {
            Some(v) => v.spec_le(env.config.min_cfg_version),
            None => true,
        },
        match version {
            Some(v) => env.config.min_cfg_version.spec_lt(v) ==> contains_text(
                version_condition_text(env, version, commented, indent)->Some_0,
                "feature = \"dox\""@,
            ),
            None => true,
        },
{
    if let Some(v) = version {
        if env.config.min_cfg_version.spec_lt(v) {
            let pre = tabs_text(indent as nat) + comment_text(commented) + "#[cfg(any("@
                + v.to_cfg_text();
            let tail = ", feature = \"dox\"))]"@;
            let t = version_condition_text(env, version, commented, indent)->Some_0;
            let needle = "feature = \"dox\""@;
            assert(t =~= pre + tail);
            reveal_strlit(", feature = \"dox\"))]");
            reveal_strlit("feature = \"dox\"");
            let k = pre.len() as int + 2;
            assert(t.subrange(k, k + needle.len()) =~= needle);
        }
    }
}

} // verus!
