//! Derive-attribute lines: one line per specification, unconditional or
//! gated on a feature condition.

use vstd::prelude::*;
use vstd::string::StringExecFns;

use crate::text::join_strings;
use crate::text::join_text;
use crate::text::line;
use crate::text::push_line;
use crate::text::tabs;
use crate::text::tabs_text;

verus! {

/// One derive specification: the attribute names to apply, in order, and an
/// optional textual feature condition gating them.
pub struct Derive {
    pub names: Vec<String>,
    pub cfg_condition: Option<String>,
}

/// The attribute for one derive specification: conditionally applied when a
/// feature condition is attached, plain otherwise; the names joined by a
/// comma and a space.
pub open spec fn derive_line_text(d: Derive) -> Seq<char> {
    match d.cfg_condition {
        Some(c) => "#[cfg_attr("@ + c@ + ", derive("@ + join_text(d.names.deep_view(), ", "@)
            + "))]"@,
        None => "#[derive("@ + join_text(d.names.deep_view(), ", "@) + ")]"@,
    }
}

/// The derive-attribute lines for the given specifications, in order, each
/// indented by the given depth.
pub open spec fn derives_text(ds: Seq<Derive>, indent: usize) -> Seq<char>
    decreases ds.len(),
{
    if ds.len() == 0 {
        Seq::empty()
    } else {
        derives_text(ds.drop_last(), indent) + line(
            tabs_text(indent as nat) + derive_line_text(ds.last()),
        )
    }
}

/// Writes one derive-attribute line per specification, in order.
pub fn derives(w: &mut String, derives: &[Derive], indent: usize)
    ensures
        final(w)@ == old(w)@ + derives_text(derives@, indent),
{
    proof {
        assert(derives@.take(0) =~= Seq::<Derive>::empty());
        assert(w@ =~= old(w)@ + derives_text(derives@.take(0), indent));
    }
    let mut i: usize = 0;
    while i < derives.len()
        invariant
            i <= derives@.len(),
            w@ == old(w)@ + derives_text(derives@.take(i as int), indent),
        decreases derives@.len() - i,
    {
        let d = &derives[i];
        let joined = join_strings(&d.names, ", ");
        let mut s = tabs(indent);
        match &d.cfg_condition {
            Some(c) => {
                s.append("#[cfg_attr(");
                s.append(c.as_str());
                s.append(", derive(");
                s.append(joined.as_str());
                s.append("))]");
            },
            None => {
                s.append("#[derive(");
                s.append(joined.as_str());
                s.append(")]");
            },
        }
        proof {
            assert(s@ =~= tabs_text(indent as nat) + derive_line_text(derives@[i as int]));
        }
        push_line(w, s.as_str());
        proof {
            assert(derives@.take(i + 1).drop_last() =~= derives@.take(i as int));
            assert(derives@.take(i + 1).last() == derives@[i as int]);
            assert(w@ =~= old(w)@ + derives_text(derives@.take(i + 1), indent));
        }
        i = i + 1;
    }
    proof {
        assert(derives@.take(derives@.len() as int) =~= derives@);
    }
}

} // verus!
