//! Header comments that mark an emitted file as machine-written, and the
//! helper that flushes a list of prepared lines to the sink.

use vstd::prelude::*;

use crate::env::Config;
use crate::text::line;
use crate::text::push_line;
use vstd::string::StringExecFns;

verus! {

/// The header comment carrying the generator's and the introspection data's
/// revision stamps.
pub open spec fn start_comments_text(conf: Config) -> Seq<char> {
    if conf.single_version_file is Some {
        start_comments_no_version_text()
    } else {
        line("// This file was generated by gir (https://github.com/gtk-rs/gir @ "@
            + conf.gir_version@ + ")"@) + line(
            "// from gir-files (https://github.com/gtk-rs/gir-files @ "@ + conf.girs_version@
                + ")"@,
        ) + line("// DO NOT EDIT"@)
    }
}

/// Writes the header comment of an emitted file; the revision stamps are
/// left out when a single shared version file carries them instead.
pub fn start_comments(w: &mut String, conf: &Config)
    ensures
        final(w)@ == old(w)@ + start_comments_text(*conf),
{
    if conf.single_version_file.is_some() {
        start_comments_no_version(w);
    } else {
        let mut s = String::new();
        s.append("// This file was generated by gir (https://github.com/gtk-rs/gir @ ");
        s.append(conf.gir_version.as_str());
        s.append(")");
        push_line(w, s.as_str());
        let mut s2 = String::new();
        s2.append("// from gir-files (https://github.com/gtk-rs/gir-files @ ");
        s2.append(conf.girs_version.as_str());
        s2.append(")");
        push_line(w, s2.as_str());
        push_line(w, "// DO NOT EDIT");
        proof {
            assert(w@ =~= old(w)@ + start_comments_text(*conf));
        }
    }
}

/// The header comment without revision stamps.
pub open spec fn start_comments_no_version_text() -> Seq<char> {
    line("// This file was generated by gir (https://github.com/gtk-rs/gir)"@) + line(
        "// from gir-files (https://github.com/gtk-rs/gir-files)"@,
    ) + line("// DO NOT EDIT"@)
}

/// Writes the header comment of an emitted file, without revision stamps.
pub fn start_comments_no_version(w: &mut String)
    ensures
        final(w)@ == old(w)@ + start_comments_no_version_text(),
{
    push_line(w, "// This file was generated by gir (https://github.com/gtk-rs/gir)");
    push_line(w, "// from gir-files (https://github.com/gtk-rs/gir-files)");
    push_line(w, "// DO NOT EDIT");
    proof {
        assert(w@ =~= old(w)@ + start_comments_no_version_text());
    }
}

/// The contents of the single shared version file: both revision stamps,
/// without comment markers.
pub open spec fn single_version_file_text(conf: Config) -> Seq<char> {
    line("Generated by gir (https://github.com/gtk-rs/gir @ "@ + conf.gir_version@ + ")"@) + line(
        "from gir-files (https://github.com/gtk-rs/gir-files @ "@ + conf.girs_version@ + ")"@,
    )
}

/// Writes the contents of the single shared version file.
pub fn single_version_file(w: &mut String, conf: &Config)
    ensures
        final(w)@ == old(w)@ + single_version_file_text(*conf),
{
    let mut s = String::new();
    s.append("Generated by gir (https://github.com/gtk-rs/gir @ ");
    s.append(conf.gir_version.as_str());
    s.append(")");
    push_line(w, s.as_str());
    let mut s2 = String::new();
    s2.append("from gir-files (https://github.com/gtk-rs/gir-files @ ");
    s2.append(conf.girs_version.as_str());
    s2.append(")");
    push_line(w, s2.as_str());
    proof {
        assert(w@ =~= old(w)@ + single_version_file_text(*conf));
    }
}

/// A sequence of prepared lines, each followed by a newline.
pub open spec fn lines_text(v: Seq<Seq<char>>) -> Seq<char>
    decreases v.len(),
{
    if v.len() == 0 {
        Seq::empty()
    } else {
        lines_text(v.drop_last()) + line(v.last())
    }
}

/// Writes each prepared line to the sink, in order.
pub fn write_vec(w: &mut String, v: &[String])
    ensures
        final(w)@ == old(w)@ + lines_text(v.deep_view()),
{
    let ghost dv = v.deep_view();
    proof {
        assert(dv.take(0) =~= Seq::<Seq<char>>::empty());
        assert(w@ =~= old(w)@ + lines_text(dv.take(0)));
    }
    let mut i: usize = 0;
    while i < v.len()
        invariant
            i <= v@.len(),
            dv == v.deep_view(),
            dv.len() == v@.len(),
            w@ == old(w)@ + lines_text(dv.take(i as int)),
        decreases v@.len() - i,
    {
        let s: &String = &v[i];
        push_line(w, s.as_str());
        proof {
            assert(dv[i as int] == v@[i as int]@);
            assert(dv.take(i + 1).drop_last() =~= dv.take(i as int));
            assert(dv.take(i + 1).last() == dv[i as int]);
            assert(w@ =~= old(w)@ + lines_text(dv.take(i + 1)));
        }
        i = i + 1;
    }
    proof {
        assert(dv.take(v@.len() as int) =~= dv);
    }
}

} // verus!
