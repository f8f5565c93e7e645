//! The four declaration emitters: wrapper blocks for object/interface,
//! boxed, auto-boxed (foreign-owned) and shared (reference-counted) types.
//!
//! Each emitter writes a leading blank line, the wrapper block, and a
//! trailing accessor block, in a fixed order, and leaves the sink's
//! lifecycle to the caller.

use vstd::prelude::*;
use vstd::string::StringExecFns;

use crate::ancestors::AncestorKind;
use crate::ancestors::StatusedTypeId;
use crate::ancestors::ancestors_in_env;
use crate::ancestors::selected_ancestors;
use crate::ancestors::selected_names;
use crate::ancestors::selected_parent_names;
use crate::derives::Derive;
use crate::derives::derives;
use crate::derives::derives_text;
use crate::env::Env;
use crate::text::join_strings;
use crate::text::join_text;
use crate::text::line;
use crate::text::push_blank_line;
use crate::text::push_line;

verus! {

/// The view of an optional borrowed string.
pub open spec fn opt_str_view(o: Option<&str>) -> Option<Seq<char>> {
    match o {
        Some(s) => Some(s@),
        None => None,
    }
}

/// The wrapper kind of an object or interface declaration.
pub open spec fn kind_name_text(is_interface: bool) -> Seq<char> {
    if is_interface {
        "Interface"@
    } else {
        "Object"@
    }
}

/// The optional secondary underlying class identifier, rendered qualified by
/// the primary runtime crate.
pub open spec fn class_name_suffix_text(env: Env, glib_class_name: Option<Seq<char>>) -> Seq<
    char,
> {
    match glib_class_name {
        Some(s) => ", "@ + env.sys_crate_name@ + "::"@ + s,
        None => Seq::empty(),
    }
}

/// The optional display-name override used by the host-binding layer.
pub open spec fn rust_class_suffix_text(rust_class_name: Option<Seq<char>>) -> Seq<char> {
    match rust_class_name {
        Some(s) => ", "@ + s,
        None => Seq::empty(),
    }
}

/// The parenthesised head of an object or interface wrapper line, up to and
/// including the closing `>)`.
pub open spec fn object_struct_head_text(
    env: Env,
    name: Seq<char>,
    glib_name: Seq<char>,
    glib_class_name: Option<Seq<char>>,
    rust_class_name: Option<Seq<char>>,
    is_interface: bool,
) -> Seq<char> {
    "\tpub struct "@ + name + "("@ + kind_name_text(is_interface) + "<"@
        + env.sys_crate_name@ + "::"@ + glib_name + class_name_suffix_text(env, glib_class_name)
        + rust_class_suffix_text(rust_class_name) + ">)"@
}

/// The extends/implements clause of a concrete type: the class parents, then
/// the interface parents, each clause present only when its partition is.
pub open spec fn extends_implements_text(env: Env, parents: Seq<StatusedTypeId>) -> Seq<char> {
    let cls = selected_names(env, parents, Some(AncestorKind::Class));
    let ifc = selected_names(env, parents, Some(AncestorKind::Interface));
    (if cls.len() > 0 {
        " @extends "@ + join_text(cls, ", "@)
    } else {
        Seq::<char>::empty()
    }) + (if ifc.len() > 0 {
        (if cls.len() > 0 {
            ","@
        } else {
            Seq::<char>::empty()
        }) + " @implements "@ + join_text(ifc, ", "@)
    } else {
        Seq::<char>::empty()
    })
}

/// The whole wrapper line of an object or interface declaration: for an
/// interface, a prerequisites clause when any ancestor survives filtering;
/// for a concrete type, the extends/implements clauses.
pub open spec fn object_struct_line_text(
    env: Env,
    name: Seq<char>,
    glib_name: Seq<char>,
    glib_class_name: Option<Seq<char>>,
    rust_class_name: Option<Seq<char>>,
    is_interface: bool,
    parents: Seq<StatusedTypeId>,
) -> Seq<char> {
    let head = object_struct_head_text(
        env,
        name,
        glib_name,
        glib_class_name,
        rust_class_name,
        is_interface,
    );
    if is_interface {
        if selected_ancestors(parents, None).len() == 0 {
            head + ";"@
        } else {
            head + " @requires "@ + join_text(selected_names(env, parents, None), ", "@) + ";"@
        }
    } else {
        head + extends_implements_text(env, parents) + ";"@
    }
}

/// The accessor line binding the dynamic-type lookup to the runtime's
/// get-type function.
pub open spec fn get_type_line_text(env: Env, get_type_fn: Seq<char>) -> Seq<char> {
    "\t\tget_type => || "@ + env.sys_crate_name@ + "::"@ + get_type_fn + "(),"@
}

/// The full object or interface declaration block.
pub open spec fn object_type_text(
    env: Env,
    name: Seq<char>,
    glib_name: Seq<char>,
    glib_class_name: Option<Seq<char>>,
    rust_class_name: Option<Seq<char>>,
    glib_func_name: Seq<char>,
    is_interface: bool,
    parents: Seq<StatusedTypeId>,
) -> Seq<char> {
    line(Seq::empty()) + line("glib_wrapper! {"@) + line(
        object_struct_line_text(
            env,
            name,
            glib_name,
            glib_class_name,
            rust_class_name,
            is_interface,
            parents,
        ),
    ) + line(Seq::empty()) + line("\tmatch fn {"@) + line(get_type_line_text(env, glib_func_name))
        + line("\t}"@) + line("}"@)
}

/// Writes the accessor line binding the dynamic-type lookup to the runtime's
/// get-type function.
fn push_get_type_line(w: &mut String, env: &Env, get_type_fn: &str)
    ensures
        final(w)@ == old(w)@ + line(get_type_line_text(*env, get_type_fn@)),
{
    let mut s = String::from_str("\t\tget_type => || ");
    s.append(env.main_sys_crate_name().as_str());
    s.append("::");
    s.append(get_type_fn);
    s.append("(),");
    proof {
        assert(s@ =~= get_type_line_text(*env, get_type_fn@));
    }
    push_line(w, s.as_str());
}

/// Writes the declaration block of an object or interface type: the wrapper
/// line with its parent clauses — ancestors marked ignored dropped, the rest
/// partitioned by kind for a concrete type or kept as flat prerequisites for
/// an interface — and the trailing dynamic-type accessor block.
#[verifier::rlimit(50)]
pub fn define_object_type(
    w: &mut String,
    env: &Env,
    name: &str,
    glib_name: &str,
    glib_class_name: &Option<&str>,
    rust_class_name: &Option<&str>,
    glib_func_name: &str,
    is_interface: bool,
    parents: &[StatusedTypeId],
)
    requires
        ancestors_in_env(*env, parents@),
    ensures
        final(w)@ == old(w)@ + object_type_text(
            *env,
            name@,
            glib_name@,
            opt_str_view(*glib_class_name),
            opt_str_view(*rust_class_name),
            glib_func_name@,
            is_interface,
            parents@,
        ),
{
    push_blank_line(w);
    push_line(w, "glib_wrapper! {");
    let mut head = String::from_str("\tpub struct ");
    head.append(name);
    head.append("(");
    if is_interface {
        head.append("Interface");
    } else {
        head.append("Object");
    }
    head.append("<");
    head.append(env.main_sys_crate_name().as_str());
    head.append("::");
    head.append(glib_name);
    match glib_class_name {
        Some(s) => {
            head.append(", ");
            head.append(env.main_sys_crate_name().as_str());
            head.append("::");
            head.append(s);
        },
        None => {},
    }
    match rust_class_name {
        Some(s) => {
            head.append(", ");
            head.append(s);
        },
        None => {},
    }
    head.append(">)");
    proof {
        assert(head@ =~= object_struct_head_text(
            *env,
            name@,
            glib_name@,
            opt_str_view(*glib_class_name),
            opt_str_view(*rust_class_name),
            is_interface,
        ));
    }
    if is_interface {
        let prerequisites = selected_parent_names(env, parents, None);
        if prerequisites.len() == 0 {
            head.append(";");
        } else {
            head.append(" @requires ");
            let joined = join_strings(&prerequisites, ", ");
            head.append(joined.as_str());
            head.append(";");
        }
    } else {
        let class_parents = selected_parent_names(env, parents, Some(AncestorKind::Class));
        let interfaces = selected_parent_names(env, parents, Some(AncestorKind::Interface));
        if class_parents.len() > 0 {
            head.append(" @extends ");
            let joined = join_strings(&class_parents, ", ");
            head.append(joined.as_str());
        }
        if interfaces.len() > 0 {
            if class_parents.len() > 0 {
                head.append(",");
            }
            head.append(" @implements ");
            let joined = join_strings(&interfaces, ", ");
            head.append(joined.as_str());
        }
        head.append(";");
    }
    proof {
        assert(head@ =~= object_struct_line_text(
            *env,
            name@,
            glib_name@,
            opt_str_view(*glib_class_name),
            opt_str_view(*rust_class_name),
            is_interface,
            parents@,
        ));
    }
    push_line(w, head.as_str());
    push_blank_line(w);
    push_line(w, "\tmatch fn {");
    push_get_type_line(w, env, glib_func_name);
    push_line(w, "\t}");
    push_line(w, "}");
    proof {
        assert(w@ =~= old(w)@ + object_type_text(
            *env,
            name@,
            glib_name@,
            opt_str_view(*glib_class_name),
            opt_str_view(*rust_class_name),
            glib_func_name@,
            is_interface,
            parents@,
        ));
    }
}

/// The shared opening of a boxed wrapper block: a blank line, the opening
/// brace line, the derive lines and the wrapper line.
pub open spec fn boxed_head_text(
    env: Env,
    name: Seq<char>,
    glib_name: Seq<char>,
    derive: Seq<Derive>,
) -> Seq<char> {
    line(Seq::empty()) + line("glib_wrapper! {"@) + derives_text(derive, 1) + line(
        "\tpub struct "@ + name + "(Boxed<"@ + env.sys_crate_name@ + "::"@ + glib_name
            + ">);"@,
    ) + line(Seq::empty()) + line("\tmatch fn {"@)
}

/// The full declaration block of a boxed type with explicit copy and free
/// functions and an optional dynamic-type accessor.
pub open spec fn boxed_type_text(
    env: Env,
    name: Seq<char>,
    glib_name: Seq<char>,
    copy_fn: Seq<char>,
    free_fn: Seq<char>,
    get_type_fn: Option<Seq<char>>,
    derive: Seq<Derive>,
) -> Seq<char> {
    boxed_head_text(env, name, glib_name, derive) + line(
        "\t\tcopy => |ptr| "@ + env.sys_crate_name@ + "::"@ + copy_fn + "(mut_override(ptr)),"@,
    ) + line("\t\tfree => |ptr| "@ + env.sys_crate_name@ + "::"@ + free_fn + "(ptr),"@) + (
    match get_type_fn {
        Some(g) => line(get_type_line_text(env, g)),
        None => Seq::<char>::empty(),
    }) + line("\t}"@) + line("}"@)
}

/// Writes the shared opening of a boxed wrapper block.
fn push_boxed_head(w: &mut String, env: &Env, name: &str, glib_name: &str, derive: &[Derive])
    ensures
        final(w)@ == old(w)@ + boxed_head_text(*env, name@, glib_name@, derive@),
{
    push_blank_line(w);
    push_line(w, "glib_wrapper! {");
    derives(w, derive, 1);
    let mut s = String::from_str("\tpub struct ");
    s.append(name);
    s.append("(Boxed<");
    s.append(env.main_sys_crate_name().as_str());
    s.append("::");
    s.append(glib_name);
    s.append(">);");
    push_line(w, s.as_str());
    push_blank_line(w);
    push_line(w, "\tmatch fn {");
    proof {
        assert(w@ =~= old(w)@ + boxed_head_text(*env, name@, glib_name@, derive@));
    }
}

/// Writes the declaration block of a boxed type: derive lines, the wrapper
/// line, then accessor bindings for copy, free and — when an accessor is
/// supplied — the dynamic type.
pub fn define_boxed_type(
    w: &mut String,
    env: &Env,
    name: &str,
    glib_name: &str,
    copy_fn: &str,
    free_fn: &str,
    get_type_fn: &Option<String>,
    derive: &[Derive],
)
    ensures
        final(w)@ == old(w)@ + boxed_type_text(
            *env,
            name@,
            glib_name@,
            copy_fn@,
            free_fn@,
            crate::text::opt_text(*get_type_fn),
            derive@,
        ),
{
    push_boxed_head(w, env, name, glib_name, derive);
    let mut s = String::from_str("\t\tcopy => |ptr| ");
    s.append(env.main_sys_crate_name().as_str());
    s.append("::");
    s.append(copy_fn);
    s.append("(mut_override(ptr)),");
    push_line(w, s.as_str());
    let mut s2 = String::from_str("\t\tfree => |ptr| ");
    s2.append(env.main_sys_crate_name().as_str());
    s2.append("::");
    s2.append(free_fn);
    s2.append("(ptr),");
    push_line(w, s2.as_str());
    match get_type_fn {
        Some(g) => push_get_type_line(w, env, g.as_str()),
        None => {},
    }
    push_line(w, "\t}");
    push_line(w, "}");
    proof {
        assert(w@ =~= old(w)@ + boxed_type_text(
            *env,
            name@,
            glib_name@,
            copy_fn@,
            free_fn@,
            crate::text::opt_text(*get_type_fn),
            derive@,
        ));
    }
}

/// The full declaration block of an auto-boxed type, whose copy and free go
/// through the runtime's generic boxed-value primitives, parameterized by
/// the type's dynamic-type value.
pub open spec fn auto_boxed_type_text(
    env: Env,
    name: Seq<char>,
    glib_name: Seq<char>,
    get_type_fn: Seq<char>,
    derive: Seq<Derive>,
) -> Seq<char> {
    boxed_head_text(env, name, glib_name, derive) + line(
        "\t\tcopy => |ptr| gobject_sys::g_boxed_copy("@ + env.sys_crate_name@ + "::"@
            + get_type_fn + "(), ptr as *mut _) as *mut "@ + env.sys_crate_name@ + "::"@
            + glib_name + ","@,
    ) + line(
        "\t\tfree => |ptr| gobject_sys::g_boxed_free("@ + env.sys_crate_name@ + "::"@
            + get_type_fn + "(), ptr as *mut _),"@,
    ) + line(get_type_line_text(env, get_type_fn)) + line("\t}"@) + line("}"@)
}

/// Writes the declaration block of a boxed type whose copy and free are
/// synthesized from the runtime's generic boxed-value primitives.
pub fn define_auto_boxed_type(
    w: &mut String,
    env: &Env,
    name: &str,
    glib_name: &str,
    get_type_fn: &str,
    derive: &[Derive],
)
    ensures
        final(w)@ == old(w)@ + auto_boxed_type_text(
            *env,
            name@,
            glib_name@,
            get_type_fn@,
            derive@,
        ),
{
    push_boxed_head(w, env, name, glib_name, derive);
    let mut s = String::from_str("\t\tcopy => |ptr| gobject_sys::g_boxed_copy(");
    s.append(env.main_sys_crate_name().as_str());
    s.append("::");
    s.append(get_type_fn);
    s.append("(), ptr as *mut _) as *mut ");
    s.append(env.main_sys_crate_name().as_str());
    s.append("::");
    s.append(glib_name);
    s.append(",");
    push_line(w, s.as_str());
    let mut s2 = String::from_str("\t\tfree => |ptr| gobject_sys::g_boxed_free(");
    s2.append(env.main_sys_crate_name().as_str());
    s2.append("::");
    s2.append(get_type_fn);
    s2.append("(), ptr as *mut _),");
    push_line(w, s2.as_str());
    push_get_type_line(w, env, get_type_fn);
    push_line(w, "\t}");
    push_line(w, "}");
    proof {
        assert(w@ =~= old(w)@ + auto_boxed_type_text(
            *env,
            name@,
            glib_name@,
            get_type_fn@,
            derive@,
        ));
    }
}

/// The full declaration block of a shared, reference-counted type with
/// explicit ref and unref functions and an optional dynamic-type accessor.
pub open spec fn shared_type_text(
    env: Env,
    name: Seq<char>,
    glib_name: Seq<char>,
    ref_fn: Seq<char>,
    unref_fn: Seq<char>,
    get_type_fn: Option<Seq<char>>,
    derive: Seq<Derive>,
) -> Seq<char> {
    line(Seq::empty()) + line("glib_wrapper! {"@) + derives_text(derive, 1) + line(
        "\tpub struct "@ + name + "(Shared<"@ + env.sys_crate_name@ + "::"@ + glib_name
            + ">);"@,
    ) + line(Seq::empty()) + line("\tmatch fn {"@) + line(
        "\t\tref => |ptr| "@ + env.sys_crate_name@ + "::"@ + ref_fn + "(ptr),"@,
    ) + line("\t\tunref => |ptr| "@ + env.sys_crate_name@ + "::"@ + unref_fn + "(ptr),"@) + (
    match get_type_fn {
        Some(g) => line(get_type_line_text(env, g)),
        None => Seq::<char>::empty(),
    }) + line("\t}"@) + line("}"@)
}

/// Writes the declaration block of a shared, reference-counted type: derive
/// lines, the wrapper line, then accessor bindings for ref, unref and —
/// when an accessor is supplied — the dynamic type.
pub fn define_shared_type(
    w: &mut String,
    env: &Env,
    name: &str,
    glib_name: &str,
    ref_fn: &str,
    unref_fn: &str,
    get_type_fn: &Option<String>,
    derive: &[Derive],
)
    ensures
        final(w)@ == old(w)@ + shared_type_text(
            *env,
            name@,
            glib_name@,
            ref_fn@,
            unref_fn@,
            crate::text::opt_text(*get_type_fn),
            derive@,
        ),
{
    push_blank_line(w);
    push_line(w, "glib_wrapper! {");
    derives(w, derive, 1);
    let mut s = String::from_str("\tpub struct ");
    s.append(name);
    s.append("(Shared<");
    s.append(env.main_sys_crate_name().as_str());
    s.append("::");
    s.append(glib_name);
    s.append(">);");
    push_line(w, s.as_str());
    push_blank_line(w);
    push_line(w, "\tmatch fn {");
    let mut s2 = String::from_str("\t\tref => |ptr| ");
    s2.append(env.main_sys_crate_name().as_str());
    s2.append("::");
    s2.append(ref_fn);
    s2.append("(ptr),");
    push_line(w, s2.as_str());
    let mut s3 = String::from_str("\t\tunref => |ptr| ");
    s3.append(env.main_sys_crate_name().as_str());
    s3.append("::");
    s3.append(unref_fn);
    s3.append("(ptr),");
    push_line(w, s3.as_str());
    match get_type_fn {
        Some(g) => push_get_type_line(w, env, g.as_str()),
        None => {},
    }
    push_line(w, "\t}");
    push_line(w, "}");
    proof {
        assert(w@ =~= old(w)@ + shared_type_text(
            *env,
            name@,
            glib_name@,
            ref_fn@,
            unref_fn@,
            crate::text::opt_text(*get_type_fn),
            derive@,
        ));
    }
}

} // verus!
