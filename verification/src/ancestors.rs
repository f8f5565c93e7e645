//! Ancestor resolution: filtering an ancestor list by availability status
//! and partitioning the survivors into class parents and interface parents.

use vstd::prelude::*;
use vstd::seq_lib::group_seq_properties;
use vstd::string::StringExecFns;

use crate::env::Env;
use crate::env::MAIN_NAMESPACE;

verus! {

/// Availability of an ancestor, decided by upstream policy: an ignored
/// ancestor is dropped from every emitted parent clause.
#[derive(Clone, Copy, PartialEq, Eq, Structural)]
pub enum Status {
    Available,
    Ignored,
}

impl Status {
    /// Whether this status excludes the ancestor from emission.
    pub open spec fn is_ignored(self) -> bool {
        self is Ignored
    }

    /// Whether this status excludes the ancestor from emission.
    pub fn ignored(&self) -> (r: bool)
        ensures
            r == self.is_ignored(),
    {
        match self {
            Status::Ignored => true,
            Status::Available => false,
        }
    }
}

/// The underlying kind of an ancestor: a class to extend or an interface to
/// implement.
#[derive(Clone, Copy, PartialEq, Eq, Structural)]
pub enum AncestorKind {
    Class,
    Interface,
}

/// One resolved ancestor of a type: its display name, the namespace it
/// originates from, its availability status, and its underlying kind.
pub struct StatusedTypeId {
    pub name: String,
    pub ns_id: usize,
    pub status: Status,
    pub kind: AncestorKind,
}

/// Every ancestor's namespace is registered in the environment.
pub open spec fn ancestors_in_env(env: Env, parents: Seq<StatusedTypeId>) -> bool {
    forall|i: int|
        0 <= i < parents.len() ==> (#[trigger] parents[i]).ns_id < env.namespaces@.len()
}

/// The possibly qualified rendering of an ancestor: unqualified when it
/// originates from the namespace being generated, prefixed by its owning
/// namespace's registered crate name otherwise.
pub open spec fn parent_name_text(env: Env, p: StatusedTypeId) -> Seq<char> {
    if p.ns_id == MAIN_NAMESPACE {
        p.name@
    } else {
        env.namespaces@[p.ns_id as int]@ + "::"@ + p.name@
    }
}

/// Renders the possibly crate-qualified name of one ancestor.
pub fn format_parent_name(env: &Env, p: &StatusedTypeId) -> (r: String)
    requires
        p.ns_id < env.namespaces@.len(),
    ensures
        r@ == parent_name_text(*env, *p),
{
    if p.ns_id == MAIN_NAMESPACE {
        p.name.clone()
    } else {
        let krate: &String = &env.namespaces[p.ns_id];
        let mut r = krate.clone();
        r.append("::");
        r.append(p.name.as_str());
        proof {
            assert(r@ =~= parent_name_text(*env, *p));
        }
        r
    }
}

/// Which ancestors a partition keeps: the survivors of status filtering,
/// further narrowed to one underlying kind when one is asked for.
pub open spec fn keeps(p: StatusedTypeId, kind: Option<AncestorKind>) -> bool {
    !p.status.is_ignored() && match kind {
        Some(k) => p.kind == k,
        None => true,
    }
}

/// The ancestors a partition keeps, in their original relative order.
pub open spec fn selected_ancestors(
    parents: Seq<StatusedTypeId>,
    kind: Option<AncestorKind>,
) -> Seq<StatusedTypeId> {
    parents.filter(|p: StatusedTypeId| keeps(p, kind))
}

/// The rendered names of the ancestors a partition keeps, in order.
pub open spec fn selected_names(
    env: Env,
    parents: Seq<StatusedTypeId>,
    kind: Option<AncestorKind>,
) -> Seq<Seq<char>> {
    selected_ancestors(parents, kind).map_values(|p: StatusedTypeId| parent_name_text(env, p))
}

/// Collects the rendered names of the ancestors a partition keeps: the
/// survivors of status filtering, narrowed to one underlying kind when one
/// is asked for.
pub fn selected_parent_names(
    env: &Env,
    parents: &[StatusedTypeId],
    kind: Option<AncestorKind>,
) -> (r: Vec<String>)
    requires
        ancestors_in_env(*env, parents@),
    ensures
        r.deep_view() == selected_names(*env, parents@, kind),
{
    let ghost pred = |p: StatusedTypeId| keeps(p, kind);
    let mut r: Vec<String> = Vec::new();
    proof {
        reveal(Seq::filter);
        assert(parents@.take(0) =~= Seq::<StatusedTypeId>::empty());
        assert(r.deep_view() =~= selected_names(*env, parents@.take(0), kind));
    }
    let mut i: usize = 0;
    while i < parents.len()
        invariant
            i <= parents@.len(),
            ancestors_in_env(*env, parents@),
            r.deep_view() == selected_names(*env, parents@.take(i as int), kind),
        decreases parents@.len() - i,
    {
        let p = &parents[i];
        let keep = !p.ignored_status() && match kind {
            Some(k) => p.kind_is(k),
            None => true,
        };
        let ghost r_before = r.deep_view();
        if keep {
            let name = format_parent_name(env, p);
            let ghost name_view = name@;
            r.push(name);
            proof {
                assert(r.deep_view() =~= r_before.push(name_view));
            }
        }
        proof {
            reveal(Seq::filter);
            let tk = parents@.take(i as int);
            let tk1 = parents@.take(i + 1);
            assert(tk1.drop_last() =~= tk);
            assert(tk1.last() == parents@[i as int]);
            if keeps(parents@[i as int], kind) {
                assert(selected_ancestors(tk1, kind) == selected_ancestors(tk, kind).push(
                    parents@[i as int],
                ));
            } else {
                assert(selected_ancestors(tk1, kind) == selected_ancestors(tk, kind));
            }
            assert(r.deep_view() =~= selected_names(*env, tk1, kind));
        }
        i = i + 1;
    }
    proof {
        assert(parents@.take(parents@.len() as int) =~= parents@);
    }
    r
}

impl StatusedTypeId {
    /// Whether upstream policy marked this ancestor as ignored.
    pub fn ignored_status(&self) -> (r: bool)
        ensures
            r == self.status.is_ignored(),
    {
        self.status.ignored()
    }

    /// Whether this ancestor's underlying kind is the given one.
    pub fn kind_is(&self, k: AncestorKind) -> (r: bool)
        ensures
            r == (self.kind == k),
    {
        self.kind == k
    }
}

/// Law: status filtering and kind partitioning are sound and complete —
/// no partition holds an ignored ancestor; a surviving ancestor lands in the
/// flat survivor list exactly when it is not ignored; and for a concrete
/// owner each survivor lands in exactly one of the class and interface
/// partitions, decided solely by its underlying kind.
pub proof fn lemma_ancestor_partition(parents: Seq<StatusedTypeId>)
    ensures
        forall|i: int|
            0 <= i < selected_ancestors(parents, None).len() ==> !(#[trigger] selected_ancestors(
                parents,
                None,
            )[i]).status.is_ignored(),
        forall|p: StatusedTypeId| #[trigger]
            selected_ancestors(parents, None).contains(p) <==> parents.contains(p)
                && !p.status.is_ignored(),
        forall|p: StatusedTypeId| #[trigger]
            selected_ancestors(parents, Some(AncestorKind::Class)).contains(p)
                <==> selected_ancestors(parents, None).contains(p) && p.kind is Class,
        forall|p: StatusedTypeId| #[trigger]
            selected_ancestors(parents, Some(AncestorKind::Interface)).contains(p)
                <==> selected_ancestors(parents, None).contains(p) && p.kind is Interface,
        forall|p: StatusedTypeId|
            selected_ancestors(parents, None).contains(p) ==> (selected_ancestors(
                parents,
                Some(AncestorKind::Class),
            ).contains(p) <==> !selected_ancestors(parents, Some(AncestorKind::Interface)).contains(
                p,
            )),
{
    broadcast use group_seq_properties;

    lemma_filter_elements(parents, |p: StatusedTypeId| keeps(p, None));
    lemma_filter_elements(parents, |p: StatusedTypeId| keeps(p, Some(AncestorKind::Class)));
    lemma_filter_elements(parents, |p: StatusedTypeId| keeps(p, Some(AncestorKind::Interface)));
}

/// Every element of a filtered ancestor list is an element of the original
/// list that satisfies the predicate, and conversely.
proof fn lemma_filter_elements(s: Seq<StatusedTypeId>, pred: spec_fn(StatusedTypeId) -> bool)
    ensures
        forall|p: StatusedTypeId| #[trigger]
            s.filter(pred).contains(p) <==> s.contains(p) && pred(p),
    decreases s.len(),
{
    reveal(Seq::filter);
    if s.len() > 0 {
        let sub = s.drop_last();
        lemma_filter_elements(sub, pred);
        if pred(s.last()) {
            assert(s.filter(pred) == sub.filter(pred).push(s.last()));
        } else {
            assert(s.filter(pred) == sub.filter(pred));
        }
        assert forall|p: StatusedTypeId| #[trigger] s.filter(pred).contains(p) implies s.contains(p)
            && pred(p) by {
            let k = choose|k: int| 0 <= k < s.filter(pred).len() && s.filter(pred)[k] == p;
            if k < sub.filter(pred).len() {
                assert(sub.filter(pred)[k] == p);
                assert(sub.filter(pred).contains(p));
                let j = choose|j: int| 0 <= j < sub.len() && sub[j] == p;
                assert(s[j] == p);
                assert(s.contains(p));
            } else {
                assert(p == s.last());
                assert(s[s.len() - 1] == p);
                assert(s.contains(p));
            }
        }
        assert forall|p: StatusedTypeId| s.contains(p) && pred(p) implies #[trigger] s.filter(
            pred,
        ).contains(p) by {
            let j = choose|j: int| 0 <= j < s.len() && s[j] == p;
            if j < s.len() - 1 {
                assert(sub[j] == p);
                assert(sub.contains(p));
                assert(sub.filter(pred).contains(p));
                let k = choose|k: int|
                    0 <= k < sub.filter(pred).len() && sub.filter(pred)[k] == p;
                assert(s.filter(pred)[k] == p);
                assert(s.filter(pred).contains(p));
            } else {
                assert(s.last() == p);
                assert(s.filter(pred).last() == p);
                assert(s.filter(pred).contains(p));
            }
        }
    }
}

} // verus!
