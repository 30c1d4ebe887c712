//! What one pass of the permission synchronizer does to the cluster, as a
//! law over sets of derived-object names.
//!
//! A pass first create-or-patches every declared object (recording the
//! names that applied successfully and those that failed), then deletes
//! every object labeled for the user whose name belongs to no declared
//! entry. The lemmas here pin the properties this dance is for: the
//! labeled state converges to exactly the applied names whatever was
//! there before, a second pass over an unchanged declaration is a no-op,
//! and an entry whose apply failed never loses its pre-existing objects.

use vstd::prelude::*;

verus! {

use crate::permissions::{
    NamespacedPermissionsView, canon_namespaced,
};
use crate::rbac::{spec_role_name, stale_pairs, kept_names};

/// The names of the user-labeled roles present after one pass that
/// successfully applied exactly `applied` while the entries named by
/// `failed` failed to apply: create-or-patch makes every applied name
/// exist, and cleanup removes every labeled name that neither applied nor
/// belongs to a failed entry.
pub open spec fn sync_survivors(
    state: Set<Seq<char>>,
    applied: Set<Seq<char>>,
    failed: Set<Seq<char>>,
) -> Set<Seq<char>> {
    state.union(applied).intersect(applied.union(failed))
}

/// The names one declaration asks for: one content-addressed name per
/// namespaced entry.
pub open spec fn desired_names(user: Seq<char>, entries: Seq<NamespacedPermissionsView>) -> Set<
    Seq<char>,
> {
    Set::new(
        |n: Seq<char>|
            exists|i: int| 0 <= i < entries.len() && n == spec_role_name(user, entries[i]),
    )
}

/// Convergence: whatever labeled state a fully successful pass starts
/// from, exactly the applied names survive it — removing an entry from
/// the declaration removes its objects on the next pass, and nothing that
/// just applied is ever deleted.
pub proof fn lemma_sync_converges(state: Set<Seq<char>>, applied: Set<Seq<char>>)
    ensures
        sync_survivors(state, applied, Set::empty()) == applied,
{
    assert(sync_survivors(state, applied, Set::empty()) =~= applied);
}

/// Partial failure is safe: a name whose objects already exist and whose
/// entry failed to apply this pass survives the pass — a failed entry is
/// retried later, never deleted as unknown.
pub proof fn lemma_failed_apply_retained(
    state: Set<Seq<char>>,
    applied: Set<Seq<char>>,
    failed: Set<Seq<char>>,
)
    ensures
        forall|n: Seq<char>|
            state.contains(n) && failed.contains(n) ==> #[trigger] sync_survivors(
                state,
                applied,
                failed,
            ).contains(n),
{
}

/// Idempotence: a pass over an unchanged declaration leaves the labeled
/// state exactly as the previous pass left it; since every derived
/// object's name and content are functions of the declaration alone, the
/// repeated create-or-patches rewrite identical objects and the cleanup
/// deletes nothing.
pub proof fn lemma_sync_idempotent(state: Set<Seq<char>>, applied: Set<Seq<char>>)
    ensures
        sync_survivors(sync_survivors(state, applied, Set::empty()), applied, Set::empty())
            == sync_survivors(state, applied, Set::empty()),
{
    lemma_sync_converges(state, applied);
    lemma_sync_converges(applied, applied);
}

/// Shrinking a declaration from two entries to one: after synchronizing
/// `{a, b}` exactly their two names exist; re-running with `{a}` alone
/// deletes `b`'s name and leaves `a`'s — the same name as before, since a
/// derived name depends only on the entry's canonical content.
pub proof fn lemma_sync_shrink(
    state: Set<Seq<char>>,
    user: Seq<char>,
    a: NamespacedPermissionsView,
    b: NamespacedPermissionsView,
)
    ensures
        sync_survivors(state, desired_names(user, seq![a, b]), Set::empty()) == desired_names(
            user,
            seq![a, b],
        ),
        sync_survivors(
            sync_survivors(state, desired_names(user, seq![a, b]), Set::empty()),
            desired_names(user, seq![a]),
            Set::empty(),
        ) == desired_names(user, seq![a]),
        desired_names(user, seq![a]).contains(spec_role_name(user, a)),
        canon_namespaced(a) != canon_namespaced(b) ==> !desired_names(user, seq![a]).contains(
            spec_role_name(user, b),
        ) || spec_role_name(user, a) == spec_role_name(user, b),
{
    lemma_sync_converges(state, desired_names(user, seq![a, b]));
    lemma_sync_converges(
        sync_survivors(state, desired_names(user, seq![a, b]), Set::empty()),
        desired_names(user, seq![a]),
    );
    assert(seq![a][0] == a);
    assert(desired_names(user, seq![a]).contains(spec_role_name(user, a)));
    if desired_names(user, seq![a]).contains(spec_role_name(user, b)) {
        let i = choose|i: int|
            0 <= i < seq![a].len() && spec_role_name(user, b) == spec_role_name(
                user,
                seq![a][i],
            );
        assert(spec_role_name(user, b) == spec_role_name(user, a));
    }
}

/// Content-addressing, first half: two declarations with the same
/// canonical serialization always yield the same derived name, for any
/// user.
pub proof fn lemma_same_content_same_name(
    user: Seq<char>,
    e1: NamespacedPermissionsView,
    e2: NamespacedPermissionsView,
)
    requires
        canon_namespaced(e1) == canon_namespaced(e2),
    ensures
        spec_role_name(user, e1) == spec_role_name(user, e2),
{
}

/// Every element a filter keeps comes from the sequence it filtered.
pub proof fn lemma_filter_subset<A>(s: Seq<A>, pred: spec_fn(A) -> bool)
    ensures
        forall|x: A| #[trigger] s.filter(pred).contains(x) ==> s.contains(x),
    decreases s.len(),
{
    reveal(Seq::filter);
    if s.len() > 0 {
        lemma_filter_subset(s.drop_last(), pred);
        assert forall|x: A| #[trigger] s.filter(pred).contains(x) implies s.contains(x) by {
            if s.drop_last().filter(pred).contains(x) {
                let i = choose|i: int|
                    0 <= i < s.drop_last().len() && s.drop_last()[i] == x;
                assert(s[i] == x);
            } else {
                assert(x == s.last());
            }
        }
    }
}

/// The cleanup decision is exact: a labeled role is slated for deletion
/// when and only when its name is not among the applied names.
pub proof fn lemma_cleanup_exact(
    existing: Seq<(Seq<char>, Seq<char>)>,
    known: Seq<Seq<char>>,
)
    ensures
        forall|p: (Seq<char>, Seq<char>)|
            existing.contains(p) && !known.contains(p.1) ==> #[trigger] stale_pairs(
                existing,
                known,
            ).contains(p),
        forall|p: (Seq<char>, Seq<char>)|
            #[trigger] stale_pairs(existing, known).contains(p) ==> existing.contains(p)
                && !known.contains(p.1),
{
    let pred = |q: (Seq<char>, Seq<char>)| !known.contains(q.1);
    lemma_filter_subset(existing, pred);
    assert forall|p: (Seq<char>, Seq<char>)|
        existing.contains(p) && !known.contains(p.1) implies #[trigger] stale_pairs(
        existing,
        known,
    ).contains(p) by {
        let i = choose|i: int| 0 <= i < existing.len() && existing[i] == p;
        existing.lemma_filter_contains(pred, i);
    }
    assert forall|p: (Seq<char>, Seq<char>)|
        #[trigger] stale_pairs(existing, known).contains(p) implies existing.contains(p)
        && !known.contains(p.1) by {
        let i = choose|i: int| 0 <= i < existing.filter(pred).len() && existing.filter(pred)[i] == p;
        existing.lemma_filter_pred(pred, i);
    }
}

/// The deletion list never names a failed entry (nor one just applied):
/// cleanup with the kept-name set leaves every declared entry's objects
/// alone.
pub proof fn lemma_failed_never_deleted(
    existing: Seq<(Seq<char>, Seq<char>)>,
    applied: Seq<Seq<char>>,
    failed: Seq<Seq<char>>,
)
    ensures
        forall|p: (Seq<char>, Seq<char>)|
            #[trigger] stale_pairs(existing, kept_names(applied, failed)).contains(p)
                ==> !applied.contains(p.1) && !failed.contains(p.1),
{
    lemma_cleanup_exact(existing, kept_names(applied, failed));
    assert forall|p: (Seq<char>, Seq<char>)|
        #[trigger] stale_pairs(existing, kept_names(applied, failed)).contains(p)
        implies !applied.contains(p.1) && !failed.contains(p.1) by {
        if applied.contains(p.1) {
            let i = choose|i: int| 0 <= i < applied.len() && applied[i] == p.1;
            assert(kept_names(applied, failed)[i] == p.1);
        }
        if failed.contains(p.1) {
            let i = choose|i: int| 0 <= i < failed.len() && failed[i] == p.1;
            assert(kept_names(applied, failed)[applied.len() + i] == p.1);
        }
    }
}

/// A pass over an unchanged, fully applied declaration deletes nothing:
/// when every labeled role's name is among the applied names, the
/// deletion list is empty.
pub proof fn lemma_sync_noop(existing: Seq<(Seq<char>, Seq<char>)>, known: Seq<Seq<char>>)
    requires
        forall|i: int| 0 <= i < existing.len() ==> known.contains(#[trigger] existing[i].1),
    ensures
        stale_pairs(existing, known) =~= Seq::<(Seq<char>, Seq<char>)>::empty(),
{
    let pred = |q: (Seq<char>, Seq<char>)| !known.contains(q.1);
    lemma_filter_subset(existing, pred);
    let out = existing.filter(pred);
    if out.len() > 0 {
        existing.lemma_filter_pred(pred, 0);
        assert(out.contains(out[0]));
        assert(existing.contains(out[0]));
        let i = choose|i: int| 0 <= i < existing.len() && existing[i] == out[0];
        assert(known.contains(existing[i].1));
    }
}

} // verus!
