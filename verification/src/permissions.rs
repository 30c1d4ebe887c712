//! Declared RBAC permissions and their canonical serialization.
//!
//! A derived RBAC object is content-addressed: its name is
//! `<username>-<hash>` where the hash is taken over the canonical
//! serialization of the permission entry. The serialization is
//! deterministic and unambiguous (every field is length-prefixed), so
//! equal content always yields the same name and distinct content always
//! yields distinct canonical text.

use vstd::prelude::*;

verus! {

use vstd::string::StrSliceExecFns;
use vstd::string::StringExecFns;

use crate::hash::{dec_digits, fnv1a, u64_to_dec, fnv1a_hash};

/// A single RBAC rule, as declared on a managed user.
///
/// Every list except `verbs` may be absent; absent means unrestricted.
#[derive(Debug, Clone)]
pub struct Permission {
    /// Names of the API groups the rule applies to. `""` is the core
    /// group, `"*"` every group.
    pub api_groups: Option<Vec<String>>,
    /// Resources the rule applies to. `"*"` is every resource.
    pub resources: Option<Vec<String>>,
    /// Optional white list of object names the rule applies to.
    pub resource_names: Option<Vec<String>>,
    /// Non-resource URL paths the rule applies to; meaningful only for
    /// cluster-scoped grants.
    pub non_resource_urls: Option<Vec<String>>,
    /// Verbs the rule allows on everything it matches. `"*"` is every verb.
    pub verbs: Vec<String>,
}

/// Permissions declared for one namespace.
#[derive(Debug, Clone)]
pub struct NamespacedPermissions {
    /// The namespace the permissions apply to.
    pub namespace: String,
    /// The permissions to apply there.
    pub permissions: Vec<Permission>,
}

/// The full permission declaration carried on a managed user.
#[derive(Debug, Clone)]
pub struct InlinePermissions {
    /// Cluster-wide permissions.
    pub cluster_permissions: Option<Vec<Permission>>,
    /// Per-namespace permissions.
    pub namespaced_permissions: Option<Vec<NamespacedPermissions>>,
}

// ---------------------------------------------------------------------
// Views: the mathematical content of a declaration
// ---------------------------------------------------------------------

/// The views of a list of strings.
pub open spec fn strs_view(v: Seq<String>) -> Seq<Seq<char>> {
    v.map_values(|s: String| s@)
}

/// The views of an optional list of strings.
pub open spec fn opt_strs_view(o: Option<Vec<String>>) -> Option<Seq<Seq<char>>> {
    match o {
        None => None,
        Some(v) => Some(strs_view(v@)),
    }
}

/// The content of one [`Permission`]: its five fields as sequences of
/// character sequences.
#[verifier::ext_equal]
pub struct PermissionView {
    pub api_groups: Option<Seq<Seq<char>>>,
    pub resources: Option<Seq<Seq<char>>>,
    pub resource_names: Option<Seq<Seq<char>>>,
    pub non_resource_urls: Option<Seq<Seq<char>>>,
    pub verbs: Seq<Seq<char>>,
}

impl View for Permission {
    type V = PermissionView;

    open spec fn view(&self) -> PermissionView {
        PermissionView {
            api_groups: opt_strs_view(self.api_groups),
            resources: opt_strs_view(self.resources),
            resource_names: opt_strs_view(self.resource_names),
            non_resource_urls: opt_strs_view(self.non_resource_urls),
            verbs: strs_view(self.verbs@),
        }
    }
}

/// The views of a list of permissions.
pub open spec fn perms_view(ps: Seq<Permission>) -> Seq<PermissionView> {
    ps.map_values(|p: Permission| p@)
}

/// The content of one [`NamespacedPermissions`] entry.
#[verifier::ext_equal]
pub struct NamespacedPermissionsView {
    pub namespace: Seq<char>,
    pub permissions: Seq<PermissionView>,
}

impl View for NamespacedPermissions {
    type V = NamespacedPermissionsView;

    open spec fn view(&self) -> NamespacedPermissionsView {
        NamespacedPermissionsView {
            namespace: self.namespace@,
            permissions: perms_view(self.permissions@),
        }
    }
}

// ---------------------------------------------------------------------
// Canonical serialization (spec level)
// ---------------------------------------------------------------------

/// One string, length-prefixed: `<len>:<chars>`.
pub open spec fn enc_str(s: Seq<char>) -> Seq<char> {
    dec_digits(s.len()) + seq![':'] + s
}

/// The concatenation of the encodings of each string in the list.
pub open spec fn enc_str_items(items: Seq<Seq<char>>) -> Seq<char>
    decreases items.len(),
{
    if items.len() == 0 {
        Seq::empty()
    } else {
        enc_str_items(items.drop_last()) + enc_str(items.last())
    }
}

/// A list of strings, count-prefixed: `<count>[<items>`.
pub open spec fn enc_str_list(items: Seq<Seq<char>>) -> Seq<char> {
    dec_digits(items.len()) + seq!['['] + enc_str_items(items)
}

/// An optional list of strings: `n` when absent, `s<list>` when present.
pub open spec fn enc_opt_str_list(o: Option<Seq<Seq<char>>>) -> Seq<char> {
    match o {
        None => seq!['n'],
        Some(items) => seq!['s'] + enc_str_list(items),
    }
}

/// The canonical serialization of one permission: its five fields encoded
/// in declaration order.
pub open spec fn canon_permission(p: PermissionView) -> Seq<char> {
    enc_opt_str_list(p.api_groups) + enc_opt_str_list(p.resources) + enc_opt_str_list(
        p.resource_names,
    ) + enc_opt_str_list(p.non_resource_urls) + enc_str_list(p.verbs)
}

/// The concatenation of the canonical serializations of each permission.
pub open spec fn enc_perm_items(ps: Seq<PermissionView>) -> Seq<char>
    decreases ps.len(),
{
    if ps.len() == 0 {
        Seq::empty()
    } else {
        enc_perm_items(ps.drop_last()) + canon_permission(ps.last())
    }
}

/// A list of permissions, count-prefixed: `<count>[<items>`.
pub open spec fn enc_perm_list(ps: Seq<PermissionView>) -> Seq<char> {
    dec_digits(ps.len()) + seq!['['] + enc_perm_items(ps)
}

/// The canonical serialization of a namespaced entry: the namespace, then
/// its permission list.
pub open spec fn canon_namespaced(np: NamespacedPermissionsView) -> Seq<char> {
    enc_str(np.namespace) + enc_perm_list(np.permissions)
}

/// The canonical serialization of the cluster-wide permission list.
pub open spec fn canon_cluster(ps: Seq<PermissionView>) -> Seq<char> {
    enc_perm_list(ps)
}

/// A derived object's content-addressed name:
/// `<username>-<hash of the canonical serialization>`.
pub open spec fn spec_derived_name(user: Seq<char>, canonical: Seq<char>) -> Seq<char> {
    user + seq!['-'] + dec_digits(fnv1a(canonical) as nat)
}

// ---------------------------------------------------------------------
// The canonical serialization is unambiguous
// ---------------------------------------------------------------------
//
// Every encoder below is a prefix code: from an encoding followed by any
// tail, both the encoded value and the tail are recovered uniquely. The
// chain culminates in injectivity of the canonical serialization itself —
// distinct content never serializes to the same text, which is what makes
// content-addressed naming sound.

use crate::hash::lemma_dec_delimited;

/// An encoded string followed by any tail parses uniquely.
pub proof fn lemma_enc_str_delimited(s1: Seq<char>, s2: Seq<char>, r1: Seq<char>, r2: Seq<char>)
    requires
        enc_str(s1) + r1 == enc_str(s2) + r2,
    ensures
        s1 == s2,
        r1 == r2,
{
    assert(enc_str(s1) + r1 =~= dec_digits(s1.len()) + seq![':'] + (s1 + r1));
    assert(enc_str(s2) + r2 =~= dec_digits(s2.len()) + seq![':'] + (s2 + r2));
    lemma_dec_delimited(s1.len(), s2.len(), ':', s1 + r1, s2 + r2);
    assert forall|i: int| 0 <= i < s1.len() implies s1[i] == s2[i] by {
        assert((s1 + r1)[i] == s1[i]);
        assert((s2 + r2)[i] == s2[i]);
    }
    assert(s1 =~= s2);
    assert forall|i: int| 0 <= i < r1.len() implies r1[i] == r2[i] by {
        assert((s1 + r1)[s1.len() + i] == r1[i]);
        assert((s2 + r2)[s2.len() + i] == r2[i]);
    }
    assert(r1 =~= r2);
}

/// Item-wise: two encoded string lists of equal count followed by any
/// tails parse uniquely.
pub proof fn lemma_enc_str_items_delimited(
    v1: Seq<Seq<char>>,
    v2: Seq<Seq<char>>,
    r1: Seq<char>,
    r2: Seq<char>,
)
    requires
        v1.len() == v2.len(),
        enc_str_items(v1) + r1 == enc_str_items(v2) + r2,
    ensures
        v1 == v2,
        r1 == r2,
    decreases v1.len(),
{
    if v1.len() == 0 {
        assert(enc_str_items(v1) + r1 =~= r1);
        assert(enc_str_items(v2) + r2 =~= r2);
    } else {
        assert(enc_str_items(v1) + r1 =~= enc_str_items(v1.drop_last()) + (enc_str(v1.last())
            + r1));
        assert(enc_str_items(v2) + r2 =~= enc_str_items(v2.drop_last()) + (enc_str(v2.last())
            + r2));
        lemma_enc_str_items_delimited(
            v1.drop_last(),
            v2.drop_last(),
            enc_str(v1.last()) + r1,
            enc_str(v2.last()) + r2,
        );
        lemma_enc_str_delimited(v1.last(), v2.last(), r1, r2);
        assert forall|i: int| 0 <= i < v1.len() implies v1[i] == v2[i] by {
            if i < v1.len() - 1 {
                assert(v1[i] == v1.drop_last()[i]);
                assert(v2[i] == v2.drop_last()[i]);
            } else {
                assert(v1[i] == v1.last());
                assert(v2[i] == v2.last());
            }
        }
        assert(v1 =~= v2);
    }
}

/// An encoded string list followed by any tail parses uniquely.
pub proof fn lemma_enc_str_list_delimited(
    v1: Seq<Seq<char>>,
    v2: Seq<Seq<char>>,
    r1: Seq<char>,
    r2: Seq<char>,
)
    requires
        enc_str_list(v1) + r1 == enc_str_list(v2) + r2,
    ensures
        v1 == v2,
        r1 == r2,
{
    assert(enc_str_list(v1) + r1 =~= dec_digits(v1.len()) + seq!['['] + (enc_str_items(v1) + r1));
    assert(enc_str_list(v2) + r2 =~= dec_digits(v2.len()) + seq!['['] + (enc_str_items(v2) + r2));
    lemma_dec_delimited(v1.len(), v2.len(), '[', enc_str_items(v1) + r1, enc_str_items(v2) + r2);
    lemma_enc_str_items_delimited(v1, v2, r1, r2);
}

/// An encoded optional string list followed by any tail parses uniquely.
pub proof fn lemma_enc_opt_delimited(
    o1: Option<Seq<Seq<char>>>,
    o2: Option<Seq<Seq<char>>>,
    r1: Seq<char>,
    r2: Seq<char>,
)
    requires
        enc_opt_str_list(o1) + r1 == enc_opt_str_list(o2) + r2,
    ensures
        o1 == o2,
        r1 == r2,
{
    let lhs = enc_opt_str_list(o1) + r1;
    let rhs = enc_opt_str_list(o2) + r2;
    match (o1, o2) {
        (None, None) => {
            assert(lhs =~= seq!['n'] + r1);
            assert(rhs =~= seq!['n'] + r2);
            assert forall|i: int| 0 <= i < r1.len() implies r1[i] == r2[i] by {
                assert((seq!['n'] + r1)[1 + i] == r1[i]);
                assert((seq!['n'] + r2)[1 + i] == r2[i]);
            }
            assert(r1 =~= r2);
        },
        (None, Some(v2)) => {
            assert(lhs[0] == 'n');
            assert(rhs[0] == 's');
        },
        (Some(v1), None) => {
            assert(lhs[0] == 's');
            assert(rhs[0] == 'n');
        },
        (Some(v1), Some(v2)) => {
            assert(lhs =~= seq!['s'] + (enc_str_list(v1) + r1));
            assert(rhs =~= seq!['s'] + (enc_str_list(v2) + r2));
            assert forall|i: int|
                0 <= i < (enc_str_list(v1) + r1).len() implies (enc_str_list(v1) + r1)[i] == (
            enc_str_list(v2) + r2)[i] by {
                assert(lhs[1 + i] == (enc_str_list(v1) + r1)[i]);
                assert(rhs[1 + i] == (enc_str_list(v2) + r2)[i]);
            }
            assert(enc_str_list(v1) + r1 =~= enc_str_list(v2) + r2);
            lemma_enc_str_list_delimited(v1, v2, r1, r2);
        },
    }
}

/// A canonically serialized permission followed by any tail parses
/// uniquely.
#[verifier::rlimit(60)]
pub proof fn lemma_canon_permission_delimited(
    p1: PermissionView,
    p2: PermissionView,
    r1: Seq<char>,
    r2: Seq<char>,
)
    requires
        canon_permission(p1) + r1 == canon_permission(p2) + r2,
    ensures
        p1 == p2,
        r1 == r2,
{
    let t1 = enc_opt_str_list(p1.resources) + (enc_opt_str_list(p1.resource_names)
        + (enc_opt_str_list(p1.non_resource_urls) + (enc_str_list(p1.verbs) + r1)));
    let t2 = enc_opt_str_list(p2.resources) + (enc_opt_str_list(p2.resource_names)
        + (enc_opt_str_list(p2.non_resource_urls) + (enc_str_list(p2.verbs) + r2)));
    assert(canon_permission(p1) + r1 =~= enc_opt_str_list(p1.api_groups) + t1);
    assert(canon_permission(p2) + r2 =~= enc_opt_str_list(p2.api_groups) + t2);
    lemma_enc_opt_delimited(p1.api_groups, p2.api_groups, t1, t2);
    lemma_enc_opt_delimited(
        p1.resources,
        p2.resources,
        enc_opt_str_list(p1.resource_names) + (enc_opt_str_list(p1.non_resource_urls)
            + (enc_str_list(p1.verbs) + r1)),
        enc_opt_str_list(p2.resource_names) + (enc_opt_str_list(p2.non_resource_urls)
            + (enc_str_list(p2.verbs) + r2)),
    );
    lemma_enc_opt_delimited(
        p1.resource_names,
        p2.resource_names,
        enc_opt_str_list(p1.non_resource_urls) + (enc_str_list(p1.verbs) + r1),
        enc_opt_str_list(p2.non_resource_urls) + (enc_str_list(p2.verbs) + r2),
    );
    lemma_enc_opt_delimited(
        p1.non_resource_urls,
        p2.non_resource_urls,
        enc_str_list(p1.verbs) + r1,
        enc_str_list(p2.verbs) + r2,
    );
    lemma_enc_str_list_delimited(p1.verbs, p2.verbs, r1, r2);
    assert(p1 =~= p2);
}

/// Item-wise: two canonically serialized permission lists of equal count
/// followed by any tails parse uniquely.
pub proof fn lemma_enc_perm_items_delimited(
    v1: Seq<PermissionView>,
    v2: Seq<PermissionView>,
    r1: Seq<char>,
    r2: Seq<char>,
)
    requires
        v1.len() == v2.len(),
        enc_perm_items(v1) + r1 == enc_perm_items(v2) + r2,
    ensures
        v1 == v2,
        r1 == r2,
    decreases v1.len(),
{
    if v1.len() == 0 {
        assert(enc_perm_items(v1) + r1 =~= r1);
        assert(enc_perm_items(v2) + r2 =~= r2);
    } else {
        assert(enc_perm_items(v1) + r1 =~= enc_perm_items(v1.drop_last()) + (canon_permission(
            v1.last(),
        ) + r1));
        assert(enc_perm_items(v2) + r2 =~= enc_perm_items(v2.drop_last()) + (canon_permission(
            v2.last(),
        ) + r2));
        lemma_enc_perm_items_delimited(
            v1.drop_last(),
            v2.drop_last(),
            canon_permission(v1.last()) + r1,
            canon_permission(v2.last()) + r2,
        );
        lemma_canon_permission_delimited(v1.last(), v2.last(), r1, r2);
        assert forall|i: int| 0 <= i < v1.len() implies v1[i] == v2[i] by {
            if i < v1.len() - 1 {
                assert(v1[i] == v1.drop_last()[i]);
                assert(v2[i] == v2.drop_last()[i]);
            } else {
                assert(v1[i] == v1.last());
                assert(v2[i] == v2.last());
            }
        }
        assert(v1 =~= v2);
    }
}

/// An encoded permission list followed by any tail parses uniquely.
pub proof fn lemma_enc_perm_list_delimited(
    v1: Seq<PermissionView>,
    v2: Seq<PermissionView>,
    r1: Seq<char>,
    r2: Seq<char>,
)
    requires
        enc_perm_list(v1) + r1 == enc_perm_list(v2) + r2,
    ensures
        v1 == v2,
        r1 == r2,
{
    assert(enc_perm_list(v1) + r1 =~= dec_digits(v1.len()) + seq!['['] + (enc_perm_items(v1)
        + r1));
    assert(enc_perm_list(v2) + r2 =~= dec_digits(v2.len()) + seq!['['] + (enc_perm_items(v2)
        + r2));
    lemma_dec_delimited(v1.len(), v2.len(), '[', enc_perm_items(v1) + r1, enc_perm_items(v2) + r2);
    lemma_enc_perm_items_delimited(v1, v2, r1, r2);
}

/// Content-addressing, second half: the canonical serialization is
/// injective — namespaced entries with differing content (namespace or
/// permissions) never serialize to the same text, so their derived names
/// differ unless the hash itself collides.
pub proof fn lemma_canon_namespaced_injective(
    n1: NamespacedPermissionsView,
    n2: NamespacedPermissionsView,
)
    requires
        canon_namespaced(n1) == canon_namespaced(n2),
    ensures
        n1 == n2,
{
    assert(canon_namespaced(n1) =~= enc_str(n1.namespace) + enc_perm_list(n1.permissions));
    assert(canon_namespaced(n2) =~= enc_str(n2.namespace) + enc_perm_list(n2.permissions));
    lemma_enc_str_delimited(
        n1.namespace,
        n2.namespace,
        enc_perm_list(n1.permissions),
        enc_perm_list(n2.permissions),
    );
    assert(enc_perm_list(n1.permissions) + Seq::<char>::empty() =~= enc_perm_list(n2.permissions)
        + Seq::<char>::empty());
    lemma_enc_perm_list_delimited(
        n1.permissions,
        n2.permissions,
        Seq::empty(),
        Seq::empty(),
    );
    assert(n1 =~= n2);
}

/// The cluster permission list's canonical serialization is injective too.
pub proof fn lemma_canon_cluster_injective(v1: Seq<PermissionView>, v2: Seq<PermissionView>)
    requires
        canon_cluster(v1) == canon_cluster(v2),
    ensures
        v1 == v2,
{
    assert(canon_cluster(v1) + Seq::<char>::empty() =~= canon_cluster(v2) + Seq::<char>::empty());
    lemma_enc_perm_list_delimited(v1, v2, Seq::empty(), Seq::empty());
}

// ---------------------------------------------------------------------
// Canonical serialization (executable)
// ---------------------------------------------------------------------

/// Append the length-prefixed encoding of `s`.
fn push_enc_str(out: &mut String, s: &str)
    ensures
        final(out)@ == old(out)@ + enc_str(s@),
{
    let n = s.unicode_len();
    let dec = u64_to_dec(n as u64);
    out.append(dec.as_str());
    out.append(":");
    out.append(s);
    proof {
        reveal_strlit(":");
        assert(":"@ =~= seq![':']);
        assert(out@ =~= old(out)@ + enc_str(s@));
    }
}

/// Append the count-prefixed encoding of a list of strings.
fn push_enc_str_list(out: &mut String, v: &Vec<String>)
    ensures
        final(out)@ == old(out)@ + enc_str_list(strs_view(v@)),
{
    let dec = u64_to_dec(v.len() as u64);
    out.append(dec.as_str());
    out.append("[");
    proof {
        reveal_strlit("[");
        assert("["@ =~= seq!['[']);
    }
    let ghost items = strs_view(v@);
    let ghost head = old(out)@ + dec_digits(items.len()) + seq!['['];
    assert(out@ =~= head + enc_str_items(items.take(0)));
    let mut i: usize = 0;
    while i < v.len()
        invariant
            i <= v@.len(),
            items == strs_view(v@),
            items.len() == v@.len(),
            out@ == head + enc_str_items(items.take(i as int)),
        decreases v@.len() - i,
    {
        push_enc_str(out, v[i].as_str());
        i = i + 1;
        proof {
            assert(items.take(i as int).drop_last() =~= items.take(i - 1));
            assert(items.take(i as int).last() == v@[i - 1]@);
            assert(out@ =~= head + enc_str_items(items.take(i as int)));
        }
    }
    proof {
        assert(items.take(items.len() as int) =~= items);
        assert(out@ =~= old(out)@ + enc_str_list(items));
    }
}

/// Append the encoding of an optional list of strings.
fn push_enc_opt_str_list(out: &mut String, o: &Option<Vec<String>>)
    ensures
        final(out)@ == old(out)@ + enc_opt_str_list(opt_strs_view(*o)),
{
    match o {
        None => {
            out.append("n");
            proof {
                reveal_strlit("n");
                assert("n"@ =~= seq!['n']);
                assert(out@ =~= old(out)@ + enc_opt_str_list(opt_strs_view(*o)));
            }
        },
        Some(v) => {
            out.append("s");
            proof {
                reveal_strlit("s");
                assert("s"@ =~= seq!['s']);
            }
            push_enc_str_list(out, v);
            proof {
                assert(out@ =~= old(out)@ + enc_opt_str_list(opt_strs_view(*o)));
            }
        },
    }
}

/// Append the canonical serialization of one permission.
fn push_canon_permission(out: &mut String, p: &Permission)
    ensures
        final(out)@ == old(out)@ + canon_permission(p@),
{
    push_enc_opt_str_list(out, &p.api_groups);
    push_enc_opt_str_list(out, &p.resources);
    push_enc_opt_str_list(out, &p.resource_names);
    push_enc_opt_str_list(out, &p.non_resource_urls);
    push_enc_str_list(out, &p.verbs);
    proof {
        assert(out@ =~= old(out)@ + canon_permission(p@));
    }
}

/// Append the count-prefixed encoding of a list of permissions.
fn push_enc_perm_list(out: &mut String, ps: &Vec<Permission>)
    ensures
        final(out)@ == old(out)@ + enc_perm_list(perms_view(ps@)),
{
    let dec = u64_to_dec(ps.len() as u64);
    out.append(dec.as_str());
    out.append("[");
    proof {
        reveal_strlit("[");
        assert("["@ =~= seq!['[']);
    }
    let ghost items = perms_view(ps@);
    let ghost head = old(out)@ + dec_digits(items.len()) + seq!['['];
    assert(out@ =~= head + enc_perm_items(items.take(0)));
    let mut i: usize = 0;
    while i < ps.len()
        invariant
            i <= ps@.len(),
            items == perms_view(ps@),
            items.len() == ps@.len(),
            out@ == head + enc_perm_items(items.take(i as int)),
        decreases ps@.len() - i,
    {
        push_canon_permission(out, &ps[i]);
        i = i + 1;
        proof {
            assert(items.take(i as int).drop_last() =~= items.take(i - 1));
            assert(items.take(i as int).last() == ps@[i - 1]@);
            assert(out@ =~= head + enc_perm_items(items.take(i as int)));
        }
    }
    proof {
        assert(items.take(items.len() as int) =~= items);
        assert(out@ =~= old(out)@ + enc_perm_list(items));
    }
}

impl NamespacedPermissions {
    /// The canonical serialization of this entry.
    pub fn canonical_string(&self) -> (s: String)
        ensures
            s@ == canon_namespaced(self@),
    {
        let mut out = String::new();
        push_enc_str(&mut out, self.namespace.as_str());
        push_enc_perm_list(&mut out, &self.permissions);
        proof {
            assert(out@ =~= canon_namespaced(self@));
        }
        out
    }
}

/// The canonical serialization of the cluster-wide permission list.
pub fn cluster_canonical_string(ps: &Vec<Permission>) -> (s: String)
    ensures
        s@ == canon_cluster(perms_view(ps@)),
{
    let mut out = String::new();
    push_enc_perm_list(&mut out, ps);
    proof {
        assert(out@ =~= canon_cluster(perms_view(ps@)));
    }
    out
}

/// The content-addressed name for a derived object:
/// `<username>-<hash of canonical>`.
pub fn derived_name(user: &str, canonical: &str) -> (n: String)
    ensures
        n@ == spec_derived_name(user@, canonical@),
{
    let mut out = user.to_owned();
    out.append("-");
    let h = fnv1a_hash(canonical);
    let dec = u64_to_dec(h);
    out.append(dec.as_str());
    proof {
        reveal_strlit("-");
        assert("-"@ =~= seq!['-']);
        assert(out@ =~= spec_derived_name(user@, canonical@));
    }
    out
}

} // verus!
