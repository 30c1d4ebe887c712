//! The RBAC objects derived from a declaration, and the decisions of the
//! permission synchronizer.
//!
//! Each namespaced entry yields one Role/RoleBinding pair; the cluster
//! permission list yields one ClusterRole/ClusterRoleBinding pair. Every
//! derived object is content-addressed (see [`crate::permissions`]),
//! owned by the managed user, and labeled for selector-based discovery.
//! Cleanup deletes exactly the labeled objects that no declared entry
//! accounts for: neither just applied nor belonging to an entry whose
//! apply failed (those are retried, never deleted as unknown).

use vstd::prelude::*;

verus! {

use vstd::string::StringExecFns;

use crate::managed_user::{
    managed_user_api_version, managed_user_api_version_str, managed_user_kind,
    managed_user_kind_str,
};
use crate::meta::{ObjectMeta, ObjectMetaKuoExt, empty_meta, has_label};
use crate::permissions::{
    InlinePermissions, NamespacedPermissions, NamespacedPermissionsView, Permission,
    PermissionView, canon_cluster, canon_namespaced, cluster_canonical_string, derived_name,
    perms_view, spec_derived_name, strs_view,
};

/// The label key marking every RBAC object this controller derives for a
/// user, for selector-based discovery regardless of naming.
pub open spec fn user_label_key() -> Seq<char> {
    "kuo.github.com/user"@
}

/// Exec counterpart of [`user_label_key`].
pub fn user_label_key_str() -> (s: &'static str)
    ensures
        s@ == user_label_key(),
{
    "kuo.github.com/user"
}

/// A reference from a binding to the role it grants.
#[derive(Debug, Clone)]
pub struct RoleRef {
    pub api_group: String,
    pub kind: String,
    pub name: String,
}

/// Who a binding grants the role to.
#[derive(Debug, Clone)]
pub struct Subject {
    pub kind: String,
    pub name: String,
    pub namespace: Option<String>,
    pub api_group: Option<String>,
}

/// A namespaced role carrying the declared rules.
#[derive(Debug, Clone)]
pub struct Role {
    pub metadata: ObjectMeta,
    pub rules: Vec<Permission>,
}

/// The binding granting a namespaced role to the user.
#[derive(Debug, Clone)]
pub struct RoleBinding {
    pub metadata: ObjectMeta,
    pub role_ref: RoleRef,
    pub subjects: Vec<Subject>,
}

/// A cluster-scoped role carrying the declared rules.
#[derive(Debug, Clone)]
pub struct ClusterRole {
    pub metadata: ObjectMeta,
    pub rules: Vec<Permission>,
}

/// The binding granting a cluster-scoped role to the user.
#[derive(Debug, Clone)]
pub struct ClusterRoleBinding {
    pub metadata: ObjectMeta,
    pub role_ref: RoleRef,
    pub subjects: Vec<Subject>,
}

/// The name of the Role/RoleBinding pair derived from one namespaced
/// entry for `user`.
pub open spec fn spec_role_name(user: Seq<char>, np: NamespacedPermissionsView) -> Seq<char> {
    spec_derived_name(user, canon_namespaced(np))
}

/// The name of the ClusterRole/ClusterRoleBinding pair derived from the
/// cluster permission list for `user`.
pub open spec fn spec_cluster_role_name(user: Seq<char>, ps: Seq<PermissionView>) -> Seq<char> {
    spec_derived_name(user, canon_cluster(ps))
}

/// Metadata every derived object carries: the content-addressed name, the
/// target namespace (absent for cluster scope), the owner-user label, and
/// a single owner reference to the managed user.
pub open spec fn derived_meta_ok(
    m: ObjectMeta,
    name: Seq<char>,
    namespace: Option<Seq<char>>,
    user: Seq<char>,
    uid: Seq<char>,
) -> bool {
    &&& m.name matches Some(n) && n@ == name
    &&& match namespace {
        Some(ns) => m.namespace matches Some(x) && x@ == ns,
        None => m.namespace is None,
    }
    &&& has_label(m.labels@, user_label_key(), user)
    &&& m.owner_references@.len() == 1
    &&& m.owner_references@[0].points_at(managed_user_api_version(), managed_user_kind(), user, uid)
}

/// The single binding subject: the cluster `User` named after the managed
/// user.
pub open spec fn subjects_ok(subjects: Seq<Subject>, user: Seq<char>) -> bool {
    &&& subjects.len() == 1
    &&& subjects[0].kind@ == "User"@
    &&& subjects[0].name@ == user
    &&& subjects[0].namespace is None
    &&& subjects[0].api_group is None
}

/// Copy a list of strings, preserving its content.
fn copy_strings(v: &Vec<String>) -> (r: Vec<String>)
    ensures
        strs_view(r@) == strs_view(v@),
{
    let mut r: Vec<String> = Vec::new();
    let mut i: usize = 0;
    while i < v.len()
        invariant
            i <= v@.len(),
            r@.len() == i,
            forall|j: int| 0 <= j < i ==> r@[j]@ == v@[j]@,
        decreases v@.len() - i,
    {
        r.push(v[i].clone());
        i = i + 1;
    }
    proof {
        assert forall|j: int| 0 <= j < v@.len() implies strs_view(r@)[j] == strs_view(v@)[j] by {
            assert(strs_view(r@)[j] == r@[j]@);
            assert(strs_view(v@)[j] == v@[j]@);
        }
        assert(strs_view(r@) =~= strs_view(v@));
    }
    r
}

/// Copy an optional list of strings, preserving its content.
fn copy_opt_strings(o: &Option<Vec<String>>) -> (r: Option<Vec<String>>)
    ensures
        crate::permissions::opt_strs_view(r) == crate::permissions::opt_strs_view(*o),
{
    match o {
        None => None,
        Some(v) => Some(copy_strings(v)),
    }
}

/// Copy one permission, preserving its content.
fn copy_permission(p: &Permission) -> (r: Permission)
    ensures
        r@ == p@,
{
    let r = Permission {
        api_groups: copy_opt_strings(&p.api_groups),
        resources: copy_opt_strings(&p.resources),
        resource_names: copy_opt_strings(&p.resource_names),
        non_resource_urls: copy_opt_strings(&p.non_resource_urls),
        verbs: copy_strings(&p.verbs),
    };
    proof {
        assert(r@ =~= p@);
    }
    r
}

/// Copy a list of permissions, preserving its content.
fn copy_permissions(ps: &Vec<Permission>) -> (r: Vec<Permission>)
    ensures
        perms_view(r@) == perms_view(ps@),
{
    let mut r: Vec<Permission> = Vec::new();
    let mut i: usize = 0;
    while i < ps.len()
        invariant
            i <= ps@.len(),
            r@.len() == i,
            forall|j: int| 0 <= j < i ==> r@[j]@ == ps@[j]@,
        decreases ps@.len() - i,
    {
        r.push(copy_permission(&ps[i]));
        i = i + 1;
    }
    proof {
        assert forall|j: int| 0 <= j < ps@.len() implies perms_view(r@)[j] == perms_view(ps@)[j] by {
            assert(perms_view(r@)[j] == r@[j]@);
            assert(perms_view(ps@)[j] == ps@[j]@);
        }
        assert(perms_view(r@) =~= perms_view(ps@));
    }
    r
}

impl NamespacedPermissions {
    /// The Role and RoleBinding this entry should materialize as for
    /// `username`: both under the entry's content-addressed name in the
    /// entry's namespace, owned by the user, labeled for discovery; the
    /// binding grants the role to the cluster `User` of that name.
    pub fn desired_objects(&self, username: &str, user_uid: &str) -> (res: (
        String,
        Role,
        RoleBinding,
    ))
        ensures
            res.0@ == spec_role_name(username@, self@),
            derived_meta_ok(
                res.1.metadata,
                res.0@,
                Some(self.namespace@),
                username@,
                user_uid@,
            ),
            perms_view(res.1.rules@) == self@.permissions,
            derived_meta_ok(
                res.2.metadata,
                res.0@,
                Some(self.namespace@),
                username@,
                user_uid@,
            ),
            res.2.role_ref.api_group@ == "rbac.authorization.k8s.io"@,
            res.2.role_ref.kind@ == "Role"@,
            res.2.role_ref.name@ == res.0@,
            subjects_ok(res.2.subjects@, username@),
    {
        let canonical = self.canonical_string();
        let name = derived_name(username, canonical.as_str());

        let mut role_meta = empty_meta();
        role_meta.add_owner(
            managed_user_api_version_str(),
            managed_user_kind_str(),
            username,
            user_uid,
        );
        role_meta.insert_label(user_label_key_str(), username);
        role_meta.name = Some(name.clone());
        role_meta.namespace = Some(self.namespace.clone());
        let role = Role { metadata: role_meta, rules: copy_permissions(&self.permissions) };

        let mut rb_meta = empty_meta();
        rb_meta.add_owner(
            managed_user_api_version_str(),
            managed_user_kind_str(),
            username,
            user_uid,
        );
        rb_meta.insert_label(user_label_key_str(), username);
        rb_meta.name = Some(name.clone());
        rb_meta.namespace = Some(self.namespace.clone());
        let binding = RoleBinding {
            metadata: rb_meta,
            role_ref: RoleRef {
                api_group: "rbac.authorization.k8s.io".to_owned(),
                kind: "Role".to_owned(),
                name: name.clone(),
            },
            subjects: vec![
                Subject {
                    kind: "User".to_owned(),
                    name: username.to_owned(),
                    namespace: None,
                    api_group: None,
                },
            ],
        };
        (name, role, binding)
    }
}

/// The ClusterRole and ClusterRoleBinding the cluster permission list
/// should materialize as for `username`.
pub fn desired_cluster_objects(ps: &Vec<Permission>, username: &str, user_uid: &str) -> (res: (
    String,
    ClusterRole,
    ClusterRoleBinding,
))
    ensures
        res.0@ == spec_cluster_role_name(username@, perms_view(ps@)),
        derived_meta_ok(res.1.metadata, res.0@, None, username@, user_uid@),
        perms_view(res.1.rules@) == perms_view(ps@),
        derived_meta_ok(res.2.metadata, res.0@, None, username@, user_uid@),
        res.2.role_ref.api_group@ == "rbac.authorization.k8s.io"@,
        res.2.role_ref.kind@ == "ClusterRole"@,
        res.2.role_ref.name@ == res.0@,
        subjects_ok(res.2.subjects@, username@),
{
    let canonical = cluster_canonical_string(ps);
    let name = derived_name(username, canonical.as_str());

    let mut role_meta = empty_meta();
    role_meta.add_owner(
        managed_user_api_version_str(),
        managed_user_kind_str(),
        username,
        user_uid,
    );
    role_meta.insert_label(user_label_key_str(), username);
    role_meta.name = Some(name.clone());
    let role = ClusterRole { metadata: role_meta, rules: copy_permissions(ps) };

    let mut rb_meta = empty_meta();
    rb_meta.add_owner(
        managed_user_api_version_str(),
        managed_user_kind_str(),
        username,
        user_uid,
    );
    rb_meta.insert_label(user_label_key_str(), username);
    rb_meta.name = Some(name.clone());
    let binding = ClusterRoleBinding {
        metadata: rb_meta,
        role_ref: RoleRef {
            api_group: "rbac.authorization.k8s.io".to_owned(),
            kind: "ClusterRole".to_owned(),
            name: name.clone(),
        },
        subjects: vec![
            Subject {
                kind: "User".to_owned(),
                name: username.to_owned(),
                namespace: None,
                api_group: None,
            },
        ],
    };
    (name, role, binding)
}

impl InlinePermissions {
    /// The ClusterRole/ClusterRoleBinding pair this declaration asks for:
    /// none when no cluster permissions are declared or the list is empty,
    /// one content-addressed pair otherwise.
    pub fn cluster_objects(&self, username: &str, user_uid: &str) -> (r: Option<
        (String, ClusterRole, ClusterRoleBinding),
    >)
        ensures
            match r {
                None => match self.cluster_permissions {
                    None => true,
                    Some(v) => v@.len() == 0,
                },
                Some(t) => {
                    &&& self.cluster_permissions matches Some(ps) && ps@.len() > 0 && t.0@
                        == spec_cluster_role_name(username@, perms_view(ps@)) && perms_view(
                        t.1.rules@,
                    ) == perms_view(ps@)
                    &&& derived_meta_ok(t.1.metadata, t.0@, None, username@, user_uid@)
                    &&& derived_meta_ok(t.2.metadata, t.0@, None, username@, user_uid@)
                    &&& t.2.role_ref.api_group@ == "rbac.authorization.k8s.io"@
                    &&& t.2.role_ref.kind@ == "ClusterRole"@
                    &&& t.2.role_ref.name@ == t.0@
                    &&& subjects_ok(t.2.subjects@, username@)
                },
            },
    {
        match &self.cluster_permissions {
            None => None,
            Some(ps) => {
                if ps.len() == 0 {
                    None
                } else {
                    Some(desired_cluster_objects(ps, username, user_uid))
                }
            },
        }
    }
}

/// A role's place in the cluster: its namespace and name, all the cleanup
/// phase needs.
#[derive(Debug, Clone)]
pub struct NamespacedName {
    pub namespace: String,
    pub name: String,
}

impl View for NamespacedName {
    type V = (Seq<char>, Seq<char>);

    open spec fn view(&self) -> (Seq<char>, Seq<char>) {
        (self.namespace@, self.name@)
    }
}

/// The views of a list of namespaced names.
pub open spec fn nn_view(s: Seq<NamespacedName>) -> Seq<(Seq<char>, Seq<char>)> {
    s.map_values(|x: NamespacedName| x@)
}

/// True when `name` is among the views of `known`.
pub open spec fn known_contains(known: Seq<Seq<char>>, name: Seq<char>) -> bool {
    known.contains(name)
}

/// The labeled roles whose name is not among the kept names: exactly
/// what cleanup deletes.
pub open spec fn stale_pairs(
    existing: Seq<(Seq<char>, Seq<char>)>,
    known: Seq<Seq<char>>,
) -> Seq<(Seq<char>, Seq<char>)> {
    existing.filter(|q: (Seq<char>, Seq<char>)| !known.contains(q.1))
}

/// The names cleanup must leave alone: those whose objects were just
/// applied, and those of entries whose apply failed this pass — the
/// latter are retried on the next pass, never deleted as unknown.
pub open spec fn kept_names(applied: Seq<Seq<char>>, failed: Seq<Seq<char>>) -> Seq<Seq<char>> {
    applied + failed
}

/// Whether `name` is among `known`.
fn contains_name(known: &Vec<String>, name: &str) -> (r: bool)
    ensures
        r == known_contains(strs_view(known@), name@),
{
    let name_s = name.to_owned();
    let mut i: usize = 0;
    while i < known.len()
        invariant
            i <= known@.len(),
            name_s@ == name@,
            forall|j: int| 0 <= j < i ==> strs_view(known@)[j] != name@,
        decreases known@.len() - i,
    {
        if known[i] == name_s {
            assert(strs_view(known@)[i as int] == name@);
            return true;
        }
        i = i + 1;
    }
    assert(forall|j: int| 0 <= j < known@.len() ==> strs_view(known@)[j] != name@);
    false
}

/// The cleanup decision for namespaced roles: of the labeled roles that
/// exist, exactly those whose name neither just applied nor belongs to an
/// entry whose apply failed are deleted. A pre-existing role of a failed
/// entry is left in place and simply retried on the next pass — cleanup
/// only targets objects no declared entry accounts for.
pub fn roles_to_delete(
    existing: &Vec<NamespacedName>,
    applied: &Vec<String>,
    failed: &Vec<String>,
) -> (r: Vec<NamespacedName>)
    ensures
        nn_view(r@) == stale_pairs(
            nn_view(existing@),
            kept_names(strs_view(applied@), strs_view(failed@)),
        ),
        // nothing just applied, and nothing belonging to a failed entry,
        // is ever deleted
        forall|i: int|
            0 <= i < r@.len() ==> !strs_view(applied@).contains(#[trigger] r@[i]@.1)
                && !strs_view(failed@).contains(r@[i]@.1),
{
    let ghost kept = kept_names(strs_view(applied@), strs_view(failed@));
    let ghost pred = |p: (Seq<char>, Seq<char>)| !kept.contains(p.1);
    let mut r: Vec<NamespacedName> = Vec::new();
    let mut i: usize = 0;
    proof {
        assert(nn_view(existing@.take(0)).filter(pred) =~= Seq::<(Seq<char>, Seq<char>)>::empty())
            by {
            reveal(Seq::filter);
            assert(nn_view(existing@.take(0)) =~= Seq::<(Seq<char>, Seq<char>)>::empty());
        }
    }
    while i < existing.len()
        invariant
            i <= existing@.len(),
            nn_view(r@) =~= nn_view(existing@.take(i as int)).filter(pred),
            kept == kept_names(strs_view(applied@), strs_view(failed@)),
            pred == (|p: (Seq<char>, Seq<char>)| !kept.contains(p.1)),
        decreases existing@.len() - i,
    {
        let in_applied = contains_name(applied, existing[i].name.as_str());
        let in_failed = contains_name(failed, existing[i].name.as_str());
        let keep = in_applied || in_failed;
        proof {
            lemma_concat_contains(strs_view(applied@), strs_view(failed@), existing@[i as int]@.1);
        }
        assert(pred(existing@[i as int]@) == !keep);
        if !keep {
            r.push(
                NamespacedName {
                    namespace: existing[i].namespace.clone(),
                    name: existing[i].name.clone(),
                },
            );
        }
        i = i + 1;
        proof {
            reveal(Seq::filter);
            let prefix = nn_view(existing@.take(i as int));
            assert(prefix.drop_last() =~= nn_view(existing@.take(i - 1)));
            assert(prefix.last() == existing@[i - 1]@);
            assert(nn_view(r@) =~= prefix.filter(pred));
        }
    }
    proof {
        assert(existing@.take(existing@.len() as int) =~= existing@);
        assert forall|j: int|
            0 <= j < r@.len() implies !strs_view(applied@).contains(#[trigger] r@[j]@.1)
            && !strs_view(failed@).contains(r@[j]@.1) by {
            assert(nn_view(r@)[j] == r@[j]@);
            nn_view(existing@).lemma_filter_pred(pred, j);
            lemma_concat_contains(strs_view(applied@), strs_view(failed@), r@[j]@.1);
        }
    }
    r
}

/// Membership in a concatenation is membership in either part.
proof fn lemma_concat_contains(a: Seq<Seq<char>>, b: Seq<Seq<char>>, x: Seq<char>)
    ensures
        (a + b).contains(x) <==> a.contains(x) || b.contains(x),
{
    if (a + b).contains(x) {
        let i = choose|i: int| 0 <= i < (a + b).len() && (a + b)[i] == x;
        if i < a.len() {
            assert(a[i] == x);
        } else {
            assert(b[i - a.len()] == x);
        }
    }
    if a.contains(x) {
        let i = choose|i: int| 0 <= i < a.len() && a[i] == x;
        assert((a + b)[i] == x);
    }
    if b.contains(x) {
        let i = choose|i: int| 0 <= i < b.len() && b[i] == x;
        assert((a + b)[a.len() + i] == x);
    }
}

/// The cleanup decision for cluster roles: of the labeled cluster roles
/// that exist, exactly those that differ from the just-applied name are
/// deleted; when nothing was applied (no cluster permissions are
/// declared, or the apply failed), every labeled cluster role goes.
pub fn cluster_roles_to_delete(existing: &Vec<String>, known: &Option<String>) -> (r: Vec<String>)
    ensures
        strs_view(r@) == strs_view(existing@).filter(
            |n: Seq<char>| !cluster_known_keeps(*known, n),
        ),
{
    let ghost pred = |n: Seq<char>| !cluster_known_keeps(*known, n);
    let mut r: Vec<String> = Vec::new();
    let mut i: usize = 0;
    proof {
        assert(strs_view(existing@.take(0)).filter(pred) =~= Seq::<Seq<char>>::empty()) by {
            reveal(Seq::filter);
            assert(strs_view(existing@.take(0)) =~= Seq::<Seq<char>>::empty());
        }
    }
    while i < existing.len()
        invariant
            i <= existing@.len(),
            strs_view(r@) =~= strs_view(existing@.take(i as int)).filter(pred),
            pred == (|n: Seq<char>| !cluster_known_keeps(*known, n)),
        decreases existing@.len() - i,
    {
        let keep = match known {
            Some(k) => existing[i] == *k,
            None => false,
        };
        if !keep {
            r.push(existing[i].clone());
        }
        i = i + 1;
        proof {
            reveal(Seq::filter);
            let prefix = strs_view(existing@.take(i as int));
            assert(prefix.drop_last() =~= strs_view(existing@.take(i - 1)));
            assert(prefix.last() == existing@[i - 1]@);
            assert(strs_view(r@) =~= prefix.filter(pred));
        }
    }
    proof {
        assert(existing@.take(existing@.len() as int) =~= existing@);
    }
    r
}

/// True when the applied cluster-role name says `n` should stay.
pub open spec fn cluster_known_keeps(known: Option<String>, n: Seq<char>) -> bool {
    match known {
        Some(k) => k@ == n,
        None => false,
    }
}

} // verus!
