use kuo::meta::{ObjectMeta, ObjectMetaKuoExt};
use kuo::permissions::{InlinePermissions, NamespacedPermissions, Permission, derived_name};
use kuo::rbac::{NamespacedName, cluster_roles_to_delete, roles_to_delete};

fn perm(verbs: &[&str], resources: &[&str]) -> Permission {
    Permission {
        api_groups: None,
        resources: Some(resources.iter().map(|s| s.to_string()).collect()),
        resource_names: None,
        non_resource_urls: None,
        verbs: verbs.iter().map(|s| s.to_string()).collect(),
    }
}

fn entry(namespace: &str, permissions: Vec<Permission>) -> NamespacedPermissions {
    NamespacedPermissions { namespace: namespace.to_string(), permissions }
}

fn role(namespace: &str, name: &str) -> NamespacedName {
    NamespacedName { namespace: namespace.to_string(), name: name.to_string() }
}

#[test]
fn desired_objects_are_owned_labeled_and_content_addressed() {
    let a = entry("dev", vec![perm(&["get", "list"], &["pods"])]);
    let (name, role, binding) = a.desired_objects("alice", "uid-1");
    assert_eq!(name, derived_name("alice", &a.canonical_string()));
    assert!(name.starts_with("alice-"));
    assert_eq!(role.metadata.name.as_deref(), Some(name.as_str()));
    assert_eq!(role.metadata.namespace.as_deref(), Some("dev"));
    assert!(role.metadata.labels.contains(&(
        "kuo.github.com/user".to_string(),
        "alice".to_string()
    )));
    assert_eq!(role.metadata.owner_references.len(), 1);
    let owner = &role.metadata.owner_references[0];
    assert_eq!(owner.api_version, "kuo.github.io/v1");
    assert_eq!(owner.kind, "ManagedUser");
    assert_eq!(owner.name, "alice");
    assert_eq!(owner.uid, "uid-1");
    assert_eq!(owner.block_owner_deletion, Some(false));
    assert_eq!(role.rules.len(), 1);
    assert_eq!(role.rules[0].verbs, vec!["get".to_string(), "list".to_string()]);
    assert_eq!(binding.metadata.name.as_deref(), Some(name.as_str()));
    assert_eq!(binding.role_ref.api_group, "rbac.authorization.k8s.io");
    assert_eq!(binding.role_ref.kind, "Role");
    assert_eq!(binding.role_ref.name, name);
    assert_eq!(binding.subjects.len(), 1);
    assert_eq!(binding.subjects[0].kind, "User");
    assert_eq!(binding.subjects[0].name, "alice");
}

#[test]
fn cluster_objects_absent_or_empty_is_none() {
    let none = InlinePermissions { cluster_permissions: None, namespaced_permissions: None };
    assert!(none.cluster_objects("alice", "uid-1").is_none());
    let empty = InlinePermissions {
        cluster_permissions: Some(vec![]),
        namespaced_permissions: None,
    };
    assert!(empty.cluster_objects("alice", "uid-1").is_none());
}

#[test]
fn cluster_objects_build_one_pair() {
    let decl = InlinePermissions {
        cluster_permissions: Some(vec![perm(&["get"], &["nodes"])]),
        namespaced_permissions: None,
    };
    let (name, role, binding) = decl.cluster_objects("alice", "uid-1").unwrap();
    assert!(name.starts_with("alice-"));
    assert_eq!(role.metadata.name.as_deref(), Some(name.as_str()));
    assert!(role.metadata.namespace.is_none());
    assert_eq!(binding.role_ref.kind, "ClusterRole");
    assert_eq!(binding.role_ref.name, name);
    assert_eq!(binding.subjects[0].name, "alice");
}

#[test]
fn convergence_two_entries_then_one() {
    // Declare {A, B}: their two names are the known set; a leftover from
    // an earlier declaration is deleted, A and B are kept.
    let a = entry("dev", vec![perm(&["get", "list"], &["pods"])]);
    let b = entry("prod", vec![perm(&["get"], &["services"])]);
    let name_a = derived_name("alice", &a.canonical_string());
    let name_b = derived_name("alice", &b.canonical_string());
    let existing = vec![
        role("dev", &name_a),
        role("prod", &name_b),
        role("stage", "alice-4242"),
    ];
    let applied = vec![name_a.clone(), name_b.clone()];
    let doomed = roles_to_delete(&existing, &applied, &vec![]);
    assert_eq!(doomed.len(), 1);
    assert_eq!(doomed[0].namespace, "stage");
    assert_eq!(doomed[0].name, "alice-4242");

    // Shrink the declaration to {A}: B's objects go, A's name is
    // untouched (same content, same hash).
    let name_a_again = derived_name("alice", &a.canonical_string());
    assert_eq!(name_a, name_a_again);
    let existing_after = vec![role("dev", &name_a), role("prod", &name_b)];
    let doomed_after = roles_to_delete(&existing_after, &vec![name_a.clone()], &vec![]);
    assert_eq!(doomed_after.len(), 1);
    assert_eq!(doomed_after[0].name, name_b);
}

#[test]
fn rerun_on_unchanged_declaration_deletes_nothing() {
    let a = entry("dev", vec![perm(&["get", "list"], &["pods"])]);
    let name_a = derived_name("alice", &a.canonical_string());
    let existing = vec![role("dev", &name_a)];
    let doomed = roles_to_delete(&existing, &vec![name_a], &vec![]);
    assert!(doomed.is_empty());
}

#[test]
fn failed_apply_is_never_deleted() {
    // A pre-existing role whose entry failed to re-apply this pass stays
    // in place and is retried next pass; only a role no declared entry
    // accounts for is deleted.
    let existing = vec![role("dev", "alice-1"), role("stage", "alice-4242")];
    let doomed = roles_to_delete(&existing, &vec![], &vec!["alice-1".to_string()]);
    assert_eq!(doomed.len(), 1);
    assert_eq!(doomed[0].name, "alice-4242");
}

#[test]
fn cluster_cleanup_keeps_only_the_applied_name() {
    let existing = vec!["alice-1".to_string(), "alice-2".to_string()];
    let doomed = cluster_roles_to_delete(&existing, &Some("alice-1".to_string()));
    assert_eq!(doomed, vec!["alice-2".to_string()]);
    let doomed_all = cluster_roles_to_delete(&existing, &None);
    assert_eq!(doomed_all, existing);
}

#[test]
fn insert_label_replaces_and_appends() {
    let mut meta = ObjectMeta {
        name: None,
        namespace: None,
        uid: None,
        labels: vec![],
        owner_references: vec![],
    };
    meta.insert_label("k", "v1");
    meta.insert_label("other", "x");
    meta.insert_label("k", "v2");
    assert_eq!(
        meta.labels,
        vec![("k".to_string(), "v2".to_string()), ("other".to_string(), "x".to_string())]
    );
}

#[test]
fn add_owner_appends_a_reference() {
    let mut meta = ObjectMeta {
        name: None,
        namespace: None,
        uid: None,
        labels: vec![],
        owner_references: vec![],
    };
    meta.add_owner("kuo.github.io/v1", "ManagedUser", "alice", "uid-1");
    assert_eq!(meta.owner_references.len(), 1);
    assert_eq!(meta.owner_references[0].controller, None);
    assert_eq!(meta.owner_references[0].block_owner_deletion, Some(false));
}
