use kuo::hash::{fnv1a_hash, u64_to_dec};
use kuo::managed_user::ManagedUserSecretData;
use kuo::permissions::{NamespacedPermissions, Permission, derived_name};

fn perm(verbs: &[&str], resources: &[&str]) -> Permission {
    Permission {
        api_groups: None,
        resources: Some(resources.iter().map(|s| s.to_string()).collect()),
        resource_names: None,
        non_resource_urls: None,
        verbs: verbs.iter().map(|s| s.to_string()).collect(),
    }
}

fn entry(namespace: &str, permissions: Vec<Permission>) -> NamespacedPermissions {
    NamespacedPermissions { namespace: namespace.to_string(), permissions }
}

#[test]
fn fnv1a_known_vectors() {
    assert_eq!(fnv1a_hash(""), 0xcbf29ce484222325);
    assert_eq!(fnv1a_hash("a"), 0xaf63dc4c8601ec8c);
}

#[test]
fn u64_to_dec_renders_decimal() {
    assert_eq!(u64_to_dec(0), "0");
    assert_eq!(u64_to_dec(7), "7");
    assert_eq!(u64_to_dec(1234567890), "1234567890");
    assert_eq!(u64_to_dec(u64::MAX), "18446744073709551615");
}

#[test]
fn derived_name_embeds_content_hash() {
    let canonical = "3:dev1[n s1[4:pods n n 2[3:get4:list";
    let h = fnv1a_hash(canonical);
    assert_eq!(derived_name("alice", canonical), format!("alice-{h}"));
}

#[test]
fn equal_content_same_canonical_text_and_name() {
    let a = entry("dev", vec![perm(&["get", "list"], &["pods"])]);
    let b = entry("dev", vec![perm(&["get", "list"], &["pods"])]);
    assert_eq!(a.canonical_string(), b.canonical_string());
    assert_eq!(
        derived_name("alice", &a.canonical_string()),
        derived_name("alice", &b.canonical_string())
    );
}

#[test]
fn distinct_content_distinct_canonical_text() {
    let a = entry("dev", vec![perm(&["get", "list"], &["pods"])]);
    let b = entry("dev", vec![perm(&["get"], &["pods"])]);
    let c = entry("prod", vec![perm(&["get", "list"], &["pods"])]);
    assert_ne!(a.canonical_string(), b.canonical_string());
    assert_ne!(a.canonical_string(), c.canonical_string());
    assert_ne!(
        derived_name("alice", &a.canonical_string()),
        derived_name("alice", &b.canonical_string())
    );
}

#[test]
fn canonical_text_separates_field_boundaries() {
    // One verb "ab" against two verbs "a", "b": the length prefixes keep
    // the encodings apart.
    let one = entry("n", vec![perm(&["ab"], &[])]);
    let two = entry("n", vec![perm(&["a", "b"], &[])]);
    assert_ne!(one.canonical_string(), two.canonical_string());
}

#[test]
fn secret_data_round_trips_through_entries() {
    let full = ManagedUserSecretData {
        pkey: "PEMKEY".to_string(),
        cert: Some("PEMCERT".to_string()),
        kubeconfig: Some("YAML".to_string()),
    };
    let entries = full.to_entries();
    assert_eq!(
        entries,
        vec![
            ("cert".to_string(), "PEMCERT".to_string()),
            ("kubeconfig".to_string(), "YAML".to_string()),
            ("pkey".to_string(), "PEMKEY".to_string()),
        ]
    );
    let back = ManagedUserSecretData::try_from_entries(&entries).unwrap();
    assert_eq!(back.pkey, "PEMKEY");
    assert_eq!(back.cert.as_deref(), Some("PEMCERT"));
    assert_eq!(back.kubeconfig.as_deref(), Some("YAML"));
}

#[test]
fn secret_data_key_only() {
    let fresh = ManagedUserSecretData { pkey: "K".to_string(), cert: None, kubeconfig: None };
    let entries = fresh.to_entries();
    assert_eq!(entries, vec![("pkey".to_string(), "K".to_string())]);
    let back = ManagedUserSecretData::try_from_entries(&entries).unwrap();
    assert_eq!(back.pkey, "K");
    assert!(back.cert.is_none());
    assert!(back.kubeconfig.is_none());
}

#[test]
fn secret_data_without_key_is_invalid() {
    let entries = vec![("cert".to_string(), "C".to_string())];
    let err = ManagedUserSecretData::try_from_entries(&entries).unwrap_err();
    assert!(matches!(err, kuo::error::KuoError::InvalidUserSecretData));
}
