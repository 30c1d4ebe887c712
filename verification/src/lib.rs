//! Cluster controller logic for provisioning Kubernetes-native user
//! identities: reconciling managed users, their certificate-signing
//! requests, and the RBAC objects declared inline on them.

pub mod args;
pub mod crypto;
pub mod csr;
pub mod error;
pub mod hash;
pub mod kubeconfig;
pub mod mail;
pub mod managed_user;
pub mod meta;
pub mod permissions;
pub mod rbac;
pub mod sync;
pub mod utils;

use vstd::prelude::*;

verus! {

/// Delay before a successfully handled object is looked at again soon:
/// used right after provisioning, and for orphaned requests.
pub const REQUEUE_SHORT_SECS: u64 = 300;

/// Delay before a terminal or waiting object is looked at again: a
/// periodic re-sync heartbeat.
pub const REQUEUE_LONG_SECS: u64 = 600;

/// A short human-readable identifier for a cluster object, used in log
/// output. Falls back to a fixed placeholder when the object is unnamed.
pub trait UniqueInfo {
    /// The identifier [`Self::unique_info`] returns.
    spec fn spec_unique_info(&self) -> Seq<char>;

    fn unique_info(&self) -> (s: String)
        ensures
            s@ == self.spec_unique_info(),
    ;
}

} // verus!
