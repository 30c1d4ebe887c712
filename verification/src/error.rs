//! The controller's error taxonomy and the requeue policy applied on the
//! error path.

use vstd::prelude::*;

verus! {

/// Everything that can go wrong during a reconcile pass.
///
/// Variants that wrap a `String` carry the underlying collaborator's error
/// text; the reconcilers never inspect that text, only the variant.
#[derive(Debug, Clone)]
pub enum KuoError {
    /// The object is malformed (missing name or UID, or inconsistent
    /// state that a retry cannot repair).
    CannotReconcile(String),
    /// The certificate-signing request carries a "Denied" condition;
    /// a terminal stop, never re-approved.
    CSRDenied,
    /// The cluster root certificate could not be read from its ConfigMap.
    CannotGetRootCert(String),
    /// The kubeconfig document could not be produced.
    CannotGenerateKubeconfig(String),
    /// An I/O failure outside the cluster API.
    StdError(String),
    /// Key or certificate-request generation failed.
    OpensslError(String),
    /// A cluster API request failed.
    KubeError(String),
    /// Bytes that should have been text were not valid UTF-8.
    Utf8Error(String),
    /// The SMTP transport refused the message.
    EmailSMTPError(String),
    /// A declared e-mail address could not be parsed.
    EmailAddressError(String),
    /// The mail message could not be built.
    EmailError(String),
    /// A document could not be serialized or deserialized.
    YAMLError(String),
    /// A user's stored secret is missing its private key.
    InvalidUserSecretData,
}

pub type KuoResult<T> = Result<T, KuoError>;

/// Requeue delay after a reconcile pass failed with a malformed object:
/// long, so the controller does not busy-loop on an object a retry cannot
/// repair.
pub const ERROR_REQUEUE_MALFORMED_SECS: u64 = 300;

/// Requeue delay after any other reconcile failure: short, assuming the
/// condition is transient and self-healing.
pub const ERROR_REQUEUE_TRANSIENT_SECS: u64 = 60;

impl KuoError {
    /// True exactly on the malformed-object error class, which is requeued
    /// on the longer interval.
    pub open spec fn is_malformed(&self) -> bool {
        self is CannotReconcile
    }
}

/// The requeue policy the controller runtime applies when a reconcile pass
/// returns an error: reconcilers never pick their own delay on the error
/// path, only on success paths.
pub fn default_on_error(error: &KuoError) -> (delay_secs: u64)
    ensures
        error.is_malformed() ==> delay_secs == ERROR_REQUEUE_MALFORMED_SECS,
        !error.is_malformed() ==> delay_secs == ERROR_REQUEUE_TRANSIENT_SECS,
{
    match error {
        KuoError::CannotReconcile(_) => ERROR_REQUEUE_MALFORMED_SECS,
        _ => ERROR_REQUEUE_TRANSIENT_SECS,
    }
}

} // verus!
