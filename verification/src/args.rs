//! The configuration the reconcilers consume, resolved once at process
//! start and passed by reference.

use vstd::prelude::*;

verus! {

/// Where and how to deliver kubeconfigs by mail. Absent configuration
/// switches mail delivery off; it is not an error.
#[derive(Debug, Clone)]
pub struct SMTPArgs {
    /// The SMTP server, as an smtp or smtps URL.
    pub url: String,
    /// The SMTP server port.
    pub port: u16,
    /// User name to authenticate with.
    pub user: String,
    /// Password to authenticate with.
    pub password: String,
    /// Sender address of every delivery.
    pub from_email: String,
    /// Sender display name of every delivery.
    pub from_name: String,
}

/// Where the liveness endpoint listens.
#[derive(Debug, Clone)]
pub struct ServerArgs {
    /// Host to bind to.
    pub host: String,
    /// Port to bind to.
    pub port: u16,
}

/// Everything the operator is configured with.
#[derive(Debug, Clone)]
pub struct OperatorArgs {
    /// The signer that should sign every certificate request this
    /// controller files.
    pub signer_name: String,
    /// The cluster API address embedded in rendered kubeconfigs.
    pub kube_addr: String,
    /// Name of the ConfigMap holding the cluster root certificate.
    pub default_cert_name: String,
    /// Key under which that ConfigMap holds the certificate.
    pub default_cert_key: String,
    /// Optional display name for the cluster entry in rendered
    /// kubeconfigs.
    pub cluster_name: Option<String>,
    /// Mail delivery configuration, if any.
    pub smtp_args: Option<SMTPArgs>,
    /// Liveness endpoint configuration.
    pub server: ServerArgs,
}

} // verus!
