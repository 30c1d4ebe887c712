//! Rendering the kubeconfig document a provisioned user receives.
//!
//! The document carries a single cluster entry, a single user entry named
//! after the managed user, and a single `default` context tying the two
//! together; certificate and key material is embedded base64-encoded, as
//! kubeconfig convention demands.

use vstd::prelude::*;

verus! {

use vstd::string::StringExecFns;

use crate::managed_user::ManagedUser;
use crate::meta::ObjectMetaKuoExt;

/// What `base64::engine::general_purpose::STANDARD.encode` returns for the
/// UTF-8 bytes of `s`: a function of `s` alone.
pub uninterp spec fn base64_of(s: Seq<char>) -> Seq<char>;

/// Relies on base64's `Engine::encode` with the standard padded alphabet:
/// the result depends on the input bytes alone, and for ASCII input it is
/// four characters for every three bytes, padded.
#[verifier::external_body]
fn base64_encode(s: &str) -> (r: String)
    requires
        s@.len() <= 0x1000_0000,
    ensures
        r@ == base64_of(s@),
        vstd::utf8::is_ascii_chars(s@) ==> r@.len() == 4 * ((s@.len() + 2) / 3),
{
    base64::Engine::encode(&base64::engine::general_purpose::STANDARD, s)
}

/// The name under which the kubeconfig's one cluster entry appears: the
/// configured display name, or `cluster`.
pub open spec fn spec_cluster_label(cluster_name: Option<String>) -> Seq<char> {
    match cluster_name {
        Some(n) => n@,
        None => "cluster"@,
    }
}

/// The rendered kubeconfig: one cluster, one user, one `default` context
/// set as the current context, with CA, client certificate and client key
/// embedded base64-encoded.
pub open spec fn spec_kubeconfig_yaml(
    username: Seq<char>,
    kube_addr: Seq<char>,
    cluster_label: Seq<char>,
    private_key: Seq<char>,
    client_cert: Seq<char>,
    root_cert: Seq<char>,
) -> Seq<char> {
    "apiVersion: v1\nkind: Config\nclusters:\n- name: "@ + cluster_label
        + "\n  cluster:\n    server: "@ + kube_addr + "\n    certificate-authority-data: "@
        + base64_of(root_cert) + "\nusers:\n- name: "@ + username
        + "\n  user:\n    client-certificate-data: "@ + base64_of(client_cert)
        + "\n    client-key-data: "@ + base64_of(private_key) + "\ncontexts:\n- name: default\n  context:\n    cluster: "@
        + cluster_label + "\n    user: "@ + username
        + "\ncurrent-context: default\n"@
}

impl ManagedUser {
    /// Render the kubeconfig for this user.
    pub fn build_kubeconfig(
        &self,
        kube_addr: &str,
        cluster_name: &Option<String>,
        private_key: &str,
        client_cert: &str,
        root_cert: &str,
    ) -> (r: String)
        requires
            private_key@.len() <= 0x1000_0000,
            client_cert@.len() <= 0x1000_0000,
            root_cert@.len() <= 0x1000_0000,
        ensures
            r@ == spec_kubeconfig_yaml(
                self.metadata.view_name_any(),
                kube_addr@,
                spec_cluster_label(*cluster_name),
                private_key@,
                client_cert@,
                root_cert@,
            ),
    {
        let username = self.metadata.name_any();
        let label: &str = match cluster_name {
            Some(n) => n.as_str(),
            None => "cluster",
        };
        let mut out = String::new();
        out.append("apiVersion: v1\nkind: Config\nclusters:\n- name: ");
        out.append(label);
        out.append("\n  cluster:\n    server: ");
        out.append(kube_addr);
        out.append("\n    certificate-authority-data: ");
        let root_b64 = base64_encode(root_cert);
        out.append(root_b64.as_str());
        out.append("\nusers:\n- name: ");
        out.append(username.as_str());
        out.append("\n  user:\n    client-certificate-data: ");
        let cert_b64 = base64_encode(client_cert);
        out.append(cert_b64.as_str());
        out.append("\n    client-key-data: ");
        let key_b64 = base64_encode(private_key);
        out.append(key_b64.as_str());
        out.append("\ncontexts:\n- name: default\n  context:\n    cluster: ");
        out.append(label);
        out.append("\n    user: ");
        out.append(username.as_str());
        out.append("\ncurrent-context: default\n");
        proof {
            assert(out@ =~= spec_kubeconfig_yaml(
                self.metadata.view_name_any(),
                kube_addr@,
                spec_cluster_label(*cluster_name),
                private_key@,
                client_cert@,
                root_cert@,
            ));
        }
        out
    }
}

} // verus!
