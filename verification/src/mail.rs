//! The mail-delivery decision: whether a freshly rendered kubeconfig is
//! mailed, and with exactly what content.
//!
//! Delivery is an optional subsystem: with no SMTP configuration, or no
//! declared address, the whole send is skipped and the reconcile pass
//! still succeeds.

use vstd::prelude::*;

verus! {

use vstd::string::StringExecFns;

use crate::args::SMTPArgs;
use crate::managed_user::ManagedUser;
use crate::meta::ObjectMetaKuoExt;

/// One mail to hand to the SMTP transport.
#[derive(Debug, Clone)]
pub struct MailMessage {
    pub from_name: String,
    pub from_email: String,
    pub to_name: Option<String>,
    pub to_email: String,
    pub subject: String,
    pub body_html: String,
    pub attachment_name: String,
    pub attachment_body: String,
}

/// The HTML body of a delivery for `username`.
pub open spec fn spec_mail_body(username: Seq<char>) -> Seq<char> {
    "Hello, <b>"@ + username
        + "</b>! You've been added to the Kubernetes cluster. Please download the kubeconfig."@
}

/// The fixed subject line of every delivery.
pub open spec fn mail_subject() -> Seq<char> {
    "You've beed added to the Kubernetes cluster!"@
}

impl ManagedUser {
    /// Decide the delivery for this user's kubeconfig: skipped (with the
    /// pass still succeeding) when no address is declared or no transport
    /// is configured, otherwise exactly one message carrying the
    /// kubeconfig as an attachment.
    pub fn kubeconfig_mail(&self, smtp: &Option<SMTPArgs>, kubeconfig: &str) -> (r: Option<
        MailMessage,
    >)
        ensures
            self.spec.email is None ==> r is None,
            smtp is None ==> r is None,
            self.spec.email matches Some(email) ==> smtp matches Some(cfg) ==> {
                &&& r matches Some(m)
                &&& m.from_name@ == cfg.from_name@
                &&& m.from_email@ == cfg.from_email@
                &&& match m.to_name {
                    Some(n) => self.spec.full_name matches Some(f) && f@ == n@,
                    None => self.spec.full_name is None,
                }
                &&& m.to_email@ == email@
                &&& m.subject@ == mail_subject()
                &&& m.body_html@ == spec_mail_body(self.metadata.view_name_any())
                &&& m.attachment_name@ == "kubeconfig.yaml"@
                &&& m.attachment_body@ == kubeconfig@
            },
    {
        let Some(email) = &self.spec.email else { return None };
        let Some(cfg) = smtp else { return None };
        let username = self.metadata.name_any();
        let mut body = String::new();
        body.append("Hello, <b>");
        body.append(username.as_str());
        body.append(
            "</b>! You've been added to the Kubernetes cluster. Please download the kubeconfig.",
        );
        let to_name = match &self.spec.full_name {
            Some(f) => Some(f.clone()),
            None => None,
        };
        Some(
            MailMessage {
                from_name: cfg.from_name.clone(),
                from_email: cfg.from_email.clone(),
                to_name,
                to_email: email.clone(),
                subject: "You've beed added to the Kubernetes cluster!".to_owned(),
                body_html: body,
                attachment_name: "kubeconfig.yaml".to_owned(),
                attachment_body: kubeconfig.to_owned(),
            },
        )
    }
}

} // verus!
