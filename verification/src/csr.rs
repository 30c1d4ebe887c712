//! The certificate-signing-request lifecycle.
//!
//! A request is created by the managed-user reconciler, approved here,
//! signed by the external signer (never by this controller), consumed into
//! the user's secret and kubeconfig, and finally deleted. The explicit
//! phases, in the order they are decided, are: consumed (the secret
//! already holds certificate and kubeconfig), denied (a terminal stop),
//! signed (the status carries the issued certificate), approved (waiting
//! for the signer), and unsigned (approval still owed). Condition checks
//! come before any reading of `status.certificate`, so a denied request is
//! never treated as signed.

use vstd::prelude::*;

verus! {

use vstd::string::StringExecFns;

use crate::UniqueInfo;
use crate::args::OperatorArgs;
use crate::error::KuoError;
use crate::kubeconfig::{spec_cluster_label, spec_kubeconfig_yaml};
use crate::mail::{MailMessage, mail_subject, spec_mail_body};
use crate::managed_user::{
    ManagedUser, ManagedUserSecretData, Secret, managed_user_api_version, managed_user_kind,
    secret_entries, entries_view, spec_secret_name,
};
use crate::meta::{ObjectMeta, ObjectMetaKuoExt};
use crate::REQUEUE_LONG_SECS;

/// One entry of a request's approval-condition list.
#[derive(Debug, Clone)]
pub struct CertificateSigningRequestCondition {
    pub type_: String,
    pub status: String,
    pub reason: Option<String>,
    pub message: Option<String>,
    pub last_update_time: Option<String>,
    pub last_transition_time: Option<String>,
}

/// What a request asks for.
#[derive(Debug, Clone)]
pub struct CertificateSigningRequestSpec {
    /// The PEM certificate request.
    pub request: String,
    /// The signer expected to sign it.
    pub signer_name: String,
    /// The key usages requested.
    pub usages: Vec<String>,
}

/// The server-side state of a request.
#[derive(Debug, Clone)]
pub struct CertificateSigningRequestStatus {
    pub conditions: Option<Vec<CertificateSigningRequestCondition>>,
    /// The issued certificate, populated by the external signer.
    pub certificate: Option<String>,
}

/// A certificate-signing request as read from the cluster.
#[derive(Debug, Clone)]
pub struct CertificateSigningRequest {
    pub metadata: ObjectMeta,
    pub spec: CertificateSigningRequestSpec,
    pub status: Option<CertificateSigningRequestStatus>,
}

impl UniqueInfo for CertificateSigningRequest {
    open spec fn spec_unique_info(&self) -> Seq<char> {
        match self.metadata.name {
            Some(n) => n@,
            None => "Unknown"@,
        }
    }

    fn unique_info(&self) -> (s: String) {
        match &self.metadata.name {
            Some(n) => n.clone(),
            None => "Unknown".to_owned(),
        }
    }
}

/// The condition list a request carries, empty when none is set.
pub open spec fn spec_conditions(csr: CertificateSigningRequest) -> Seq<
    CertificateSigningRequestCondition,
> {
    match csr.status {
        None => Seq::empty(),
        Some(st) => match st.conditions {
            None => Seq::empty(),
            Some(cs) => cs@,
        },
    }
}

/// The issued certificate a request carries, if any.
pub open spec fn spec_certificate(csr: CertificateSigningRequest) -> Option<Seq<char>> {
    match csr.status {
        None => None,
        Some(st) => match st.certificate {
            None => None,
            Some(c) => Some(c@),
        },
    }
}

/// True when some condition of the list has the given type.
pub open spec fn has_condition(
    conds: Seq<CertificateSigningRequestCondition>,
    t: Seq<char>,
) -> bool {
    exists|i: int| 0 <= i < conds.len() && conds[i].type_@ == t
}

/// A "Denied" condition anywhere in the list: a terminal stop, whatever
/// else the list holds.
pub open spec fn has_denied(conds: Seq<CertificateSigningRequestCondition>) -> bool {
    has_condition(conds, "Denied"@)
}

/// An "Approved" condition anywhere in the list.
pub open spec fn has_approved(conds: Seq<CertificateSigningRequestCondition>) -> bool {
    has_condition(conds, "Approved"@)
}

/// What the condition list decides: denied wins over approved wherever
/// the two appear in the list, and neither leaves the request unsigned.
pub open spec fn condition_decision(
    conds: Seq<CertificateSigningRequestCondition>,
) -> Option<bool> {
    if has_denied(conds) {
        Some(false)
    } else if has_approved(conds) {
        Some(true)
    } else {
        None
    }
}

/// The condition this controller appends when it approves a request.
pub open spec fn is_approve_condition(
    c: CertificateSigningRequestCondition,
    now: Seq<char>,
) -> bool {
    &&& c.type_@ == "Approved"@
    &&& c.status@ == "True"@
    &&& c.reason matches Some(r) && r@ == "Kuo generated request aprroved"@
    &&& c.message matches Some(m) && m@ == "Certificate request approved by kuo"@
    &&& c.last_update_time matches Some(t) && t@ == now
    &&& c.last_transition_time is None
}

/// The explicit phases of a request's lifecycle.
#[derive(Debug, Clone, Copy, PartialEq, Eq, Structural)]
pub enum CsrPhase {
    /// The secret already holds certificate and kubeconfig: nothing left
    /// but deleting the lingering request.
    Consumed,
    /// A "Denied" condition is present: terminal, never re-approved.
    Denied,
    /// The status carries the issued certificate.
    Signed,
    /// An "Approved" condition is present; the signer has not signed yet.
    Approved,
    /// Approval is still owed.
    Unsigned,
}

/// Classify a request against its owner's secret. The denied check comes
/// before any reading of the issued certificate or of the approval state,
/// so a request carrying a "Denied" condition is never treated as signed.
pub open spec fn spec_csr_phase(
    csr: CertificateSigningRequest,
    secret: ManagedUserSecretData,
) -> CsrPhase {
    if secret.cert is Some && secret.kubeconfig is Some {
        CsrPhase::Consumed
    } else if has_denied(spec_conditions(csr)) {
        CsrPhase::Denied
    } else if spec_certificate(csr) is Some {
        CsrPhase::Signed
    } else if has_approved(spec_conditions(csr)) {
        CsrPhase::Approved
    } else {
        CsrPhase::Unsigned
    }
}

/// Build the condition recorded on approval.
fn approve_condition(now: &str) -> (c: CertificateSigningRequestCondition)
    ensures
        is_approve_condition(c, now@),
{
    CertificateSigningRequestCondition {
        type_: "Approved".to_owned(),
        status: "True".to_owned(),
        reason: Some("Kuo generated request aprroved".to_owned()),
        message: Some("Certificate request approved by kuo".to_owned()),
        last_update_time: Some(now.to_owned()),
        last_transition_time: None,
    }
}

/// Scan the whole condition list: a "Denied" entry anywhere decides,
/// otherwise an "Approved" entry anywhere, otherwise nothing.
fn scan_decision(conds: &Vec<CertificateSigningRequestCondition>) -> (d: Option<bool>)
    ensures
        d == condition_decision(conds@),
{
    let approved_s = "Approved".to_owned();
    let denied_s = "Denied".to_owned();
    let mut saw_approved = false;
    let mut i: usize = 0;
    while i < conds.len()
        invariant
            i <= conds@.len(),
            approved_s@ == "Approved"@,
            denied_s@ == "Denied"@,
            forall|j: int| 0 <= j < i ==> conds@[j].type_@ != "Denied"@,
            saw_approved <==> exists|j: int| 0 <= j < i && conds@[j].type_@ == "Approved"@,
        decreases conds@.len() - i,
    {
        if conds[i].type_ == denied_s {
            assert(has_denied(conds@)) by {
                assert(conds@[i as int].type_@ == "Denied"@);
            }
            return Some(false);
        }
        if conds[i].type_ == approved_s {
            saw_approved = true;
            assert(conds@[i as int].type_@ == "Approved"@);
        }
        i = i + 1;
    }
    assert(!has_denied(conds@));
    if saw_approved {
        assert(has_approved(conds@));
        Some(true)
    } else {
        assert(!has_approved(conds@));
        None
    }
}

/// Ensure an "Approved" condition is present.
///
/// A request carrying a "Denied" condition anywhere is left untouched and
/// fails with `CSRDenied` — a denied request never transitions to
/// approved. One already approved is left untouched. Otherwise the
/// approval condition is appended, leaving everything else (the issued
/// certificate included) as it was.
pub fn add_condition_if_needed(csr: &mut CertificateSigningRequest, now: &str) -> (r: Result<
    (),
    KuoError,
>)
    ensures
        final(csr).metadata == old(csr).metadata,
        final(csr).spec == old(csr).spec,
        spec_certificate(*final(csr)) == spec_certificate(*old(csr)),
        match r {
            Ok(_) => {
                &&& !has_denied(spec_conditions(*old(csr)))
                &&& if has_approved(spec_conditions(*old(csr))) {
                    *final(csr) == *old(csr)
                } else {
                    &&& spec_conditions(*final(csr)).len() == spec_conditions(*old(csr)).len() + 1
                    &&& spec_conditions(*final(csr)).drop_last() == spec_conditions(*old(csr))
                    &&& is_approve_condition(spec_conditions(*final(csr)).last(), now@)
                }
            },
            Err(e) => {
                &&& e is CSRDenied
                &&& has_denied(spec_conditions(*old(csr)))
                &&& *final(csr) == *old(csr)
            },
        },
{
    let approve = approve_condition(now);
    let status_opt = csr.status.take();
    match status_opt {
        None => {
            csr.status = Some(
                CertificateSigningRequestStatus {
                    conditions: Some(vec![approve]),
                    certificate: None,
                },
            );
            proof {
                assert(spec_conditions(*csr).drop_last() =~= spec_conditions(*old(csr)));
            }
            Ok(())
        },
        Some(st) => {
            let CertificateSigningRequestStatus { conditions, certificate } = st;
            match conditions {
                None => {
                    csr.status = Some(
                        CertificateSigningRequestStatus {
                            conditions: Some(vec![approve]),
                            certificate,
                        },
                    );
                    proof {
                        assert(spec_conditions(*csr).drop_last() =~= spec_conditions(*old(csr)));
                    }
                    Ok(())
                },
                Some(mut conds) => {
                    let decision = scan_decision(&conds);
                    match decision {
                        Some(true) => {
                            csr.status = Some(
                                CertificateSigningRequestStatus {
                                    conditions: Some(conds),
                                    certificate,
                                },
                            );
                            Ok(())
                        },
                        Some(false) => {
                            csr.status = Some(
                                CertificateSigningRequestStatus {
                                    conditions: Some(conds),
                                    certificate,
                                },
                            );
                            Err(KuoError::CSRDenied)
                        },
                        None => {
                            conds.push(approve);
                            csr.status = Some(
                                CertificateSigningRequestStatus {
                                    conditions: Some(conds),
                                    certificate,
                                },
                            );
                            proof {
                                assert(spec_conditions(*csr).drop_last() =~= spec_conditions(
                                    *old(csr),
                                ));
                            }
                            Ok(())
                        },
                    }
                },
            }
        },
    }
}

/// The first step of a pass over a request: reject an unnamed object, and
/// read the authoritative owner off the first owner reference. An owner-
/// less request is an orphan (likely a race with user deletion): skipped,
/// to be looked at again after a short requeue.
pub fn csr_owner(csr: &CertificateSigningRequest) -> (r: Result<Option<String>, KuoError>)
    ensures
        match r {
            Ok(o) => {
                &&& csr.metadata.name is Some
                &&& match o {
                    Some(n) => csr.metadata.owner_references@.len() > 0 && n@
                        == csr.metadata.owner_references@[0].name@,
                    None => csr.metadata.owner_references@.len() == 0,
                }
            },
            Err(e) => {
                &&& csr.metadata.name is None
                &&& e matches KuoError::CannotReconcile(m) && m@ == "CSR metadata has no name"@
            },
        },
{
    if csr.metadata.name.is_none() {
        return Err(KuoError::CannotReconcile("CSR metadata has no name".to_owned()));
    }
    if csr.metadata.owner_references.len() == 0 {
        return Ok(None);
    }
    Ok(Some(csr.metadata.owner_references[0].name.clone()))
}

/// What a pass over a request decides, once its owner's secret is at hand.
#[derive(Debug)]
pub enum CsrStep {
    /// The secret is complete; the lingering request can only await its
    /// deletion. Look again after the long requeue.
    Done { seconds: u64 },
    /// The request is signed: fetch the root certificate and consume the
    /// issued certificate into the secret.
    Complete { certificate: String },
    /// Approval was owed: submit this updated request through the
    /// approval sub-resource, then await the signer.
    SubmitApproval { csr: CertificateSigningRequest, seconds: u64 },
    /// Already approved: nothing to do until the signer acts.
    Wait { seconds: u64 },
}

/// Decide one pass over a request, given its owner's decoded secret
/// (`None` when the owner has no secret at all — state this controller
/// never produces, so the pass cannot proceed).
///
/// The decision follows the phase exactly: consumed requests requeue
/// long; denied requests surface `CSRDenied` and are never approved;
/// signed requests are consumed; approved requests wait; unsigned
/// requests get the approval condition appended, everything else
/// untouched.
pub fn reconcile_csr(
    csr: CertificateSigningRequest,
    users_secret: Option<ManagedUserSecretData>,
    now: &str,
) -> (r: Result<CsrStep, KuoError>)
    ensures
        match users_secret {
            None => r matches Err(e) && e matches KuoError::CannotReconcile(m) && m@
                == "User doesn't have a secret key."@,
            Some(secret) => match spec_csr_phase(csr, secret) {
                CsrPhase::Consumed => r matches Ok(s) && s matches CsrStep::Done { seconds }
                    && seconds == REQUEUE_LONG_SECS,
                CsrPhase::Denied => r matches Err(e) && e is CSRDenied,
                CsrPhase::Signed => r matches Ok(s) && (s matches CsrStep::Complete { certificate }
                    && Some(certificate@) == spec_certificate(csr)),
                CsrPhase::Approved => r matches Ok(s) && s matches CsrStep::Wait { seconds }
                    && seconds == REQUEUE_LONG_SECS,
                CsrPhase::Unsigned => r matches Ok(s) && (s matches CsrStep::SubmitApproval {
                    csr: updated,
                    seconds,
                } && {
                    &&& seconds == REQUEUE_LONG_SECS
                    &&& updated.metadata == csr.metadata
                    &&& updated.spec == csr.spec
                    &&& spec_certificate(updated) == spec_certificate(csr)
                    &&& spec_conditions(updated).len() == spec_conditions(csr).len() + 1
                    &&& spec_conditions(updated).drop_last() == spec_conditions(csr)
                    &&& is_approve_condition(spec_conditions(updated).last(), now@)
                }),
            },
        },
{
    let Some(secret) = users_secret else {
        return Err(KuoError::CannotReconcile("User doesn't have a secret key.".to_owned()));
    };
    if secret.cert.is_some() && secret.kubeconfig.is_some() {
        return Ok(CsrStep::Done { seconds: REQUEUE_LONG_SECS });
    }
    let decision: Option<bool> = match &csr.status {
        Some(st) => match &st.conditions {
            Some(cs) => scan_decision(cs),
            None => None,
        },
        None => None,
    };
    if let Some(d) = decision {
        if !d {
            return Err(KuoError::CSRDenied);
        }
    }
    let signed = match &csr.status {
        Some(st) => st.certificate.is_some(),
        None => false,
    };
    if signed {
        let st = csr.status.unwrap();
        let certificate = st.certificate.unwrap();
        return Ok(CsrStep::Complete { certificate });
    }
    if let Some(d) = decision {
        if d {
            return Ok(CsrStep::Wait { seconds: REQUEUE_LONG_SECS });
        }
    }
    let mut updated = csr;
    match add_condition_if_needed(&mut updated, now) {
        Ok(_) => Ok(CsrStep::SubmitApproval { csr: updated, seconds: REQUEUE_LONG_SECS }),
        Err(e) => Err(e),
    }
}

/// State-machine safety: a request carrying a "Denied" condition is in the
/// denied phase whenever its work is not already consumed — and the denied
/// phase, by [`reconcile_csr`]'s contract, always surfaces `CSRDenied` and
/// never reaches the one step that appends an "Approved" condition (taken
/// only from the unsigned phase).
pub proof fn lemma_denied_never_approved(
    csr: CertificateSigningRequest,
    secret: ManagedUserSecretData,
)
    requires
        has_denied(spec_conditions(csr)),
    ensures
        spec_csr_phase(csr, secret) is Denied || spec_csr_phase(csr, secret) is Consumed,
        !(secret.cert is Some && secret.kubeconfig is Some) ==> spec_csr_phase(csr, secret)
            is Denied,
        spec_csr_phase(csr, secret) !is Unsigned,
{
}

/// The label key marking every child object this controller creates.
pub open spec fn managed_by_label_key() -> Seq<char> {
    "app.kubernetes.io/managed-by"@
}

/// The value under the managed-by label: this operator.
pub open spec fn managed_by_label_value() -> Seq<char> {
    "kuo-operator"@
}

/// The deterministic name of a user's certificate request:
/// `kuo-<username>`.
pub open spec fn spec_csr_name(username: Seq<char>) -> Seq<char> {
    "kuo-"@ + username
}

/// Exec counterpart of [`spec_csr_name`].
pub fn csr_name(username: &str) -> (n: String)
    ensures
        n@ == spec_csr_name(username@),
{
    let mut out = "kuo-".to_owned();
    out.append(username);
    out
}

/// The key usages every request this controller files asks for.
pub open spec fn spec_csr_usages(usages: Seq<String>) -> bool {
    &&& usages.len() == 3
    &&& usages[0]@ == "digital signature"@
    &&& usages[1]@ == "key encipherment"@
    &&& usages[2]@ == "client auth"@
}

/// Build the certificate-request object to file for a user: named
/// `kuo-<username>`, marked managed-by this operator, owned by the user,
/// carrying the PEM request, the configured signer, and the fixed usages
/// (digital signature, key encipherment, client auth), with no status.
pub fn create_kube_csr(
    user: &ManagedUser,
    request_pem: String,
    name: &str,
    signer_name: &str,
) -> (csr: CertificateSigningRequest)
    requires
        user.identified(),
    ensures
        csr.metadata.name matches Some(n) && n@ == name@,
        csr.metadata.namespace is None,
        crate::meta::has_label(
            csr.metadata.labels@,
            managed_by_label_key(),
            managed_by_label_value(),
        ),
        csr.metadata.owner_references@.len() == 1,
        csr.metadata.owner_references@[0].points_at(
            managed_user_api_version(),
            managed_user_kind(),
            user.metadata.view_name_any(),
            user.metadata.uid->Some_0@,
        ),
        csr.spec.request == request_pem,
        csr.spec.signer_name@ == signer_name@,
        spec_csr_usages(csr.spec.usages@),
        csr.status is None,
{
    let username = user.name_any();
    let mut meta = crate::meta::empty_meta();
    meta.insert_label("app.kubernetes.io/managed-by", "kuo-operator");
    meta.add_owner(
        crate::managed_user::managed_user_api_version_str(),
        crate::managed_user::managed_user_kind_str(),
        username.as_str(),
        user.metadata.uid.as_ref().unwrap().as_str(),
    );
    meta.name = Some(name.to_owned());
    CertificateSigningRequest {
        metadata: meta,
        spec: CertificateSigningRequestSpec {
            request: request_pem,
            signer_name: signer_name.to_owned(),
            usages: vec![
                "digital signature".to_owned(),
                "key encipherment".to_owned(),
                "client auth".to_owned(),
            ],
        },
        status: None,
    }
}

/// Everything the consumption of a signed request produces.
#[derive(Debug)]
pub struct CsrCompletion {
    /// The updated per-user record: key unchanged, certificate and
    /// kubeconfig now both set.
    pub data: ManagedUserSecretData,
    /// The Secret object to write back, before anything else happens.
    pub secret_object: Secret,
    /// The delivery to attempt once the secret is durably written; its
    /// failure is logged and must not undo the write or the deletion of
    /// the consumed request.
    pub mail: Option<MailMessage>,
    /// Delay before the next look.
    pub seconds: u64,
}

/// Consume a signed request: decode nothing, render the kubeconfig over
/// the cluster address, root certificate, issued certificate and stored
/// key, set certificate and kubeconfig together on the record (the key
/// unchanged), and plan the optional mail delivery.
pub fn complete_csr(
    user: &ManagedUser,
    users_secret: ManagedUserSecretData,
    certificate: String,
    root_cert: &str,
    args: &OperatorArgs,
) -> (r: CsrCompletion)
    requires
        user.identified(),
        users_secret.pkey@.len() <= 0x1000_0000,
        certificate@.len() <= 0x1000_0000,
        root_cert@.len() <= 0x1000_0000,
    ensures
        r.data.pkey == users_secret.pkey,
        r.data.cert matches Some(c) && c == certificate,
        r.data.kubeconfig matches Some(k) && k@ == spec_kubeconfig_yaml(
            user.metadata.view_name_any(),
            args.kube_addr@,
            spec_cluster_label(args.cluster_name),
            users_secret.pkey@,
            certificate@,
            root_cert@,
        ),
        r.secret_object.metadata.name matches Some(n) && n@ == spec_secret_name(
            user.metadata.view_name_any(),
        ),
        r.secret_object.metadata.owner_references@.len() == 1,
        r.secret_object.metadata.owner_references@[0].points_at(
            managed_user_api_version(),
            managed_user_kind(),
            user.metadata.view_name_any(),
            user.metadata.uid->Some_0@,
        ),
        entries_view(r.secret_object.data@) == secret_entries(r.data),
        match r.mail {
            None => user.spec.email is None || args.smtp_args is None,
            Some(m) => {
                &&& user.spec.email matches Some(e) && m.to_email@ == e@
                &&& args.smtp_args matches Some(cfg) && m.from_name@ == cfg.from_name@
                    && m.from_email@ == cfg.from_email@
                &&& m.subject@ == mail_subject()
                &&& m.body_html@ == spec_mail_body(user.metadata.view_name_any())
                &&& m.attachment_name@ == "kubeconfig.yaml"@
                &&& m.attachment_body@ == (r.data.kubeconfig->Some_0)@
            },
        },
        r.seconds == REQUEUE_LONG_SECS,
{
    let kubeconfig = user.build_kubeconfig(
        args.kube_addr.as_str(),
        &args.cluster_name,
        users_secret.pkey.as_str(),
        certificate.as_str(),
        root_cert,
    );
    let mail = user.kubeconfig_mail(&args.smtp_args, kubeconfig.as_str());
    let data = ManagedUserSecretData {
        pkey: users_secret.pkey,
        cert: Some(certificate),
        kubeconfig: Some(kubeconfig),
    };
    let secret_object = user.set_secret(&data);
    CsrCompletion { data, secret_object, mail, seconds: REQUEUE_LONG_SECS }
}

} // verus!
