//! The managed-user resource: the declared intent this controller acts on,
//! and the per-user secret that is the only state it maintains.

use vstd::prelude::*;

verus! {

use vstd::string::StrSliceExecFns;
use vstd::string::StringExecFns;

use crate::error::KuoError;
use crate::meta::{ObjectMeta, ObjectMetaKuoExt, empty_meta};
use crate::permissions::InlinePermissions;

/// The API version every managed user carries.
pub open spec fn managed_user_api_version() -> Seq<char> {
    "kuo.github.io/v1"@
}

/// The kind every managed user carries.
pub open spec fn managed_user_kind() -> Seq<char> {
    "ManagedUser"@
}

/// Exec counterpart of [`managed_user_api_version`].
pub fn managed_user_api_version_str() -> (s: &'static str)
    ensures
        s@ == managed_user_api_version(),
{
    "kuo.github.io/v1"
}

/// Exec counterpart of [`managed_user_kind`].
pub fn managed_user_kind_str() -> (s: &'static str)
    ensures
        s@ == managed_user_kind(),
{
    "ManagedUser"
}

/// What an operator declares for one user.
#[derive(Debug, Clone)]
pub struct ManagedUserCRD {
    /// Where to send the kubeconfig. Immutable once set (enforced by the
    /// cluster's validation rule on the served schema).
    pub email: Option<String>,
    /// The user's full name, used in the delivery mail.
    pub full_name: Option<String>,
    /// RBAC grants declared directly on the user.
    pub inline_permissions: Option<InlinePermissions>,
}

/// A managed-user object as read from the cluster.
#[derive(Debug, Clone)]
pub struct ManagedUser {
    pub metadata: ObjectMeta,
    pub spec: ManagedUserCRD,
}

impl ManagedUser {
    /// The entry guard every reconcile pass enforces: the object carries a
    /// name and a UID.
    pub open spec fn identified(&self) -> bool {
        self.metadata.name is Some && self.metadata.uid is Some
    }

    /// The carried name, or the empty string when unnamed.
    pub fn name_any(&self) -> (n: String)
        ensures
            n@ == self.metadata.view_name_any(),
    {
        self.metadata.name_any()
    }
}

/// The state kept per user in a cluster Secret, keyed `pkey`, `cert`,
/// `kubeconfig`.
///
/// Its invariant over time (maintained by the reconcilers, not expressible
/// on one value): `pkey` is written once and never changes; `cert` and
/// `kubeconfig` are written together, exactly once, when the owning
/// certificate request is signed.
#[derive(Debug, Clone)]
pub struct ManagedUserSecretData {
    /// The client's private key in PEM form; present from first
    /// provisioning on.
    pub pkey: String,
    /// The issued client certificate, once signed.
    pub cert: Option<String>,
    /// The rendered kubeconfig, set together with `cert`.
    pub kubeconfig: Option<String>,
}

impl Default for ManagedUserSecretData {
    /// An empty record: no key material at all.
    fn default() -> (d: Self)
        ensures
            d.pkey@ == Seq::<char>::empty(),
            d.cert is None,
            d.kubeconfig is None,
    {
        ManagedUserSecretData { pkey: String::new(), cert: None, kubeconfig: None }
    }
}

/// The first value bound to `key` in `entries`, if any.
pub open spec fn spec_lookup(entries: Seq<(String, String)>, key: Seq<char>) -> Option<Seq<char>>
    decreases entries.len(),
{
    if entries.len() == 0 {
        None
    } else if entries[0].0@ == key {
        Some(entries[0].1@)
    } else {
        spec_lookup(entries.drop_first(), key)
    }
}

/// The key/value entries a secret's data map holds for this record, in
/// the map's key order: `cert`, `kubeconfig`, `pkey`.
pub open spec fn secret_entries(d: ManagedUserSecretData) -> Seq<(Seq<char>, Seq<char>)> {
    (match d.cert {
        Some(c) => seq![("cert"@, c@)],
        None => Seq::empty(),
    }) + (match d.kubeconfig {
        Some(k) => seq![("kubeconfig"@, k@)],
        None => Seq::empty(),
    }) + seq![("pkey"@, d.pkey@)]
}

/// The views of a list of key/value entries.
pub open spec fn entries_view(entries: Seq<(String, String)>) -> Seq<(Seq<char>, Seq<char>)> {
    entries.map_values(|e: (String, String)| (e.0@, e.1@))
}

/// The first value bound to `key`, over entry views.
pub open spec fn spec_lookup_pairs(
    entries: Seq<(Seq<char>, Seq<char>)>,
    key: Seq<char>,
) -> Option<Seq<char>>
    decreases entries.len(),
{
    if entries.len() == 0 {
        None
    } else if entries[0].0 == key {
        Some(entries[0].1)
    } else {
        spec_lookup_pairs(entries.drop_first(), key)
    }
}

/// Looking a key up in a list of entries is the same as looking it up in
/// their views.
pub proof fn lemma_lookup_matches_view(entries: Seq<(String, String)>, key: Seq<char>)
    ensures
        spec_lookup(entries, key) == spec_lookup_pairs(entries_view(entries), key),
    decreases entries.len(),
{
    if entries.len() > 0 {
        lemma_lookup_matches_view(entries.drop_first(), key);
        assert(entries_view(entries).drop_first() =~= entries_view(entries.drop_first()));
        assert(entries_view(entries)[0] == (entries[0].0@, entries[0].1@));
    }
}

/// Decoding inverts encoding: a stored data map holding exactly a record's
/// entries binds precisely the record's fields — so, by
/// [`ManagedUserSecretData::try_from_entries`]'s contract, the record
/// written by [`ManagedUserSecretData::to_entries`] is read back with the
/// same content.
pub proof fn lemma_secret_entries_decode(d: ManagedUserSecretData, entries: Seq<(String, String)>)
    requires
        entries_view(entries) == secret_entries(d),
    ensures
        spec_lookup(entries, "pkey"@) == Some(d.pkey@),
        spec_lookup(entries, "cert"@) == match d.cert {
            Some(c) => Some(c@),
            None => None::<Seq<char>>,
        },
        spec_lookup(entries, "kubeconfig"@) == match d.kubeconfig {
            Some(k) => Some(k@),
            None => None::<Seq<char>>,
        },
{
    reveal_strlit("pkey");
    reveal_strlit("cert");
    reveal_strlit("kubeconfig");
    reveal_with_fuel(spec_lookup_pairs, 4);
    assert("cert"@ != "pkey"@) by {
        assert("cert"@[0] == 'c' && "pkey"@[0] == 'p');
    }
    assert("kubeconfig"@ != "pkey"@) by {
        assert("kubeconfig"@.len() == 10 && "pkey"@.len() == 4);
    }
    assert("cert"@ != "kubeconfig"@) by {
        assert("cert"@.len() == 4 && "kubeconfig"@.len() == 10);
    }
    lemma_lookup_matches_view(entries, "pkey"@);
    lemma_lookup_matches_view(entries, "cert"@);
    lemma_lookup_matches_view(entries, "kubeconfig"@);
    let pairs = secret_entries(d);
    match (d.cert, d.kubeconfig) {
        (Some(c), Some(k)) => {
            assert(pairs =~= seq![("cert"@, c@), ("kubeconfig"@, k@), ("pkey"@, d.pkey@)]);
            assert(pairs.drop_first() =~= seq![("kubeconfig"@, k@), ("pkey"@, d.pkey@)]);
            assert(pairs.drop_first().drop_first() =~= seq![("pkey"@, d.pkey@)]);
        },
        (Some(c), None) => {
            assert(pairs =~= seq![("cert"@, c@), ("pkey"@, d.pkey@)]);
            assert(pairs.drop_first() =~= seq![("pkey"@, d.pkey@)]);
        },
        (None, Some(k)) => {
            assert(pairs =~= seq![("kubeconfig"@, k@), ("pkey"@, d.pkey@)]);
            assert(pairs.drop_first() =~= seq![("pkey"@, d.pkey@)]);
        },
        (None, None) => {
            assert(pairs =~= seq![("pkey"@, d.pkey@)]);
        },
    }
}

/// Find the first value bound to `key`.
pub(crate) fn lookup_entry(entries: &Vec<(String, String)>, key: &str) -> (r: Option<String>)
    ensures
        match r {
            Some(v) => spec_lookup(entries@, key@) matches Some(s) && s == v@,
            None => spec_lookup(entries@, key@) is None,
        },
{
    let key_s = key.to_owned();
    let mut i: usize = 0;
    proof {
        assert(entries@.skip(0) =~= entries@);
    }
    while i < entries.len()
        invariant
            i <= entries@.len(),
            key_s@ == key@,
            spec_lookup(entries@, key@) == spec_lookup(entries@.skip(i as int), key@),
        decreases entries@.len() - i,
    {
        proof {
            assert(entries@.skip(i as int).drop_first() =~= entries@.skip(i + 1));
        }
        if entries[i].0 == key_s {
            return Some(entries[i].1.clone());
        }
        i = i + 1;
    }
    proof {
        assert(entries@.skip(entries@.len() as int) =~= Seq::<(String, String)>::empty());
    }
    None
}

impl ManagedUserSecretData {
    /// The data map to store: `pkey` always, `cert` and `kubeconfig` when
    /// present, in the map's key order.
    pub fn to_entries(&self) -> (entries: Vec<(String, String)>)
        ensures
            entries_view(entries@) == secret_entries(*self),
    {
        let mut entries: Vec<(String, String)> = Vec::new();
        if let Some(c) = &self.cert {
            entries.push(("cert".to_owned(), c.clone()));
        }
        if let Some(k) = &self.kubeconfig {
            entries.push(("kubeconfig".to_owned(), k.clone()));
        }
        entries.push(("pkey".to_owned(), self.pkey.clone()));
        proof {
            assert(entries_view(entries@) =~= secret_entries(*self));
        }
        entries
    }

    /// Decode a stored data map. Succeeds exactly when a `pkey` entry is
    /// present; `cert` and `kubeconfig` are optional.
    pub fn try_from_entries(entries: &Vec<(String, String)>) -> (r: Result<
        ManagedUserSecretData,
        KuoError,
    >)
        ensures
            match r {
                Ok(d) => {
                    &&& spec_lookup(entries@, "pkey"@) matches Some(p) && p == d.pkey@
                    &&& match d.cert {
                        Some(c) => spec_lookup(entries@, "cert"@) matches Some(s) && s == c@,
                        None => spec_lookup(entries@, "cert"@) is None,
                    }
                    &&& match d.kubeconfig {
                        Some(k) => spec_lookup(entries@, "kubeconfig"@) matches Some(s) && s == k@,
                        None => spec_lookup(entries@, "kubeconfig"@) is None,
                    }
                },
                Err(e) => {
                    &&& spec_lookup(entries@, "pkey"@) is None
                    &&& e is InvalidUserSecretData
                },
            },
    {
        let Some(pkey) = lookup_entry(entries, "pkey") else {
            return Err(KuoError::InvalidUserSecretData);
        };
        let cert = lookup_entry(entries, "cert");
        let kubeconfig = lookup_entry(entries, "kubeconfig");
        Ok(ManagedUserSecretData { pkey, cert, kubeconfig })
    }
}

/// The deterministic name of a user's secret: `<username>-data`.
pub open spec fn spec_secret_name(username: Seq<char>) -> Seq<char> {
    username + "-data"@
}

/// Exec counterpart of [`spec_secret_name`].
pub fn secret_name(username: &str) -> (n: String)
    ensures
        n@ == spec_secret_name(username@),
{
    username.to_owned().concat("-data")
}

/// A cluster Secret as this controller writes it: metadata plus a data
/// map of text values.
#[derive(Debug, Clone)]
pub struct Secret {
    pub metadata: ObjectMeta,
    pub data: Vec<(String, String)>,
}

impl ManagedUser {
    /// Fetch-side decision of the secret lookup: an absent secret, or one
    /// without data, reads as "no record"; otherwise the data map must
    /// decode.
    pub fn get_secret(&self, fetched: Option<Vec<(String, String)>>) -> (r: Result<
        Option<ManagedUserSecretData>,
        KuoError,
    >)
        ensures
            match fetched {
                None => r matches Ok(o) && o is None,
                Some(entries) => match r {
                    Ok(o) => {
                        &&& o matches Some(d)
                        &&& spec_lookup(entries@, "pkey"@) matches Some(p) && p == d.pkey@
                        &&& match d.cert {
                            Some(c) => spec_lookup(entries@, "cert"@) matches Some(s) && s == c@,
                            None => spec_lookup(entries@, "cert"@) is None,
                        }
                        &&& match d.kubeconfig {
                            Some(k) => spec_lookup(entries@, "kubeconfig"@) matches Some(s) && s
                                == k@,
                            None => spec_lookup(entries@, "kubeconfig"@) is None,
                        }
                    },
                    Err(e) => {
                        &&& spec_lookup(entries@, "pkey"@) is None
                        &&& e is InvalidUserSecretData
                    },
                },
            },
    {
        match fetched {
            None => Ok(None),
            Some(entries) => match ManagedUserSecretData::try_from_entries(&entries) {
                Ok(d) => Ok(Some(d)),
                Err(e) => Err(e),
            },
        }
    }

    /// Build the Secret object that stores `data` for this user: named
    /// `<username>-data`, owned by the user.
    pub fn set_secret(&self, data: &ManagedUserSecretData) -> (s: Secret)
        requires
            self.identified(),
        ensures
            s.metadata.name matches Some(n) && n@ == spec_secret_name(self.metadata.view_name_any()),
            s.metadata.namespace is None,
            s.metadata.owner_references@.len() == 1,
            s.metadata.owner_references@[0].points_at(
                managed_user_api_version(),
                managed_user_kind(),
                self.metadata.view_name_any(),
                self.metadata.uid->Some_0@,
            ),
            entries_view(s.data@) == secret_entries(*data),
    {
        let username = self.name_any();
        let mut metadata = empty_meta();
        metadata.name = Some(secret_name(username.as_str()));
        metadata.add_owner(
            managed_user_api_version_str(),
            managed_user_kind_str(),
            username.as_str(),
            self.metadata.uid.as_ref().unwrap().as_str(),
        );
        Secret { metadata, data: data.to_entries() }
    }
}

/// What a pass of the managed-user reconciler decides, after the RBAC
/// synchronizer has run.
#[derive(Debug)]
pub enum UserAction {
    /// A secret already exists: the state is terminal for this pass; the
    /// long requeue is purely a periodic re-sync heartbeat.
    Heartbeat { seconds: u64 },
    /// No secret exists yet: provision key material and file a
    /// certificate request.
    Provision,
}

/// The state-machine step of the managed-user reconciler, over whether the
/// user's secret already exists. The existence of the secret — never of
/// the certificate request — decides whether key material is generated, so
/// a crash between secret write and request creation never regenerates the
/// key.
pub fn reconcile_user(user: &ManagedUser, has_secret: bool) -> (r: Result<UserAction, KuoError>)
    ensures
        match r {
            Ok(a) => {
                &&& user.identified()
                &&& if has_secret {
                    a matches UserAction::Heartbeat { seconds } && seconds
                        == crate::REQUEUE_LONG_SECS
                } else {
                    a is Provision
                }
            },
            Err(e) => {
                &&& !user.identified()
                &&& e matches KuoError::CannotReconcile(m) && if user.metadata.name is None {
                    m@ == "Managed user metadata has no name"@
                } else {
                    m@ == "Managed user metadata has no UID"@
                }
            },
        },
{
    if user.metadata.name.is_none() {
        return Err(KuoError::CannotReconcile("Managed user metadata has no name".to_owned()));
    }
    if user.metadata.uid.is_none() {
        return Err(KuoError::CannotReconcile("Managed user metadata has no UID".to_owned()));
    }
    if has_secret {
        Ok(UserAction::Heartbeat { seconds: crate::REQUEUE_LONG_SECS })
    } else {
        Ok(UserAction::Provision)
    }
}

/// Everything first-time provisioning produces: exactly one secret holding
/// only the private key, and exactly one certificate request.
#[derive(Debug)]
pub struct ProvisionPlan {
    /// The fresh record: a private key and nothing else.
    pub data: ManagedUserSecretData,
    /// The Secret object to write — before the request is filed, so that a
    /// crash in between is recoverable without regenerating the key.
    pub secret_object: Secret,
    /// The certificate request to file, owned by the user.
    pub csr: crate::csr::CertificateSigningRequest,
    /// Delay before the next look.
    pub seconds: u64,
}

/// First-time provisioning: generate a 4096-bit key, build the PEM
/// certificate request with the user's name as subject, and lay out the
/// secret write and the request creation — in that order.
pub fn provision_user(user: &ManagedUser, signer_name: &str) -> (r: Result<ProvisionPlan, KuoError>)
    requires
        user.identified(),
        user.metadata.view_name_any().len() <= 0x1000_0000,
    ensures
        match r {
            Ok(p) => {
                &&& p.data.cert is None
                &&& p.data.kubeconfig is None
                &&& p.secret_object.metadata.name matches Some(n) && n@ == spec_secret_name(
                    user.metadata.view_name_any(),
                )
                &&& p.secret_object.metadata.owner_references@.len() == 1
                &&& p.secret_object.metadata.owner_references@[0].points_at(
                    managed_user_api_version(),
                    managed_user_kind(),
                    user.metadata.view_name_any(),
                    user.metadata.uid->Some_0@,
                )
                &&& entries_view(p.secret_object.data@) == secret_entries(p.data)
                &&& p.csr.metadata.name matches Some(n) && n@ == crate::csr::spec_csr_name(
                    user.metadata.view_name_any(),
                )
                &&& p.csr.metadata.owner_references@.len() == 1
                &&& p.csr.metadata.owner_references@[0].points_at(
                    managed_user_api_version(),
                    managed_user_kind(),
                    user.metadata.view_name_any(),
                    user.metadata.uid->Some_0@,
                )
                &&& p.csr.spec.request@ == crate::crypto::csr_pem_of(
                    user.metadata.view_name_any(),
                    p.data.pkey@,
                )
                &&& p.csr.spec.signer_name@ == signer_name@
                &&& crate::csr::spec_csr_usages(p.csr.spec.usages@)
                &&& p.csr.status is None
                &&& p.seconds == crate::REQUEUE_SHORT_SECS
            },
            Err(e) => e is OpensslError,
        },
{
    let username = user.name_any();
    let pkey = match crate::crypto::gen_user_pkey() {
        Ok(p) => p,
        Err(e) => {
            return Err(crate::crypto::openssl_to_kuo(e));
        },
    };
    // A generated key's PEM is a few kilobytes; the request builder's
    // size bound is checked rather than assumed.
    if pkey.as_str().unicode_len() > 0x1000_0000 {
        return Err(KuoError::OpensslError(
            "private key text too large for a certificate request".to_owned(),
        ));
    }
    let csr_pem = match crate::crypto::build_csr(username.as_str(), pkey.as_str()) {
        Ok(p) => p,
        Err(e) => {
            return Err(crate::crypto::openssl_to_kuo(e));
        },
    };
    let data = ManagedUserSecretData { pkey, cert: None, kubeconfig: None };
    let secret_object = user.set_secret(&data);
    let name = crate::csr::csr_name(username.as_str());
    let csr = crate::csr::create_kube_csr(user, csr_pem, name.as_str(), signer_name);
    Ok(ProvisionPlan { data, secret_object, csr, seconds: crate::REQUEUE_SHORT_SECS })
}

} // verus!
