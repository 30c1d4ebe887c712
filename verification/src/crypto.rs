//! Key material generation, through openssl.
//!
//! The managed-user reconciler needs two cryptographic operations: a fresh
//! 4096-bit RSA key, and a PEM certificate-signing request over it whose
//! subject common name is the user's name, self-signed with the same key
//! under a SHA-256 digest.

use vstd::prelude::*;

verus! {

use crate::error::KuoError;

/// openssl's error type, carried through unopened.
#[verifier::external_type_specification]
#[verifier::external_body]
pub struct ExErrorStack(openssl::error::ErrorStack);

/// Holds of the PKCS#8 PEM text of an RSA private key as the key
/// generator exports it. Request signing is deterministic for such a key
/// (RSA PKCS#1 v1.5 involves no randomness), where other key forms sign
/// with randomness — so [`csr_pem_of`] is claimed on these texts alone.
pub uninterp spec fn is_generated_rsa_key(pkey_pem: Seq<char>) -> bool;

/// What openssl's request builder produces for a user name and the PEM of
/// a generated RSA key: deterministic in the two arguments, so the text
/// has a name.
pub uninterp spec fn csr_pem_of(username: Seq<char>, pkey_pem: Seq<char>) -> Seq<char>;

/// Relies on openssl's `Rsa::generate` (4096 bits), `PKey::from_rsa` and
/// `private_key_to_pem_pkcs8`: a freshly generated random key, exported as
/// PKCS#8 PEM text. Nothing can be promised of a random key's text beyond
/// its form: it is the PKCS#8 PEM of an RSA private key.
#[verifier::external_body]
pub(crate) fn gen_user_pkey() -> (r: Result<String, openssl::error::ErrorStack>)
    ensures
        r matches Ok(pem) ==> is_generated_rsa_key(pem@),
{
    let rsa = openssl::rsa::Rsa::generate(4096)?;
    let pkey = openssl::pkey::PKey::from_rsa(rsa)?;
    let pem = pkey.private_key_to_pem_pkcs8()?;
    Ok(String::from_utf8_lossy(&pem).into_owned())
}

/// Relies on openssl's `X509Req` builder: the subject common name is set
/// to `username`, the public key is taken from the PEM key, and the
/// request is signed with that same key under SHA-256. For the RSA keys
/// the generator produces this is deterministic in the two arguments, so
/// the resulting PEM is `csr_pem_of` of them. `append_entry_by_text` and
/// the PEM reader both assert that their input fits a C int, so oversized
/// arguments are excluded up front.
#[verifier::external_body]
pub(crate) fn build_csr(username: &str, pkey_pem: &str) -> (r: Result<
    String,
    openssl::error::ErrorStack,
>)
    requires
        username@.len() <= 0x1000_0000,
        pkey_pem@.len() <= 0x1000_0000,
        is_generated_rsa_key(pkey_pem@),
    ensures
        r matches Ok(pem) ==> pem@ == csr_pem_of(username@, pkey_pem@),
{
    let pkey = openssl::pkey::PKey::private_key_from_pem(pkey_pem.as_bytes())?;
    let mut req = openssl::x509::X509Req::builder()?;
    let mut name = openssl::x509::X509NameBuilder::new()?;
    name.append_entry_by_text("CN", username)?;
    req.set_subject_name(&name.build())?;
    req.set_pubkey(&pkey)?;
    req.sign(&pkey, openssl::hash::MessageDigest::sha256())?;
    let pem = req.build().to_pem()?;
    Ok(String::from_utf8_lossy(&pem).into_owned())
}

/// Relies on `ErrorStack`'s `Display` implementation for the collected
/// error text.
#[verifier::external_body]
fn openssl_error_text(e: &openssl::error::ErrorStack) -> (s: String) {
    e.to_string()
}

/// Fold an openssl failure into the controller's error taxonomy: a
/// cryptographic/generation error, propagated like an infrastructure one.
pub fn openssl_to_kuo(e: openssl::error::ErrorStack) -> (r: KuoError)
    ensures
        r is OpensslError,
{
    KuoError::OpensslError(openssl_error_text(&e))
}

} // verus!
