use pqcrypto::sign::sphincsshake256ssimple as sphincs;
use pqcrypto::traits::sign::DetachedSignature as SignatureBytes;
use pqcrypto::traits::sign::PublicKey as PublicKeyBytes;
use pqcrypto::traits::sign::SecretKey as SecretKeyBytes;
use vstd::prelude::*;

verus! {

/// Length in bytes of an encoded public key of the signature scheme.
pub const PUBLIC_KEY_BYTES: usize = 64;

/// Length in bytes of an encoded secret key of the signature scheme.
pub const SECRET_KEY_BYTES: usize = 128;

/// Length in bytes of a detached signature of the signature scheme.
pub const SIGNATURE_BYTES: usize = 29792;

/// Whether the scheme accepts a detached signature of a message under a
/// public key.
pub uninterp spec fn accepts(signature: Seq<u8>, message: Seq<u8>, public_key: Seq<u8>) -> bool;

/// Whether a secret key is one that the scheme's key generation produced
/// (its trailing public part matches the seeds before it).
pub uninterp spec fn generated_secret(secret_key: Seq<u8>) -> bool;

/// The public key that a secret key ends with.
pub open spec fn public_part(secret_key: Seq<u8>) -> Seq<u8> {
    secret_key.subrange(
        (SECRET_KEY_BYTES - PUBLIC_KEY_BYTES) as int,
        SECRET_KEY_BYTES as int,
    )
}

/// Relies on `keypair`: a fresh key pair whose secret key holds the public
/// key as its last half (the key layout of the bundled C implementation).
#[verifier::external_body]
pub(crate) fn generate_keypair() -> (r: (Vec<u8>, Vec<u8>))
    ensures
        r.0@.len() == PUBLIC_KEY_BYTES,
        r.1@.len() == SECRET_KEY_BYTES,
        r.0@ == public_part(r.1@),
        generated_secret(r.1@),
{
    let (pk, sk) = sphincs::keypair();
    (pk.as_bytes().to_vec(), sk.as_bytes().to_vec())
}

/// Relies on `PublicKey::from_bytes`, which accepts exactly the byte strings
/// of the public key length.
#[verifier::external_body]
pub(crate) fn parse_public_key(bytes: &[u8]) -> (r: Option<Vec<u8>>)
    ensures
        r is Some <==> bytes@.len() == PUBLIC_KEY_BYTES,
        r is Some ==> r->0@ == bytes@,
{
    match sphincs::PublicKey::from_bytes(bytes) {
        Ok(pk) => Some(pk.as_bytes().to_vec()),
        Err(_) => None,
    }
}

/// Relies on `SecretKey::from_bytes`, which accepts exactly the byte strings
/// of the secret key length.
#[verifier::external_body]
pub(crate) fn parse_secret_key(bytes: &[u8]) -> (r: Option<Vec<u8>>)
    ensures
        r is Some <==> bytes@.len() == SECRET_KEY_BYTES,
        r is Some ==> r->0@ == bytes@,
{
    match sphincs::SecretKey::from_bytes(bytes) {
        Ok(sk) => Some(sk.as_bytes().to_vec()),
        Err(_) => None,
    }
}

/// Relies on `detached_sign`: a signature of the full signature length, which
/// `verify_detached_signature` accepts under the public key of a generated
/// secret key.
#[verifier::external_body]
pub(crate) fn sign_detached(message: &[u8], secret_key: &[u8]) -> (r: Vec<u8>)
    requires
        secret_key@.len() == SECRET_KEY_BYTES,
    ensures
        r@.len() == SIGNATURE_BYTES,
        generated_secret(secret_key@) ==> accepts(r@, message@, public_part(secret_key@)),
{
    match sphincs::SecretKey::from_bytes(secret_key) {
        Ok(sk) => sphincs::detached_sign(message, &sk).as_bytes().to_vec(),
        Err(_) => Vec::new(),
    }
}

/// Relies on `DetachedSignature::from_bytes` and `verify_detached_signature`:
/// whether the scheme accepts the signature; one whose length is not the
/// signature length is refused.
#[verifier::external_body]
pub(crate) fn verify_detached(signature: &[u8], message: &[u8], public_key: &[u8]) -> (r: bool)
    requires
        public_key@.len() == PUBLIC_KEY_BYTES,
    ensures
        r == accepts(signature@, message@, public_key@),
        signature@.len() != SIGNATURE_BYTES ==> !r,
{
    match (sphincs::DetachedSignature::from_bytes(signature), sphincs::PublicKey::from_bytes(public_key)) {
        (Ok(sig), Ok(pk)) => sphincs::verify_detached_signature(&sig, message, &pk).is_ok(),
        _ => false,
    }
}

} // verus!
