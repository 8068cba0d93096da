use crate::encoding::{base64_decoded, base64_of, decode_base64, encode_base64, encode_hex, hex_of};
use crate::scheme::{
    accepts, generate_keypair, generated_secret, parse_public_key, parse_secret_key, public_part,
    sign_detached, verify_detached, PUBLIC_KEY_BYTES, SECRET_KEY_BYTES, SIGNATURE_BYTES,
};
use vstd::prelude::*;
use vstd::slice::{slice_subrange, slice_to_vec};

verus! {

/// Number of leading public-key bytes that make up a fingerprint.
pub const FINGERPRINT_LENGTH: usize = 16;

/// Why a key could not be built, or could not sign.
#[derive(Debug, Clone, Copy, PartialEq, Eq, Structural)]
pub enum KeyError {
    /// The text is not standard padded base64.
    InvalidEncoding,
    /// The decoded bytes are not a well-formed key of the scheme.
    InvalidKey,
    /// Signing was asked of a key without its secret part.
    NoSecretKey,
}

/// Fingerprint of a public key: lowercase hex of its first bytes.
pub open spec fn fingerprint_of(public_key: Seq<u8>) -> Seq<char> {
    hex_of(public_key.subrange(0, FINGERPRINT_LENGTH as int))
}

/// The public key that a base64 text holds, or why it holds none.
pub open spec fn public_key_check(text: Seq<char>) -> Result<Seq<u8>, KeyError> {
    match base64_decoded(text) {
        None => Err(KeyError::InvalidEncoding),
        Some(p) => if p.len() == PUBLIC_KEY_BYTES {
            Ok(p)
        } else {
            Err(KeyError::InvalidKey)
        },
    }
}

/// Whether `r` is what importing the base64 text of a public key gives: a
/// public-only key with the decoded bytes, or the reason the text holds no
/// public key.
pub open spec fn imports_public_key(text: Seq<char>, r: Result<SigningKey, KeyError>) -> bool {
    match public_key_check(text) {
        Ok(p) => r is Ok && r->Ok_0.public_bytes() == p && r->Ok_0.secret_bytes() is None,
        Err(e) => r == Err::<SigningKey, KeyError>(e),
    }
}

/// The key bytes that a stored pair of base64 texts holds, or why it holds
/// none: the secret key, where given, must end with the public key.
pub open spec fn stored_key_check(public_text: Seq<char>, secret_text: Option<Seq<char>>) -> Result<
    (Seq<u8>, Option<Seq<u8>>),
    KeyError,
> {
    match public_key_check(public_text) {
        Err(e) => Err(e),
        Ok(p) => match secret_text {
            None => Ok((p, None)),
            Some(t) => match base64_decoded(t) {
                None => Err(KeyError::InvalidEncoding),
                Some(s) => if s.len() == SECRET_KEY_BYTES && public_part(s) == p {
                    Ok((p, Some(s)))
                } else {
                    Err(KeyError::InvalidKey)
                },
            },
        },
    }
}

/// One signing key pair: a public key, its secret key where known, and the
/// fingerprint of the public key.
pub struct SigningKey {
    pk: Vec<u8>,
    sk: Option<Vec<u8>>,
    fingerprint: String,
}

impl SigningKey {
    #[verifier::type_invariant]
    spec fn well_formed(&self) -> bool {
        &&& self.pk@.len() == PUBLIC_KEY_BYTES
        &&& self.fingerprint@ == fingerprint_of(self.pk@)
        &&& match self.sk {
            Some(s) => s@.len() == SECRET_KEY_BYTES && public_part(s@) == self.pk@,
            None => true,
        }
    }

    /// The encoded public key.
    pub closed spec fn public_bytes(&self) -> Seq<u8> {
        self.pk@
    }

    /// The encoded secret key, where this key has one.
    pub closed spec fn secret_bytes(&self) -> Option<Seq<u8>> {
        match self.sk {
            Some(s) => Some(s@),
            None => None,
        }
    }

    /// The fingerprint, which is always that of the public key.
    pub open spec fn fingerprint(&self) -> Seq<char> {
        fingerprint_of(self.public_bytes())
    }

    /// Whether signing with this key is refused.
    pub open spec fn signing_refused(&self) -> bool {
        self.secret_bytes() is None
    }

    /// Whether this key holds a secret key that the scheme generated.
    pub open spec fn is_generated(&self) -> bool {
        &&& self.secret_bytes() is Some
        &&& generated_secret(self.secret_bytes()->0)
    }

    /// Whether a signature text verifies a message under this key: it is
    /// base64 of a signature of the scheme's length that the scheme accepts.
    pub open spec fn verifies(&self, message: Seq<u8>, signature: Seq<char>) -> bool {
        match base64_decoded(signature) {
            Some(sig) => sig.len() == SIGNATURE_BYTES && accepts(sig, message, self.public_bytes()),
            None => false,
        }
    }

    /// Whether this key is the public-only counterpart of `other`.
    pub open spec fn is_redaction_of(&self, other: SigningKey) -> bool {
        &&& self.public_bytes() == other.public_bytes()
        &&& self.fingerprint() == other.fingerprint()
        &&& self.secret_bytes() is None
    }

    fn from_bytes(pk: Vec<u8>, sk: Option<Vec<u8>>) -> (r: Self)
        requires
            pk@.len() == PUBLIC_KEY_BYTES,
            match sk {
                Some(s) => s@.len() == SECRET_KEY_BYTES && public_part(s@) == pk@,
                None => true,
            },
        ensures
            r.public_bytes() == pk@,
            r.secret_bytes() == (match sk {
                Some(s) => Some(s@),
                None => None::<Seq<u8>>,
            }),
    {
        let fingerprint = encode_hex(slice_subrange(pk.as_slice(), 0, FINGERPRINT_LENGTH));
        SigningKey { pk, sk, fingerprint }
    }

    /// Generates a fresh key pair.
    pub fn new() -> (r: Self)
        ensures
            r.is_generated(),
            r.public_bytes() == public_part(r.secret_bytes()->0),
            r.public_bytes().len() == PUBLIC_KEY_BYTES,
            r.secret_bytes()->0.len() == SECRET_KEY_BYTES,
    {
        let (pk, sk) = generate_keypair();
        Self::from_bytes(pk, Some(sk))
    }

    /// A public-only key from the base64 text of a public key.
    pub fn new_from_public_key(public_key: String) -> (r: Result<Self, KeyError>)
        ensures
            imports_public_key(public_key@, r),
    {
        let decoded = match decode_base64(public_key.as_str()) {
            Some(d) => d,
            None => return Err(KeyError::InvalidEncoding),
        };
        let pk = match parse_public_key(decoded.as_slice()) {
            Some(p) => p,
            None => return Err(KeyError::InvalidKey),
        };
        Ok(Self::from_bytes(pk, None))
    }

    /// A key from the stored base64 texts of its public key and, where kept,
    /// its secret key.
    pub fn from_stored(public_key: String, secret_key: Option<String>) -> (r: Result<Self, KeyError>)
        ensures
            match stored_key_check(
                public_key@,
                match secret_key {
                    Some(t) => Some(t@),
                    None => None,
                },
            ) {
                Ok((p, s)) => r is Ok && r->Ok_0.public_bytes() == p && r->Ok_0.secret_bytes() == s,
                Err(e) => r == Err::<Self, KeyError>(e),
            },
    {
        let decoded = match decode_base64(public_key.as_str()) {
            Some(d) => d,
            None => return Err(KeyError::InvalidEncoding),
        };
        let pk = match parse_public_key(decoded.as_slice()) {
            Some(p) => p,
            None => return Err(KeyError::InvalidKey),
        };
        match secret_key {
            None => Ok(Self::from_bytes(pk, None)),
            Some(text) => {
                let decoded_sk = match decode_base64(text.as_str()) {
                    Some(d) => d,
                    None => return Err(KeyError::InvalidEncoding),
                };
                let sk = match parse_secret_key(decoded_sk.as_slice()) {
                    Some(s) => s,
                    None => return Err(KeyError::InvalidKey),
                };
                if ends_with(&sk, &pk) {
                    Ok(Self::from_bytes(pk, Some(sk)))
                } else {
                    Err(KeyError::InvalidKey)
                }
            },
        }
    }

    /// Signs a message; the result is the base64 text of a detached signature.
    pub fn create_signature(&self, message: &[u8]) -> (r: Result<String, KeyError>)
        ensures
            self.signing_refused() <==> r == Err::<String, KeyError>(KeyError::NoSecretKey),
            !self.signing_refused() ==> r is Ok,
            r is Ok ==> exists|sig: Seq<u8>|
                sig.len() == SIGNATURE_BYTES && #[trigger] base64_of(sig) == r->Ok_0@
                    && base64_decoded(r->Ok_0@) == Some(sig),
            r is Ok && self.is_generated() ==> self.verifies(message@, r->Ok_0@),
    {
        proof {
            use_type_invariant(self);
        }
        match &self.sk {
            None => Err(KeyError::NoSecretKey),
            Some(sk) => {
                let sig = sign_detached(message, sk.as_slice());
                let text = encode_base64(sig.as_slice());
                assert(base64_of(sig@) == text@);
                Ok(text)
            },
        }
    }

    /// Whether `signature` is a valid signature of `message` under this key.
    /// Text that is not base64, bytes that are not a signature and signatures
    /// that the scheme rejects all give `false`.
    pub fn verify_signature(&self, message: &[u8], signature: String) -> (r: bool)
        ensures
            r == self.verifies(message@, signature@),
    {
        proof {
            use_type_invariant(self);
        }
        match decode_base64(signature.as_str()) {
            Some(sig) => verify_detached(sig.as_slice(), message, self.pk.as_slice()),
            None => false,
        }
    }

    /// The base64 text of the public key.
    pub fn get_public_key(&self) -> (r: String)
        ensures
            r@ == base64_of(self.public_bytes()),
            base64_decoded(r@) == Some(self.public_bytes()),
            self.public_bytes().len() == PUBLIC_KEY_BYTES,
    {
        proof {
            use_type_invariant(self);
        }
        encode_base64(self.pk.as_slice())
    }

    /// The base64 text of the secret key, where this key has one.
    pub fn get_secret_key(&self) -> (r: Option<String>)
        ensures
            r is Some <==> self.secret_bytes() is Some,
            r is Some ==> r->0@ == base64_of(self.secret_bytes()->0) && base64_decoded(r->0@)
                == self.secret_bytes(),
            r is Some ==> self.secret_bytes()->0.len() == SECRET_KEY_BYTES && public_part(
                self.secret_bytes()->0,
            ) == self.public_bytes(),
    {
        proof {
            use_type_invariant(self);
        }
        match &self.sk {
            Some(sk) => Some(encode_base64(sk.as_slice())),
            None => None,
        }
    }

    pub fn get_fingerprint(&self) -> (r: String)
        ensures
            r@ == self.fingerprint(),
            r@ == fingerprint_of(self.public_bytes()),
    {
        proof {
            use_type_invariant(self);
        }
        self.fingerprint.clone()
    }

    /// The same key without its secret part.
    pub fn get_redacted_key(&self) -> (r: SigningKey)
        ensures
            r.is_redaction_of(*self),
    {
        proof {
            use_type_invariant(self);
        }
        let pk = slice_to_vec(self.pk.as_slice());
        SigningKey { pk, sk: None, fingerprint: self.fingerprint.clone() }
    }
}

/// Whether `bytes` ends with `suffix` at the position of a public key within
/// a secret key.
fn ends_with(bytes: &Vec<u8>, suffix: &Vec<u8>) -> (r: bool)
    requires
        bytes@.len() == SECRET_KEY_BYTES,
        suffix@.len() == PUBLIC_KEY_BYTES,
    ensures
        r == (public_part(bytes@) == suffix@),
{
    let offset: usize = SECRET_KEY_BYTES - PUBLIC_KEY_BYTES;
    let mut i: usize = 0;
    while i < PUBLIC_KEY_BYTES
        invariant
            i <= PUBLIC_KEY_BYTES,
            bytes@.len() == SECRET_KEY_BYTES,
            suffix@.len() == PUBLIC_KEY_BYTES,
            offset == SECRET_KEY_BYTES - PUBLIC_KEY_BYTES,
            forall|j: int| 0 <= j < i ==> bytes@[offset + j] == suffix@[j],
        decreases PUBLIC_KEY_BYTES - i,
    {
        if bytes[offset + i] != suffix[i] {
            assert(public_part(bytes@)[i as int] != suffix@[i as int]);
            return false;
        }
        i = i + 1;
    }
    assert(public_part(bytes@) =~= suffix@);
    true
}

/// A key imported from its public key alone never signs, whatever the
/// message.
pub proof fn lemma_imported_key_cannot_sign(text: Seq<char>, r: Result<SigningKey, KeyError>)
    requires
        imports_public_key(text, r),
        r is Ok,
    ensures
        r->Ok_0.signing_refused(),
{
}

/// Importing the exported public key of a key gives a key with the same
/// public key and fingerprint.
pub proof fn lemma_import_keeps_fingerprint(
    k: SigningKey,
    exported: Seq<char>,
    r: Result<SigningKey, KeyError>,
)
    requires
        k.public_bytes().len() == PUBLIC_KEY_BYTES,
        exported == base64_of(k.public_bytes()),
        base64_decoded(exported) == Some(k.public_bytes()),
        imports_public_key(exported, r),
    ensures
        r is Ok,
        r->Ok_0.public_bytes() == k.public_bytes(),
        r->Ok_0.fingerprint() == k.fingerprint(),
{
}

/// A redacted key verifies exactly the signatures that its source verifies.
pub proof fn lemma_redaction_keeps_verification(
    k: SigningKey,
    redacted: SigningKey,
    message: Seq<u8>,
    signature: Seq<char>,
)
    requires
        redacted.is_redaction_of(k),
    ensures
        redacted.verifies(message, signature) == k.verifies(message, signature),
        redacted.signing_refused(),
{
}

} // verus!
