//! Signing and verification key material.

use vstd::prelude::*;

use rsa::pkcs1::{DecodeRsaPrivateKey, DecodeRsaPublicKey, EncodeRsaPrivateKey, EncodeRsaPublicKey};
use rsa::{RsaPrivateKey, RsaPublicKey};
use vstd::string::StrSliceExecFns;

verus! {

/// The DER (PKCS#1) form of the RSA private key in a PKCS#1 PEM text, or
/// `None` when the text is not such a key.
pub uninterp spec fn rsa_private_pem_der(pem: Seq<char>) -> Option<Seq<u8>>;

/// The DER (PKCS#1) form of the RSA public key in a PKCS#1 PEM text, or
/// `None` when the text is not such a key.
pub uninterp spec fn rsa_public_pem_der(pem: Seq<char>) -> Option<Seq<u8>>;

/// `rsa::RsaPrivateKey::from_pkcs1_pem` followed by `to_pkcs1_der`: the claim
/// is that the result is the DER bytes named by `rsa_private_pem_der`, and
/// `None` exactly where that name is `None`.
#[verifier::external_body]
pub(crate) fn private_pem_to_der(pem: &str) -> (res: Option<Vec<u8>>)
    ensures
        match res {
            Some(der) => rsa_private_pem_der(pem@) == Some(der@),
            None => rsa_private_pem_der(pem@) is None,
        },
{
    let key = RsaPrivateKey::from_pkcs1_pem(pem).ok()?;
    key.to_pkcs1_der().ok().map(|doc| doc.as_bytes().to_vec())
}

/// Why a public key PEM text gave no DER form: the text of the error of the
/// step that failed.
#[derive(Debug, Clone)]
pub enum PemFailure {
    /// Reading the PEM text failed.
    Parse(String),
    /// Writing the DER form failed.
    Encode(String),
}

/// `rsa::RsaPublicKey::from_pkcs1_pem` followed by `to_pkcs1_der`: the claim is
/// that the result is the DER bytes named by `rsa_public_pem_der`, and an
/// error exactly where that name is `None`. The error carries the `Display`
/// text of the failing step's error, of which nothing is claimed.
#[verifier::external_body]
pub(crate) fn public_pem_to_der(pem: &str) -> (res: Result<Vec<u8>, PemFailure>)
    ensures
        match res {
            Ok(der) => rsa_public_pem_der(pem@) == Some(der@),
            Err(_) => rsa_public_pem_der(pem@) is None,
        },
{
    match RsaPublicKey::from_pkcs1_pem(pem) {
        Err(e) => Err(PemFailure::Parse(e.to_string())),
        Ok(key) => match key.to_pkcs1_der() {
            Err(e) => Err(PemFailure::Encode(e.to_string())),
            Ok(doc) => Ok(doc.as_bytes().to_vec()),
        },
    }
}

/// The kind of key an algorithm works with.
#[derive(Debug, Clone, Copy, PartialEq, Eq, Structural)]
pub enum KeyFamily {
    Hmac,
    Rsa,
    Ec,
    Ed,
}

/// Key material for signing: the family and the raw bytes (an HMAC secret or
/// a DER-encoded private key).
#[derive(Debug, Clone)]
pub struct EncodingKey {
    pub family: KeyFamily,
    pub content: Vec<u8>,
}

/// Key material for verifying: the family and the raw bytes (an HMAC secret or
/// a DER-encoded public key).
#[derive(Debug, Clone)]
pub struct DecodingKey {
    pub family: KeyFamily,
    pub content: Vec<u8>,
}

/// The keys a token manager signs and verifies with.
#[derive(Debug, Clone)]
pub enum JwtKeys {
    Hs256 { secret: String },
    Rs256 { private_pem: String, public_pem: String, kid: Option<String> },
}

impl JwtKeys {
    /// Whether signing keys can be derived (the private PEM is a valid RSA key).
    pub open spec fn can_encode(&self) -> bool {
        match self {
            JwtKeys::Hs256 { .. } => true,
            JwtKeys::Rs256 { private_pem, .. } => rsa_private_pem_der(private_pem@) is Some,
        }
    }

    /// Whether verifying keys can be derived (the public PEM is a valid RSA key).
    pub open spec fn can_decode(&self) -> bool {
        match self {
            JwtKeys::Hs256 { .. } => true,
            JwtKeys::Rs256 { public_pem, .. } => rsa_public_pem_der(public_pem@) is Some,
        }
    }

    /// Family and bytes of the signing key.
    pub open spec fn spec_encoding_key(&self) -> (KeyFamily, Seq<u8>) {
        match self {
            JwtKeys::Hs256 { secret } => (KeyFamily::Hmac, vstd::utf8::encode_utf8(secret@)),
            JwtKeys::Rs256 { private_pem, .. } => (
                KeyFamily::Rsa,
                rsa_private_pem_der(private_pem@).unwrap(),
            ),
        }
    }

    /// Family and bytes of the verifying key.
    pub open spec fn spec_decoding_key(&self) -> (KeyFamily, Seq<u8>) {
        match self {
            JwtKeys::Hs256 { secret } => (KeyFamily::Hmac, vstd::utf8::encode_utf8(secret@)),
            JwtKeys::Rs256 { public_pem, .. } => (
                KeyFamily::Rsa,
                rsa_public_pem_der(public_pem@).unwrap(),
            ),
        }
    }

    /// The key id carried in the header of signed tokens, if any.
    pub open spec fn spec_kid(&self) -> Option<Seq<char>> {
        match self {
            JwtKeys::Hs256 { .. } => None,
            JwtKeys::Rs256 { kid, .. } => crate::text::opt_view(*kid),
        }
    }

    /// The signing key: the secret's bytes, or the DER form of the private key.
    pub fn encoding_key(&self) -> (res: EncodingKey)
        requires
            self.can_encode(),
        ensures
            (res.family, res.content@) == self.spec_encoding_key(),
    {
        match self {
            JwtKeys::Hs256 { secret } => EncodingKey {
                family: KeyFamily::Hmac,
                content: secret.as_str().as_bytes_vec(),
            },
            JwtKeys::Rs256 { private_pem, .. } => {
                let der = private_pem_to_der(private_pem.as_str());
                match der {
                    Some(der) => EncodingKey { family: KeyFamily::Rsa, content: der },
                    None => {
                        proof {
                            assert(false);
                        }
                        EncodingKey { family: KeyFamily::Rsa, content: Vec::new() }
                    },
                }
            },
        }
    }

    /// The verifying key: the secret's bytes, or the DER form of the public key.
    pub fn decoding_key(&self) -> (res: DecodingKey)
        requires
            self.can_decode(),
        ensures
            (res.family, res.content@) == self.spec_decoding_key(),
    {
        match self {
            JwtKeys::Hs256 { secret } => DecodingKey {
                family: KeyFamily::Hmac,
                content: secret.as_str().as_bytes_vec(),
            },
            JwtKeys::Rs256 { public_pem, .. } => {
                let der = public_pem_to_der(public_pem.as_str());
                match der {
                    Ok(der) => DecodingKey { family: KeyFamily::Rsa, content: der },
                    Err(_) => {
                        proof {
                            assert(false);
                        }
                        DecodingKey { family: KeyFamily::Rsa, content: Vec::new() }
                    },
                }
            },
        }
    }

    /// Whether the signing key can be derived, decided by parsing the PEM.
    pub fn check_encodable(&self) -> (res: bool)
        ensures
            res == self.can_encode(),
    {
        match self {
            JwtKeys::Hs256 { .. } => true,
            JwtKeys::Rs256 { private_pem, .. } => private_pem_to_der(private_pem.as_str()).is_some(),
        }
    }

    /// Whether the verifying key can be derived, decided by parsing the PEM.
    pub fn check_decodable(&self) -> (res: bool)
        ensures
            res == self.can_decode(),
    {
        match self {
            JwtKeys::Hs256 { .. } => true,
            JwtKeys::Rs256 { public_pem, .. } => public_pem_to_der(public_pem.as_str()).is_ok(),
        }
    }

    /// The signing key, or `None` when the private PEM is not a valid RSA key.
    pub fn try_encoding_key(&self) -> (res: Option<EncodingKey>)
        ensures
            res is Some <==> self.can_encode(),
            res matches Some(k) ==> (k.family, k.content@) == self.spec_encoding_key(),
    {
        if self.check_encodable() {
            Some(self.encoding_key())
        } else {
            None
        }
    }

    /// The verifying key, or `None` when the public PEM is not a valid RSA key.
    pub fn try_decoding_key(&self) -> (res: Option<DecodingKey>)
        ensures
            res is Some <==> self.can_decode(),
            res matches Some(k) ==> (k.family, k.content@) == self.spec_decoding_key(),
    {
        if self.check_decodable() {
            Some(self.decoding_key())
        } else {
            None
        }
    }
}

} // verus!
