//! RSA key files, key ids and the published key set (JWKS).

use vstd::prelude::*;

use rsa::pkcs1::{DecodeRsaPublicKey, EncodeRsaPrivateKey, EncodeRsaPublicKey, LineEnding};
use rsa::rand_core::OsRng;
use rsa::traits::PublicKeyParts;
use rsa::{RsaPrivateKey, RsaPublicKey};

use crate::auth::key::{public_pem_to_der, rsa_private_pem_der, rsa_public_pem_der, JwtKeys, PemFailure};
use crate::json::{spec_str_field, JsonValue};
use crate::crypto::{base64url_encode, base64url_nopad, sha256, sha256_digest};
use crate::text::{has_prefix, json_string, push_json_string};
use vstd::string::StringExecFns;

verus! {

broadcast use vstd::string::group_string_axioms;

/// Why key material could not be used.
#[derive(Debug, Clone)]
pub struct KeyError {
    pub message: String,
}

/// The big-endian modulus and public exponent of the RSA public key in a
/// PKCS#1 PEM text, or `None` when the text is not such a key.
pub uninterp spec fn rsa_public_pem_components(pem: Seq<char>) -> Option<(Seq<u8>, Seq<u8>)>;

/// `rsa::RsaPublicKey::from_pkcs1_pem`, then `n()` and `e()` as big-endian
/// bytes: the claim is that the result is the pair named by
/// `rsa_public_pem_components`, and an error exactly where that name is
/// `None`. The error is the `Display` text of the parse error, of which
/// nothing is claimed.
#[verifier::external_body]
fn public_pem_components(pem: &str) -> (res: Result<(Vec<u8>, Vec<u8>), String>)
    ensures
        match res {
            Ok((n, e)) => rsa_public_pem_components(pem@) == Some((n@, e@)),
            Err(_) => rsa_public_pem_components(pem@) is None,
        },
{
    match RsaPublicKey::from_pkcs1_pem(pem) {
        Err(e) => Err(e.to_string()),
        Ok(key) => Ok((key.n().to_bytes_be(), key.e().to_bytes_be())),
    }
}

/// Why a fresh key pair could not be made: the step that failed, with the
/// text of its error.
#[derive(Debug, Clone)]
pub enum KeyGenFailure {
    Generate(String),
    EncodePrivate(String),
    EncodePublic(String),
}

/// `rsa::RsaPrivateKey::new` with `OsRng` and 2048 bits, and the private key
/// and its public key written by `to_pkcs1_pem` with LF line endings. The key
/// is random; the claim is that each text written reads back as a key of its
/// kind (`rsa_private_pem_der`, `rsa_public_pem_der`). The error texts are
/// the `Display` texts of the failing step's errors, of which nothing is
/// claimed.
#[verifier::external_body]
fn generate_rsa_pem_pair() -> (res: Result<(String, String), KeyGenFailure>)
    ensures
        res matches Ok((private_pem, public_pem)) ==> rsa_private_pem_der(private_pem@) is Some
            && rsa_public_pem_der(public_pem@) is Some,
{
    let private = match RsaPrivateKey::new(&mut OsRng, 2048) {
        Err(e) => return Err(KeyGenFailure::Generate(e.to_string())),
        Ok(key) => key,
    };
    let private_pem = match private.to_pkcs1_pem(LineEnding::LF) {
        Err(e) => return Err(KeyGenFailure::EncodePrivate(e.to_string())),
        Ok(pem) => pem.to_string(),
    };
    match RsaPublicKey::from(&private).to_pkcs1_pem(LineEnding::LF) {
        Err(e) => Err(KeyGenFailure::EncodePublic(e.to_string())),
        Ok(pem) => Ok((private_pem, pem)),
    }
}

/// The start of the message of a failed key pair generation, by step.
pub open spec fn key_gen_failure_prefix(failure: KeyGenFailure) -> Seq<char> {
    match failure {
        KeyGenFailure::Generate(_) => "RSA key generation failed: "@,
        KeyGenFailure::EncodePrivate(_) => "encode private key pem failed: "@,
        KeyGenFailure::EncodePublic(_) => "encode public key pem failed: "@,
    }
}

/// The text of the error of a failed key pair generation step.
pub open spec fn key_gen_failure_detail(failure: KeyGenFailure) -> Seq<char> {
    match failure {
        KeyGenFailure::Generate(d) => d@,
        KeyGenFailure::EncodePrivate(d) => d@,
        KeyGenFailure::EncodePublic(d) => d@,
    }
}

/// Where the RSA key pair is kept.
#[derive(Debug, Clone)]
pub struct RsaKeyManager {
    private_key_path: String,
    public_key_path: String,
}

/// `"fixtures/jwt_dev_private.pem"`
pub open spec fn default_private_key_path() -> Seq<char> {
    "fixtures/jwt_dev_private.pem"@
}

/// `"fixtures/jwt_dev_public.pem"`
pub open spec fn default_public_key_path() -> Seq<char> {
    "fixtures/jwt_dev_public.pem"@
}

impl RsaKeyManager {
    pub closed spec fn spec_private_key_path(&self) -> Seq<char> {
        self.private_key_path@
    }

    pub closed spec fn spec_public_key_path(&self) -> Seq<char> {
        self.public_key_path@
    }

    /// A manager for the given key files; each missing path takes its default
    /// (`fixtures/jwt_dev_private.pem`, `fixtures/jwt_dev_public.pem`).
    pub fn from_paths(private_key_path: Option<String>, public_key_path: Option<String>) -> (res:
        Self)
        ensures
            res.spec_private_key_path() == match private_key_path {
                Some(p) => p@,
                None => default_private_key_path(),
            },
            res.spec_public_key_path() == match public_key_path {
                Some(p) => p@,
                None => default_public_key_path(),
            },
    {
        let private_key_path = match private_key_path {
            Some(p) => p,
            None => "fixtures/jwt_dev_private.pem".to_string(),
        };
        let public_key_path = match public_key_path {
            Some(p) => p,
            None => "fixtures/jwt_dev_public.pem".to_string(),
        };
        RsaKeyManager { private_key_path, public_key_path }
    }

    /// A manager for the key files named by `private_key_path` and
    /// `public_key_path` in a JWT configuration document (defaults otherwise).
    pub fn from_config(jwt_cfg: &JsonValue) -> (res: Result<Self, KeyError>)
        ensures
            res matches Ok(km) && km.spec_private_key_path() == match spec_str_field(
                *jwt_cfg,
                "private_key_path"@,
            ) {
                Some(p) => p,
                None => default_private_key_path(),
            } && km.spec_public_key_path() == match spec_str_field(*jwt_cfg, "public_key_path"@) {
                Some(p) => p,
                None => default_public_key_path(),
            },
    {
        let private_key_path = crate::json::json_str_field(jwt_cfg, "private_key_path");
        let public_key_path = crate::json::json_str_field(jwt_cfg, "public_key_path");
        Ok(Self::from_paths(private_key_path, public_key_path))
    }

    pub fn private_key_path(&self) -> (res: &str)
        ensures
            res@ == self.spec_private_key_path(),
    {
        self.private_key_path.as_str()
    }

    pub fn public_key_path(&self) -> (res: &str)
        ensures
            res@ == self.spec_public_key_path(),
    {
        self.public_key_path.as_str()
    }

    /// Whether the key pair must be generated before it is read.
    pub fn needs_generation(private_exists: bool, public_exists: bool) -> (res: bool)
        ensures
            res == (!private_exists || !public_exists),
    {
        !private_exists || !public_exists
    }

    /// A fresh 2048-bit RSA key pair as PKCS#1 PEM texts (private, public),
    /// each of which reads back as a key; on failure, an error naming the
    /// step that failed and its error.
    pub fn generate_pem_pair() -> (res: Result<(String, String), KeyError>)
        ensures
            res matches Ok((private_pem, public_pem)) ==> rsa_private_pem_der(private_pem@) is Some
                && rsa_public_pem_der(public_pem@) is Some,
            res matches Err(e) ==> exists|f: KeyGenFailure|
                #![trigger key_gen_failure_prefix(f)]
                e.message@ == key_gen_failure_prefix(f) + key_gen_failure_detail(f),
    {
        match generate_rsa_pem_pair() {
            Ok(pair) => Ok(pair),
            Err(failure) => {
                let ghost f = failure;
                let (prefix, detail) = match failure {
                    KeyGenFailure::Generate(d) => ("RSA key generation failed: ", d),
                    KeyGenFailure::EncodePrivate(d) => ("encode private key pem failed: ", d),
                    KeyGenFailure::EncodePublic(d) => ("encode public key pem failed: ", d),
                };
                let mut message = prefix.to_string();
                message.append(detail.as_str());
                assert(message@ == key_gen_failure_prefix(f) + key_gen_failure_detail(f));
                Err(KeyError { message })
            },
        }
    }

    /// The RS256 key set read from the two PEM files, with the key id derived
    /// from the public key.
    pub fn keys_from_pems(private_pem: String, public_pem: String) -> (res: Result<JwtKeys, KeyError>)
        ensures
            match res {
                Ok(keys) => keys_read_from(private_pem, public_pem, keys),
                Err(_) => rsa_public_pem_der(public_pem@) is None,
            },
    {
        let kid = compute_kid_from_public_pem(public_pem.as_str())?;
        Ok(JwtKeys::Rs256 { private_pem, public_pem, kid: Some(kid) })
    }
}

/// `keys` is the RS256 key set of the two PEM texts, its key id derived from
/// the public key.
pub open spec fn keys_read_from(private_pem: String, public_pem: String, keys: JwtKeys) -> bool {
    &&& rsa_public_pem_der(public_pem@) is Some
    &&& keys matches JwtKeys::Rs256 { private_pem: pv, public_pem: pb, kid: Some(k) }
    &&& pv == private_pem
    &&& pb == public_pem
    &&& k@ == spec_kid(rsa_public_pem_der(public_pem@).unwrap())
}

/// `jwk` is the JWK of the RSA public key in `public_pem`.
pub open spec fn jwk_of(public_pem: Seq<char>, jwk: Jwk) -> bool {
    &&& rsa_public_pem_components(public_pem) is Some
    &&& rsa_public_pem_der(public_pem) is Some
    &&& jwk.kty@ == "RSA"@
    &&& jwk.key_use@ == "sig"@
    &&& jwk.alg@ == "RS256"@
    &&& jwk.kid@ == spec_kid(rsa_public_pem_der(public_pem).unwrap())
    &&& jwk.n@ == base64url_nopad(rsa_public_pem_components(public_pem).unwrap().0)
    &&& jwk.e@ == base64url_nopad(rsa_public_pem_components(public_pem).unwrap().1)
}

/// Tokens signed with keys read from a key pair name, in their header, the key
/// id under which the JWKS of the same public key publishes it.
pub proof fn lemma_token_kid_is_published_kid(
    private_pem: String,
    public_pem: String,
    keys: JwtKeys,
    jwk: Jwk,
)
    requires
        keys_read_from(private_pem, public_pem, keys),
        jwk_of(public_pem@, jwk),
    ensures
        keys.spec_kid() == Some(jwk.kid@),
{
}

/// The key id of a public key: URL-safe unpadded base64 of the SHA-256 of its
/// DER form.
pub open spec fn spec_kid(public_der: Seq<u8>) -> Seq<char> {
    base64url_nopad(sha256(public_der))
}

/// `"parse public pem failed: "`, the start of the message when a public key
/// PEM text cannot be read.
pub open spec fn parse_failed_message() -> Seq<char> {
    "parse public pem failed: "@
}

/// `"encode public der failed: "`, the start of the message when the DER
/// form of a public key cannot be written.
pub open spec fn encode_failed_message() -> Seq<char> {
    "encode public der failed: "@
}

fn parse_failed(detail: String) -> (res: KeyError)
    ensures
        res.message@ == parse_failed_message() + detail@,
{
    let mut message = "parse public pem failed: ".to_string();
    message.append(detail.as_str());
    KeyError { message }
}

fn encode_failed(detail: String) -> (res: KeyError)
    ensures
        res.message@ == encode_failed_message() + detail@,
{
    let mut message = "encode public der failed: ".to_string();
    message.append(detail.as_str());
    KeyError { message }
}

/// The error of a public key PEM text without DER form, its message naming
/// the step that failed and that step's error.
fn pem_error(failure: PemFailure) -> (res: KeyError)
    ensures
        match failure {
            PemFailure::Parse(d) => res.message@ == parse_failed_message() + d@,
            PemFailure::Encode(d) => res.message@ == encode_failed_message() + d@,
        },
{
    match failure {
        PemFailure::Parse(detail) => parse_failed(detail),
        PemFailure::Encode(detail) => encode_failed(detail),
    }
}

/// `message` is the text of a PEM failure: a fixed start naming the step,
/// then that step's error.
pub open spec fn pem_failure_message(message: Seq<char>) -> bool {
    has_prefix(message, parse_failed_message()) || has_prefix(message, encode_failed_message())
}

/// The key id of the RSA public key in a PKCS#1 PEM text.
pub fn compute_kid_from_public_pem(public_pem: &str) -> (res: Result<String, KeyError>)
    ensures
        match res {
            Ok(kid) => rsa_public_pem_der(public_pem@) is Some && kid@ == spec_kid(
                rsa_public_pem_der(public_pem@).unwrap(),
            ),
            Err(e) => rsa_public_pem_der(public_pem@) is None && pem_failure_message(e.message@),
        },
{
    match public_pem_to_der(public_pem) {
        Ok(der) => {
            let digest = sha256_digest(der.as_slice());
            Ok(base64url_encode(digest.as_slice()))
        },
        Err(failure) => {
            let ghost failure_seen = failure;
            let e = pem_error(failure);
            proof {
                let m = e.message@;
                match failure_seen {
                    PemFailure::Parse(d) => {
                        assert(m.take(parse_failed_message().len() as int) =~= parse_failed_message());
                    },
                    PemFailure::Encode(d) => {
                        assert(m.take(encode_failed_message().len() as int) =~= encode_failed_message());
                    },
                }
            }
            Err(e)
        },
    }
}

/// A JSON Web Key describing an RSA signing key.
#[derive(Debug, Clone)]
pub struct Jwk {
    pub kty: String,
    /// The `use` member.
    pub key_use: String,
    pub alg: String,
    pub kid: String,
    pub n: String,
    pub e: String,
}

/// The JWK of the RSA public key in a PKCS#1 PEM text: type `RSA`, use `sig`,
/// algorithm `RS256`, its key id, and base64url modulus and exponent.
pub fn build_jwk_from_public_pem(public_pem: &str) -> (res: Result<Jwk, KeyError>)
    ensures
        match res {
            Ok(jwk) => jwk_of(public_pem@, jwk),
            Err(e) => (rsa_public_pem_components(public_pem@) is None || rsa_public_pem_der(
                public_pem@,
            ) is None) && pem_failure_message(e.message@),
        },
{
    let (n_bytes, e_bytes) = match public_pem_components(public_pem) {
        Ok(parts) => parts,
        Err(detail) => {
            let e = parse_failed(detail);
            assert(e.message@.take(parse_failed_message().len() as int) =~= parse_failed_message());
            return Err(e);
        },
    };
    let n = base64url_encode(n_bytes.as_slice());
    let e = base64url_encode(e_bytes.as_slice());
    let kid = compute_kid_from_public_pem(public_pem)?;
    Ok(Jwk {
        kty: "RSA".to_string(),
        key_use: "sig".to_string(),
        alg: "RS256".to_string(),
        kid,
        n,
        e,
    })
}

/// The JSON object of a JWK, members in sorted order as `serde_json` writes a
/// map: `alg`, `e`, `kid`, `kty`, `n`, `use`.
pub open spec fn jwk_json(jwk: Jwk) -> Seq<char> {
    "{\"alg\":"@ + json_string(jwk.alg@) + ",\"e\":"@ + json_string(jwk.e@) + ",\"kid\":"@
        + json_string(jwk.kid@) + ",\"kty\":"@ + json_string(jwk.kty@) + ",\"n\":"@ + json_string(
        jwk.n@,
    ) + ",\"use\":"@ + json_string(jwk.key_use@) + "}"@
}

/// The JWKS document publishing one key.
pub open spec fn jwks_json(jwk: Jwk) -> Seq<char> {
    "{\"keys\":["@ + jwk_json(jwk) + "]}"@
}

/// `text` holds `part` somewhere.
pub open spec fn contains_text(text: Seq<char>, part: Seq<char>) -> bool {
    exists|i: int| 0 <= i && i + part.len() <= text.len() && #[trigger] text.subrange(i, i + part.len()) == part
}

proof fn lemma_contains_middle(before: Seq<char>, part: Seq<char>, after: Seq<char>)
    ensures
        contains_text(before + part + after, part),
{
    let text = before + part + after;
    let i = before.len() as int;
    assert(text.subrange(i, i + part.len()) =~= part);
}

/// The JSON member `"name":value` with a string value (`name` needing no
/// escape).
pub open spec fn string_member(name: Seq<char>, value: Seq<char>) -> Seq<char> {
    seq!['"'] + name + seq!['"', ':'] + json_string(value)
}

/// The pieces of the JSON text of a JWK: the text is `open`, then each member
/// with a comma between, then `}`.
proof fn lemma_jwk_json_pieces(jwk: Jwk)
    ensures
        jwk_json(jwk) == seq!['{'] + string_member("alg"@, jwk.alg@) + seq![','] + string_member(
            "e"@,
            jwk.e@,
        ) + seq![','] + string_member("kid"@, jwk.kid@) + seq![','] + string_member(
            "kty"@,
            jwk.kty@,
        ) + seq![','] + string_member("n"@, jwk.n@) + seq![','] + string_member(
            "use"@,
            jwk.key_use@,
        ) + seq!['}'],
{
    reveal_strlit("{\"alg\":");
    reveal_strlit(",\"e\":");
    reveal_strlit(",\"kid\":");
    reveal_strlit(",\"kty\":");
    reveal_strlit(",\"n\":");
    reveal_strlit(",\"use\":");
    reveal_strlit("}");
    reveal_strlit("alg");
    reveal_strlit("e");
    reveal_strlit("kid");
    reveal_strlit("kty");
    reveal_strlit("n");
    reveal_strlit("use");
    let q = seq!['"'];
    let qc = seq!['"', ':'];
    assert("{\"alg\":"@ =~= seq!['{'] + q + "alg"@ + qc);
    assert(",\"e\":"@ =~= seq![','] + q + "e"@ + qc);
    assert(",\"kid\":"@ =~= seq![','] + q + "kid"@ + qc);
    assert(",\"kty\":"@ =~= seq![','] + q + "kty"@ + qc);
    assert(",\"n\":"@ =~= seq![','] + q + "n"@ + qc);
    assert(",\"use\":"@ =~= seq![','] + q + "use"@ + qc);
    assert("}"@ =~= seq!['}']);
    assert(jwk_json(jwk) =~= seq!['{'] + string_member("alg"@, jwk.alg@) + seq![','] + string_member(
        "e"@,
        jwk.e@,
    ) + seq![','] + string_member("kid"@, jwk.kid@) + seq![','] + string_member(
        "kty"@,
        jwk.kty@,
    ) + seq![','] + string_member("n"@, jwk.n@) + seq![','] + string_member(
        "use"@,
        jwk.key_use@,
    ) + seq!['}']);
}

/// Each member of a published key is written under its own name with its own
/// value: the JSON text of a JWK, and the JWKS document publishing it, hold
/// `"kid":` followed by the key id as a JSON string, and likewise the type,
/// use, algorithm, modulus and exponent.
pub proof fn lemma_jwk_members_carry_their_fields(jwk: Jwk)
    ensures
        contains_text(jwk_json(jwk), string_member("alg"@, jwk.alg@)),
        contains_text(jwk_json(jwk), string_member("e"@, jwk.e@)),
        contains_text(jwk_json(jwk), string_member("kid"@, jwk.kid@)),
        contains_text(jwk_json(jwk), string_member("kty"@, jwk.kty@)),
        contains_text(jwk_json(jwk), string_member("n"@, jwk.n@)),
        contains_text(jwk_json(jwk), string_member("use"@, jwk.key_use@)),
        contains_text(jwks_json(jwk), string_member("kid"@, jwk.kid@)),
{
    lemma_jwk_json_pieces(jwk);
    let c = seq![','];
    let m_alg = string_member("alg"@, jwk.alg@);
    let m_e = string_member("e"@, jwk.e@);
    let m_kid = string_member("kid"@, jwk.kid@);
    let m_kty = string_member("kty"@, jwk.kty@);
    let m_n = string_member("n"@, jwk.n@);
    let m_use = string_member("use"@, jwk.key_use@);
    let p0 = seq!['{'];
    let p1 = p0 + m_alg + c;
    let p2 = p1 + m_e + c;
    let p3 = p2 + m_kid + c;
    let p4 = p3 + m_kty + c;
    let p5 = p4 + m_n + c;
    let t5 = seq!['}'];
    let t4 = c + m_use + t5;
    let t3 = c + m_n + t4;
    let t2 = c + m_kty + t3;
    let t1 = c + m_kid + t2;
    let t0 = c + m_e + t1;
    let text = jwk_json(jwk);
    assert(text =~= p0 + m_alg + t0);
    lemma_contains_middle(p0, m_alg, t0);
    assert(text =~= p1 + m_e + t1);
    lemma_contains_middle(p1, m_e, t1);
    assert(text =~= p2 + m_kid + t2);
    lemma_contains_middle(p2, m_kid, t2);
    assert(text =~= p3 + m_kty + t3);
    lemma_contains_middle(p3, m_kty, t3);
    assert(text =~= p4 + m_n + t4);
    lemma_contains_middle(p4, m_n, t4);
    assert(text =~= p5 + m_use + t5);
    lemma_contains_middle(p5, m_use, t5);
    let head = "{\"keys\":["@ + p2;
    let tail = t2 + "]}"@;
    assert(jwks_json(jwk) =~= head + m_kid + tail);
    lemma_contains_middle(head, m_kid, tail);
}

impl Jwk {
    /// The JWK as a compact JSON object.
    pub fn to_json(&self) -> (res: String)
        ensures
            res@ == jwk_json(*self),
    {
        let mut out = String::new();
        out.append("{\"alg\":");
        push_json_string(&mut out, self.alg.as_str());
        out.append(",\"e\":");
        push_json_string(&mut out, self.e.as_str());
        out.append(",\"kid\":");
        push_json_string(&mut out, self.kid.as_str());
        out.append(",\"kty\":");
        push_json_string(&mut out, self.kty.as_str());
        out.append(",\"n\":");
        push_json_string(&mut out, self.n.as_str());
        out.append(",\"use\":");
        push_json_string(&mut out, self.key_use.as_str());
        out.append("}");
        assert(out@ =~= jwk_json(*self));
        out
    }
}

/// The JWKS document (`{"keys":[...]}`) publishing the given key.
pub fn jwks_document(jwk: &Jwk) -> (res: String)
    ensures
        res@ == jwks_json(*jwk),
{
    let mut out = "{\"keys\":[".to_string();
    let body = jwk.to_json();
    out.append(body.as_str());
    out.append("]}");
    assert(out@ =~= jwks_json(*jwk));
    out
}

/// The JWKS document for the RSA public key in a PKCS#1 PEM text.
pub fn jwks_from_public_pem(public_pem: &str) -> (res: Result<String, KeyError>)
    ensures
        match res {
            Ok(doc) => exists|jwk: Jwk| #![trigger jwks_json(jwk)]
                doc@ == jwks_json(jwk) && jwk_of(public_pem@, jwk),
            Err(e) => (rsa_public_pem_components(public_pem@) is None || rsa_public_pem_der(
                public_pem@,
            ) is None) && pem_failure_message(e.message@),
        },
{
    let jwk = build_jwk_from_public_pem(public_pem)?;
    let doc = jwks_document(&jwk);
    Ok(doc)
}

} // verus!
