//! Password hashing and verification.

use vstd::prelude::*;

use crate::crypto::{hex_encode, hex_lower, lemma_hex_lower_len, sha256, sha256_digest};
use crate::text::{lower_ascii, lower_ascii_seq, prefix_chars, spec_prefix};
use vstd::string::StringExecFns;

verus! {

broadcast use vstd::string::group_string_axioms;

/// How stored passwords are derived from the plain text.
#[derive(Debug, Clone, Copy, PartialEq, Eq, Structural)]
pub enum PasswordHashAlgorithm {
    Plain,
    Sha256Hex,
}

/// Number of characters of the first round that are mixed into the second.
pub const HEAD_LEN: usize = 32;

/// `"sha256"`
pub open spec fn name_sha256() -> Seq<char> {
    seq!['s', 'h', 'a', '2', '5', '6']
}

/// `"sha256hex"`
pub open spec fn name_sha256hex() -> Seq<char> {
    seq!['s', 'h', 'a', '2', '5', '6', 'h', 'e', 'x']
}

/// The algorithm a configuration name selects: `sha256` or `sha256hex` in any
/// ASCII case selects SHA-256/hex, every other name selects plain text.
pub open spec fn spec_algorithm_from_name(name: Seq<char>) -> PasswordHashAlgorithm {
    let lower = lower_ascii_seq(name);
    if lower == name_sha256() || lower == name_sha256hex() {
        PasswordHashAlgorithm::Sha256Hex
    } else {
        PasswordHashAlgorithm::Plain
    }
}

/// Lower-case hex SHA-256 of the UTF-8 encoding of a text.
pub open spec fn sha256_hex_of(text: Seq<char>) -> Seq<char> {
    hex_lower(sha256(vstd::utf8::encode_utf8(text)))
}

/// The first round: the password itself, or its SHA-256 hex.
pub open spec fn spec_first_round(password: Seq<char>, mode: PasswordHashAlgorithm) -> Seq<char> {
    match mode {
        PasswordHashAlgorithm::Plain => password,
        PasswordHashAlgorithm::Sha256Hex => sha256_hex_of(password),
    }
}

/// The password followed by the first 32 characters of the first round.
pub open spec fn spec_composite(password: Seq<char>, mode: PasswordHashAlgorithm) -> Seq<char> {
    password + spec_prefix(spec_first_round(password, mode), HEAD_LEN as nat)
}

/// The stored form of a password.
pub open spec fn spec_hash_password(password: Seq<char>, mode: PasswordHashAlgorithm) -> Seq<char> {
    match mode {
        PasswordHashAlgorithm::Plain => spec_composite(password, mode),
        PasswordHashAlgorithm::Sha256Hex => sha256_hex_of(spec_composite(password, mode)),
    }
}

impl PasswordHashAlgorithm {
    /// Reads an algorithm name; names other than `sha256`/`sha256hex` (any
    /// ASCII case) select plain text.
    pub fn from_name(name: &str) -> (res: PasswordHashAlgorithm)
        ensures
            res == spec_algorithm_from_name(name@),
    {
        let lower = lower_ascii(name);
        let a = sha256_name();
        let b = sha256hex_name();
        if crate::text::chars_eq(&lower, &a) || crate::text::chars_eq(&lower, &b) {
            PasswordHashAlgorithm::Sha256Hex
        } else {
            PasswordHashAlgorithm::Plain
        }
    }
}

impl std::str::FromStr for PasswordHashAlgorithm {
    type Err = ();

    /// Never fails: see `from_name`.
    fn from_str(s: &str) -> (res: Result<PasswordHashAlgorithm, ()>)
        ensures
            res == Ok::<PasswordHashAlgorithm, ()>(spec_algorithm_from_name(s@)),
    {
        Ok(PasswordHashAlgorithm::from_name(s))
    }
}

fn sha256_name() -> (v: Vec<char>)
    ensures
        v@ == name_sha256(),
{
    let v: Vec<char> = vec!['s', 'h', 'a', '2', '5', '6'];
    assert(v@ =~= name_sha256());
    v
}

fn sha256hex_name() -> (v: Vec<char>)
    ensures
        v@ == name_sha256hex(),
{
    let v: Vec<char> = vec!['s', 'h', 'a', '2', '5', '6', 'h', 'e', 'x'];
    assert(v@ =~= name_sha256hex());
    v
}

fn sha256_hex_text(text: &str) -> (res: String)
    ensures
        res@ == sha256_hex_of(text@),
        res@.len() == 64,
{
    let digest = sha256_digest(text.as_bytes());
    proof {
        lemma_hex_lower_len(digest@);
    }
    hex_encode(digest.as_slice())
}

/// The stored form is built from the password exactly as given, with no case
/// folding or other rewriting: under SHA-256/hex it is the hex SHA-256 of the
/// password followed by the first 32 hex digits of the password's own hex
/// SHA-256; in plain mode it is the password followed by its first 32
/// characters.
pub proof fn lemma_stored_form_uses_password_as_given(password: Seq<char>)
    ensures
        ({
            let first = hex_lower(sha256(vstd::utf8::encode_utf8(password)));
            let head = if first.len() <= 32 {
                first
            } else {
                first.take(32)
            };
            spec_hash_password(password, PasswordHashAlgorithm::Sha256Hex) == hex_lower(
                sha256(vstd::utf8::encode_utf8(password + head)),
            )
        }),
        spec_hash_password(password, PasswordHashAlgorithm::Plain) == password + (if password.len()
            <= 32 {
            password
        } else {
            password.take(32)
        }),
{
}

/// Derives the stored form of `password`: the password followed by the first
/// 32 characters of a first round (the password itself, or its SHA-256 hex);
/// with SHA-256/hex, that text is hashed once more.
pub fn hash_password(password: &str, mode: PasswordHashAlgorithm) -> (res: String)
    ensures
        res@ == spec_hash_password(password@, mode),
        mode == PasswordHashAlgorithm::Sha256Hex ==> res@.len() == 64,
{
    let first = match mode {
        PasswordHashAlgorithm::Plain => password.to_string(),
        PasswordHashAlgorithm::Sha256Hex => sha256_hex_text(password),
    };
    let head = prefix_chars(first.as_str(), HEAD_LEN);
    let mut composite = password.to_string();
    composite.append(head.as_str());
    match mode {
        PasswordHashAlgorithm::Plain => composite,
        PasswordHashAlgorithm::Sha256Hex => sha256_hex_text(composite.as_str()),
    }
}

/// Whether `input_password` hashes to `stored_password` under `mode`.
pub fn verify_password(
    input_password: &str,
    stored_password: &str,
    mode: PasswordHashAlgorithm,
) -> (res: bool)
    ensures
        res == spec_verify_password(input_password@, stored_password@, mode),
{
    let input_hashed = hash_password(input_password, mode);
    let stored = stored_password.to_string();
    input_hashed == stored
}

/// Algorithm names are read without regard to ASCII case: a name selects the
/// same algorithm as its lower-cased form.
pub proof fn lemma_algorithm_name_case_insensitive(name: Seq<char>)
    ensures
        spec_algorithm_from_name(name) == spec_algorithm_from_name(lower_ascii_seq(name)),
{
    assert(lower_ascii_seq(lower_ascii_seq(name)) =~= lower_ascii_seq(name));
}

/// Whether `input` is accepted against `stored` under `mode`.
pub open spec fn spec_verify_password(
    input: Seq<char>,
    stored: Seq<char>,
    mode: PasswordHashAlgorithm,
) -> bool {
    spec_hash_password(input, mode) == stored
}

/// A password is accepted against its own stored form, under either mode.
pub proof fn lemma_hash_then_verify(password: Seq<char>, mode: PasswordHashAlgorithm)
    ensures
        spec_verify_password(password, spec_hash_password(password, mode), mode),
{
}

/// In plain mode the stored form is the password followed by its first 32
/// characters, and a stored text is accepted for exactly one input length.
pub proof fn lemma_plain_stored_form(password: Seq<char>)
    ensures
        spec_hash_password(password, PasswordHashAlgorithm::Plain).take(password.len() as int)
            == password,
        spec_hash_password(password, PasswordHashAlgorithm::Plain).len() == password.len() + (
        if password.len() <= 32 {
            password.len()
        } else {
            32
        }),
{
    let stored = spec_hash_password(password, PasswordHashAlgorithm::Plain);
    assert(stored.take(password.len() as int) =~= password);
}

} // verus!
