use vstd::prelude::*;
use argon2::password_hash::{PasswordHasher, PasswordVerifier, Salt, SaltString};
use crate::models::Claims;

verus! {

#[verifier::external_type_specification]
#[verifier::external_body]
pub struct ExPasswordHashError(argon2::password_hash::Error);

#[verifier::external_type_specification]
#[verifier::external_body]
pub struct ExJwtError(jsonwebtoken::errors::Error);

/// Whether `argon2::PasswordHash::new` accepts a text as a PHC string.
pub uninterp spec fn spec_phc_parses(phc: Seq<char>) -> bool;

/// Whether Argon2, run with the algorithm, version, parameters and salt that a PHC
/// string records, reproduces the output that the string records for a password.
pub uninterp spec fn spec_argon2_verifies(password: Seq<char>, phc: Seq<char>) -> bool;

/// The HS256 JSON Web Token that `jsonwebtoken::encode` makes, with the default
/// header, of the claims `sub`, `email`, `role` and `exp` under a secret.
pub uninterp spec fn spec_hs256_token(
    sub: Seq<char>,
    email: Seq<char>,
    role: Seq<char>,
    exp: usize,
    secret: Seq<char>,
) -> Seq<char>;

/// Whether a character belongs to the standard Base64 alphabet.
pub open spec fn is_base64_char(c: char) -> bool {
    ('A' <= c <= 'Z') || ('a' <= c <= 'z') || ('0' <= c <= '9') || c == '+' || c == '/'
}

/// The unpadded standard Base64 text of sixteen bytes, as a salt is written in a PHC
/// string: 22 characters of the alphabet, the last of which carries four zero bits
/// (so it is one of `A`, `Q`, `g`, `w`).
pub open spec fn is_salt_text(s: Seq<char>) -> bool {
    &&& s.len() == 22
    &&& forall|i: int| 0 <= i < 22 ==> is_base64_char(#[trigger] s[i])
    &&& (s[21] == 'A' || s[21] == 'Q' || s[21] == 'g' || s[21] == 'w')
}

/// Whether a text starts as every PHC string does, with `$`.
pub open spec fn starts_with_dollar(s: Seq<char>) -> bool {
    s.len() > 0 && s[0] == '$'
}

/// Calls `argon2::PasswordHash::new` on a stored hash and reports whether it parses.
/// Claimed: the answer is a function of the text alone, and a text that parses starts
/// with `$` (the parser refuses an empty text and one whose first `$`-separated field
/// is not empty).
#[verifier::external_body]
pub(crate) fn phc_parses(phc: &str) -> (r: bool)
    ensures
        r == spec_phc_parses(phc@),
        r ==> starts_with_dollar(phc@),
{
    argon2::PasswordHash::new(phc).is_ok()
}

/// Calls `Argon2::default().verify_password` on a password and a stored PHC string
/// (parsed with `argon2::PasswordHash::new`, which the precondition says succeeds).
/// Claimed: the answer is a function of the password and the PHC string alone, since
/// verification takes every parameter from the PHC string. Not stated: verifying a
/// PHC string whose memory cost exceeds what the machine can allocate aborts.
#[verifier::external_body]
pub(crate) fn argon2_verifies(password: &str, phc: &str) -> (r: bool)
    requires
        spec_phc_parses(phc@),
    ensures
        r == spec_argon2_verifies(password@, phc@),
{
    match argon2::PasswordHash::new(phc) {
        Ok(hash) => argon2::Argon2::default().verify_password(password.as_bytes(), &hash).is_ok(),
        Err(_) => false,
    }
}

/// Calls `SaltString::generate` with the operating system's random source and returns
/// the salt's text. Claimed: `generate` Base64-encodes sixteen random bytes without
/// padding, so the text has the shape of [`is_salt_text`]; its letters are chance.
/// `OsRng` panics where the system's random source fails, which no precondition can
/// rule out.
#[verifier::external_body]
pub(crate) fn fresh_salt() -> (salt: String)
    ensures
        is_salt_text(salt@),
{
    SaltString::generate(&mut argon2::password_hash::rand_core::OsRng).as_str().to_string()
}

/// Calls `Argon2::default().hash_password` on a password and a salt text (read with
/// `Salt::from_b64`) and renders the hash as a PHC string. Claimed: a PHC string that
/// comes back starts with `$`, parses, and verifying the same password against it
/// succeeds (`verify_password` recomputes the hash with the parameters and salt that
/// the string records and compares the outputs). Hashing succeeds for a salt text of
/// the shape of [`is_salt_text`] (it decodes to sixteen bytes, within Argon2's 8 to
/// 2^32 - 1) and a password of fewer than 2^30 characters (so under 2^32 bytes); the
/// default parameters are valid, so no other error arises.
#[verifier::external_body]
pub(crate) fn argon2_hash(password: &str, salt: &str) -> (r: Result<String, argon2::password_hash::Error>)
    ensures
        r matches Ok(phc) ==> starts_with_dollar(phc@) && spec_phc_parses(phc@)
            && spec_argon2_verifies(password@, phc@),
        is_salt_text(salt@) && password@.len() < 0x4000_0000 ==> r is Ok,
{
    match Salt::from_b64(salt) {
        Ok(salt) => match argon2::Argon2::default().hash_password(password.as_bytes(), salt) {
            Ok(hash) => Ok(hash.to_string()),
            Err(e) => Err(e),
        },
        Err(e) => Err(e),
    }
}

/// The `Display` text of a `password_hash::Error`; nothing is claimed of it.
#[verifier::external_body]
pub(crate) fn password_hash_error_text(e: &argon2::password_hash::Error) -> (text: String) {
    e.to_string()
}

/// Calls `jsonwebtoken::encode` with `Header::default()` (HS256), a JSON object that
/// holds the four claims in the order `sub`, `email`, `role`, `exp` (serde_json keeps
/// insertion order), and `EncodingKey::from_secret` of the secret's bytes.
/// Claimed: the token is a function of the claims and the secret alone, and encoding
/// succeeds: the key's family matches HS256, an HMAC key of any length is accepted,
/// serialising a JSON value cannot fail, and HMAC signing returns `Ok`.
#[verifier::external_body]
pub(crate) fn sign_claims(claims: &Claims, secret: &str) -> (r: Result<String, jsonwebtoken::errors::Error>)
    ensures
        r is Ok,
        r matches Ok(token) ==> token@ == spec_hs256_token(
            claims.sub@,
            claims.email@,
            claims.role@,
            claims.exp,
            secret@,
        ),
{
    let mut payload = serde_json::Map::new();
    payload.insert(String::from("sub"), serde_json::Value::from(claims.sub.as_str()));
    payload.insert(String::from("email"), serde_json::Value::from(claims.email.as_str()));
    payload.insert(String::from("role"), serde_json::Value::from(claims.role.as_str()));
    payload.insert(String::from("exp"), serde_json::Value::from(claims.exp));
    let key = jsonwebtoken::EncodingKey::from_secret(secret.as_bytes());
    jsonwebtoken::encode(&jsonwebtoken::Header::default(), &serde_json::Value::Object(payload), &key)
}

/// The `Display` text of a `jsonwebtoken` error; nothing is claimed of it.
#[verifier::external_body]
pub(crate) fn jwt_error_text(e: &jsonwebtoken::errors::Error) -> (text: String) {
    e.to_string()
}

} // verus!
