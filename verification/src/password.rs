use vstd::prelude::*;
use vstd::utf8::encode_utf8;

verus! {

/// The encoded Argon2 hash of a password under a salt, with the hasher's default settings;
/// `None` where the hasher refuses the input (a salt of fewer than 8 bytes, for one).
pub uninterp spec fn argon2_encoded(password: Seq<u8>, salt: Seq<u8>) -> Option<Seq<char>>;

/// Whether a password verifies against an encoded Argon2 hash; `None` where the text is
/// no encoded hash.
pub uninterp spec fn argon2_verdict(encoded: Seq<char>, password: Seq<u8>) -> Option<bool>;

/// `argon2::hash_encoded` with `argon2::Config::default()`. The contract claims that the
/// outcome is a function of password and salt alone, names it, and claims what the hasher's
/// documentation shows by example: a hash that it gave verifies against the password that
/// it was made from.
#[verifier::external_body]
fn hash_encoded(password: &[u8], salt: &[u8]) -> (encoded: Option<String>)
    ensures
        encoded matches Some(text) ==> argon2_encoded(password@, salt@) == Some(text@)
            && argon2_verdict(text@, password@) == Some(true),
        encoded is None ==> argon2_encoded(password@, salt@) is None,
{
    argon2::hash_encoded(password, salt, &argon2::Config::default()).ok()
}

/// `argon2::verify_encoded`. The contract claims that the outcome is a function of the
/// encoded hash and the password alone, and names it. The comparison inside is the
/// hasher's own, in constant time.
#[verifier::external_body]
fn verify_encoded(encoded: &str, password: &[u8]) -> (verdict: Option<bool>)
    ensures
        verdict == argon2_verdict(encoded@, password@),
{
    argon2::verify_encoded(encoded, password).ok()
}

/// The password verifies against the stored hash.
pub open spec fn password_matches(hash: Seq<char>, password: Seq<char>) -> bool {
    argon2_verdict(hash, encode_utf8(password)) == Some(true)
}

/// Derives the hash under which a password is stored.
///
/// The salt is the process-wide secret, the same for every user: two users with one
/// password get one hash. A salt drawn per user would mend that; it is kept as it is so
/// that hashes already stored still verify.
///
/// A hash that comes back verifies against the password it was made from.
pub fn hash_password(password: &str, secret: &str) -> (hash: Option<String>)
    ensures
        hash matches Some(text) ==> argon2_encoded(encode_utf8(password@), encode_utf8(secret@))
            == Some(text@) && password_matches(text@, password@),
        hash is None ==> argon2_encoded(encode_utf8(password@), encode_utf8(secret@)) is None,
{
    hash_encoded(password.as_bytes(), secret.as_bytes())
}

/// Verifies a password against a stored hash: `None` where the stored text is no hash.
pub fn verify_password(hash: &str, password: &str) -> (verdict: Option<bool>)
    ensures
        verdict == argon2_verdict(hash@, encode_utf8(password@)),
{
    verify_encoded(hash, password.as_bytes())
}

} // verus!
