use vstd::prelude::*;
use vstd::utf8::encode_utf8;

verus! {

/// Number of random bytes in a session token.
pub const TOKEN_BYTES: usize = 48;

/// The URL-safe base64 text, with padding, of a byte string.
pub uninterp spec fn base64_url(bytes: Seq<u8>) -> Seq<char>;

/// What signing gives for a claims object and a secret: the compact form of a JSON Web
/// Token with the default header, signed with HMAC-SHA256; `None` where the claims are not
/// one JSON value.
pub uninterp spec fn jwt_hs256(claims: Seq<char>, secret: Seq<u8>) -> Option<Seq<char>>;

/// `rand::thread_rng`, then `RngCore::fill_bytes` on a buffer of `len` bytes. Of the bytes
/// only their number is claimed; the `requires` keeps the buffer to a size that can be
/// asked for.
#[verifier::external_body]
fn random_bytes(len: usize) -> (bytes: Vec<u8>)
    requires
        len <= isize::MAX,
    ensures
        bytes@.len() == len,
{
    let mut bytes = vec![0u8; len];
    rand::RngCore::fill_bytes(&mut rand::thread_rng(), &mut bytes);
    bytes
}

/// `base64::encode_config` with `base64::URL_SAFE`. The contract claims that the text is a
/// function of the bytes alone, and names it; that it has four characters for every three
/// bytes or part of three, as the encoder reckons its size; and that no other bytes give
/// the same text, since the text can be decoded back. The `requires` keeps the input to
/// lengths whose encoded size fits a `usize`, on others the call panics.
#[verifier::external_body]
fn encode_url_safe(bytes: &[u8]) -> (text: String)
    requires
        bytes@.len() / 3 * 4 + 4 <= usize::MAX,
    ensures
        text@ == base64_url(bytes@),
        text@.len() == (bytes@.len() + 2) / 3 * 4,
        forall|other: Seq<u8>| #[trigger] base64_url(other) == text@ ==> other == bytes@,
{
    base64::encode_config(bytes, base64::URL_SAFE)
}

/// `jsonwebtoken::encode` with `Header::default()`, the claims handed over as raw JSON
/// (`serde_json::value::RawValue::from_string`) and the key `EncodingKey::from_secret`.
/// The contract claims that the outcome is a function of the claims text and the secret
/// alone, and names it.
#[verifier::external_body]
fn sign_claims(claims: &str, secret: &[u8]) -> (token: Option<String>)
    ensures
        token matches Some(text) ==> jwt_hs256(claims@, secret@) == Some(text@),
        token is None ==> jwt_hs256(claims@, secret@) is None,
{
    let claims = serde_json::value::RawValue::from_string(claims.to_owned()).ok()?;
    let key = jsonwebtoken::EncodingKey::from_secret(secret);
    jsonwebtoken::encode(&jsonwebtoken::Header::default(), &claims, &key).ok()
}

/// `text` is the session token for the bytes drawn: their URL-safe base64 text, 64
/// characters for the 48 bytes, which no other bytes give.
pub open spec fn is_token_of(text: Seq<char>, bytes: Seq<u8>) -> bool {
    &&& bytes.len() == TOKEN_BYTES
    &&& text == base64_url(bytes)
    &&& text.len() == 64
    &&& forall|other: Seq<u8>| #[trigger] base64_url(other) == text ==> other == bytes
}

/// `text` is a session token: the token for some 48 bytes.
pub open spec fn is_session_token(text: Seq<char>) -> bool {
    exists|bytes: Seq<u8>| is_token_of(text, bytes)
}

/// Tokens do not repeat unless the draws do: the tokens for two different draws of bytes
/// are different.
pub proof fn lemma_different_draws_give_different_tokens(
    first: Seq<char>,
    first_drawn: Seq<u8>,
    second: Seq<char>,
    second_drawn: Seq<u8>,
)
    requires
        is_token_of(first, first_drawn),
        is_token_of(second, second_drawn),
        first_drawn != second_drawn,
    ensures
        first != second,
{
}

/// Writes a session token for the given bytes.
pub fn token_of(bytes: &[u8]) -> (token: String)
    requires
        bytes@.len() == TOKEN_BYTES,
    ensures
        is_token_of(token@, bytes@),
        is_session_token(token@),
{
    encode_url_safe(bytes)
}

/// Draws 48 random bytes and writes them as a session token: an opaque key that carries
/// no claims.
pub fn fresh_token() -> (token: String)
    ensures
        is_session_token(token@),
{
    let bytes = random_bytes(TOKEN_BYTES);
    token_of(bytes.as_slice())
}

/// Signs a claims object, given as JSON text, with the secret.
pub fn access_token(claims: &str, secret: &str) -> (token: Option<String>)
    ensures
        token matches Some(text) ==> jwt_hs256(claims@, encode_utf8(secret@)) == Some(text@),
        token is None ==> jwt_hs256(claims@, encode_utf8(secret@)) is None,
{
    sign_claims(claims, secret.as_bytes())
}

} // verus!
