//! Random identifiers, and the refresh tokens made of them.

use vstd::prelude::*;

use rand::RngCore;
use sha2::Digest;

use crate::status::{Code, Status};
use crate::text::{chars_of, hex_text, string_of};
use crate::{status, text};

verus! {

/// The SHA-256 digest of the bytes.
pub uninterp spec fn sha256(bytes: Seq<u8>) -> Seq<u8>;

/// `sha2::Sha256::digest`: the digest is a function of the bytes and has 32 bytes.
#[verifier::external_body]
fn sha256_digest(bytes: &[u8]) -> (r: Vec<u8>)
    ensures
        r@ == sha256(bytes@),
        r@.len() == 32,
{
    sha2::Sha256::digest(bytes).to_vec()
}

/// `rand::rngs::OsRng::try_fill_bytes`: 32 bytes of the operating system's random source,
/// or nothing where that source fails. Which bytes they are is left open.
#[verifier::external_body]
fn random_bytes() -> (r: Option<Vec<u8>>)
    ensures
        r matches Some(bytes) ==> bytes@.len() == 32,
{
    let mut bytes = vec![0u8; 32];
    rand::rngs::OsRng.try_fill_bytes(&mut bytes).ok().map(|_| bytes)
}

/// A key of 32 random bytes; nothing where the operating system's random source fails.
pub fn generate_jwt_secret() -> (r: Option<Vec<u8>>)
    ensures
        r matches Some(bytes) ==> bytes@.len() == 32,
{
    random_bytes()
}

/// The digest of a text, in lower-case hexadecimal.
pub fn sha256_hex(contents: &str) -> (r: String)
    ensures
        r@ == text::hex(sha256(vstd::utf8::encode_utf8(contents@))),
        r@.len() == 64,
{
    let digest = sha256_digest(contents.as_bytes());
    proof {
        lemma_hex(digest@);
    }
    hex_text(digest.as_slice())
}

/// A lower-case hexadecimal digit.
pub open spec fn hex_digit(c: char) -> bool {
    ('0' <= c && c <= '9') || ('a' <= c && c <= 'f')
}

pub proof fn lemma_hex(bytes: Seq<u8>)
    ensures
        text::hex(bytes).len() == 2 * bytes.len(),
        forall|i: int| 0 <= i < text::hex(bytes).len() ==> hex_digit(#[trigger] text::hex(bytes)[i]),
    decreases bytes.len(),
{
    if bytes.len() > 0 {
        lemma_hex(bytes.drop_last());
        let high = bytes.last() as int / 16;
        let low = bytes.last() as int % 16;
        assert(0 <= high < 16 && 0 <= low < 16);
        assert(hex_digit(text::digit(high)));
        assert(hex_digit(text::digit(low)));
    }
}

/// The first `len` of the bytes, or all where there are fewer, in hexadecimal.
pub fn hex_of_first(bytes: &[u8], len: usize) -> (r: String)
    ensures
        r@ == text::hex(bytes@.take(if len <= bytes@.len() { len as int } else { bytes@.len() as int })),
{
    let n: usize = if len <= bytes.len() {
        len
    } else {
        bytes.len()
    };
    let part = vstd::slice::slice_subrange(bytes, 0, n);
    assert(part@ =~= bytes@.take(n as int));
    hex_text(part)
}

/// The first `len` of the bytes, or all where there are fewer, in hexadecimal; nothing where
/// there are no bytes to be had.
pub fn hex_of_any(bytes: Option<Vec<u8>>, len: usize) -> (r: Option<String>)
    ensures
        match bytes {
            Some(bytes) => r matches Some(id) && id@ == text::hex(
                bytes@.take(if len <= bytes@.len() { len as int } else { bytes@.len() as int }),
            ),
            None => r is None,
        },
{
    match bytes {
        Some(bytes) => Some(hex_of_first(bytes.as_slice(), len)),
        None => None,
    }
}

/// `len` random bytes, at most 32, in hexadecimal; nothing where the operating system's
/// random source fails.
pub fn random_hex(len: usize) -> (r: Option<String>)
    ensures
        r matches Some(id) ==> {
            &&& id@.len() == 2 * (if len <= 32 { len as int } else { 32 })
            &&& forall|i: int| 0 <= i < id@.len() ==> hex_digit(#[trigger] id@[i])
        },
{
    let bytes = random_bytes();
    proof {
        if bytes is Some {
            lemma_hex(bytes->0@.take(if len <= 32 { len as int } else { 32 }));
        }
    }
    hex_of_any(bytes, len)
}

/// A random identifier for a login in progress, of 64 hexadecimal digits; nothing where the
/// operating system's random source fails.
pub fn generate_auth_session_id() -> (r: Option<String>)
    ensures
        r matches Some(id) ==> {
            &&& id@.len() == 64
            &&& forall|i: int| 0 <= i < id@.len() ==> hex_digit(#[trigger] id@[i])
        },
{
    random_hex(32)
}

/// The digest under which the secret of a refresh token is kept.
pub open spec fn secret_hash(secret: Seq<char>) -> Seq<u8> {
    sha256(vstd::utf8::encode_utf8(secret))
}

/// The digest under which the secret of a refresh token is kept.
pub fn hash_refresh_secret(secret: &str) -> (r: Vec<u8>)
    ensures
        r@ == secret_hash(secret@),
        r@.len() == 32,
{
    sha256_digest(secret.as_bytes())
}

/// A refresh token, the selector under which it is kept, and the digest of its secret.
pub struct RefreshToken {
    pub token: String,
    pub selector: String,
    pub token_hash: Vec<u8>,
}

/// The refresh token with this selector and this secret.
pub open spec fn refresh_token_text(selector: Seq<char>, secret: Seq<char>) -> Seq<char> {
    selector + "."@ + secret
}

/// The refresh token with this selector and this secret.
pub fn refresh_token_of(selector: String, secret: &str) -> (r: RefreshToken)
    ensures
        r.token@ == refresh_token_text(selector@, secret@),
        r.selector@ == selector@,
        r.token_hash@ == secret_hash(secret@),
{
    let mut token = selector.clone();
    token.append(".");
    token.append(secret);
    let token_hash = hash_refresh_secret(secret);
    RefreshToken { token, selector, token_hash }
}

/// The refresh token with this selector and this secret, where there are both.
pub fn refresh_token_of_any(selector: Option<String>, secret: Option<String>) -> (r: Option<
    RefreshToken,
>)
    ensures
        match (selector, secret) {
            (Some(selector), Some(secret)) => {
                &&& r matches Some(token)
                &&& token.token@ == refresh_token_text(selector@, secret@)
                &&& token.selector@ == selector@
                &&& token.token_hash@ == secret_hash(secret@)
            },
            _ => r is None,
        },
{
    match (selector, secret) {
        (Some(selector), Some(secret)) => Some(refresh_token_of(selector, secret.as_str())),
        _ => None,
    }
}

/// Whether `token` is well made: its parts are `selector` and a secret, both hexadecimal,
/// and the digest is that of the secret.
pub open spec fn fresh_token(token: RefreshToken) -> bool {
    exists|secret: Seq<char>|
        {
            &&& #[trigger] refresh_token_text(token.selector@, secret) == token.token@
            &&& token.token_hash@ == secret_hash(secret)
            &&& token.selector@.len() == 32
            &&& secret.len() == 64
            &&& forall|i: int| 0 <= i < 32 ==> hex_digit(#[trigger] token.selector@[i])
            &&& forall|i: int| 0 <= i < 64 ==> hex_digit(#[trigger] secret[i])
        }
}

/// A random refresh token; nothing where the operating system's random source fails.
pub fn generate_refresh_token() -> (r: Option<RefreshToken>)
    ensures
        r matches Some(token) ==> fresh_token(token),
{
    refresh_token_of_any(random_hex(16), random_hex(32))
}

/// The selector and the secret of a refresh token: what stands before and behind its first
/// dot, where neither is empty.
pub open spec fn token_parts(token: Seq<char>) -> Option<(Seq<char>, Seq<char>)> {
    match token.index_of_first('.') {
        Some(dot) => if 0 < dot && dot + 1 < token.len() {
            Some((token.take(dot), token.skip(dot + 1)))
        } else {
            None
        },
        None => None,
    }
}

/// The refusal of a refresh token that is not good.
pub open spec fn invalid_refresh_token() -> status::StatusView {
    status::refusal(Code::Unauthenticated, "invalid refresh token"@)
}

/// The selector and the secret of a refresh token.
pub fn parse_refresh_token(token: &str) -> (r: Result<(String, String), Status>)
    ensures
        match token_parts(token@) {
            Some(parts) => r matches Ok(found) && found.0@ == parts.0 && found.1@ == parts.1,
            None => r matches Err(status) && status@ == invalid_refresh_token(),
        },
{
    let chars = chars_of(token);
    let mut dot: usize = 0;
    while dot < chars.len() && chars[dot] != '.'
        invariant
            dot <= chars.len(),
            forall|j: int| 0 <= j < dot ==> chars@[j] != '.',
        decreases chars.len() - dot,
    {
        dot += 1;
    }
    proof {
        chars@.index_of_first_ensures('.');
    }
    if dot == 0 || dot >= chars.len() || dot + 1 >= chars.len() {
        return Err(Status::new(Code::Unauthenticated, "invalid refresh token"));
    }
    assert(chars@.subrange(0, dot as int) =~= token@.take(dot as int));
    assert(chars@.subrange(dot + 1, chars@.len() as int) =~= token@.skip(dot + 1));
    Ok((string_of(&chars, 0, dot), string_of(&chars, dot + 1, chars.len())))
}

/// A refresh token is parsed into the selector and the secret that it was made of, where
/// neither is empty and the selector holds no dot.
pub proof fn law_refresh_token_parses(selector: Seq<char>, secret: Seq<char>)
    requires
        selector.len() > 0,
        secret.len() > 0,
        !selector.contains('.'),
    ensures
        token_parts(refresh_token_text(selector, secret)) == Some((selector, secret)),
{
    reveal_strlit(".");
    let token = refresh_token_text(selector, secret);
    let dot = selector.len() as int;
    assert(token[dot] == '.');
    token.index_of_first_ensures('.');
    let found = token.index_of_first('.').unwrap();
    assert(found == dot) by {
        if found < dot {
            assert(token[found] == selector[found]);
        }
    }
    assert(token.take(dot) =~= selector);
    assert(token.skip(dot + 1) =~= secret);
}

/// A generated refresh token is parsed into its own selector and into the secret whose
/// digest goes with it.
pub proof fn law_generated_token_parses(token: RefreshToken)
    requires
        fresh_token(token),
    ensures
        token_parts(token.token@) matches Some(parts) && parts.0 == token.selector@
            && token.token_hash@ == secret_hash(parts.1),
{
    let secret = choose|secret: Seq<char>|
        {
            &&& #[trigger] refresh_token_text(token.selector@, secret) == token.token@
            &&& token.token_hash@ == secret_hash(secret)
            &&& token.selector@.len() == 32
            &&& secret.len() == 64
            &&& forall|i: int| 0 <= i < 32 ==> hex_digit(#[trigger] token.selector@[i])
            &&& forall|i: int| 0 <= i < 64 ==> hex_digit(#[trigger] secret[i])
        };
    law_refresh_token_parses(token.selector@, secret);
}

} // verus!
