//! Session tokens, and what their bearers may do.

use vstd::prelude::*;

use serde_json::from_value;

use crate::clock::now_unix;
use crate::status::{Code, Status, StatusView};
use crate::text::{chars_of, same_text, string_of, text_occurs_at};
use crate::{http, status, text};

verus! {

/// What a session token says of its bearer.
#[derive(Debug)]
pub struct Claims {
    pub sub: String,
    pub role: String,
    pub permissions: Vec<String>,
    pub iat: i64,
    pub exp: i64,
}

pub struct ClaimsView {
    pub sub: Seq<char>,
    pub role: Seq<char>,
    pub permissions: Seq<Seq<char>>,
    pub iat: i64,
    pub exp: i64,
}

impl View for Claims {
    type V = ClaimsView;

    open spec fn view(&self) -> ClaimsView {
        ClaimsView {
            sub: self.sub@,
            role: self.role@,
            permissions: text::texts(self.permissions@),
            iat: self.iat,
            exp: self.exp,
        }
    }
}

/// The claims that were found, or the message of the error, in view form.
pub open spec fn claims_seen(r: Result<Claims, String>) -> Result<ClaimsView, Seq<char>> {
    match r {
        Ok(claims) => Ok(claims@),
        Err(message) => Err(message@),
    }
}

/// The seconds for which a session token is good.
pub const TOKEN_TTL_SECONDS: i64 = 28_800;

/// What a token issued at `now` says of its bearer.
pub open spec fn issued_claims(
    identity: Seq<char>,
    permissions: Seq<Seq<char>>,
    now: int,
) -> ClaimsView {
    ClaimsView {
        sub: identity,
        role: "developer"@,
        permissions,
        iat: now as i64,
        exp: (now + TOKEN_TTL_SECONDS) as i64,
    }
}

/// The token that `jsonwebtoken` makes of the claims under the secret, or the message of
/// its error.
pub uninterp spec fn jwt_text(secret: Seq<u8>, claims: ClaimsView) -> Result<Seq<char>, Seq<char>>;

/// What `jsonwebtoken` makes of a token under the secret while the token's time is not over: the
/// claims in it, or the message of its error.
pub uninterp spec fn jwt_claims(secret: Seq<u8>, token: Seq<char>) -> Result<ClaimsView, Seq<char>>;

/// The message of a clock that gives no usable time.
pub open spec fn clock_message() -> Seq<char> {
    "the system clock gives no usable time"@
}

/// The message of `jsonwebtoken` for a token whose time is over.
pub open spec fn expired_message() -> Seq<char> {
    "ExpiredSignature"@
}

/// `jsonwebtoken::encode` with the default header (HMAC with SHA-256): the token or the
/// error's message is a function of the secret and the claims, and the token carries these
/// claims under this secret, unless they expire before the epoch, which `jsonwebtoken::decode`
/// takes for no expiry at all.
#[verifier::external_body]
fn jwt_encode(secret: &[u8], claims: &Claims) -> (r: Result<String, String>)
    ensures
        match r {
            Ok(token) => jwt_text(secret@, claims@) matches Ok(made) && made == token@,
            Err(message) => jwt_text(secret@, claims@) matches Err(error) && error == message@,
        },
        claims.exp >= 0 ==> (r matches Ok(token) ==> (jwt_claims(secret@, token@) matches Ok(found)
            && found == claims@)),
{
    let mut payload = serde_json::Map::new();
    payload.insert("sub".to_string(), claims.sub.as_str().into());
    payload.insert("role".to_string(), claims.role.as_str().into());
    payload.insert("permissions".to_string(), claims.permissions.clone().into());
    payload.insert("iat".to_string(), claims.iat.into());
    payload.insert("exp".to_string(), claims.exp.into());
    let key = jsonwebtoken::EncodingKey::from_secret(secret);
    jsonwebtoken::encode(&jsonwebtoken::Header::default(), &payload, &key)
        .map_err(|e| e.to_string())
}

/// `jsonwebtoken::decode` with the default validation: the claims or the error's message are a
/// function of the secret and the token, but for a token whose time is over, which is refused
/// with the message for that. Whether its time is over depends on the clock and is left open.
/// The payload is read as a JSON object, of whose repeated fields the last counts, and its fields
/// are read last. It may panic where the clock stands before the epoch or within the leeway after
/// it, so it is called only where the clock has just been found past both.
#[verifier::external_body]
fn jwt_decode(secret: &[u8], token: &str) -> (r: Result<Claims, String>)
    ensures
        claims_seen(r) == jwt_claims(secret@, token@) || (r matches Err(message) && message@
            == expired_message()),
{
    let key = jsonwebtoken::DecodingKey::from_secret(secret);
    let validation = jsonwebtoken::Validation::default();
    let data: jsonwebtoken::TokenData<serde_json::Map<String, serde_json::Value>> =
        jsonwebtoken::decode(token, &key, &validation).map_err(|e| e.to_string())?;
    let mut fields = data.claims;
    let mut take = |name: &str| fields.remove(name).unwrap_or_default();
    let mut claims = || -> Result<Claims, serde_json::Error> {
        let sub = from_value(take("sub"))?;
        let role = from_value(take("role"))?;
        let permissions = from_value(take("permissions"))?;
        let iat = from_value(take("iat"))?;
        let exp = from_value(take("exp"))?;
        Ok(Claims { sub, role, permissions, iat, exp })
    };
    claims().map_err(|e| e.to_string())
}

/// What a token issued at `now` says of its bearer.
pub fn token_claims(identity: &str, permissions: &[String], now: i64) -> (r: Claims)
    requires
        now + TOKEN_TTL_SECONDS <= i64::MAX,
    ensures
        r@ == issued_claims(identity@, text::texts(permissions@), now as int),
{
    Claims {
        sub: identity.to_string(),
        role: "developer".to_string(),
        permissions: text::copy_texts(permissions),
        iat: now,
        exp: now + TOKEN_TTL_SECONDS,
    }
}

/// Whether `r` is what comes of issuing a token at `now`: the token, with the time at which it
/// expires, or the message of `jsonwebtoken`.
pub open spec fn issued_at(
    secret: Seq<u8>,
    identity: Seq<char>,
    permissions: Seq<Seq<char>>,
    now: int,
    r: Result<(String, i64), String>,
) -> bool {
    let claims = issued_claims(identity, permissions, now);
    match jwt_text(secret, claims) {
        Ok(token) => {
            &&& r matches Ok(made)
            &&& made.0@ == token
            &&& made.1 == now + TOKEN_TTL_SECONDS
            &&& now + TOKEN_TTL_SECONDS >= 0 ==> (jwt_claims(secret, token) matches Ok(found)
                && found == claims)
        },
        Err(error) => r matches Err(message) && message@ == error,
    }
}

/// A token issued at `now`, with the time at which it expires.
pub fn create_token_at(secret: &[u8], identity: &str, permissions: &[String], now: i64) -> (r:
    Result<(String, i64), String>)
    requires
        now + TOKEN_TTL_SECONDS <= i64::MAX,
    ensures
        issued_at(secret@, identity@, text::texts(permissions@), now as int, r),
{
    let claims = token_claims(identity, permissions, now);
    match jwt_encode(secret, &claims) {
        Ok(token) => Ok((token, claims.exp)),
        Err(message) => Err(message),
    }
}

/// A token issued at the time that the clock gives, with the time at which it expires; a
/// refusal where the clock gives none, or one at which no token can be issued.
pub fn create_token_by_clock(
    secret: &[u8],
    identity: &str,
    permissions: &[String],
    now: Option<i64>,
) -> (r: Result<(String, i64), String>)
    ensures
        if now is Some && 0 <= now->0 <= i64::MAX - TOKEN_TTL_SECONDS {
            issued_at(secret@, identity@, text::texts(permissions@), now->0 as int, r)
        } else {
            r matches Err(message) && message@ == clock_message()
        },
{
    match now {
        Some(now) => if 0 <= now && now <= i64::MAX - TOKEN_TTL_SECONDS {
            create_token_at(secret, identity, permissions, now)
        } else {
            Err("the system clock gives no usable time".to_string())
        },
        None => Err("the system clock gives no usable time".to_string()),
    }
}

/// Whether `r` is what comes of issuing a token now, whatever the time is: the token issued at
/// some time, with its expiry, or the message of the clock or of `jsonwebtoken` at some time.
pub open spec fn issued_now(
    secret: Seq<u8>,
    identity: Seq<char>,
    permissions: Seq<Seq<char>>,
    r: Result<(String, i64), String>,
) -> bool {
    match r {
        Ok(made) => {
            let now = made.1 - TOKEN_TTL_SECONDS;
            let claims = issued_claims(identity, permissions, now);
            &&& 0 <= now
            &&& jwt_text(secret, claims) matches Ok(token)
            &&& made.0@ == token
            &&& jwt_claims(secret, token) matches Ok(found)
            &&& found == claims
        },
        Err(message) => message@ == clock_message() || exists|now: int|
            #![trigger issued_claims(identity, permissions, now)]
            {
                &&& 0 <= now
                &&& jwt_text(secret, issued_claims(identity, permissions, now)) matches Err(error)
                &&& message@ == error
            },
    }
}

/// A token issued now, with the time at which it expires.
pub fn create_token(secret: &[u8], identity: &str, permissions: &[String]) -> (r: Result<
    (String, i64),
    String,
>)
    ensures
        issued_now(secret@, identity@, text::texts(permissions@), r),
{
    create_token_by_clock(secret, identity, permissions, now_unix())
}

/// The seconds by which `jsonwebtoken` lets a token outlive its expiry.
pub const TOKEN_LEEWAY_SECONDS: i64 = 60;

/// Whether `verified` is what comes of verifying a token by a usable clock, whatever the time is:
/// the claims or the message for the token while its time is not over, or the message that it is.
pub open spec fn verified_in_time(
    secret: Seq<u8>,
    token: Seq<char>,
    verified: Result<ClaimsView, Seq<char>>,
) -> bool {
    verified == jwt_claims(secret, token) || (verified matches Err(message) && message
        == expired_message())
}

/// Whether `verified` is what comes of verifying a token now, whatever the clock gives.
pub open spec fn verified_now(
    secret: Seq<u8>,
    token: Seq<char>,
    verified: Result<ClaimsView, Seq<char>>,
) -> bool {
    verified_in_time(secret, token, verified) || (verified matches Err(message) && message
        == clock_message())
}

/// The claims in a token that is good under the secret now; a refusal where the clock gives no
/// time, or one in the leeway after the epoch, from which no expiry can be judged.
pub fn verify_token_by_clock(secret: &[u8], token: &str, now: Option<i64>) -> (r: Result<
    Claims,
    String,
>)
    ensures
        if now is Some && now->0 >= TOKEN_LEEWAY_SECONDS {
            verified_in_time(secret@, token@, claims_seen(r))
        } else {
            r matches Err(message) && message@ == clock_message()
        },
{
    match now {
        Some(now) => if now >= TOKEN_LEEWAY_SECONDS {
            jwt_decode(secret, token)
        } else {
            Err("the system clock gives no usable time".to_string())
        },
        None => Err("the system clock gives no usable time".to_string()),
    }
}

/// The claims in a token that is good under the secret now.
pub fn verify_token(secret: &[u8], token: &str) -> (r: Result<Claims, String>)
    ensures
        verified_now(secret@, token@, claims_seen(r)),
{
    verify_token_by_clock(secret, token, now_unix())
}

/// Who makes a request, and what they may do.
#[derive(Clone, Debug)]
pub struct AuthContext {
    pub identity: String,
    pub permissions: Vec<String>,
}

pub struct AuthContextView {
    pub identity: Seq<char>,
    pub permissions: Seq<Seq<char>>,
}

impl View for AuthContext {
    type V = AuthContextView;

    open spec fn view(&self) -> AuthContextView {
        AuthContextView {
            identity: self.identity@,
            permissions: text::texts(self.permissions@),
        }
    }
}

/// The `authorization` header of a request.
#[derive(Clone, Debug)]
pub enum AuthorizationHeader {
    Absent,
    /// The header holds bytes that are no visible ASCII text.
    Unreadable,
    Text(String),
}

/// The token in the header, where there is a header.
pub open spec fn header_token(header: AuthorizationHeader) -> Result<
    Option<Seq<char>>,
    StatusView,
> {
    match header {
        AuthorizationHeader::Absent => Ok(None),
        AuthorizationHeader::Unreadable => Err(
            status::refusal(Code::Unauthenticated, "invalid authorization header"@),
        ),
        AuthorizationHeader::Text(value) => if text::occurs_at(value@, "Bearer "@, 0) {
            Ok(Some(value@.skip("Bearer "@.len() as int)))
        } else {
            Err(status::refusal(Code::Unauthenticated, "expected Bearer token"@))
        },
    }
}

/// The token in the header, where there is a header.
pub fn bearer_token(header: &AuthorizationHeader) -> (r: Result<Option<String>, Status>)
    ensures
        match header_token(*header) {
            Ok(None) => r matches Ok(None),
            Ok(Some(token)) => r matches Ok(Some(found)) && found@ == token,
            Err(failure) => r matches Err(status) && status@ == failure,
        },
{
    match header {
        AuthorizationHeader::Absent => Ok(None),
        AuthorizationHeader::Unreadable => Err(
            Status::new(Code::Unauthenticated, "invalid authorization header"),
        ),
        AuthorizationHeader::Text(value) => {
            let chars = chars_of(value.as_str());
            let prefix = chars_of("Bearer ");
            if text_occurs_at(&chars, &prefix, 0) {
                assert(chars@.subrange(prefix@.len() as int, chars@.len() as int) =~= chars@.skip(
                    prefix@.len() as int,
                ));
                Ok(Some(string_of(&chars, prefix.len(), chars.len())))
            } else {
                Err(Status::new(Code::Unauthenticated, "expected Bearer token"))
            }
        },
    }
}

/// The refusal of a token that is not good, for the reason in `message`.
pub open spec fn invalid_token(message: Seq<char>) -> StatusView {
    status::refusal(Code::Unauthenticated, "invalid token: "@ + message)
}

/// Who makes the request, by the outcome of verifying its token.
pub fn admitted(verified: Result<Claims, String>) -> (r: Result<AuthContext, Status>)
    ensures
        match verified {
            Ok(claims) => r matches Ok(ctx) && ctx.identity == claims.sub && ctx.permissions
                == claims.permissions,
            Err(message) => r matches Err(status) && status@ == invalid_token(message@),
        },
{
    match verified {
        Ok(claims) => Ok(AuthContext { identity: claims.sub, permissions: claims.permissions }),
        Err(message) => Err(
            Status::with_detail(Code::Unauthenticated, "invalid token: ", message.as_str()),
        ),
    }
}

/// Finds out who makes a request.
#[derive(Clone)]
pub struct JwtInterceptor {
    secret: Vec<u8>,
}

impl JwtInterceptor {
    /// The secret under which tokens are good.
    pub closed spec fn key(&self) -> Seq<u8> {
        self.secret@
    }

    /// The interceptor for tokens under `secret`.
    pub fn new(secret: Vec<u8>) -> (r: JwtInterceptor)
        ensures
            r.key() == secret@,
    {
        JwtInterceptor { secret }
    }

    /// Who makes a request with this header: nobody where there is no header, the bearer
    /// of the token where the token is good, and a refusal otherwise.
    pub fn call(&self, header: &AuthorizationHeader) -> (r: Result<Option<AuthContext>, Status>)
        ensures
            match header_token(*header) {
                Ok(None) => r matches Ok(None),
                Err(failure) => r matches Err(status) && status@ == failure,
                Ok(Some(token)) => match r {
                    Ok(found) => {
                        &&& found matches Some(ctx)
                        &&& jwt_claims(self.key(), token) matches Ok(claims)
                        &&& ctx@ == (AuthContextView {
                            identity: claims.sub,
                            permissions: claims.permissions,
                        })
                    },
                    Err(status) => {
                        ||| status@ == invalid_token(expired_message())
                        ||| status@ == invalid_token(clock_message())
                        ||| jwt_claims(self.key(), token) matches Err(message) && status@
                            == invalid_token(message)
                    },
                },
            },
    {
        match bearer_token(header) {
            Err(status) => Err(status),
            Ok(None) => Ok(None),
            Ok(Some(token)) => match admitted(verify_token(self.secret.as_slice(), token.as_str()),
            ) {
                Ok(ctx) => Ok(Some(ctx)),
                Err(status) => Err(status),
            },
        }
    }
}

/// The interceptor for tokens under `secret`.
pub fn make_interceptor(secret: Vec<u8>) -> (r: JwtInterceptor)
    ensures
        r.key() == secret@,
{
    JwtInterceptor::new(secret)
}

/// What every member of the organisation may do.
pub open spec fn default_permission_texts() -> Seq<Seq<char>> {
    seq![
        "branches.create"@,
        "branches.list"@,
        "branches.delete_own"@,
        "branches.get_credentials_own"@,
        "demo.save"@,
        "demo.list"@,
        "demo.delete_own"@,
        "info.read"@,
    ]
}

/// What every member of the organisation may do.
pub fn default_permissions() -> (r: Vec<String>)
    ensures
        text::texts(r@) == default_permission_texts(),
{
    let mut permissions: Vec<String> = Vec::new();
    permissions.push("branches.create".to_string());
    permissions.push("branches.list".to_string());
    permissions.push("branches.delete_own".to_string());
    permissions.push("branches.get_credentials_own".to_string());
    permissions.push("demo.save".to_string());
    permissions.push("demo.list".to_string());
    permissions.push("demo.delete_own".to_string());
    permissions.push("info.read".to_string());
    assert(text::texts(permissions@) =~= default_permission_texts());
    permissions
}

/// Whether the permission is among those of `ctx`.
pub open spec fn permits(ctx: AuthContextView, permission: Seq<char>) -> bool {
    ctx.permissions.contains(permission)
}

/// Whether `ctx` may do something to what `owner` owns: because it may do so to anything,
/// or because it may do so to its own and is the owner.
pub open spec fn permits_as_owner(
    ctx: AuthContextView,
    own: Seq<char>,
    any: Seq<char>,
    owner: Seq<char>,
) -> bool {
    permits(ctx, any) || (permits(ctx, own) && ctx.identity == owner)
}

/// Whether the permission is among those of `ctx`.
fn has_permission(ctx: &AuthContext, permission: &str) -> (r: bool)
    ensures
        r == permits(ctx@, permission@),
{
    let ghost views = text::texts(ctx.permissions@);
    let mut i: usize = 0;
    while i < ctx.permissions.len()
        invariant
            i <= ctx.permissions.len(),
            views == text::texts(ctx.permissions@),
            forall|j: int| 0 <= j < i ==> #[trigger] views[j] != permission@,
        decreases ctx.permissions.len() - i,
    {
        if same_text(ctx.permissions[i].as_str(), permission) {
            assert(views[i as int] == permission@);
            return true;
        }
        assert(views[i as int] != permission@);
        i += 1;
    }
    false
}

/// The refusal of a request that lacks `permission`.
pub open spec fn missing_permission(permission: Seq<char>) -> StatusView {
    status::refusal(Code::PermissionDenied, "missing required permission: "@ + permission)
}

/// Refuses a request whose maker lacks `perm`.
pub fn require_permission(ctx: &AuthContext, perm: &str) -> (r: Result<(), Status>)
    ensures
        status::outcome(r) == if permits(ctx@, perm@) {
            Ok(())
        } else {
            Err(missing_permission(perm@))
        },
{
    if has_permission(ctx, perm) {
        Ok(())
    } else {
        Err(Status::with_detail(Code::PermissionDenied, "missing required permission: ", perm))
    }
}

/// The refusal of a request that lacks both the permission for anything and the
/// permission for one's own.
pub open spec fn missing_ownership(own: Seq<char>, any: Seq<char>) -> StatusView {
    missing_permission(any + " or "@ + own + " (as owner)"@)
}

/// Refuses a request whose maker may not do this to what `owner` owns.
pub fn require_permission_or_owner(
    ctx: &AuthContext,
    perm_own: &str,
    perm_any: &str,
    owner: &str,
) -> (r: Result<(), Status>)
    ensures
        status::outcome(r) == if permits_as_owner(ctx@, perm_own@, perm_any@, owner@) {
            Ok(())
        } else {
            Err(missing_ownership(perm_own@, perm_any@))
        },
{
    if has_permission(ctx, perm_any) {
        return Ok(());
    }
    if has_permission(ctx, perm_own) && same_text(ctx.identity.as_str(), owner) {
        return Ok(());
    }
    let mut detail = perm_any.to_string();
    detail.append(" or ");
    detail.append(perm_own);
    detail.append(" (as owner)");
    Err(
        Status::with_detail(
            Code::PermissionDenied,
            "missing required permission: ",
            detail.as_str(),
        ),
    )
}

/// A token issued under a secret, when it is verified under that secret, gives the identity, the
/// role, the permissions and the times that it was issued with, or is refused because its time is
/// over or the clock gives no usable time: it is refused for no other reason.
pub proof fn law_issued_token_names_its_bearer(
    secret: Seq<u8>,
    identity: Seq<char>,
    permissions: Seq<Seq<char>>,
    created: (String, i64),
    verified: Result<ClaimsView, Seq<char>>,
)
    requires
        issued_now(secret, identity, permissions, Ok(created)),
        verified_now(secret, created.0@, verified),
    ensures
        match verified {
            Ok(claims) => {
                &&& claims.sub == identity
                &&& claims.role == "developer"@
                &&& claims.permissions == permissions
                &&& claims.iat == created.1 - TOKEN_TTL_SECONDS
                &&& claims.exp == created.1
            },
            Err(message) => message == expired_message() || message == clock_message(),
        },
{
}

/// The token that a client puts into the header of a request is the one that is found there.
pub proof fn law_sent_token_is_found(header: String, token: Seq<char>)
    requires
        header@ == http::bearer(token),
    ensures
        header_token(AuthorizationHeader::Text(header)) == Ok::<Option<Seq<char>>, StatusView>(
            Some(token),
        ),
{
    let n = "Bearer "@.len() as int;
    assert(header@.subrange(0, n) =~= "Bearer "@);
    assert(header@.skip(n) =~= token);
}

proof fn lemma_not_among_defaults(permission: Seq<char>)
    requires
        permission != "branches.create"@,
        permission != "branches.list"@,
        permission != "branches.delete_own"@,
        permission != "branches.get_credentials_own"@,
        permission != "demo.save"@,
        permission != "demo.list"@,
        permission != "demo.delete_own"@,
        permission != "info.read"@,
    ensures
        !default_permission_texts().contains(permission),
{
}

/// What every member may do does not extend to what others own, nor to overwriting the main
/// database.
pub proof fn law_default_permissions_are_not_elevated()
    ensures
        !default_permission_texts().contains("branches.delete_any"@),
        !default_permission_texts().contains("branches.get_credentials_any"@),
        !default_permission_texts().contains("demo.delete_any"@),
        !default_permission_texts().contains("demo.restore_main"@),
{
    reveal_strlit("branches.create");
    reveal_strlit("branches.list");
    reveal_strlit("branches.delete_own");
    reveal_strlit("branches.get_credentials_own");
    reveal_strlit("demo.save");
    reveal_strlit("demo.list");
    reveal_strlit("demo.delete_own");
    reveal_strlit("info.read");
    reveal_strlit("branches.delete_any");
    reveal_strlit("branches.get_credentials_any");
    reveal_strlit("demo.delete_any");
    reveal_strlit("demo.restore_main");
    assert("branches.create"@.len() == 15);
    assert("branches.list"@.len() == 13);
    assert("branches.delete_own"@.len() == 19);
    assert("branches.get_credentials_own"@.len() == 28);
    assert("demo.save"@.len() == 9);
    assert("demo.list"@.len() == 9);
    assert("demo.delete_own"@.len() == 15);
    assert("info.read"@.len() == 9);
    assert("branches.delete_any"@.len() == 19);
    assert("branches.get_credentials_any"@.len() == 28);
    assert("demo.delete_any"@.len() == 15);
    assert("demo.restore_main"@.len() == 17);
    assert("branches.delete_own"@[16] != "branches.delete_any"@[16]);
    assert("branches.get_credentials_own"@[25] != "branches.get_credentials_any"@[25]);
    assert("demo.delete_own"@[12] != "demo.delete_any"@[12]);
    assert("branches.create"@[0] != "demo.delete_any"@[0]);
    lemma_not_among_defaults("branches.delete_any"@);
    lemma_not_among_defaults("branches.get_credentials_any"@);
    lemma_not_among_defaults("demo.delete_any"@);
    lemma_not_among_defaults("demo.restore_main"@);
}

/// A member with the default permissions may delete a branch or see its credentials exactly
/// where they have created it, may delete a demo state exactly where they have saved it, and
/// may not restore one.
pub proof fn law_members_act_on_their_own(ctx: AuthContextView, owner: Seq<char>)
    requires
        ctx.permissions == default_permission_texts(),
    ensures
        permits_as_owner(ctx, "branches.delete_own"@, "branches.delete_any"@, owner) <==> ctx.identity
            == owner,
        permits_as_owner(
            ctx,
            "branches.get_credentials_own"@,
            "branches.get_credentials_any"@,
            owner,
        ) <==> ctx.identity == owner,
        permits_as_owner(ctx, "demo.delete_own"@, "demo.delete_any"@, owner) <==> ctx.identity
            == owner,
        !permits(ctx, "demo.restore_main"@),
{
    law_default_permissions_are_not_elevated();
    assert(ctx.permissions[2] == "branches.delete_own"@);
    assert(ctx.permissions[3] == "branches.get_credentials_own"@);
    assert(ctx.permissions[6] == "demo.delete_own"@);
}

} // verus!
