//! The authentication gate and the login/logout transitions.
//!
//! Every protected handler makes one decision before touching user-scoped
//! data: is this bearer token good, and for whom? The answer is yes only
//! when the token both passes cryptographic validation and has a live
//! session — the registry on its own never vouches for a token's validity.
//! Login verifies credentials, mints a token and registers the session;
//! logout deletes the session, after which the token is no longer honored
//! even though it stays cryptographically valid until expiry.

use crate::errors::AuthError;
use crate::jwt;
use crate::jwt::{jwt_payload, spec_validate, TOKEN_LIFETIME_SECONDS};
use crate::models::{RequestUser, User};
use crate::registry::SessionRegistry;
use crate::store::{bcrypt_matches, bcrypt_verify, lower_of, UserStore};
use vstd::prelude::*;

verus! {

/// The process-wide authentication state: the signing secret, loaded once
/// at startup, and the registry of live sessions. All concurrent request
/// handlers share one context; its mutating operations must be serialized
/// under one exclusive lock held only for the duration of the table access.
pub struct AuthContext {
    secret: Vec<u8>,
    active_users: SessionRegistry,
}

impl AuthContext {
    /// The signing secret.
    pub closed spec fn spec_secret(self) -> Seq<u8> {
        self.secret@
    }

    /// The live sessions, as a map from token to identity.
    pub closed spec fn sessions(self) -> Map<Seq<char>, Seq<char>> {
        self.active_users@
    }

    /// A context built from `init` holds finitely many sessions, and every
    /// operation keeps it so.
    pub closed spec fn wf(self) -> bool {
        self.active_users.wf()
    }

    /// The single initialization point, at process start: a missing secret
    /// is fatal, reported as `ConfigurationError`; no request-time operation
    /// can fail for lack of configuration afterwards.
    pub fn init(secret: Option<Vec<u8>>) -> (r: Result<AuthContext, AuthError>)
        ensures
            r is Ok <==> secret is Some,
            r is Ok ==> r->Ok_0.spec_secret() == secret->0@ && r->Ok_0.sessions() == Map::<
                Seq<char>,
                Seq<char>,
            >::empty() && r->Ok_0.wf(),
            r is Err ==> r->Err_0 == AuthError::ConfigurationError,
    {
        match secret {
            Option::Some(secret) => Result::Ok(
                AuthContext { secret, active_users: SessionRegistry::new() },
            ),
            Option::None => Result::Err(AuthError::ConfigurationError),
        }
    }

    /// How many sessions are live.
    pub fn session_count(&self) -> (n: usize)
        ensures
            n == self.sessions().len(),
    {
        self.active_users.len()
    }
}

/// The decision of the authentication gate for a presented token, as a
/// function of the signing secret, the live sessions and the clock: the
/// token must validate cryptographically (else its validation error is
/// propagated), and its session must be live (else `SessionNotFound`); only
/// then is the bound identity returned.
pub open spec fn spec_authenticate(
    secret: Seq<u8>,
    sessions: Map<Seq<char>, Seq<char>>,
    token: Seq<char>,
    now: u64,
) -> Result<Seq<char>, AuthError> {
    match spec_validate(secret, token, now) {
        Result::Err(e) => Result::Err(e),
        Result::Ok(_) => if sessions.contains_key(token) {
            Result::Ok(sessions[token])
        } else {
            Result::Err(AuthError::SessionNotFound)
        },
    }
}

/// The decision of a login attempt, as a function of the stored identity
/// records, the credentials and the clock: `UserNotFound` when no record is
/// stored under the normalized email, `InvalidCredentials` when the password
/// does not match the stored hash, and otherwise the token minted for the
/// interval `[now, now + TOKEN_LIFETIME_SECONDS]`.
pub open spec fn spec_login(
    secret: Seq<u8>,
    users: Map<Seq<char>, User>,
    email: Seq<char>,
    password: Seq<char>,
    now: u64,
) -> Result<Seq<char>, AuthError> {
    let le = lower_of(email);
    if !users.contains_key(le) {
        Result::Err(AuthError::UserNotFound)
    } else if !bcrypt_matches(password, users[le].user_password_hash@) {
        Result::Err(AuthError::InvalidCredentials)
    } else {
        Result::Ok(jwt::jwt_token(secret, now, (now + TOKEN_LIFETIME_SECONDS) as u64))
    }
}

/// The authentication gate: validates the token cryptographically, then
/// asks the registry whether the session is live and for whom. Every
/// protected handler goes through this; none may consult the registry
/// directly.
pub fn authenticate_user(ctx: &AuthContext, token: &str, now: u64) -> (r: Result<
    String,
    AuthError,
>)
    ensures
        r is Ok <==> spec_authenticate(ctx.spec_secret(), ctx.sessions(), token@, now) is Ok,
        r is Ok ==> r->Ok_0@ == spec_authenticate(
            ctx.spec_secret(),
            ctx.sessions(),
            token@,
            now,
        )->Ok_0,
        r is Err ==> r->Err_0 == spec_authenticate(
            ctx.spec_secret(),
            ctx.sessions(),
            token@,
            now,
        )->Err_0,
{
    match jwt::is_valid(ctx.secret.as_slice(), token, now) {
        Result::Err(e) => Result::Err(e),
        Result::Ok(_) => match ctx.active_users.lookup(token) {
            Option::Some(identity) => Result::Ok(identity.clone()),
            Option::None => Result::Err(AuthError::SessionNotFound),
        },
    }
}

/// Logout's registry transition: deletes the session of `token`, failing
/// with `SessionNotFound` when none was live (an already logged-out or
/// unknown token). The token's cryptographic validity is untouched; it is
/// simply no longer honored.
pub fn remove_active_user(ctx: &mut AuthContext, token: &str) -> (r: Result<(), AuthError>)
    ensures
        final(ctx).spec_secret() == old(ctx).spec_secret(),
        old(ctx).wf() ==> final(ctx).wf(),
        r is Ok <==> old(ctx).sessions().contains_key(token@),
        final(ctx).sessions() == old(ctx).sessions().remove(token@),
        r is Err ==> r->Err_0 == AuthError::SessionNotFound && final(ctx).sessions() == old(
            ctx,
        ).sessions(),
{
    proof {
        if !old(ctx).sessions().contains_key(token@) {
            assert(old(ctx).sessions().remove(token@) =~= old(ctx).sessions());
        }
    }
    if ctx.active_users.remove(token) {
        Result::Ok(())
    } else {
        Result::Err(AuthError::SessionNotFound)
    }
}

/// Login: looks the identity record up by email (case-insensitively),
/// verifies the password against the stored hash, mints a fresh token and
/// registers the session for it. On every failure the registry is left
/// unmodified.
pub fn login(ctx: &mut AuthContext, store: &UserStore, request_user: &RequestUser, now: u64) -> (r:
    Result<String, AuthError>)
    requires
        now + TOKEN_LIFETIME_SECONDS <= u64::MAX,
    ensures
        final(ctx).spec_secret() == old(ctx).spec_secret(),
        old(ctx).wf() ==> final(ctx).wf(),
        r is Ok <==> spec_login(
            old(ctx).spec_secret(),
            store@,
            request_user.user_email@,
            request_user.user_password@,
            now,
        ) is Ok,
        r is Ok ==> r->Ok_0@ == spec_login(
            old(ctx).spec_secret(),
            store@,
            request_user.user_email@,
            request_user.user_password@,
            now,
        )->Ok_0,
        r is Err ==> r->Err_0 == spec_login(
            old(ctx).spec_secret(),
            store@,
            request_user.user_email@,
            request_user.user_password@,
            now,
        )->Err_0,
        r is Err ==> final(ctx).sessions() == old(ctx).sessions(),
        r is Ok ==> final(ctx).sessions() == old(ctx).sessions().insert(
            r->Ok_0@,
            store@[lower_of(request_user.user_email@)].user_id@,
        ),
        r is Ok ==> jwt_payload(old(ctx).spec_secret(), r->Ok_0@) == Some(
            (now, (now + TOKEN_LIFETIME_SECONDS) as u64),
        ),
{
    match store.find_user_by_email(request_user.user_email.as_str()) {
        Option::None => Result::Err(AuthError::UserNotFound),
        Option::Some(user) => {
            if !bcrypt_verify(
                request_user.user_password.as_str(),
                user.user_password_hash.as_str(),
            ) {
                Result::Err(AuthError::InvalidCredentials)
            } else {
                let token = jwt::create_jwt(ctx.secret.as_slice(), now);
                ctx.active_users.insert(token.clone(), user.user_id.clone());
                Result::Ok(token)
            }
        },
    }
}

/// Law: a token returned by a successful login authenticates, at any clock
/// up to its expiry, to exactly the identity that logged in — login's
/// contract gives the three hypotheses for the state it leaves behind.
pub proof fn lemma_login_grants_access(
    ctx: AuthContext,
    token: Seq<char>,
    identity: Seq<char>,
    iat: u64,
    exp: u64,
    now: u64,
)
    requires
        jwt_payload(ctx.spec_secret(), token) == Some((iat, exp)),
        ctx.sessions().contains_key(token),
        ctx.sessions()[token] == identity,
        now <= exp,
    ensures
        spec_validate(ctx.spec_secret(), token, now) is Ok,
        spec_authenticate(ctx.spec_secret(), ctx.sessions(), token, now) == Result::<
            Seq<char>,
            AuthError,
        >::Ok(identity),
{
}

/// Law: a token whose expiry has passed is rejected with the expiry error,
/// even when its session is still registered.
pub proof fn lemma_expired_token_rejected(
    ctx: AuthContext,
    token: Seq<char>,
    iat: u64,
    exp: u64,
    now: u64,
)
    requires
        jwt_payload(ctx.spec_secret(), token) == Some((iat, exp)),
        now > exp,
    ensures
        spec_authenticate(ctx.spec_secret(), ctx.sessions(), token, now) == Result::<
            Seq<char>,
            AuthError,
        >::Err(AuthError::TokenExpired),
{
}

/// Law: logout followed by authentication with the same (still valid,
/// unexpired) token fails with `SessionNotFound` — the second hypothesis is
/// what logout's contract leaves behind.
pub proof fn lemma_logout_then_authenticate(
    pre: AuthContext,
    post: AuthContext,
    token: Seq<char>,
    now: u64,
)
    requires
        post.spec_secret() == pre.spec_secret(),
        post.sessions() == pre.sessions().remove(token),
        spec_validate(pre.spec_secret(), token, now) is Ok,
    ensures
        spec_authenticate(post.spec_secret(), post.sessions(), token, now) == Result::<
            Seq<char>,
            AuthError,
        >::Err(AuthError::SessionNotFound),
{
}

/// Law: email comparison is case-insensitive. A stored record is found
/// under any email with the same lowercase form: a login with such an email
/// succeeds whenever the password matches the stored hash, and a second
/// registration with such an email is refused (it falls in the
/// `EmailAlreadyUsed` case of `create_user`'s contract).
pub proof fn lemma_email_case_insensitive(
    store: UserStore,
    stored_email: Seq<char>,
    used_email: Seq<char>,
    password: Seq<char>,
    secret: Seq<u8>,
    now: u64,
)
    requires
        lower_of(stored_email) == lower_of(used_email),
        store@.contains_key(lower_of(stored_email)),
    ensures
        store@.contains_key(lower_of(used_email)),
        bcrypt_matches(password, store@[lower_of(used_email)].user_password_hash@) ==> spec_login(
            secret,
            store@,
            used_email,
            password,
            now,
        ) is Ok,
{
}

} // verus!
