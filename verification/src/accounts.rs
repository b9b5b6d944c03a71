//! Account flows: login, logout, signup, one-time-code verification, scope
//! switching, activation and deletion.
//!
//! Each flow is the decision part of one request: it takes the directory and
//! the credential store, the request's plain values and the current instant,
//! and returns the response data. Sending mail and reading the clock stay
//! with the caller.

use vstd::prelude::*;
use vstd::string::StrSliceExecFns;
use crate::authz::{blacklist_token, current_user, otp_token, spec_session_auth, spec_scoped_auth, AuthError, SESSION_TTL_SECONDS};
use crate::credstore::{CredKeyView, CredStore};
use crate::otp::{generate_otp, store_otp, verify_otp_code, OTP_BOUND, OTP_MIN};
use crate::scope::{login_scope, spec_login_scope, spec_switch_target, switch_target, TokenScope};
use crate::token::{decode, issue, spec_decode, spec_issue, Token, MAX_TIME};
use crate::users::{sign_show, spec_sign_show, spec_with_active, SignShow, SignUp, User, UserDirectory, UserError};

verus! {

/// Login request: the identifier is a username or an email.
#[derive(Clone, Debug)]
pub struct LoginRequest {
    pub identifier: String,
    pub password: String,
}

/// A successful login: the user's public fields and a fresh session token.
#[derive(Clone, Debug)]
pub struct LoginResponse {
    pub id: i32,
    pub username: String,
    pub email: String,
    pub access_token: Token,
}

/// Request to verify a one-time code sent by email.
#[derive(Clone, Debug)]
pub struct VerifyOtpRequest {
    pub email: String,
    pub otp: u32,
}

/// A verified one-time code: a short-lived single-use token for the
/// sensitive follow-up action.
#[derive(Clone, Debug)]
pub struct VerifyOtpResponse {
    pub verification_token: Token,
    pub message: String,
}

/// Acknowledgement of account verification.
#[derive(Clone, Debug)]
pub struct VerifyAccountResponse {
    pub message: String,
    pub user_id: i32,
}

/// Acknowledgement of a logout.
#[derive(Clone, Debug)]
pub struct LogoutResponse {
    pub message: String,
}

/// Request to resend a one-time code.
#[derive(Clone, Debug)]
pub struct ResendOtpRequest {
    pub email: String,
}

/// Acknowledgement that a one-time code was issued again.
#[derive(Clone, Debug)]
pub struct ResendOtpResponse {
    pub message: String,
}

/// Acknowledgement of account activation.
#[derive(Clone, Debug)]
pub struct ActivateAccountResponse {
    pub message: String,
}

/// Acknowledgement of account deletion (deactivation).
#[derive(Clone, Debug)]
pub struct DeleteAccountResponse {
    pub message: String,
}

/// Request to switch the session's scope; without a target the complementary
/// scope is chosen.
#[derive(Clone, Debug)]
pub struct SwitchUserScopeRequest {
    pub target_scope: Option<TokenScope>,
}

/// A completed scope switch: the old token is revoked, this one replaces it.
#[derive(Clone, Debug)]
pub struct SwitchUserScopeResponse {
    pub new_access_token: Token,
    pub new_scope: TokenScope,
    pub message: String,
}

/// Failures of account flows.
#[derive(Clone, Copy, Debug, PartialEq, Eq, Structural)]
pub enum AccountError {
    /// No user matches the given email.
    NotFound,
    /// The username or email is already taken.
    AlreadyExists,
    /// The presented one-time code is wrong, expired or already used.
    InvalidOtp,
}

impl LoginRequest {
    /// A login request is acceptable when the identifier is nonempty and the
    /// password has at least eight characters.
    pub fn validate(&self) -> (r: bool)
        ensures
            r == (self.identifier@.len() >= 1 && self.password@.len() >= 8),
    {
        self.identifier.as_str().unicode_len() >= 1 && self.password.as_str().unicode_len() >= 8
    }
}

/// The response a successful login yields for a user row: the public fields
/// and a session token scoped by the account type, valid for the session
/// lifetime from `now`.
pub open spec fn spec_login_response(u: User, secret: u64, now: i64) -> LoginResponse {
    LoginResponse {
        id: u.id,
        username: u.username,
        email: u.email,
        access_token: spec_issue(
            secret,
            u.id,
            spec_login_scope(u.account_type),
            now,
            SESSION_TTL_SECONDS,
        ),
    }
}

/// Login: authenticates the identifier and password against the directory
/// and, on success, issues a session token scoped by the account type.
pub fn login(dir: &UserDirectory, req: &LoginRequest, secret: u64, now: i64) -> (r: Result<
    LoginResponse,
    UserError,
>)
    requires
        dir.well_formed(),
        0 <= now <= MAX_TIME,
    ensures
        match r {
            Ok(resp) => exists|i: int|
                0 <= i < dir.users@.len() && resp == spec_login_response(
                    #[trigger] dir.users@[i],
                    secret,
                    now,
                ) && (dir.users@[i].email@ == req.identifier@ || dir.users@[i].username@
                    == req.identifier@) && dir.users@[i].password_hash
                    == crate::users::spec_digest_of_password(req.password@),
            Err(e) => {
                &&& (e == UserError::NotFound || e == UserError::InvalidPassword)
                &&& e == UserError::NotFound ==> forall|i: int|
                    0 <= i < dir.users@.len() ==> dir.users@[i].email@ != req.identifier@
                        && dir.users@[i].username@ != req.identifier@
                &&& e == UserError::InvalidPassword ==> exists|i: int|
                    0 <= i < dir.users@.len() && ((#[trigger] dir.users@[i].email@)
                        == req.identifier@ || dir.users@[i].username@ == req.identifier@)
                        && dir.users@[i].password_hash
                        != crate::users::spec_digest_of_password(req.password@)
            },
        },
{
    let show = match dir.authenticate_user(&req.identifier, req.password.as_str()) {
        Ok(s) => s,
        Err(e) => {
            return Err(e);
        },
    };
    proof {
        let i = choose|i: int|
            0 <= i < dir.users@.len() && show == spec_sign_show(#[trigger] dir.users@[i]) && (
            dir.users@[i].email@ == req.identifier@ || dir.users@[i].username@ == req.identifier@)
                && dir.users@[i].password_hash == crate::users::spec_digest_of_password(
                req.password@,
            );
        assert(dir.users@[i].id == i + 1);
        assert(dir.spec_has_user(show.id));
    }
    let user = match dir.get_user_model_by_id(show.id) {
        Ok(u) => u,
        Err(_) => {
            proof {
                assert(false);
            }
            return Err(UserError::NotFound);
        },
    };
    let scope = login_scope(user.account_type);
    let token = issue(secret, user.id, scope, now, SESSION_TTL_SECONDS);
    Ok(
        LoginResponse {
            id: user.id,
            username: user.username.clone(),
            email: user.email.clone(),
            access_token: token,
        },
    )
}

/// Logout: a valid session token gets a revocation entry whose lifetime is
/// the full session lifetime, so the revocation outlives the token itself.
pub fn logout(
    dir: &UserDirectory,
    store: &mut CredStore,
    token: &Token,
    secret: u64,
    now: i64,
) -> (r: Result<LogoutResponse, AuthError>)
    requires
        dir.well_formed(),
        old(store).well_formed(),
        0 <= now <= MAX_TIME,
    ensures
        final(store).well_formed(),
        match r {
            Ok(_) => spec_session_auth(*dir, *old(store), *token, secret, now) is Ok && final(store)@ == old(store)@.insert(
                CredKeyView::Session(*token),
                (1u64, (now + SESSION_TTL_SECONDS) as i64),
            ),
            Err(e) => spec_session_auth(*dir, *old(store), *token, secret, now) == Err::<
                User,
                AuthError,
            >(e) && final(store)@ == old(store)@,
        },
{
    match current_user(dir, store, token, secret, now) {
        Ok(_) => {},
        Err(e) => {
            return Err(e);
        },
    }
    blacklist_token(store, token, SESSION_TTL_SECONDS, now);
    Ok(LogoutResponse { message: "Logged out successfully".to_owned() })
}

/// What a scope switch yields: the session checks, then the complementary
/// scope of the presented token's scope, then a fresh session token for it.
pub open spec fn spec_switch_outcome(
    dir: UserDirectory,
    store: CredStore,
    token: Token,
    secret: u64,
    now: i64,
) -> Result<(Token, TokenScope), AuthError> {
    match spec_session_auth(dir, store, token, secret, now) {
        Err(e) => Err(e),
        Ok(user) => {
            let claims = spec_decode(secret, token, now)->Ok_0;
            match spec_switch_target(claims.scope, user.account_type) {
                None => Err(AuthError::InvalidScope),
                Some(target) => Ok(
                    (spec_issue(secret, user.id, target, now, SESSION_TTL_SECONDS), target),
                ),
            }
        },
    }
}

/// Scope switch: revoke-then-issue, never an in-place mutation. The presented
/// token is revoked for the full session lifetime and a fresh token for the
/// complementary scope is issued; old and new can never both validate.
pub fn switch_user_scope(
    dir: &UserDirectory,
    store: &mut CredStore,
    token: &Token,
    secret: u64,
    now: i64,
) -> (r: Result<SwitchUserScopeResponse, AuthError>)
    requires
        dir.well_formed(),
        old(store).well_formed(),
        0 <= now <= MAX_TIME,
    ensures
        final(store).well_formed(),
        match r {
            Ok(resp) => spec_switch_outcome(*dir, *old(store), *token, secret, now) == Ok::<
                (Token, TokenScope),
                AuthError,
            >((resp.new_access_token, resp.new_scope)) && final(store)@ == old(store)@.insert(
                CredKeyView::Session(*token),
                (1u64, (now + SESSION_TTL_SECONDS) as i64),
            ),
            Err(e) => spec_switch_outcome(*dir, *old(store), *token, secret, now) == Err::<
                (Token, TokenScope),
                AuthError,
            >(e) && final(store)@ == old(store)@,
        },
{
    if crate::authz::is_token_blacklisted(store, token, now) {
        return Err(AuthError::Revoked);
    }
    let claims = match decode(secret, token, now) {
        Ok(c) => c,
        Err(_) => {
            return Err(AuthError::Unauthenticated);
        },
    };
    let user = match dir.get_user_model_by_id(claims.sub) {
        Ok(u) => u,
        Err(_) => {
            return Err(AuthError::NotFound);
        },
    };
    if !user.is_active {
        return Err(AuthError::Disabled);
    }
    let target = match switch_target(claims.scope, user.account_type) {
        Some(t) => t,
        None => {
            return Err(AuthError::InvalidScope);
        },
    };
    blacklist_token(store, token, SESSION_TTL_SECONDS, now);
    let new_token = issue(secret, user.id, target, now, SESSION_TTL_SECONDS);
    Ok(
        SwitchUserScopeResponse {
            new_access_token: new_token,
            new_scope: target,
            message: "Switched scope successfully".to_owned(),
        },
    )
}

/// Verifying a one-time code: consumes the stored code on match and issues a
/// short-lived single-use token for the sensitive follow-up action.
pub fn verify_otp(
    dir: &UserDirectory,
    store: &mut CredStore,
    req: &VerifyOtpRequest,
    secret: u64,
    otp_token_ttl: i64,
    now: i64,
) -> (r: Result<VerifyOtpResponse, AccountError>)
    requires
        dir.well_formed(),
        old(store).well_formed(),
        0 <= now <= MAX_TIME,
        0 < otp_token_ttl <= MAX_TIME,
    ensures
        final(store).well_formed(),
        match r {
            Ok(resp) => {
                &&& old(store).spec_live(CredKeyView::OneTimeCode(req.email@), now)
                &&& old(store)@[CredKeyView::OneTimeCode(req.email@)].0 == req.otp as u64
                &&& final(store)@ == old(store)@.remove(CredKeyView::OneTimeCode(req.email@))
                &&& dir.spec_has_email(req.email@)
                &&& resp.verification_token == spec_issue(
                    secret,
                    dir.users@[dir.spec_email_index(req.email@)].id,
                    TokenScope::Otp,
                    now,
                    otp_token_ttl,
                )
            },
            Err(e) => {
                &&& (e == AccountError::InvalidOtp || e == AccountError::NotFound)
                &&& e == AccountError::InvalidOtp ==> !(old(store).spec_live(
                    CredKeyView::OneTimeCode(req.email@),
                    now,
                ) && old(store)@[CredKeyView::OneTimeCode(req.email@)].0 == req.otp as u64)
                    && final(store)@ == old(store)@
                &&& e == AccountError::NotFound ==> !dir.spec_has_email(req.email@) && final(store)@ == old(store)@.remove(CredKeyView::OneTimeCode(req.email@))
            },
        },
{
    let is_valid = verify_otp_code(store, &req.email, req.otp, now);
    if !is_valid {
        return Err(AccountError::InvalidOtp);
    }
    let user = match dir.get_user_by_email(&req.email) {
        Ok(u) => u,
        Err(_) => {
            return Err(AccountError::NotFound);
        },
    };
    proof {
        let i = choose|i: int|
            0 <= i < dir.users@.len() && user == dir.users@[i] && (#[trigger] dir.users@[i].email@)
                == req.email@;
        assert(dir.users@[i].id == i + 1);
        assert(dir.spec_has_email(req.email@));
        assert(dir.spec_email_index(req.email@) == i);
    }
    let verification_token = issue(secret, user.id, TokenScope::Otp, now, otp_token_ttl);
    Ok(
        VerifyOtpResponse {
            verification_token,
            message: "One-time code verified successfully".to_owned(),
        },
    )
}

/// Resending a one-time code: the user must exist; a fresh code replaces any
/// stored one and is handed back for delivery.
pub fn resend_otp(
    dir: &UserDirectory,
    store: &mut CredStore,
    req: &ResendOtpRequest,
    otp_expiry_seconds: i64,
    now: i64,
) -> (r: Result<(ResendOtpResponse, u32), AccountError>)
    requires
        dir.well_formed(),
        old(store).well_formed(),
        0 <= now <= MAX_TIME,
        0 <= otp_expiry_seconds <= MAX_TIME,
    ensures
        final(store).well_formed(),
        match r {
            Ok(p) => {
                &&& dir.spec_has_email(req.email@)
                &&& OTP_MIN <= p.1 < OTP_BOUND
                &&& final(store)@ == old(store)@.insert(
                    CredKeyView::OneTimeCode(req.email@),
                    (p.1 as u64, (now + otp_expiry_seconds) as i64),
                )
            },
            Err(e) => e == AccountError::NotFound && !dir.spec_has_email(req.email@) && final(store)@ == old(store)@,
        },
{
    match dir.get_user_by_email(&req.email) {
        Ok(_) => {},
        Err(_) => {
            return Err(AccountError::NotFound);
        },
    }
    proof {
        assert(dir.spec_has_email(req.email@));
    }
    let code = generate_otp();
    store_otp(store, req.email.clone(), code, otp_expiry_seconds, now);
    Ok(
        (
            ResendOtpResponse {
                message: "One-time code sent successfully".to_owned(),
            },
            code,
        ),
    )
}

/// Signup: inserts the user; a local signup also gets a stored one-time code,
/// handed back for delivery, while social signups arrive verified and get
/// none.
pub fn signup(
    dir: &mut UserDirectory,
    store: &mut CredStore,
    signup_data: SignUp,
    otp_expiry_seconds: i64,
    now: i64,
) -> (r: Result<(SignShow, Option<u32>), AccountError>)
    requires
        old(dir).well_formed(),
        old(dir).users@.len() + 1 < 0x7fff_ffff,
        old(store).well_formed(),
        0 <= now <= MAX_TIME,
        0 <= otp_expiry_seconds <= MAX_TIME,
    ensures
        final(dir).well_formed(),
        final(store).well_formed(),
        match r {
            Ok(p) => {
                &&& final(dir).users@ == old(dir).users@.push(
                    crate::users::spec_new_user(
                        signup_data,
                        (old(dir).users@.len() + 1) as i32,
                    ),
                )
                &&& p.0 == spec_sign_show(
                    crate::users::spec_new_user(
                        signup_data,
                        (old(dir).users@.len() + 1) as i32,
                    ),
                )
                &&& signup_data.signup_type is Local ==> p.1 is Some && final(store)@ == old(store)@.insert(
                    CredKeyView::OneTimeCode(signup_data.email@),
                    (p.1.unwrap() as u64, (now + otp_expiry_seconds) as i64),
                )
                &&& !(signup_data.signup_type is Local) ==> p.1 is None && final(store)@ == old(store)@
            },
            Err(e) => e == AccountError::AlreadyExists && final(dir).users@ == old(dir).users@
                && final(store)@ == old(store)@,
        },
{
    let email_copy = signup_data.email.clone();
    let is_local = matches!(signup_data.signup_type, crate::users::SignupType::Local);
    let show = match dir.create_user(signup_data) {
        Ok(s) => s,
        Err(_) => {
            return Err(AccountError::AlreadyExists);
        },
    };
    if is_local {
        let code = generate_otp();
        store_otp(store, email_copy, code, otp_expiry_seconds, now);
        Ok((show, Some(code)))
    } else {
        Ok((show, None))
    }
}

/// Account verification by single-use token: resolving the guard consumes the
/// token; the acknowledgement carries the verified user's id.
pub fn verify_account(
    dir: &UserDirectory,
    store: &mut CredStore,
    token: &Token,
    secret: u64,
    now: i64,
) -> (r: Result<VerifyAccountResponse, AuthError>)
    requires
        dir.well_formed(),
        old(store).well_formed(),
        0 <= now <= MAX_TIME,
    ensures
        final(store).well_formed(),
        match r {
            Ok(resp) => {
                &&& spec_scoped_auth(*dir, *old(store), *token, secret, TokenScope::Otp, now)
                    is Ok
                &&& resp.user_id == spec_scoped_auth(
                    *dir,
                    *old(store),
                    *token,
                    secret,
                    TokenScope::Otp,
                    now,
                )->Ok_0.id
                &&& final(store)@ == old(store)@.insert(
                    CredKeyView::Session(*token),
                    (1u64, token.claims.exp),
                )
            },
            Err(e) => spec_scoped_auth(*dir, *old(store), *token, secret, TokenScope::Otp, now)
                == Err::<User, AuthError>(e) && final(store)@ == old(store)@,
        },
{
    let p = match otp_token(dir, store, token, secret, now) {
        Ok(p) => p,
        Err(e) => {
            return Err(e);
        },
    };
    Ok(
        VerifyAccountResponse {
            message: "Account verified successfully".to_owned(),
            user_id: p.0.id,
        },
    )
}

/// Account activation by single-use token: the guard consumes the token, then
/// the account carrying the authorized user's email is reactivated.
pub fn activate_account_handler(
    dir: &mut UserDirectory,
    store: &mut CredStore,
    token: &Token,
    secret: u64,
    now: i64,
) -> (r: Result<ActivateAccountResponse, AuthError>)
    requires
        old(dir).well_formed(),
        old(store).well_formed(),
        0 <= now <= MAX_TIME,
    ensures
        final(dir).well_formed(),
        final(store).well_formed(),
        match r {
            Ok(_) => {
                &&& spec_scoped_auth(
                    *old(dir),
                    *old(store),
                    *token,
                    secret,
                    TokenScope::Otp,
                    now,
                ) is Ok
                &&& final(store)@ == old(store)@.insert(
                    CredKeyView::Session(*token),
                    (1u64, token.claims.exp),
                )
                &&& final(dir).users@ == old(dir).users@.update(
                    spec_scoped_auth(
                        *old(dir),
                        *old(store),
                        *token,
                        secret,
                        TokenScope::Otp,
                        now,
                    )->Ok_0.id - 1,
                    spec_with_active(
                        spec_scoped_auth(
                            *old(dir),
                            *old(store),
                            *token,
                            secret,
                            TokenScope::Otp,
                            now,
                        )->Ok_0,
                        true,
                    ),
                )
            },
            Err(e) => spec_scoped_auth(
                *old(dir),
                *old(store),
                *token,
                secret,
                TokenScope::Otp,
                now,
            ) == Err::<User, AuthError>(e) && final(store)@ == old(store)@ && final(dir).users@
                == old(dir).users@,
        },
{
    let p = match otp_token(dir, store, token, secret, now) {
        Ok(p) => p,
        Err(e) => {
            return Err(e);
        },
    };
    let user = p.0;
    proof {
        let sub = spec_decode(secret, *token, now)->Ok_0.sub;
        assert(dir.users@[sub - 1].email@ == user.email@);
        assert(dir.spec_has_email(user.email@));
        let j = dir.spec_email_index(user.email@);
        assert(0 <= j < dir.users@.len() && dir.users@[j].email@ == user.email@);
        assert(j == sub - 1);
    }
    match dir.activate_account(&user.email) {
        Ok(_) => {},
        Err(_) => {
            proof {
                assert(false);
            }
            return Err(AuthError::NotFound);
        },
    }
    Ok(ActivateAccountResponse { message: "Account activated successfully".to_owned() })
}

/// Account deletion: the authorized user is deactivated and the presented
/// session token revoked for the full session lifetime.
pub fn delete_account(
    dir: &mut UserDirectory,
    store: &mut CredStore,
    token: &Token,
    secret: u64,
    now: i64,
) -> (r: Result<DeleteAccountResponse, AuthError>)
    requires
        old(dir).well_formed(),
        old(store).well_formed(),
        0 <= now <= MAX_TIME,
    ensures
        final(dir).well_formed(),
        final(store).well_formed(),
        match r {
            Ok(_) => {
                &&& spec_session_auth(*old(dir), *old(store), *token, secret, now) is Ok
                &&& final(dir).users@ == old(dir).users@.update(
                    spec_session_auth(*old(dir), *old(store), *token, secret, now)->Ok_0.id
                        - 1,
                    spec_with_active(
                        spec_session_auth(*old(dir), *old(store), *token, secret, now)->Ok_0,
                        false,
                    ),
                )
                &&& final(store)@ == old(store)@.insert(
                    CredKeyView::Session(*token),
                    (1u64, (now + SESSION_TTL_SECONDS) as i64),
                )
            },
            Err(e) => spec_session_auth(*old(dir), *old(store), *token, secret, now) == Err::<
                User,
                AuthError,
            >(e) && final(dir).users@ == old(dir).users@ && final(store)@ == old(store)@,
        },
{
    let p = match current_user(dir, store, token, secret, now) {
        Ok(p) => p,
        Err(e) => {
            return Err(e);
        },
    };
    match dir.deactivate_account(p.0.id) {
        Ok(_) => {},
        Err(_) => {
            proof {
                assert(false);
            }
            return Err(AuthError::NotFound);
        },
    }
    blacklist_token(store, token, SESSION_TTL_SECONDS, now);
    Ok(
        DeleteAccountResponse {
            message: "Account deleted successfully".to_owned(),
        },
    )
}

/// A completed scope switch is atomic for the caller: with the revocation
/// entry in place, the old token fails `Revoked` at every instant of the
/// revocation window, while the new token decodes with the new scope and
/// authorizes the same user -- provided no separate revocation entry exists
/// for the new token.
pub proof fn lemma_scope_switch_atomic(
    dir: UserDirectory,
    store0: CredStore,
    store1: CredStore,
    old_token: Token,
    new_token: Token,
    target: TokenScope,
    secret: u64,
    now: i64,
    now2: i64,
)
    requires
        dir.well_formed(),
        spec_switch_outcome(dir, store0, old_token, secret, now) == Ok::<
            (Token, TokenScope),
            AuthError,
        >((new_token, target)),
        store1@ == store0@.insert(
            CredKeyView::Session(old_token),
            (1u64, (now + SESSION_TTL_SECONDS) as i64),
        ),
        !store0.spec_live(CredKeyView::Session(new_token), now2),
        0 <= now <= MAX_TIME,
        now <= now2 < now + SESSION_TTL_SECONDS,
    ensures
        spec_session_auth(dir, store1, old_token, secret, now2) == Err::<User, AuthError>(
            AuthError::Revoked,
        ),
        spec_decode(secret, new_token, now2) == Ok::<
            crate::token::Claims,
            crate::token::TokenError,
        >(new_token.claims),
        new_token.claims.scope == target,
        spec_session_auth(dir, store1, new_token, secret, now2) == Ok::<User, AuthError>(
            spec_session_auth(dir, store0, old_token, secret, now)->Ok_0,
        ),
{
    let user = spec_session_auth(dir, store0, old_token, secret, now)->Ok_0;
    let old_claims = spec_decode(secret, old_token, now)->Ok_0;
    assert(store1.spec_live(CredKeyView::Session(old_token), now2));
    assert(new_token == spec_issue(secret, user.id, target, now, SESSION_TTL_SECONDS));
    assert(user == dir.spec_user(old_claims.sub));
    assert(dir.users@[old_claims.sub - 1].id == old_claims.sub);
    crate::token::lemma_issue_decode_window(
        secret,
        user.id,
        target,
        now,
        SESSION_TTL_SECONDS,
        now2,
    );
    assert(new_token.claims != old_token.claims) by {
        assert(spec_switch_target(old_claims.scope, user.account_type) == Some(target));
        assert(target != old_claims.scope);
    }
    assert(CredKeyView::Session(new_token) != CredKeyView::Session(old_token));
    assert(!store1.spec_live(CredKeyView::Session(new_token), now2));
    assert(dir.spec_has_user(new_token.claims.sub));
    assert(dir.spec_user(new_token.claims.sub) == user);
    assert(user.is_active);
}


/// The attendee-specific slice of a profile view.
#[derive(Clone, Debug)]
pub struct AttendeeData {
    pub preferred_event_type: crate::users::EventType,
    pub preferred_categories: Vec<crate::events::EventCategory>,
    pub motivations: Vec<String>,
}

/// A user's own profile view.
#[derive(Clone, Debug)]
pub struct UserMeResponse {
    pub id: i32,
    pub username: String,
    pub email: String,
    pub first_name: Option<String>,
    pub last_name: Option<String>,
    pub avatar_url: Option<String>,
    pub skills: Vec<String>,
    pub attendee: AttendeeData,
}

/// Assembles a profile view from the user row, the attendee sub-record, and
/// the skill, category and motivation lists loaded for it.
pub fn user_me_response(
    user: &User,
    attendee: &crate::users::AttendeeRecord,
    skills: Vec<String>,
    preferred_categories: Vec<crate::events::EventCategory>,
    motivations: Vec<String>,
) -> (r: UserMeResponse)
    ensures
        r.id == user.id,
        r.username == user.username,
        r.email == user.email,
        r.first_name == user.first_name,
        r.last_name == user.last_name,
        r.avatar_url == user.avatar_url,
        r.skills == skills,
        r.attendee.preferred_event_type == attendee.preferred_event_type,
        r.attendee.preferred_categories == preferred_categories,
        r.attendee.motivations == motivations,
{
    UserMeResponse {
        id: user.id,
        username: user.username.clone(),
        email: user.email.clone(),
        first_name: crate::users::clone_opt_string(&user.first_name),
        last_name: crate::users::clone_opt_string(&user.last_name),
        avatar_url: crate::users::clone_opt_string(&user.avatar_url),
        skills,
        attendee: AttendeeData {
            preferred_event_type: attendee.preferred_event_type,
            preferred_categories,
            motivations,
        },
    }
}


/// Profile update for the authorized user: applies the present fields and
/// acknowledges.
pub fn update_profile(
    dir: &mut UserDirectory,
    user_id: i32,
    update_data: crate::users::UpdateProfileRequest,
) -> (r: Result<crate::users::UpdateProfileResponse, UserError>)
    requires
        old(dir).well_formed(),
    ensures
        final(dir).well_formed(),
        match r {
            Ok(_) => old(dir).spec_has_user(user_id) && final(dir).users@ == old(dir).users@.update(
                user_id - 1,
                crate::users::spec_apply_profile(old(dir).spec_user(user_id), update_data),
            ),
            Err(e) => e == UserError::NotFound && !old(dir).spec_has_user(user_id) && final(dir).users@ == old(dir).users@,
        },
{
    match dir.update_user_profile(user_id, update_data) {
        Ok(_) => Ok(
            crate::users::UpdateProfileResponse {
                message: "Profile updated successfully".to_owned(),
            },
        ),
        Err(e) => Err(e),
    }
}

} // verus!
