//! The authorization pipeline: from a raw bearer token to a typed principal.
//!
//! Every guard runs the same checks in the same order, short-circuiting on
//! the first failure: revocation, then pure token verification, then scope
//! (where one is expected), then principal lookup, then the principal-state
//! gates. Single-use scopes are consumed -- a revocation entry is written for
//! the exact token, with its remaining validity as lifetime -- after all
//! checks pass and before the principal is handed out.

use vstd::prelude::*;
use crate::credstore::{CredKey, CredKeyView, CredStore};
use crate::scope::{spec_should_blacklist, should_blacklist, TokenScope};
use crate::token::{decode, spec_decode, Token, MAX_TIME};
use crate::users::{clone_host_record, clone_user, AttendeeRecord, HostRecord, User, UserDirectory};

verus! {

/// Lifetime of a session token, and of the revocation entry written for one.
pub const SESSION_TTL_SECONDS: i64 = 86400;

/// Why the pipeline refused to produce a principal.
#[derive(Clone, Copy, Debug, PartialEq, Eq, Structural)]
pub enum AuthError {
    /// Bad, expired or otherwise unverifiable credential.
    Unauthenticated,
    /// The credential was explicitly invalidated or already consumed.
    Revoked,
    /// A valid credential, but not the expected capability.
    ScopeMismatch,
    /// The principal or a required sub-record is missing.
    NotFound,
    /// The principal is administratively disabled.
    Disabled,
    /// The variant requires a verified principal.
    Unverified,
    /// A scope switch was asked of a token with no alternate scope.
    InvalidScope,
}

/// An authenticated, active user.
#[derive(Debug)]
pub struct CurrentUser(pub User);

/// An authenticated user where authentication is optional.
#[derive(Debug)]
pub struct MaybeCurrentUser(pub Option<User>);

/// An authenticated, active user together with the attendee sub-record.
#[derive(Debug)]
pub struct CurrentAttendee(pub User, pub AttendeeRecord);

/// An authenticated, active user together with the host sub-record.
#[derive(Debug)]
pub struct CurrentHost(pub User, pub HostRecord);

/// A user authorized by a single-use one-time-code token; producing this
/// consumes the token.
#[derive(Debug)]
pub struct OtpToken(pub User);

/// An authenticated, active, verified user under the generic session scope.
#[derive(Debug)]
pub struct VerifiedUser(pub User);

/// A verified attendee principal.
#[derive(Debug)]
pub struct VerifiedAttendee(pub User, pub AttendeeRecord);

/// A verified host principal.
#[derive(Debug)]
pub struct VerifiedHost(pub User, pub HostRecord);

/// Writes a revocation entry for the exact token, living `expiry_seconds`
/// from `now`. Presence of the entry is what makes the token revoked.
pub fn blacklist_token(store: &mut CredStore, token: &Token, expiry_seconds: i64, now: i64)
    requires
        old(store).well_formed(),
        0 <= now,
        0 <= expiry_seconds,
        now + expiry_seconds <= i64::MAX,
    ensures
        final(store).well_formed(),
        final(store)@ == old(store)@.insert(
            CredKeyView::Session(*token),
            (1u64, (now + expiry_seconds) as i64),
        ),
{
    store.set(CredKey::Session(*token), 1, expiry_seconds, now);
}

/// Whether a live revocation entry exists for the token at `now`.
pub fn is_token_blacklisted(store: &CredStore, token: &Token, now: i64) -> (r: bool)
    requires
        store.well_formed(),
    ensures
        r == store.spec_live(CredKeyView::Session(*token), now),
{
    store.exists_live(&CredKey::Session(*token), now)
}

/// Outcome of session authorization: revocation, then pure verification,
/// then lookup, then the active gate. No scope is expected and nothing is
/// consumed.
pub open spec fn spec_session_auth(
    dir: UserDirectory,
    store: CredStore,
    token: Token,
    secret: u64,
    now: i64,
) -> Result<User, AuthError> {
    if store.spec_live(CredKeyView::Session(token), now) {
        Err(AuthError::Revoked)
    } else {
        match spec_decode(secret, token, now) {
            Err(_) => Err(AuthError::Unauthenticated),
            Ok(claims) => {
                if !dir.spec_has_user(claims.sub) {
                    Err(AuthError::NotFound)
                } else if !dir.spec_user(claims.sub).is_active {
                    Err(AuthError::Disabled)
                } else {
                    Ok(dir.spec_user(claims.sub))
                }
            },
        }
    }
}

/// Resolves a session token to its active user: the `CurrentUser` guard.
pub fn current_user(
    dir: &UserDirectory,
    store: &CredStore,
    token: &Token,
    secret: u64,
    now: i64,
) -> (r: Result<CurrentUser, AuthError>)
    requires
        dir.well_formed(),
        store.well_formed(),
    ensures
        match r {
            Ok(p) => spec_session_auth(*dir, *store, *token, secret, now) == Ok::<
                User,
                AuthError,
            >(p.0),
            Err(e) => spec_session_auth(*dir, *store, *token, secret, now) == Err::<
                User,
                AuthError,
            >(e),
        },
{
    if is_token_blacklisted(store, token, now) {
        return Err(AuthError::Revoked);
    }
    let claims = match decode(secret, token, now) {
        Ok(c) => c,
        Err(_) => {
            return Err(AuthError::Unauthenticated);
        },
    };
    let user = match dir.get_user_model_by_id(claims.sub) {
        Ok(u) => u,
        Err(_) => {
            return Err(AuthError::NotFound);
        },
    };
    if !user.is_active {
        return Err(AuthError::Disabled);
    }
    Ok(CurrentUser(clone_user(user)))
}

/// The optional-authentication guard: a failed authorization yields no
/// principal instead of an error.
pub fn maybe_current_user(
    dir: &UserDirectory,
    store: &CredStore,
    token: &Token,
    secret: u64,
    now: i64,
) -> (r: MaybeCurrentUser)
    requires
        dir.well_formed(),
        store.well_formed(),
    ensures
        match r.0 {
            Some(u) => spec_session_auth(*dir, *store, *token, secret, now) == Ok::<
                User,
                AuthError,
            >(u),
            None => spec_session_auth(*dir, *store, *token, secret, now) is Err,
        },
{
    match current_user(dir, store, token, secret, now) {
        Ok(p) => MaybeCurrentUser(Some(p.0)),
        Err(_) => MaybeCurrentUser(None),
    }
}

/// Outcome of attendee authorization: session checks plus the attendee
/// sub-record, which must exist before the active gate is examined.
pub open spec fn spec_attendee_auth(
    dir: UserDirectory,
    store: CredStore,
    token: Token,
    secret: u64,
    now: i64,
) -> Result<(User, AttendeeRecord), AuthError> {
    if store.spec_live(CredKeyView::Session(token), now) {
        Err(AuthError::Revoked)
    } else {
        match spec_decode(secret, token, now) {
            Err(_) => Err(AuthError::Unauthenticated),
            Ok(claims) => {
                if !dir.spec_has_user(claims.sub) || dir.spec_user(claims.sub).attendee is None {
                    Err(AuthError::NotFound)
                } else if !dir.spec_user(claims.sub).is_active {
                    Err(AuthError::Disabled)
                } else {
                    Ok((dir.spec_user(claims.sub), dir.spec_user(claims.sub).attendee.unwrap()))
                }
            },
        }
    }
}

/// Resolves a session token to an active attendee: the `CurrentAttendee`
/// guard.
pub fn current_attendee(
    dir: &UserDirectory,
    store: &CredStore,
    token: &Token,
    secret: u64,
    now: i64,
) -> (r: Result<CurrentAttendee, AuthError>)
    requires
        dir.well_formed(),
        store.well_formed(),
    ensures
        match r {
            Ok(p) => spec_attendee_auth(*dir, *store, *token, secret, now) == Ok::<
                (User, AttendeeRecord),
                AuthError,
            >((p.0, p.1)),
            Err(e) => spec_attendee_auth(*dir, *store, *token, secret, now) == Err::<
                (User, AttendeeRecord),
                AuthError,
            >(e),
        },
{
    if is_token_blacklisted(store, token, now) {
        return Err(AuthError::Revoked);
    }
    let claims = match decode(secret, token, now) {
        Ok(c) => c,
        Err(_) => {
            return Err(AuthError::Unauthenticated);
        },
    };
    let (attendee, user) = match dir.get_attendee_with_user(claims.sub) {
        Ok(p) => p,
        Err(_) => {
            return Err(AuthError::NotFound);
        },
    };
    if !user.is_active {
        return Err(AuthError::Disabled);
    }
    Ok(CurrentAttendee(clone_user(user), attendee))
}

/// Outcome of host authorization: session checks plus the host sub-record.
pub open spec fn spec_host_auth(
    dir: UserDirectory,
    store: CredStore,
    token: Token,
    secret: u64,
    now: i64,
) -> Result<(User, HostRecord), AuthError> {
    if store.spec_live(CredKeyView::Session(token), now) {
        Err(AuthError::Revoked)
    } else {
        match spec_decode(secret, token, now) {
            Err(_) => Err(AuthError::Unauthenticated),
            Ok(claims) => {
                if !dir.spec_has_user(claims.sub) || dir.spec_user(claims.sub).host is None {
                    Err(AuthError::NotFound)
                } else if !dir.spec_user(claims.sub).is_active {
                    Err(AuthError::Disabled)
                } else {
                    Ok((dir.spec_user(claims.sub), dir.spec_user(claims.sub).host.unwrap()))
                }
            },
        }
    }
}

/// Resolves a session token to an active host: the `CurrentHost` guard.
pub fn current_host(
    dir: &UserDirectory,
    store: &CredStore,
    token: &Token,
    secret: u64,
    now: i64,
) -> (r: Result<CurrentHost, AuthError>)
    requires
        dir.well_formed(),
        store.well_formed(),
    ensures
        match r {
            Ok(p) => spec_host_auth(*dir, *store, *token, secret, now) == Ok::<
                (User, HostRecord),
                AuthError,
            >((p.0, p.1)),
            Err(e) => spec_host_auth(*dir, *store, *token, secret, now) == Err::<
                (User, HostRecord),
                AuthError,
            >(e),
        },
{
    if is_token_blacklisted(store, token, now) {
        return Err(AuthError::Revoked);
    }
    let claims = match decode(secret, token, now) {
        Ok(c) => c,
        Err(_) => {
            return Err(AuthError::Unauthenticated);
        },
    };
    let (host, user) = match dir.get_host_with_user(claims.sub) {
        Ok(p) => p,
        Err(_) => {
            return Err(AuthError::NotFound);
        },
    };
    if !user.is_active {
        return Err(AuthError::Disabled);
    }
    Ok(CurrentHost(clone_user(user), clone_host_record(host)))
}

/// Outcome of scoped authorization: revocation, pure verification, exact
/// scope comparison, lookup, then the active gate.
pub open spec fn spec_scoped_auth(
    dir: UserDirectory,
    store: CredStore,
    token: Token,
    secret: u64,
    expected_scope: TokenScope,
    now: i64,
) -> Result<User, AuthError> {
    if store.spec_live(CredKeyView::Session(token), now) {
        Err(AuthError::Revoked)
    } else {
        match spec_decode(secret, token, now) {
            Err(_) => Err(AuthError::Unauthenticated),
            Ok(claims) => {
                if claims.scope != expected_scope {
                    Err(AuthError::ScopeMismatch)
                } else if !dir.spec_has_user(claims.sub) {
                    Err(AuthError::NotFound)
                } else if !dir.spec_user(claims.sub).is_active {
                    Err(AuthError::Disabled)
                } else {
                    Ok(dir.spec_user(claims.sub))
                }
            },
        }
    }
}

/// Resolves a token expected to carry exactly `expected_scope`.
///
/// For single-use scopes, and only on full success, exactly one store write
/// happens: a revocation entry for this exact token whose lifetime is the
/// token's remaining validity, so a consumed token can never validate again
/// while it is cryptographically unexpired.
pub fn authorize_scoped(
    dir: &UserDirectory,
    store: &mut CredStore,
    token: &Token,
    secret: u64,
    expected_scope: TokenScope,
    now: i64,
) -> (r: Result<User, AuthError>)
    requires
        dir.well_formed(),
        old(store).well_formed(),
        0 <= now <= MAX_TIME,
    ensures
        final(store).well_formed(),
        match r {
            Ok(u) => spec_scoped_auth(*dir, *old(store), *token, secret, expected_scope, now)
                == Ok::<User, AuthError>(u),
            Err(e) => spec_scoped_auth(*dir, *old(store), *token, secret, expected_scope, now)
                == Err::<User, AuthError>(e),
        },
        r is Ok && spec_should_blacklist(expected_scope) ==> final(store)@ == old(store)@.insert(
            CredKeyView::Session(*token),
            (1u64, token.claims.exp),
        ),
        !(r is Ok && spec_should_blacklist(expected_scope)) ==> final(store)@ == old(store)@,
{
    if is_token_blacklisted(store, token, now) {
        return Err(AuthError::Revoked);
    }
    let claims = match decode(secret, token, now) {
        Ok(c) => c,
        Err(_) => {
            return Err(AuthError::Unauthenticated);
        },
    };
    if claims.scope != expected_scope {
        return Err(AuthError::ScopeMismatch);
    }
    let user = match dir.get_user_model_by_id(claims.sub) {
        Ok(u) => u,
        Err(_) => {
            return Err(AuthError::NotFound);
        },
    };
    if !user.is_active {
        return Err(AuthError::Disabled);
    }
    let user = clone_user(user);
    if should_blacklist(&expected_scope) {
        let remaining = claims.exp - now;
        blacklist_token(store, token, remaining, now);
    }
    Ok(user)
}

/// Resolves and consumes a single-use one-time-code token: the `OtpToken`
/// guard.
pub fn otp_token(
    dir: &UserDirectory,
    store: &mut CredStore,
    token: &Token,
    secret: u64,
    now: i64,
) -> (r: Result<OtpToken, AuthError>)
    requires
        dir.well_formed(),
        old(store).well_formed(),
        0 <= now <= MAX_TIME,
    ensures
        final(store).well_formed(),
        match r {
            Ok(p) => spec_scoped_auth(*dir, *old(store), *token, secret, TokenScope::Otp, now)
                == Ok::<User, AuthError>(p.0),
            Err(e) => spec_scoped_auth(*dir, *old(store), *token, secret, TokenScope::Otp, now)
                == Err::<User, AuthError>(e),
        },
        r is Ok ==> final(store)@ == old(store)@.insert(
            CredKeyView::Session(*token),
            (1u64, token.claims.exp),
        ),
        r is Err ==> final(store)@ == old(store)@,
{
    match authorize_scoped(dir, store, token, secret, TokenScope::Otp, now) {
        Ok(u) => Ok(OtpToken(u)),
        Err(e) => Err(e),
    }
}

/// The outcome of a verified-variant gate on top of an inner outcome.
pub open spec fn spec_verified_gate<T>(
    inner: Result<T, AuthError>,
    verified: spec_fn(T) -> bool,
) -> Result<T, AuthError> {
    match inner {
        Ok(v) => if verified(v) {
            Ok(v)
        } else {
            Err(AuthError::Unverified)
        },
        Err(e) => Err(e),
    }
}

/// Resolves a generic-scope token to an active, verified user: the
/// `VerifiedUser` guard. The store write of the scoped pipeline never fires
/// here because the generic scope is not single-use.
pub fn verified_user(
    dir: &UserDirectory,
    store: &mut CredStore,
    token: &Token,
    secret: u64,
    now: i64,
) -> (r: Result<VerifiedUser, AuthError>)
    requires
        dir.well_formed(),
        old(store).well_formed(),
        0 <= now <= MAX_TIME,
    ensures
        final(store).well_formed(),
        final(store)@ == old(store)@,
        match r {
            Ok(p) => spec_verified_gate(
                spec_scoped_auth(*dir, *old(store), *token, secret, TokenScope::Access, now),
                |u: User| u.verified,
            ) == Ok::<User, AuthError>(p.0),
            Err(e) => spec_verified_gate(
                spec_scoped_auth(*dir, *old(store), *token, secret, TokenScope::Access, now),
                |u: User| u.verified,
            ) == Err::<User, AuthError>(e),
        },
{
    let user = match authorize_scoped(dir, store, token, secret, TokenScope::Access, now) {
        Ok(u) => u,
        Err(e) => {
            return Err(e);
        },
    };
    if !user.verified {
        return Err(AuthError::Unverified);
    }
    Ok(VerifiedUser(user))
}

/// Resolves a session token to an active, verified attendee: the
/// `VerifiedAttendee` guard.
pub fn verified_attendee(
    dir: &UserDirectory,
    store: &CredStore,
    token: &Token,
    secret: u64,
    now: i64,
) -> (r: Result<VerifiedAttendee, AuthError>)
    requires
        dir.well_formed(),
        store.well_formed(),
    ensures
        match r {
            Ok(p) => spec_verified_gate(
                spec_attendee_auth(*dir, *store, *token, secret, now),
                |p: (User, AttendeeRecord)| p.0.verified,
            ) == Ok::<(User, AttendeeRecord), AuthError>((p.0, p.1)),
            Err(e) => spec_verified_gate(
                spec_attendee_auth(*dir, *store, *token, secret, now),
                |p: (User, AttendeeRecord)| p.0.verified,
            ) == Err::<(User, AttendeeRecord), AuthError>(e),
        },
{
    let data = match current_attendee(dir, store, token, secret, now) {
        Ok(p) => p,
        Err(e) => {
            return Err(e);
        },
    };
    if !data.0.verified {
        return Err(AuthError::Unverified);
    }
    Ok(VerifiedAttendee(data.0, data.1))
}

/// Resolves a session token to an active, verified host: the `VerifiedHost`
/// guard.
pub fn verified_host(
    dir: &UserDirectory,
    store: &CredStore,
    token: &Token,
    secret: u64,
    now: i64,
) -> (r: Result<VerifiedHost, AuthError>)
    requires
        dir.well_formed(),
        store.well_formed(),
    ensures
        match r {
            Ok(p) => spec_verified_gate(
                spec_host_auth(*dir, *store, *token, secret, now),
                |p: (User, HostRecord)| p.0.verified,
            ) == Ok::<(User, HostRecord), AuthError>((p.0, p.1)),
            Err(e) => spec_verified_gate(
                spec_host_auth(*dir, *store, *token, secret, now),
                |p: (User, HostRecord)| p.0.verified,
            ) == Err::<(User, HostRecord), AuthError>(e),
        },
{
    let data = match current_host(dir, store, token, secret, now) {
        Ok(p) => p,
        Err(e) => {
            return Err(e);
        },
    };
    if !data.0.verified {
        return Err(AuthError::Unverified);
    }
    Ok(VerifiedHost(data.0, data.1))
}

/// A consumed single-use token can never authorize a second request: with
/// the revocation entry the pipeline wrote on first success in place, every
/// replay fails -- `Revoked` while the token is cryptographically unexpired,
/// and never `Ok` afterwards either. This holds whatever happened to the
/// directory in between.
pub proof fn lemma_single_use_replay(
    dir0: UserDirectory,
    dir1: UserDirectory,
    store0: CredStore,
    store1: CredStore,
    token: Token,
    secret: u64,
    now1: i64,
    now2: i64,
)
    requires
        spec_scoped_auth(dir0, store0, token, secret, TokenScope::Otp, now1) is Ok,
        store1@ == store0@.insert(CredKeyView::Session(token), (1u64, token.claims.exp)),
        now1 <= now2,
    ensures
        now2 < token.claims.exp ==> spec_scoped_auth(dir1, store1, token, secret, TokenScope::Otp, now2)
            == Err::<User, AuthError>(AuthError::Revoked),
        !(spec_scoped_auth(dir1, store1, token, secret, TokenScope::Otp, now2) is Ok),
{
    assert(spec_decode(secret, token, now1) is Ok);
    assert(now1 < token.claims.exp);
    assert(store1@.contains_key(CredKeyView::Session(token)));
    if now2 < token.claims.exp {
        assert(store1.spec_live(CredKeyView::Session(token), now2));
    } else {
        if !store1.spec_live(CredKeyView::Session(token), now2) {
            assert(spec_decode(secret, token, now2) == Err::<
                crate::token::Claims,
                crate::token::TokenError,
            >(crate::token::TokenError::Expired));
        }
    }
}

} // verus!
