//! The token authority: minting and checking signed, scoped, expiring tokens.
//!
//! A token carries its claims (subject, scope, issued-at, expiry) together
//! with an authentication tag computed from the claims and a secret. `issue`
//! mints a token; `decode` is pure verification: it checks well-formedness,
//! the tag, and expiry against the supplied instant, and never consults
//! revocation state.

use vstd::prelude::*;
use crate::scope::TokenScope;

verus! {

/// Upper bound on every timestamp the library handles (seconds). Far past any
/// realistic instant, and small enough that sums of two timestamps never
/// overflow `i64`.
pub const MAX_TIME: i64 = 4_000_000_000_000;

/// The immutable claims embedded in a token.
#[derive(Clone, Copy, Debug, PartialEq, Eq, Structural)]
pub struct Claims {
    /// Subject: the principal's id.
    pub sub: i32,
    /// The single capability tag of this token.
    pub scope: TokenScope,
    /// Instant the token was issued (seconds).
    pub iat: i64,
    /// Instant the token stops validating (seconds).
    pub exp: i64,
}

/// A signed token: claims plus the authentication tag over them.
#[derive(Clone, Copy, Debug, PartialEq, Eq, Structural)]
pub struct Token {
    pub claims: Claims,
    pub sig: u64,
}

/// Why `decode` rejected a token.
#[derive(Clone, Copy, Debug, PartialEq, Eq, Structural)]
pub enum TokenError {
    /// The claims are not of the shape the authority ever issues.
    Malformed,
    /// The tag does not match the claims under the given secret.
    InvalidSignature,
    /// The current instant is at or past the expiry.
    Expired,
}

/// One mixing step of the tag: multiply by an odd constant and add, both
/// modulo 2^64.
pub open spec fn spec_mix(h: u64, x: u64) -> u64 {
    vstd::wrapping::u64_specs::wrapping_add(
        vstd::wrapping::u64_specs::wrapping_mul(h, 0x100000001b3),
        x,
    )
}

fn mix(h: u64, x: u64) -> (r: u64)
    ensures
        r == spec_mix(h, x),
{
    h.wrapping_mul(0x100000001b3).wrapping_add(x)
}

/// Numeric code folded into the tag for each scope.
pub open spec fn spec_scope_code(scope: TokenScope) -> u64 {
    match scope {
        TokenScope::Access => 1u64,
        TokenScope::Otp => 2u64,
        TokenScope::Host => 3u64,
        TokenScope::Attendee => 4u64,
    }
}

fn scope_code(scope: TokenScope) -> (r: u64)
    ensures
        r == spec_scope_code(scope),
{
    match scope {
        TokenScope::Access => 1u64,
        TokenScope::Otp => 2u64,
        TokenScope::Host => 3u64,
        TokenScope::Attendee => 4u64,
    }
}

/// The authentication tag of a set of claims under a secret.
pub open spec fn spec_token_tag(secret: u64, claims: Claims) -> u64
    recommends
        claims_well_formed(claims),
{
    spec_mix(
        spec_mix(
            spec_mix(spec_mix(secret, claims.sub as u64), spec_scope_code(claims.scope)),
            claims.iat as u64,
        ),
        claims.exp as u64,
    )
}

/// The shape of claims the authority issues: a nonnegative subject and a
/// bounded, nonempty validity window.
pub open spec fn claims_well_formed(claims: Claims) -> bool {
    &&& 0 <= claims.sub
    &&& 0 <= claims.iat <= MAX_TIME
    &&& claims.iat < claims.exp <= 2 * MAX_TIME
}

fn token_tag(secret: u64, claims: &Claims) -> (r: u64)
    requires
        claims_well_formed(*claims),
    ensures
        r == spec_token_tag(secret, *claims),
{
    let h = mix(secret, claims.sub as u64);
    let h = mix(h, scope_code(claims.scope));
    let h = mix(h, claims.iat as u64);
    mix(h, claims.exp as u64)
}

/// The token `issue` mints for the given inputs.
pub open spec fn spec_issue(secret: u64, sub: i32, scope: TokenScope, iat: i64, ttl: i64) -> Token {
    let claims = Claims { sub, scope, iat, exp: (iat + ttl) as i64 };
    Token { claims, sig: spec_token_tag(secret, claims) }
}

/// Mints a signed token whose validity window is `[iat, iat + ttl)`.
///
/// No side effects beyond computation: issuing consults no store.
pub fn issue(secret: u64, sub: i32, scope: TokenScope, iat: i64, ttl_seconds: i64) -> (t: Token)
    requires
        0 <= sub,
        0 <= iat <= MAX_TIME,
        0 < ttl_seconds <= MAX_TIME,
    ensures
        t == spec_issue(secret, sub, scope, iat, ttl_seconds),
        claims_well_formed(t.claims),
        t.claims.sub == sub,
        t.claims.scope == scope,
        t.claims.iat == iat,
        t.claims.exp == iat + ttl_seconds,
{
    let claims = Claims { sub, scope, iat, exp: iat + ttl_seconds };
    let sig = token_tag(secret, &claims);
    Token { claims, sig }
}

/// What `decode` returns: pure verification of shape, tag, then expiry.
pub open spec fn spec_decode(secret: u64, token: Token, now: i64) -> Result<Claims, TokenError> {
    if !claims_well_formed(token.claims) {
        Err(TokenError::Malformed)
    } else if token.sig != spec_token_tag(secret, token.claims) {
        Err(TokenError::InvalidSignature)
    } else if now >= token.claims.exp {
        Err(TokenError::Expired)
    } else {
        Ok(token.claims)
    }
}

/// Checks a token against a secret at the instant `now` and returns its
/// claims, failing `Malformed`, `InvalidSignature` or `Expired` in that
/// order. Does not consult revocation state.
pub fn decode(secret: u64, token: &Token, now: i64) -> (r: Result<Claims, TokenError>)
    ensures
        r == spec_decode(secret, *token, now),
{
    let c = &token.claims;
    if !(0 <= c.sub && 0 <= c.iat && c.iat <= MAX_TIME && c.iat < c.exp && c.exp <= 2 * MAX_TIME) {
        return Err(TokenError::Malformed);
    }
    if token.sig != token_tag(secret, c) {
        return Err(TokenError::InvalidSignature);
    }
    if now >= c.exp {
        return Err(TokenError::Expired);
    }
    Ok(token.claims)
}

/// A token issued with scope `s` and ttl `d` decodes successfully, with the
/// claims it was minted with, at every instant before `iat + d`, and fails
/// `Expired` at every instant at or after `iat + d`.
pub proof fn lemma_issue_decode_window(
    secret: u64,
    sub: i32,
    scope: TokenScope,
    iat: i64,
    ttl: i64,
    t: i64,
)
    requires
        0 <= sub,
        0 <= iat <= MAX_TIME,
        0 < ttl <= MAX_TIME,
    ensures
        t < iat + ttl ==> spec_decode(secret, spec_issue(secret, sub, scope, iat, ttl), t)
            == Ok::<Claims, TokenError>(spec_issue(secret, sub, scope, iat, ttl).claims),
        spec_issue(secret, sub, scope, iat, ttl).claims == (Claims {
            sub,
            scope,
            iat,
            exp: (iat + ttl) as i64,
        }),
        t >= iat + ttl ==> spec_decode(secret, spec_issue(secret, sub, scope, iat, ttl), t)
            == Err::<Claims, TokenError>(TokenError::Expired),
{
}

} // verus!
