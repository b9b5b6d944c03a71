//! Token scopes and account types.
//!
//! A scope is the single string-like tag on a token that restricts what
//! capability it can authorize. Session scopes (`Access`, `Attendee`, `Host`)
//! are long-lived; the `Otp` scope marks short-lived single-use verification
//! tokens.

use vstd::prelude::*;

verus! {

/// The purpose tag carried by a token. Exactly one scope per token.
#[derive(Clone, Copy, Debug, PartialEq, Eq, Structural)]
pub enum TokenScope {
    /// Generic session scope.
    Access,
    /// Single-use scope for one-time-code verification flows.
    Otp,
    /// Session scope for host capabilities.
    Host,
    /// Session scope for attendee capabilities.
    Attendee,
}

/// Whether a user signed up as an attendee or as a host.
#[derive(Clone, Copy, Debug, PartialEq, Eq, Structural)]
pub enum AccountType {
    Attendee,
    Host,
}

/// Scopes designated single-use: validating such a token consumes it.
pub open spec fn spec_should_blacklist(scope: TokenScope) -> bool {
    scope is Otp
}

/// Returns true exactly for the scopes whose tokens are revoked on first
/// successful authorization.
pub fn should_blacklist(scope: &TokenScope) -> (r: bool)
    ensures
        r == spec_should_blacklist(*scope),
{
    matches!(scope, TokenScope::Otp)
}

/// The scope a session token receives when a principal with the given account
/// type logs in.
pub open spec fn spec_login_scope(account_type: AccountType) -> TokenScope {
    match account_type {
        AccountType::Attendee => TokenScope::Attendee,
        AccountType::Host => TokenScope::Host,
    }
}

/// Scope selection at login: attendees get `Attendee` scope, hosts get `Host`.
pub fn login_scope(account_type: AccountType) -> (r: TokenScope)
    ensures
        r == spec_login_scope(account_type),
{
    match account_type {
        AccountType::Attendee => TokenScope::Attendee,
        AccountType::Host => TokenScope::Host,
    }
}

/// The complementary scope a scope switch moves to, if any.
///
/// Session scopes switch between the attendee-facing and host-facing
/// capability; the generic `Access` scope pairs with `Host`. A single-use
/// `Otp` token has no alternate scope to switch to.
pub open spec fn spec_switch_target(current: TokenScope, account_type: AccountType) -> Option<
    TokenScope,
> {
    match current {
        TokenScope::Access => match account_type {
            AccountType::Attendee => Some(TokenScope::Host),
            AccountType::Host => Some(TokenScope::Attendee),
        },
        TokenScope::Host => Some(TokenScope::Access),
        TokenScope::Attendee => match account_type {
            AccountType::Attendee => Some(TokenScope::Access),
            AccountType::Host => Some(TokenScope::Host),
        },
        TokenScope::Otp => None,
    }
}

/// Target scope for a scope switch, or `None` when the presented scope has no
/// alternate (single-use scopes cannot be switched).
pub fn switch_target(current: TokenScope, account_type: AccountType) -> (r: Option<TokenScope>)
    ensures
        r == spec_switch_target(current, account_type),
{
    match current {
        TokenScope::Access => match account_type {
            AccountType::Attendee => Some(TokenScope::Host),
            AccountType::Host => Some(TokenScope::Attendee),
        },
        TokenScope::Host => Some(TokenScope::Access),
        TokenScope::Attendee => match account_type {
            AccountType::Attendee => Some(TokenScope::Access),
            AccountType::Host => Some(TokenScope::Host),
        },
        TokenScope::Otp => None,
    }
}

} // verus!
