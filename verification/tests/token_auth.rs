use attendance_core::accounts::{
    activate_account_handler, delete_account, login, logout, resend_otp, signup, switch_user_scope,
    update_profile, user_me_response, verify_account, verify_otp, AccountError, LoginRequest,
    ResendOtpRequest, VerifyOtpRequest,
};
use attendance_core::users::{UpdateProfileRequest, UserError};
use attendance_core::authz::{
    authorize_scoped, current_attendee, current_host, current_user, is_token_blacklisted,
    maybe_current_user, otp_token, verified_attendee, verified_host, verified_user, AuthError,
    SESSION_TTL_SECONDS,
};
use attendance_core::credstore::CredStore;
use attendance_core::otp::{generate_otp, store_otp, verify_otp_code};
use attendance_core::scope::{should_blacklist, switch_target, AccountType, TokenScope};
use attendance_core::token::{decode, issue, Token, TokenError};
use attendance_core::users::{SignUp, SignupType, UserDirectory};

const SECRET: u64 = 0x5eed_0123_4567_89ab;

fn local_signup(name: &str, email: &str) -> SignUp {
    SignUp {
        username: name.to_string(),
        first_name: None,
        last_name: None,
        email: email.to_string(),
        avatar_url: None,
        password: "correct horse battery".to_string(),
        signup_type: SignupType::Local,
    }
}

fn social_signup(name: &str, email: &str) -> SignUp {
    SignUp {
        username: name.to_string(),
        first_name: Some("Ada".to_string()),
        last_name: Some("L".to_string()),
        email: email.to_string(),
        avatar_url: None,
        password: "another password!".to_string(),
        signup_type: SignupType::Google,
    }
}

fn one_user_dir() -> UserDirectory {
    let mut dir = UserDirectory::new();
    let mut store = CredStore::new();
    signup(&mut dir, &mut store, social_signup("ada", "ada@example.com"), 300, 1000).unwrap();
    dir
}

#[test]
fn decode_succeeds_within_ttl_with_issued_claims() {
    let t = issue(SECRET, 7, TokenScope::Attendee, 1000, 3600);
    let claims = decode(SECRET, &t, 1000).unwrap();
    assert_eq!(claims.sub, 7);
    assert_eq!(claims.scope, TokenScope::Attendee);
    assert_eq!(claims.iat, 1000);
    assert_eq!(claims.exp, 4600);
    assert!(decode(SECRET, &t, 4599).is_ok());
}

#[test]
fn decode_fails_expired_at_and_after_expiry() {
    let t = issue(SECRET, 7, TokenScope::Attendee, 1000, 3600);
    assert_eq!(decode(SECRET, &t, 4600).unwrap_err(), TokenError::Expired);
    assert_eq!(decode(SECRET, &t, 1_000_000_000).unwrap_err(), TokenError::Expired);
}

#[test]
fn decode_rejects_tampered_signature() {
    let t = issue(SECRET, 7, TokenScope::Otp, 1000, 600);
    let forged = Token { claims: t.claims, sig: t.sig.wrapping_add(1) };
    assert_eq!(decode(SECRET, &forged, 1001).unwrap_err(), TokenError::InvalidSignature);
}

#[test]
fn decode_rejects_wrong_secret() {
    let t = issue(SECRET, 7, TokenScope::Otp, 1000, 600);
    assert_eq!(decode(SECRET + 1, &t, 1001).unwrap_err(), TokenError::InvalidSignature);
}

#[test]
fn decode_rejects_malformed_claims() {
    let mut t = issue(SECRET, 7, TokenScope::Otp, 1000, 600);
    t.claims.exp = t.claims.iat - 1;
    assert_eq!(decode(SECRET, &t, 1001).unwrap_err(), TokenError::Malformed);
}

#[test]
fn should_blacklist_only_otp_scope() {
    assert!(should_blacklist(&TokenScope::Otp));
    assert!(!should_blacklist(&TokenScope::Access));
    assert!(!should_blacklist(&TokenScope::Host));
    assert!(!should_blacklist(&TokenScope::Attendee));
}

#[test]
fn single_use_token_authorizes_at_most_once() {
    let dir = one_user_dir();
    let mut store = CredStore::new();
    let t = issue(SECRET, 1, TokenScope::Otp, 1000, 600);
    let first = authorize_scoped(&dir, &mut store, &t, SECRET, TokenScope::Otp, 1010);
    assert!(first.is_ok());
    let replay = authorize_scoped(&dir, &mut store, &t, SECRET, TokenScope::Otp, 1020);
    assert_eq!(replay.unwrap_err(), AuthError::Revoked);
    let much_later = authorize_scoped(&dir, &mut store, &t, SECRET, TokenScope::Otp, 1599);
    assert_eq!(much_later.unwrap_err(), AuthError::Revoked);
}

#[test]
fn access_scope_is_not_consumed() {
    let dir = one_user_dir();
    let mut store = CredStore::new();
    let t = issue(SECRET, 1, TokenScope::Access, 1000, 3600);
    assert!(authorize_scoped(&dir, &mut store, &t, SECRET, TokenScope::Access, 1010).is_ok());
    assert!(authorize_scoped(&dir, &mut store, &t, SECRET, TokenScope::Access, 1020).is_ok());
}

#[test]
fn scope_mismatch_is_reported() {
    let dir = one_user_dir();
    let mut store = CredStore::new();
    let t = issue(SECRET, 1, TokenScope::Attendee, 1000, 3600);
    let r = authorize_scoped(&dir, &mut store, &t, SECRET, TokenScope::Otp, 1010);
    assert_eq!(r.unwrap_err(), AuthError::ScopeMismatch);
}

#[test]
fn unknown_subject_is_not_found() {
    let dir = one_user_dir();
    let store = CredStore::new();
    let t = issue(SECRET, 42, TokenScope::Access, 1000, 3600);
    let r = current_user(&dir, &store, &t, SECRET, 1010);
    assert_eq!(r.unwrap_err(), AuthError::NotFound);
}

#[test]
fn expired_token_is_unauthenticated() {
    let dir = one_user_dir();
    let store = CredStore::new();
    let t = issue(SECRET, 1, TokenScope::Access, 1000, 600);
    let r = current_user(&dir, &store, &t, SECRET, 1600);
    assert_eq!(r.unwrap_err(), AuthError::Unauthenticated);
}

#[test]
fn disabled_user_is_rejected() {
    let mut dir = one_user_dir();
    dir.deactivate_account(1).unwrap();
    let store = CredStore::new();
    let t = issue(SECRET, 1, TokenScope::Access, 1000, 3600);
    let r = current_user(&dir, &store, &t, SECRET, 1010);
    assert_eq!(r.unwrap_err(), AuthError::Disabled);
}

#[test]
fn unverified_user_fails_verified_gate() {
    let mut dir = UserDirectory::new();
    let mut store = CredStore::new();
    signup(&mut dir, &mut store, local_signup("bob", "bob@example.com"), 300, 1000).unwrap();
    let t = issue(SECRET, 1, TokenScope::Access, 1000, 3600);
    let r = verified_user(&dir, &mut store, &t, SECRET, 1010);
    assert_eq!(r.unwrap_err(), AuthError::Unverified);
}

#[test]
fn verified_guards_pass_for_verified_user() {
    let dir = one_user_dir();
    let mut store = CredStore::new();
    let t = issue(SECRET, 1, TokenScope::Access, 1000, 3600);
    assert!(verified_user(&dir, &mut store, &t, SECRET, 1010).is_ok());
    assert!(verified_attendee(&dir, &store, &t, SECRET, 1010).is_ok());
    assert!(verified_host(&dir, &store, &t, SECRET, 1010).is_ok());
}

#[test]
fn attendee_and_host_guards_resolve_sub_records() {
    let dir = one_user_dir();
    let store = CredStore::new();
    let t = issue(SECRET, 1, TokenScope::Attendee, 1000, 3600);
    let a = current_attendee(&dir, &store, &t, SECRET, 1010).unwrap();
    assert_eq!(a.0.id, 1);
    let h = current_host(&dir, &store, &t, SECRET, 1010).unwrap();
    assert_eq!(h.0.id, 1);
}

#[test]
fn maybe_current_user_swallows_failures() {
    let dir = one_user_dir();
    let store = CredStore::new();
    let bad = issue(SECRET + 9, 1, TokenScope::Access, 1000, 3600);
    let r = maybe_current_user(&dir, &store, &bad, SECRET, 1010);
    assert!(r.0.is_none());
    let good = issue(SECRET, 1, TokenScope::Access, 1000, 3600);
    let r = maybe_current_user(&dir, &store, &good, SECRET, 1010);
    assert_eq!(r.0.unwrap().id, 1);
}

#[test]
fn logout_revokes_the_session_token() {
    let dir = one_user_dir();
    let mut store = CredStore::new();
    let t = issue(SECRET, 1, TokenScope::Access, 1000, 3600);
    logout(&dir, &mut store, &t, SECRET, 1010).unwrap();
    assert!(is_token_blacklisted(&store, &t, 1011));
    let r = current_user(&dir, &store, &t, SECRET, 1011);
    assert_eq!(r.unwrap_err(), AuthError::Revoked);
}

#[test]
fn login_issues_scoped_session_token() {
    let dir = one_user_dir();
    let req = LoginRequest {
        identifier: "ada@example.com".to_string(),
        password: "another password!".to_string(),
    };
    let resp = login(&dir, &req, SECRET, 1000).unwrap();
    assert_eq!(resp.id, 1);
    assert_eq!(resp.username, "ada");
    let claims = decode(SECRET, &resp.access_token, 1001).unwrap();
    assert_eq!(claims.sub, 1);
    assert_eq!(claims.scope, TokenScope::Attendee);
    assert_eq!(claims.exp, 1000 + SESSION_TTL_SECONDS);
}

#[test]
fn login_rejects_wrong_password_and_unknown_identifier() {
    let dir = one_user_dir();
    let wrong = LoginRequest {
        identifier: "ada".to_string(),
        password: "wrong password!!".to_string(),
    };
    assert!(login(&dir, &wrong, SECRET, 1000).is_err());
    let unknown = LoginRequest {
        identifier: "nobody".to_string(),
        password: "whatever pass 1".to_string(),
    };
    assert!(login(&dir, &unknown, SECRET, 1000).is_err());
}

#[test]
fn login_request_validation() {
    let ok = LoginRequest { identifier: "a".to_string(), password: "12345678".to_string() };
    assert!(ok.validate());
    let short = LoginRequest { identifier: "a".to_string(), password: "1234567".to_string() };
    assert!(!short.validate());
    let empty = LoginRequest { identifier: "".to_string(), password: "12345678".to_string() };
    assert!(!empty.validate());
}

#[test]
fn scope_switch_revokes_old_and_validates_new() {
    let dir = one_user_dir();
    let mut store = CredStore::new();
    let old_token = issue(SECRET, 1, TokenScope::Attendee, 1000, SESSION_TTL_SECONDS);
    let resp = switch_user_scope(&dir, &mut store, &old_token, SECRET, 2000).unwrap();
    assert_eq!(resp.new_scope, TokenScope::Access);
    let r_old = current_user(&dir, &store, &old_token, SECRET, 2001);
    assert_eq!(r_old.unwrap_err(), AuthError::Revoked);
    let claims = decode(SECRET, &resp.new_access_token, 2001).unwrap();
    assert_eq!(claims.scope, TokenScope::Access);
    assert!(current_user(&dir, &store, &resp.new_access_token, SECRET, 2001).is_ok());
}

#[test]
fn scope_switch_pairs() {
    assert_eq!(switch_target(TokenScope::Access, AccountType::Attendee), Some(TokenScope::Host));
    assert_eq!(switch_target(TokenScope::Access, AccountType::Host), Some(TokenScope::Attendee));
    assert_eq!(switch_target(TokenScope::Host, AccountType::Attendee), Some(TokenScope::Access));
    assert_eq!(switch_target(TokenScope::Attendee, AccountType::Host), Some(TokenScope::Host));
    assert_eq!(switch_target(TokenScope::Otp, AccountType::Attendee), None);
}

#[test]
fn scope_switch_rejects_single_use_scope() {
    let dir = one_user_dir();
    let mut store = CredStore::new();
    let t = issue(SECRET, 1, TokenScope::Otp, 1000, 600);
    let r = switch_user_scope(&dir, &mut store, &t, SECRET, 1010);
    assert_eq!(r.unwrap_err(), AuthError::InvalidScope);
}

#[test]
fn generate_otp_is_six_digits() {
    for _ in 0..32 {
        let code = generate_otp();
        assert!((100000..999999).contains(&code));
    }
}

#[test]
fn otp_round_trip_is_single_use() {
    let mut store = CredStore::new();
    let email = "ada@example.com".to_string();
    store_otp(&mut store, email.clone(), 123456, 300, 1000);
    assert!(!verify_otp_code(&mut store, &email, 654321, 1001));
    assert!(verify_otp_code(&mut store, &email, 123456, 1001));
    assert!(!verify_otp_code(&mut store, &email, 123456, 1002));
}

#[test]
fn otp_expires_with_its_ttl() {
    let mut store = CredStore::new();
    let email = "ada@example.com".to_string();
    store_otp(&mut store, email.clone(), 123456, 300, 1000);
    assert!(!verify_otp_code(&mut store, &email, 123456, 1300));
}

#[test]
fn verify_otp_flow_consumes_code_and_issues_token() {
    let dir = one_user_dir();
    let mut store = CredStore::new();
    store_otp(&mut store, "ada@example.com".to_string(), 222333, 300, 1000);
    let req = VerifyOtpRequest { email: "ada@example.com".to_string(), otp: 222333 };
    let resp = verify_otp(&dir, &mut store, &req, SECRET, 600, 1001).unwrap();
    let claims = decode(SECRET, &resp.verification_token, 1002).unwrap();
    assert_eq!(claims.scope, TokenScope::Otp);
    assert_eq!(claims.sub, 1);
    let again = verify_otp(&dir, &mut store, &req, SECRET, 600, 1003);
    assert_eq!(again.unwrap_err(), AccountError::InvalidOtp);
}

#[test]
fn verify_otp_flow_rejects_wrong_code() {
    let dir = one_user_dir();
    let mut store = CredStore::new();
    store_otp(&mut store, "ada@example.com".to_string(), 222333, 300, 1000);
    let req = VerifyOtpRequest { email: "ada@example.com".to_string(), otp: 111111 };
    let r = verify_otp(&dir, &mut store, &req, SECRET, 600, 1001);
    assert_eq!(r.unwrap_err(), AccountError::InvalidOtp);
}

#[test]
fn resend_otp_requires_known_email() {
    let dir = one_user_dir();
    let mut store = CredStore::new();
    let missing = ResendOtpRequest { email: "ghost@example.com".to_string() };
    assert_eq!(resend_otp(&dir, &mut store, &missing, 300, 1000).unwrap_err(), AccountError::NotFound);
    let known = ResendOtpRequest { email: "ada@example.com".to_string() };
    let (_, code) = resend_otp(&dir, &mut store, &known, 300, 1000).unwrap();
    assert!(verify_otp_code(&mut store, &"ada@example.com".to_string(), code, 1001));
}

#[test]
fn signup_assigns_ids_and_flags() {
    let mut dir = UserDirectory::new();
    let mut store = CredStore::new();
    let (show, code) =
        signup(&mut dir, &mut store, local_signup("bob", "bob@example.com"), 300, 1000).unwrap();
    assert_eq!(show.id, 1);
    assert!(code.is_some());
    assert!(!dir.users[0].verified);
    let (show2, code2) =
        signup(&mut dir, &mut store, social_signup("ada", "ada@example.com"), 300, 1000).unwrap();
    assert_eq!(show2.id, 2);
    assert!(code2.is_none());
    assert!(dir.users[1].verified);
}

#[test]
fn signup_rejects_taken_username_or_email() {
    let mut dir = UserDirectory::new();
    let mut store = CredStore::new();
    signup(&mut dir, &mut store, local_signup("bob", "bob@example.com"), 300, 1000).unwrap();
    let same_name = signup(&mut dir, &mut store, local_signup("bob", "b2@example.com"), 300, 1000);
    assert_eq!(same_name.unwrap_err(), AccountError::AlreadyExists);
    let same_mail = signup(&mut dir, &mut store, local_signup("bb2", "bob@example.com"), 300, 1000);
    assert_eq!(same_mail.unwrap_err(), AccountError::AlreadyExists);
}

#[test]
fn verify_account_consumes_otp_token() {
    let dir = one_user_dir();
    let mut store = CredStore::new();
    let t = issue(SECRET, 1, TokenScope::Otp, 1000, 600);
    let resp = verify_account(&dir, &mut store, &t, SECRET, 1010).unwrap();
    assert_eq!(resp.user_id, 1);
    let again = otp_token(&dir, &mut store, &t, SECRET, 1011);
    assert_eq!(again.unwrap_err(), AuthError::Revoked);
}

#[test]
fn delete_account_deactivates_and_revokes() {
    let mut dir = one_user_dir();
    let mut store = CredStore::new();
    let session = issue(SECRET, 1, TokenScope::Access, 1000, 3600);
    delete_account(&mut dir, &mut store, &session, SECRET, 1010).unwrap();
    assert!(!dir.users[0].is_active);
    assert!(is_token_blacklisted(&store, &session, 1011));
    // The pipeline's disabled gate holds for every variant, so a deactivated
    // account cannot authorize even a fresh single-use token.
    let otp_tok = issue(SECRET, 1, TokenScope::Otp, 2000, 600);
    let r = activate_account_handler(&mut dir, &mut store, &otp_tok, SECRET, 2010);
    assert_eq!(r.unwrap_err(), AuthError::Disabled);
}

#[test]
fn activate_account_handler_consumes_token() {
    let mut dir = one_user_dir();
    let mut store = CredStore::new();
    let otp_tok = issue(SECRET, 1, TokenScope::Otp, 2000, 600);
    activate_account_handler(&mut dir, &mut store, &otp_tok, SECRET, 2010).unwrap();
    assert!(dir.users[0].is_active);
    let again = activate_account_handler(&mut dir, &mut store, &otp_tok, SECRET, 2020);
    assert_eq!(again.unwrap_err(), AuthError::Revoked);
}

#[test]
fn directory_reactivates_by_email() {
    let mut dir = one_user_dir();
    dir.deactivate_account(1).unwrap();
    assert!(!dir.users[0].is_active);
    dir.activate_account(&"ada@example.com".to_string()).unwrap();
    assert!(dir.users[0].is_active);
    let missing = dir.activate_account(&"ghost@example.com".to_string());
    assert!(missing.is_err());
}

#[test]
fn password_digest_empty_has_known_seed() {
    assert_eq!(attendance_core::users::password_digest(""), 0xcbf29ce484222325);
}

#[test]
fn authenticate_user_distinguishes_errors() {
    let dir = one_user_dir();
    let by_name = dir.authenticate_user(&"ada".to_string(), "another password!");
    assert!(by_name.is_ok());
    let bad_pw = dir.authenticate_user(&"ada".to_string(), "not the password");
    assert_eq!(bad_pw.unwrap_err(), UserError::InvalidPassword);
    let missing = dir.authenticate_user(&"ghost".to_string(), "another password!");
    assert_eq!(missing.unwrap_err(), UserError::NotFound);
}

#[test]
fn update_profile_flow_acknowledges() {
    let mut dir = one_user_dir();
    let req = UpdateProfileRequest {
        first_name: None,
        last_name: None,
        avatar_url: Some("https://example.com/a.png".to_string()),
        preferred_event_type: None,
        organization_name: None,
        organization_website: None,
    };
    let resp = update_profile(&mut dir, 1, req).unwrap();
    assert_eq!(resp.message, "Profile updated successfully");
    let missing = UpdateProfileRequest {
        first_name: None,
        last_name: None,
        avatar_url: None,
        preferred_event_type: None,
        organization_name: None,
        organization_website: None,
    };
    assert!(update_profile(&mut dir, 9, missing).is_err());
}

#[test]
fn profile_update_applies_present_fields() {
    let mut dir = one_user_dir();
    let req = UpdateProfileRequest {
        first_name: Some("Grace".to_string()),
        last_name: None,
        avatar_url: None,
        preferred_event_type: None,
        organization_name: Some("Org".to_string()),
        organization_website: None,
    };
    dir.update_user_profile(1, req).unwrap();
    assert_eq!(dir.users[0].first_name.as_deref(), Some("Grace"));
    assert_eq!(dir.users[0].last_name.as_deref(), Some("L"));
    assert_eq!(
        dir.users[0].host.as_ref().unwrap().organization_name.as_deref(),
        Some("Org")
    );
}

#[test]
fn user_lookups_project_public_fields() {
    let dir = one_user_dir();
    let show = dir.get_user_by_id(1).unwrap();
    assert_eq!(show.id, 1);
    assert_eq!(show.username, "ada");
    assert_eq!(show.email, "ada@example.com");
    assert!(dir.get_user_by_id(2).is_err());
    let by_email = dir.get_user_by_email(&"ada@example.com".to_string()).unwrap();
    assert_eq!(by_email.id, 1);
    assert!(dir.get_user_by_email(&"ghost@example.com".to_string()).is_err());
}

#[test]
fn user_me_response_assembles_profile_view() {
    let dir = one_user_dir();
    let user = dir.get_user_model_by_id(1).unwrap();
    let attendee = user.attendee.as_ref().unwrap();
    let resp = user_me_response(
        user,
        attendee,
        vec!["rust".to_string()],
        vec![attendance_core::events::EventCategory::Social],
        vec!["learning".to_string()],
    );
    assert_eq!(resp.id, 1);
    assert_eq!(resp.username, "ada");
    assert_eq!(resp.skills, vec!["rust".to_string()]);
    assert_eq!(resp.attendee.motivations, vec!["learning".to_string()]);
}
