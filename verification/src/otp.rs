//! One-time codes: generation, storage and single-use verification.
//!
//! A code lives in the credential store under the email it was sent to, with
//! a bounded lifetime. Verifying a code consumes it, so a code can never be
//! accepted twice.

use vstd::prelude::*;
use crate::credstore::{CredKey, CredKeyView, CredStore};

verus! {

/// Smallest value a one-time code can take.
pub const OTP_MIN: u32 = 100000;

/// All codes are strictly below this bound.
pub const OTP_BOUND: u32 = 999999;

/// Relies on rand::Rng::gen_range over rand::thread_rng: a draw from the
/// half-open range, so the result lies in it; nothing more holds of a random
/// draw.
#[verifier::external_body]
fn random_code() -> (r: u32)
    ensures
        OTP_MIN <= r < OTP_BOUND,
{
    rand::Rng::gen_range(&mut rand::thread_rng(), OTP_MIN..OTP_BOUND)
}

/// Generates a six-digit one-time code.
pub fn generate_otp() -> (r: u32)
    ensures
        OTP_MIN <= r < OTP_BOUND,
{
    random_code()
}

/// Stores a one-time code for `email`, valid for `expiry_seconds` from `now`
/// and replacing any earlier code for the same email.
pub fn store_otp(store: &mut CredStore, email: String, otp: u32, expiry_seconds: i64, now: i64)
    requires
        old(store).well_formed(),
        0 <= now,
        0 <= expiry_seconds,
        now + expiry_seconds <= i64::MAX,
    ensures
        final(store).well_formed(),
        final(store)@ == old(store)@.insert(
            CredKeyView::OneTimeCode(email@),
            (otp as u64, (now + expiry_seconds) as i64),
        ),
{
    store.set(CredKey::OneTimeCode(email), otp as u64, expiry_seconds, now);
}

/// Checks a presented code against the stored one and consumes it on match:
/// true exactly when a live code for this email equals the presented one, and
/// then the binding is gone. A wrong or expired code changes nothing.
pub fn verify_otp_code(store: &mut CredStore, email: &String, otp: u32, now: i64) -> (r: bool)
    requires
        old(store).well_formed(),
    ensures
        final(store).well_formed(),
        r == (old(store).spec_live(CredKeyView::OneTimeCode(email@), now) && old(
            store,
        )@[CredKeyView::OneTimeCode(email@)].0 == otp as u64),
        r ==> final(store)@ == old(store)@.remove(CredKeyView::OneTimeCode(email@)),
        !r ==> final(store)@ == old(store)@,
{
    let key = CredKey::OneTimeCode(email.clone());
    match store.get_live(&key, now) {
        Some(stored) => {
            if stored == otp as u64 {
                store.delete(&key);
                true
            } else {
                false
            }
        },
        None => false,
    }
}

} // verus!
