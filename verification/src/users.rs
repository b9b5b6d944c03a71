//! The user directory: principals and their capability sub-records.
//!
//! A user row carries the identity the authorization pipeline resolves
//! (id, username, email, active and verified flags, account type) and the
//! attendee and host sub-records that scoped variants require. Ids are
//! assigned sequentially on insertion and never reused; rows are deactivated,
//! never deleted.

use vstd::prelude::*;
use vstd::string::StringSliceAdditionalSpecFns;
use crate::scope::AccountType;
use crate::token::spec_mix;

verus! {

/// How an account was created; social signups arrive already verified.
#[derive(Clone, Copy, Debug, PartialEq, Eq, Structural)]
pub enum SignupType {
    Local,
    Google,
    Facebook,
    Apple,
}

/// The kind of event an attendee prefers.
#[derive(Clone, Copy, Debug, PartialEq, Eq, Structural)]
pub enum EventType {
    Physical,
    Virtual,
}

/// Attendee sub-record of a user.
#[derive(Clone, Copy, Debug)]
pub struct AttendeeRecord {
    pub preferred_event_type: EventType,
}

/// Host sub-record of a user.
#[derive(Clone, Debug)]
pub struct HostRecord {
    pub organization_name: Option<String>,
    pub organization_website: Option<String>,
}

/// A principal: identity plus capability sub-records.
#[derive(Clone, Debug)]
pub struct User {
    pub id: i32,
    pub username: String,
    pub first_name: Option<String>,
    pub last_name: Option<String>,
    pub email: String,
    pub avatar_url: Option<String>,
    pub password_hash: u64,
    pub is_active: bool,
    pub verified: bool,
    pub account_type: AccountType,
    pub signup_type: SignupType,
    pub attendee: Option<AttendeeRecord>,
    pub host: Option<HostRecord>,
}

/// Signup request.
#[derive(Clone, Debug)]
pub struct SignUp {
    pub username: String,
    pub first_name: Option<String>,
    pub last_name: Option<String>,
    pub email: String,
    pub avatar_url: Option<String>,
    pub password: String,
    pub signup_type: SignupType,
}

/// The public projection of a user row.
#[derive(Clone, Debug)]
pub struct SignShow {
    pub id: i32,
    pub username: String,
    pub first_name: Option<String>,
    pub last_name: Option<String>,
    pub email: String,
    pub avatar_url: Option<String>,
}

/// Profile update request; absent fields are left unchanged.
#[derive(Clone, Debug)]
pub struct UpdateProfileRequest {
    pub first_name: Option<String>,
    pub last_name: Option<String>,
    pub avatar_url: Option<String>,
    pub preferred_event_type: Option<EventType>,
    pub organization_name: Option<String>,
    pub organization_website: Option<String>,
}

/// Acknowledgement of a profile update.
#[derive(Clone, Debug)]
pub struct UpdateProfileResponse {
    pub message: String,
}

/// Failures of directory operations.
#[derive(Clone, Copy, Debug, PartialEq, Eq, Structural)]
pub enum UserError {
    /// No row matches the given id, email or identifier.
    NotFound,
    /// The username or email is already taken.
    AlreadyExists,
    /// The password does not match the stored digest.
    InvalidPassword,
}

/// The one-way digest of a password, folded over its bytes.
pub open spec fn spec_password_digest(bytes: Seq<u8>) -> u64
    decreases bytes.len(),
{
    if bytes.len() == 0 {
        0xcbf29ce484222325u64
    } else {
        spec_mix(spec_password_digest(bytes.drop_last()), bytes.last() as u64)
    }
}

/// Computes the password digest: the opaque one-way function the directory
/// stores in place of the password.
pub fn password_digest(password: &str) -> (r: u64)
    ensures
        r == spec_password_digest(password.spec_bytes()),
{
    let bytes = password.as_bytes();
    let mut h: u64 = 0xcbf29ce484222325;
    let mut i: usize = 0;
    while i < bytes.len()
        invariant
            i <= bytes@.len(),
            h == spec_password_digest(bytes@.take(i as int)),
        decreases bytes@.len() - i,
    {
        proof {
            assert(bytes@.take(i + 1).drop_last() =~= bytes@.take(i as int));
        }
        h = h.wrapping_mul(0x100000001b3).wrapping_add(bytes[i] as u64);
        i = i + 1;
    }
    proof {
        assert(bytes@.take(bytes@.len() as int) =~= bytes@);
    }
    h
}

/// Whether the stored digest matches a presented password.
pub fn verify_password(password: &str, stored_digest: u64) -> (r: bool)
    ensures
        r == (spec_password_digest(password.spec_bytes()) == stored_digest),
{
    password_digest(password) == stored_digest
}

/// Social signups are auto-verified; local ones must confirm a one-time code.
pub open spec fn spec_auto_verified(signup_type: SignupType) -> bool {
    match signup_type {
        SignupType::Local => false,
        SignupType::Google => true,
        SignupType::Facebook => true,
        SignupType::Apple => true,
    }
}

/// The directory of all users. Row `i` holds the user with id `i + 1`.
pub struct UserDirectory {
    pub users: Vec<User>,
}

impl UserDirectory {
    /// Ids are the row positions shifted by one, so each id resolves to
    /// exactly one row, and the directory never outgrows the id type.
    pub open spec fn well_formed(&self) -> bool {
        &&& self.users@.len() < 0x7fff_ffff
        &&& forall|i: int| 0 <= i < self.users@.len() ==> #[trigger] self.users@[i].id == i + 1
        &&& forall|i: int, j: int|
            0 <= i < j < self.users@.len() ==> (#[trigger] self.users@[i].email@) != (
            #[trigger] self.users@[j].email@)
        &&& forall|i: int, j: int|
            0 <= i < j < self.users@.len() ==> (#[trigger] self.users@[i].username@) != (
            #[trigger] self.users@[j].username@)
    }

    /// Whether some row carries this email.
    pub open spec fn spec_has_email(&self, email: Seq<char>) -> bool {
        exists|i: int| 0 <= i < self.users@.len() && self.users@[i].email@ == email
    }

    /// The row index carrying this email; unique under well-formedness.
    pub open spec fn spec_email_index(&self, email: Seq<char>) -> int {
        choose|i: int| 0 <= i < self.users@.len() && self.users@[i].email@ == email
    }

    /// Whether some row carries this username.
    pub open spec fn spec_has_username(&self, username: Seq<char>) -> bool {
        exists|i: int| 0 <= i < self.users@.len() && self.users@[i].username@ == username
    }

    /// Whether `id` resolves to a row.
    pub open spec fn spec_has_user(&self, id: i32) -> bool {
        1 <= id && id <= self.users@.len()
    }

    /// The row `id` resolves to.
    pub open spec fn spec_user(&self, id: i32) -> User
        recommends
            self.spec_has_user(id),
    {
        self.users@[id - 1]
    }

    /// An empty directory.
    pub fn new() -> (d: UserDirectory)
        ensures
            d.well_formed(),
            d.users@.len() == 0,
    {
        UserDirectory { users: Vec::new() }
    }

    /// Looks a user up by id, as stored.
    pub fn get_user_model_by_id(&self, user_id: i32) -> (r: Result<&User, UserError>)
        requires
            self.well_formed(),
        ensures
            match r {
                Ok(u) => self.spec_has_user(user_id) && *u == self.spec_user(user_id),
                Err(e) => e == UserError::NotFound && !self.spec_has_user(user_id),
            },
    {
        if 1 <= user_id && (user_id as usize) <= self.users.len() {
            Ok(&self.users[(user_id - 1) as usize])
        } else {
            Err(UserError::NotFound)
        }
    }

    /// Looks a user up by id and projects the public fields.
    pub fn get_user_by_id(&self, user_id: i32) -> (r: Result<SignShow, UserError>)
        requires
            self.well_formed(),
        ensures
            match r {
                Ok(s) => self.spec_has_user(user_id) && s == spec_sign_show(
                    self.spec_user(user_id),
                ),
                Err(e) => e == UserError::NotFound && !self.spec_has_user(user_id),
            },
    {
        match self.get_user_model_by_id(user_id) {
            Ok(u) => Ok(sign_show(u)),
            Err(e) => Err(e),
        }
    }

    /// Looks a user up by email.
    pub fn get_user_by_email(&self, email: &String) -> (r: Result<&User, UserError>)
        requires
            self.well_formed(),
        ensures
            match r {
                Ok(u) => exists|i: int|
                    0 <= i < self.users@.len() && *u == self.users@[i]
                        && self.users@[i].email@ == email@,
                Err(e) => e == UserError::NotFound && forall|i: int|
                    0 <= i < self.users@.len() ==> self.users@[i].email@ != email@,
            },
    {
        let n = self.users.len();
        let mut i: usize = 0;
        while i < n
            invariant
                n == self.users@.len(),
                i <= n,
                forall|j: int| 0 <= j < i ==> self.users@[j].email@ != email@,
            decreases n - i,
        {
            if self.users[i].email == *email {
                return Ok(&self.users[i]);
            }
            i = i + 1;
        }
        Err(UserError::NotFound)
    }

    /// Looks a user up by username or email, the way a login identifier is
    /// resolved.
    pub fn get_user_by_identifier(&self, identifier: &String) -> (r: Result<&User, UserError>)
        requires
            self.well_formed(),
        ensures
            match r {
                Ok(u) => exists|i: int|
                    0 <= i < self.users@.len() && *u == self.users@[i] && (
                    self.users@[i].email@ == identifier@ || self.users@[i].username@
                        == identifier@),
                Err(e) => e == UserError::NotFound && forall|i: int|
                    0 <= i < self.users@.len() ==> self.users@[i].email@ != identifier@
                        && self.users@[i].username@ != identifier@,
            },
    {
        let n = self.users.len();
        let mut i: usize = 0;
        while i < n
            invariant
                n == self.users@.len(),
                i <= n,
                forall|j: int| 0 <= j < i ==> self.users@[j].email@ != identifier@
                    && self.users@[j].username@ != identifier@,
            decreases n - i,
        {
            if self.users[i].email == *identifier || self.users[i].username == *identifier {
                return Ok(&self.users[i]);
            }
            i = i + 1;
        }
        Err(UserError::NotFound)
    }

    /// A user together with the attendee sub-record, failing when the user or
    /// the sub-record is missing.
    pub fn get_attendee_with_user(&self, user_id: i32) -> (r: Result<
        (AttendeeRecord, &User),
        UserError,
    >)
        requires
            self.well_formed(),
        ensures
            match r {
                Ok(p) => self.spec_has_user(user_id) && *p.1 == self.spec_user(user_id)
                    && self.spec_user(user_id).attendee == Some(p.0),
                Err(e) => e == UserError::NotFound && (!self.spec_has_user(user_id)
                    || self.spec_user(user_id).attendee is None),
            },
    {
        match self.get_user_model_by_id(user_id) {
            Ok(u) => match &u.attendee {
                Some(a) => Ok((*a, u)),
                None => Err(UserError::NotFound),
            },
            Err(e) => Err(e),
        }
    }

    /// A user together with the host sub-record, failing when the user or the
    /// sub-record is missing.
    pub fn get_host_with_user(&self, user_id: i32) -> (r: Result<(&HostRecord, &User), UserError>)
        requires
            self.well_formed(),
        ensures
            match r {
                Ok(p) => self.spec_has_user(user_id) && *p.1 == self.spec_user(user_id)
                    && self.spec_user(user_id).host == Some(*p.0),
                Err(e) => e == UserError::NotFound && (!self.spec_has_user(user_id)
                    || self.spec_user(user_id).host is None),
            },
    {
        match self.get_user_model_by_id(user_id) {
            Ok(u) => match &u.host {
                Some(h) => Ok((h, u)),
                None => Err(UserError::NotFound),
            },
            Err(e) => Err(e),
        }
    }
}

/// The digest stored for a password given as characters.
pub open spec fn spec_digest_of_password(password: Seq<char>) -> u64 {
    spec_password_digest(vstd::utf8::encode_utf8(password))
}

/// The row `create_user` inserts for a signup, with the next free id.
pub open spec fn spec_new_user(signup: SignUp, id: i32) -> User {
    User {
        id,
        username: signup.username,
        first_name: signup.first_name,
        last_name: signup.last_name,
        email: signup.email,
        avatar_url: signup.avatar_url,
        password_hash: spec_digest_of_password(signup.password@),
        is_active: true,
        verified: spec_auto_verified(signup.signup_type),
        account_type: AccountType::Attendee,
        signup_type: signup.signup_type,
        attendee: Some(AttendeeRecord { preferred_event_type: EventType::Physical }),
        host: Some(HostRecord { organization_name: None, organization_website: None }),
    }
}

/// A profile update applied to a row: present fields replace the stored ones,
/// and sub-record fields apply only where the sub-record exists.
pub open spec fn spec_apply_profile(u: User, req: UpdateProfileRequest) -> User {
    User {
        first_name: if req.first_name is Some {
            req.first_name
        } else {
            u.first_name
        },
        last_name: if req.last_name is Some {
            req.last_name
        } else {
            u.last_name
        },
        avatar_url: if req.avatar_url is Some {
            req.avatar_url
        } else {
            u.avatar_url
        },
        attendee: match (u.attendee, req.preferred_event_type) {
            (Some(_), Some(t)) => Some(AttendeeRecord { preferred_event_type: t }),
            _ => u.attendee,
        },
        host: match u.host {
            Some(h) => Some(
                HostRecord {
                    organization_name: if req.organization_name is Some {
                        req.organization_name
                    } else {
                        h.organization_name
                    },
                    organization_website: if req.organization_website is Some {
                        req.organization_website
                    } else {
                        h.organization_website
                    },
                },
            ),
            None => None,
        },
        ..u
    }
}

impl UserDirectory {
    /// Inserts a new user for a signup: the username and email must be free;
    /// the row gets the next id, the password digest, and both capability
    /// sub-records; social signups arrive verified.
    #[verifier::rlimit(50)]
    pub fn create_user(&mut self, signup: SignUp) -> (r: Result<SignShow, UserError>)
        requires
            old(self).well_formed(),
            old(self).users@.len() + 1 < 0x7fff_ffff,
        ensures
            final(self).well_formed(),
            match r {
                Ok(s) => {
                    &&& !old(self).spec_has_email(signup.email@)
                    &&& !old(self).spec_has_username(signup.username@)
                    &&& final(self).users@ == old(self).users@.push(
                        spec_new_user(signup, (old(self).users@.len() + 1) as i32),
                    )
                    &&& s == spec_sign_show(
                        spec_new_user(signup, (old(self).users@.len() + 1) as i32),
                    )
                },
                Err(e) => {
                    &&& e == UserError::AlreadyExists
                    &&& (old(self).spec_has_email(signup.email@) || old(self).spec_has_username(
                        signup.username@,
                    ))
                    &&& final(self).users@ == old(self).users@
                },
            },
    {
        let n = self.users.len();
        let mut i: usize = 0;
        while i < n
            invariant
                self.well_formed(),
                self.users@ == old(self).users@,
                n == self.users@.len(),
                i <= n,
                forall|j: int|
                    0 <= j < i ==> self.users@[j].email@ != signup.email@
                        && self.users@[j].username@ != signup.username@,
            decreases n - i,
        {
            if self.users[i].email == signup.email || self.users[i].username == signup.username {
                return Err(UserError::AlreadyExists);
            }
            i = i + 1;
        }
        let id = (self.users.len() + 1) as i32;
        let digest = password_digest(signup.password.as_str());
        let user = User {
            id,
            username: signup.username,
            first_name: signup.first_name,
            last_name: signup.last_name,
            email: signup.email,
            avatar_url: signup.avatar_url,
            password_hash: digest,
            is_active: true,
            verified: !matches!(signup.signup_type, SignupType::Local),
            account_type: AccountType::Attendee,
            signup_type: signup.signup_type,
            attendee: Some(AttendeeRecord { preferred_event_type: EventType::Physical }),
            host: Some(HostRecord { organization_name: None, organization_website: None }),
        };
        let show = sign_show(&user);
        self.users.push(user);
        Ok(show)
    }

    /// Applies a profile update to the row `user_id` resolves to.
    pub fn update_user_profile(&mut self, user_id: i32, update_data: UpdateProfileRequest) -> (r:
        Result<(), UserError>)
        requires
            old(self).well_formed(),
        ensures
            final(self).well_formed(),
            match r {
                Ok(_) => old(self).spec_has_user(user_id) && final(self).users@ == old(self).users@.update(
                    user_id - 1,
                    spec_apply_profile(old(self).spec_user(user_id), update_data),
                ),
                Err(e) => e == UserError::NotFound && !old(self).spec_has_user(user_id) && final(self).users@ == old(self).users@,
            },
    {
        if !(1 <= user_id && (user_id as usize) <= self.users.len()) {
            return Err(UserError::NotFound);
        }
        let i = (user_id - 1) as usize;
        let updated = {
            let u = &self.users[i];
            User {
                id: u.id,
                username: u.username.clone(),
                first_name: match update_data.first_name {
                    Some(v) => Some(v),
                    None => clone_opt_string(&u.first_name),
                },
                last_name: match update_data.last_name {
                    Some(v) => Some(v),
                    None => clone_opt_string(&u.last_name),
                },
                email: u.email.clone(),
                avatar_url: match update_data.avatar_url {
                    Some(v) => Some(v),
                    None => clone_opt_string(&u.avatar_url),
                },
                password_hash: u.password_hash,
                is_active: u.is_active,
                verified: u.verified,
                account_type: u.account_type,
                signup_type: u.signup_type,
                attendee: match (&u.attendee, update_data.preferred_event_type) {
                    (Some(_), Some(t)) => Some(AttendeeRecord { preferred_event_type: t }),
                    _ => u.attendee,
                },
                host: match &u.host {
                    Some(h) => Some(
                        HostRecord {
                            organization_name: match update_data.organization_name {
                                Some(v) => Some(v),
                                None => clone_opt_string(&h.organization_name),
                            },
                            organization_website: match update_data.organization_website {
                                Some(v) => Some(v),
                                None => clone_opt_string(&h.organization_website),
                            },
                        },
                    ),
                    None => None,
                },
            }
        };
        self.users.set(i, updated);
        Ok(())
    }

    /// Reactivates the account carrying this email.
    pub fn activate_account(&mut self, email: &String) -> (r: Result<(), UserError>)
        requires
            old(self).well_formed(),
        ensures
            final(self).well_formed(),
            match r {
                Ok(_) => old(self).spec_has_email(email@) && final(self).users@ == old(self).users@.update(
                    old(self).spec_email_index(email@),
                    spec_with_active(
                        old(self).users@[old(self).spec_email_index(email@)],
                        true,
                    ),
                ),
                Err(e) => e == UserError::NotFound && !old(self).spec_has_email(email@) && final(self).users@ == old(self).users@,
            },
    {
        self.set_active_by_email(email, true)
    }

    /// Sets the active flag of the account carrying this email.
    fn set_active_by_email(&mut self, email: &String, active: bool) -> (r: Result<(), UserError>)
        requires
            old(self).well_formed(),
        ensures
            final(self).well_formed(),
            match r {
                Ok(_) => old(self).spec_has_email(email@) && final(self).users@ == old(self).users@.update(
                    old(self).spec_email_index(email@),
                    spec_with_active(
                        old(self).users@[old(self).spec_email_index(email@)],
                        active,
                    ),
                ),
                Err(e) => e == UserError::NotFound && !old(self).spec_has_email(email@) && final(self).users@ == old(self).users@,
            },
    {
        let n = self.users.len();
        let mut i: usize = 0;
        while i < n
            invariant
                self.well_formed(),
                self.users@ == old(self).users@,
                n == self.users@.len(),
                i <= n,
                forall|j: int| 0 <= j < i ==> self.users@[j].email@ != email@,
            decreases n - i,
        {
            if self.users[i].email == *email {
                let updated = {
                    let u = &self.users[i];
                    User {
                        id: u.id,
                        username: u.username.clone(),
                        first_name: clone_opt_string(&u.first_name),
                        last_name: clone_opt_string(&u.last_name),
                        email: u.email.clone(),
                        avatar_url: clone_opt_string(&u.avatar_url),
                        password_hash: u.password_hash,
                        is_active: active,
                        verified: u.verified,
                        account_type: u.account_type,
                        signup_type: u.signup_type,
                        attendee: u.attendee,
                        host: match &u.host {
                            Some(h) => Some(
                                HostRecord {
                                    organization_name: clone_opt_string(&h.organization_name),
                                    organization_website: clone_opt_string(
                                        &h.organization_website,
                                    ),
                                },
                            ),
                            None => None,
                        },
                    }
                };
                proof {
                    assert(self.users@[i as int].email@ == email@);
                    assert(self.spec_has_email(email@));
                    let j = self.spec_email_index(email@);
                    assert(0 <= j < self.users@.len() && self.users@[j].email@ == email@);
                    assert(j == i as int);
                }
                let ghost s0 = self.users@;
                self.users.set(i, updated);
                proof {
                    assert(self.users@[i as int].email@ == s0[i as int].email@
                        && self.users@[i as int].username@ == s0[i as int].username@
                        && self.users@[i as int].id == s0[i as int].id);
                }
                return Ok(());
            }
            i = i + 1;
        }
        Err(UserError::NotFound)
    }

    /// Deactivates the row `user_id` resolves to; the account can later be
    /// reactivated, so nothing is deleted.
    pub fn deactivate_account(&mut self, user_id: i32) -> (r: Result<(), UserError>)
        requires
            old(self).well_formed(),
        ensures
            final(self).well_formed(),
            match r {
                Ok(_) => old(self).spec_has_user(user_id) && final(self).users@ == old(self).users@.update(
                    user_id - 1,
                    spec_with_active(old(self).spec_user(user_id), false),
                ),
                Err(e) => e == UserError::NotFound && !old(self).spec_has_user(user_id) && final(self).users@ == old(self).users@,
            },
    {
        if !(1 <= user_id && (user_id as usize) <= self.users.len()) {
            return Err(UserError::NotFound);
        }
        let i = (user_id - 1) as usize;
        let updated = {
            let u = &self.users[i];
            User {
                id: u.id,
                username: u.username.clone(),
                first_name: clone_opt_string(&u.first_name),
                last_name: clone_opt_string(&u.last_name),
                email: u.email.clone(),
                avatar_url: clone_opt_string(&u.avatar_url),
                password_hash: u.password_hash,
                is_active: false,
                verified: u.verified,
                account_type: u.account_type,
                signup_type: u.signup_type,
                attendee: u.attendee,
                host: match &u.host {
                    Some(h) => Some(
                        HostRecord {
                            organization_name: clone_opt_string(&h.organization_name),
                            organization_website: clone_opt_string(&h.organization_website),
                        },
                    ),
                    None => None,
                },
            }
        };
        self.users.set(i, updated);
        Ok(())
    }

    /// Authenticates a login: resolves the identifier as username or email
    /// and checks the password digest.
    pub fn authenticate_user(&self, identifier: &String, password: &str) -> (r: Result<
        SignShow,
        UserError,
    >)
        requires
            self.well_formed(),
        ensures
            match r {
                Ok(s) => exists|i: int|
                    0 <= i < self.users@.len() && s == spec_sign_show(#[trigger] self.users@[i])
                        && (self.users@[i].email@ == identifier@ || self.users@[i].username@
                        == identifier@) && self.users@[i].password_hash
                        == spec_digest_of_password(password@),
                Err(e) => {
                    &&& (e == UserError::NotFound || e == UserError::InvalidPassword)
                    &&& e == UserError::NotFound ==> forall|i: int|
                        0 <= i < self.users@.len() ==> self.users@[i].email@ != identifier@
                            && self.users@[i].username@ != identifier@
                    &&& e == UserError::InvalidPassword ==> exists|i: int|
                        0 <= i < self.users@.len() && (#[trigger] self.users@[i].email@
                            == identifier@ || self.users@[i].username@ == identifier@)
                            && self.users@[i].password_hash != spec_digest_of_password(password@)
                },
            },
    {
        match self.get_user_by_identifier(identifier) {
            Ok(u) => {
                if verify_password(password, u.password_hash) {
                    Ok(sign_show(u))
                } else {
                    Err(UserError::InvalidPassword)
                }
            },
            Err(e) => Err(e),
        }
    }
}

/// A row with its active flag replaced.
pub open spec fn spec_with_active(u: User, active: bool) -> User {
    User { is_active: active, ..u }
}

/// The public projection of a user row.
pub open spec fn spec_sign_show(u: User) -> SignShow {
    SignShow {
        id: u.id,
        username: u.username,
        first_name: u.first_name,
        last_name: u.last_name,
        email: u.email,
        avatar_url: u.avatar_url,
    }
}

/// Clones an optional string, keeping its value.
pub fn clone_opt_string(o: &Option<String>) -> (r: Option<String>)
    ensures
        r == *o,
{
    match o {
        Some(s) => Some(s.clone()),
        None => None,
    }
}

/// Copies a host sub-record, keeping every field.
pub fn clone_host_record(h: &HostRecord) -> (r: HostRecord)
    ensures
        r == *h,
{
    HostRecord {
        organization_name: clone_opt_string(&h.organization_name),
        organization_website: clone_opt_string(&h.organization_website),
    }
}

/// Copies a user row, keeping every field.
pub fn clone_user(u: &User) -> (r: User)
    ensures
        r == *u,
{
    User {
        id: u.id,
        username: u.username.clone(),
        first_name: clone_opt_string(&u.first_name),
        last_name: clone_opt_string(&u.last_name),
        email: u.email.clone(),
        avatar_url: clone_opt_string(&u.avatar_url),
        password_hash: u.password_hash,
        is_active: u.is_active,
        verified: u.verified,
        account_type: u.account_type,
        signup_type: u.signup_type,
        attendee: u.attendee,
        host: match &u.host {
            Some(h) => Some(clone_host_record(h)),
            None => None,
        },
    }
}

/// Projects the public fields of a user row.
pub fn sign_show(u: &User) -> (r: SignShow)
    ensures
        r == spec_sign_show(*u),
{
    SignShow {
        id: u.id,
        username: u.username.clone(),
        first_name: clone_opt_string(&u.first_name),
        last_name: clone_opt_string(&u.last_name),
        email: u.email.clone(),
        avatar_url: clone_opt_string(&u.avatar_url),
    }
}

} // verus!
