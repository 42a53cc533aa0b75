use vstd::prelude::*;

use crate::errors::message_spec;
use crate::errors::status_code_spec;
use crate::errors::ServiceError;
use crate::ident::dec_digits;
use crate::ident::u64_to_dec;
use crate::password::password_matches;
use crate::password::Argon2PasswordHash;
use crate::token::token_claims;
use crate::token::token_of;
use crate::token::JWT;
use crate::token::TOKEN_LIFETIME_SECONDS;
use crate::validate::credentials_valid;
use crate::validate::is_email;
use crate::validate::validate_credentials;

verus! {

/// A stored account row: the password field holds the argon2 hash,
/// never the plaintext.
#[derive(Debug)]
pub struct User {
    pub id: u64,
    pub email: String,
    pub password: String,
    pub created_at: u64,
    pub updated_at: u64,
}

impl Clone for User {
    fn clone(&self) -> (r: Self)
        ensures
            r == *self,
    {
        User {
            id: self.id,
            email: self.email.clone(),
            password: self.password.clone(),
            created_at: self.created_at,
            updated_at: self.updated_at,
        }
    }
}

/// A registration request body.
#[derive(Debug)]
pub struct RegisterUser {
    pub email: String,
    pub password: String,
}

/// A login request body.
#[derive(Debug)]
pub struct LoginUser {
    pub email: String,
    pub password: String,
}

/// The public projection of a freshly registered account: everything
/// but the password hash.
#[derive(Debug)]
pub struct RegisterUserSuccess {
    pub id: u64,
    pub email: String,
    pub created_at: u64,
    pub updated_at: u64,
}

/// The public projection returned by login, together with the issued token.
#[derive(Debug)]
pub struct LoginUserSuccess {
    pub id: u64,
    pub email: String,
    pub created_at: u64,
    pub updated_at: u64,
    pub token: String,
}

impl User {
    pub fn to_login_success(&self, token: String) -> (r: LoginUserSuccess)
        ensures
            r.id == self.id,
            r.email == self.email,
            r.created_at == self.created_at,
            r.updated_at == self.updated_at,
            r.token == token,
    {
        LoginUserSuccess {
            id: self.id,
            email: self.email.clone(),
            created_at: self.created_at,
            updated_at: self.updated_at,
            token,
        }
    }

    pub fn to_register_success(&self) -> (r: RegisterUserSuccess)
        ensures
            r.id == self.id,
            r.email == self.email,
            r.created_at == self.created_at,
            r.updated_at == self.updated_at,
    {
        RegisterUserSuccess {
            id: self.id,
            email: self.email.clone(),
            created_at: self.created_at,
            updated_at: self.updated_at,
        }
    }
}

/// Whether some stored account already uses `email`.
pub open spec fn email_taken(users: Seq<User>, email: Seq<char>) -> bool {
    exists|i: int| 0 <= i < users.len() && users[i].email@ == email
}

/// The index of the account that uses `email`; meaningful only when
/// `email_taken` holds (and then unique, emails being unique).
pub open spec fn user_index_by_email(users: Seq<User>, email: Seq<char>) -> int {
    choose|i: int| 0 <= i < users.len() && users[i].email@ == email
}

/// The account store. Ids are assigned from a counter, so they are unique;
/// the email uniqueness invariant is what turns a duplicate registration
/// into a conflict instead of a second row.
pub struct UserStore {
    pub users: Vec<User>,
    pub next_id: u64,
}

pub open spec fn users_wf(users: Seq<User>, next_id: u64) -> bool {
    &&& forall|i: int, j: int| 0 <= i < j < users.len() ==> users[i].id != users[j].id
    &&& forall|i: int, j: int|
        0 <= i < j < users.len() ==> users[i].email@ != users[j].email@
    &&& forall|i: int| 0 <= i < users.len() ==> users[i].id < next_id
}

impl UserStore {
    pub open spec fn wf(self) -> bool {
        users_wf(self.users@, self.next_id)
    }

    pub fn new() -> (r: Self)
        ensures
            r.wf(),
            r.users@ =~= Seq::<User>::empty(),
            r.next_id == 0,
    {
        UserStore { users: Vec::new(), next_id: 0 }
    }

    /// Looks an account up by exact email match.
    pub fn find_by_email(&self, email: &String) -> (r: Option<User>)
        requires
            self.wf(),
        ensures
            r is Some <==> email_taken(self.users@, email@),
            r matches Some(u) ==> u == self.users@[user_index_by_email(self.users@, email@)],
    {
        let n = self.users.len();
        let mut i: usize = 0;
        while i < n
            invariant
                n == self.users@.len(),
                0 <= i <= n,
                self.wf(),
                forall|j: int| 0 <= j < i ==> self.users@[j].email@ != email@,
            decreases n - i,
        {
            if self.users[i].email == *email {
                let u = self.users[i].clone();
                proof {
                    let k = user_index_by_email(self.users@, email@);
                    assert(0 <= k < self.users@.len() && self.users@[k].email@ == email@);
                    assert(k == i as int);
                }
                return Some(u);
            }
            i = i + 1;
        }
        None
    }

    /// Inserts a new account; a reused email is refused as a conflict and
    /// leaves the store unchanged.
    pub fn insert_user(&mut self, email: String, password: String, now: u64) -> (r: Result<
        User,
        ServiceError,
    >)
        requires
            old(self).wf(),
        ensures
            final(self).wf(),
            email_taken(old(self).users@, email@) ==> r == Err::<User, ServiceError>(
                ServiceError::EmailTaken,
            ) && *final(self) == *old(self),
            !email_taken(old(self).users@, email@) && old(self).next_id == u64::MAX ==> r
                == Err::<User, ServiceError>(ServiceError::Internal) && *final(self) == *old(self),
            !email_taken(old(self).users@, email@) && old(self).next_id < u64::MAX ==> (
            r matches Ok(u) && u == (User {
                id: old(self).next_id,
                email: email,
                password: password,
                created_at: now,
                updated_at: now,
            }) && final(self).users@ == old(self).users@.push(u) && final(self).next_id == old(self).next_id + 1),
            r is Ok <==> !email_taken(old(self).users@, email@) && old(self).next_id < u64::MAX,
    {
        if self.find_by_email(&email).is_some() {
            return Err(ServiceError::EmailTaken);
        }
        if self.next_id == u64::MAX {
            return Err(ServiceError::Internal);
        }
        let user = User { id: self.next_id, email, password, created_at: now, updated_at: now };
        let result = user.clone();
        self.users.push(user);
        self.next_id = self.next_id + 1;
        Ok(result)
    }
}

/// Registration: validate the body, hash the password, insert the account,
/// and return its public projection. A reused email is a conflict, never a
/// second row; a hashing failure is an internal error.
pub fn register_user(store: &mut UserStore, dto: RegisterUser, now: u64) -> (r: Result<
    RegisterUserSuccess,
    ServiceError,
>)
    requires
        old(store).wf(),
    ensures
        final(store).wf(),
        !credentials_valid(dto.email@, dto.password@) ==> r == Err::<
            RegisterUserSuccess,
            ServiceError,
        >(
            ServiceError::Validation {
                email_invalid: !is_email(dto.email@),
                password_too_short: dto.password@.len() < 8,
            },
        ) && *final(store) == *old(store),
        r matches Err(ServiceError::Validation { .. }) ==> !credentials_valid(
            dto.email@,
            dto.password@,
        ),
        r == Err::<RegisterUserSuccess, ServiceError>(ServiceError::EmailTaken) ==> (
        credentials_valid(dto.email@, dto.password@) && email_taken(old(store).users@, dto.email@)),
        credentials_valid(dto.email@, dto.password@) && email_taken(old(store).users@, dto.email@)
            ==> *final(store) == *old(store) && (r == Err::<RegisterUserSuccess, ServiceError>(
            ServiceError::EmailTaken,
        ) || r == Err::<RegisterUserSuccess, ServiceError>(ServiceError::Internal)),
        r is Err ==> *final(store) == *old(store),
        r matches Ok(s) ==> {
            &&& credentials_valid(dto.email@, dto.password@)
            &&& !email_taken(old(store).users@, dto.email@)
            &&& old(store).next_id < u64::MAX
            &&& final(store).users@.len() == old(store).users@.len() + 1
            &&& final(store).users@.take(old(store).users@.len() as int) == old(store).users@
            &&& final(store).users@.last().id == old(store).next_id
            &&& final(store).users@.last().email == dto.email
            &&& password_matches(dto.password@, final(store).users@.last().password@)
            &&& final(store).users@.last().created_at == now
            &&& final(store).users@.last().updated_at == now
            &&& final(store).next_id == old(store).next_id + 1
            &&& s.id == old(store).next_id
            &&& s.email == dto.email
            &&& s.created_at == now
            &&& s.updated_at == now
        },
        credentials_valid(dto.email@, dto.password@) && !email_taken(old(store).users@, dto.email@)
            ==> (r is Ok || r == Err::<RegisterUserSuccess, ServiceError>(ServiceError::Internal)),
{
    if let Some(e) = validate_credentials(dto.email.as_str(), dto.password.as_str()) {
        return Err(e);
    }
    let hashed = match Argon2PasswordHash::hash_password(dto.password) {
        Ok(h) => h,
        Err(e) => {
            return Err(e);
        },
    };
    let user = match store.insert_user(dto.email, hashed, now) {
        Ok(u) => u,
        Err(e) => {
            return Err(e);
        },
    };
    proof {
        assert(final(store).users@.take(old(store).users@.len() as int) =~= old(store).users@);
    }
    Ok(user.to_register_success())
}

/// Whether a login attempt must be rejected: the email is unknown, or the
/// password does not verify against the stored hash. Both causes collapse
/// into one predicate on purpose.
pub open spec fn credentials_rejected(
    users: Seq<User>,
    email: Seq<char>,
    password: Seq<char>,
) -> bool {
    ||| !email_taken(users, email)
    ||| !password_matches(password, users[user_index_by_email(users, email)].password@)
}

/// The rejection a login attempt earns, if any: always the same
/// `InvalidCredentials` value, whatever the cause.
pub open spec fn login_rejection(
    users: Seq<User>,
    email: Seq<char>,
    password: Seq<char>,
) -> Option<ServiceError> {
    if credentials_rejected(users, email, password) {
        Some(ServiceError::InvalidCredentials)
    } else {
        None
    }
}

/// An unknown email and a wrong password earn one and the same rejection:
/// the identical error value, message and status code, so a caller cannot
/// probe which accounts exist.
pub proof fn lemma_login_rejections_indistinguishable(
    users: Seq<User>,
    email_a: Seq<char>,
    password_a: Seq<char>,
    email_b: Seq<char>,
    password_b: Seq<char>,
)
    requires
        credentials_rejected(users, email_a, password_a),
        credentials_rejected(users, email_b, password_b),
    ensures
        login_rejection(users, email_a, password_a) == login_rejection(
            users,
            email_b,
            password_b,
        ),
        message_spec(login_rejection(users, email_a, password_a).unwrap()) == message_spec(
            login_rejection(users, email_b, password_b).unwrap(),
        ),
        status_code_spec(login_rejection(users, email_a, password_a).unwrap())
            == status_code_spec(login_rejection(users, email_b, password_b).unwrap()),
{
}

/// After a registration pushes an account, its email is taken: a second
/// registration under the same email meets the conflict branch of
/// `register_user` and leaves the store unchanged — no duplicate row.
pub proof fn lemma_duplicate_registration_conflicts(users: Seq<User>, user: User)
    ensures
        email_taken(users.push(user), user.email@),
{
    assert(users.push(user)[users.len() as int].email@ == user.email@);
}

/// An account whose stored hash verifies against a password is accepted
/// by the login check under that password: registering under a fresh
/// email and then logging in with the registered password is never
/// rejected as bad credentials.
pub proof fn lemma_registered_user_is_accepted(users: Seq<User>, user: User, password: Seq<char>)
    requires
        forall|i: int| 0 <= i < users.len() ==> users[i].email@ != user.email@,
        password_matches(password, user.password@),
    ensures
        !credentials_rejected(users.push(user), user.email@, password),
{
    let pushed = users.push(user);
    assert(pushed[users.len() as int].email@ == user.email@);
    let k = user_index_by_email(pushed, user.email@);
    assert(0 <= k < pushed.len() && pushed[k].email@ == user.email@);
    assert(k == users.len() as int);
}

/// Login: validate the body, look the account up by email, verify the
/// password, and issue a one-hour token for the account id. An unknown
/// email and a wrong password are rejected identically.
pub fn login_user(store: &UserStore, dto: LoginUser, secret: &str, now: u64) -> (r: Result<
    LoginUserSuccess,
    ServiceError,
>)
    requires
        store.wf(),
        now + TOKEN_LIFETIME_SECONDS <= u64::MAX,
    ensures
        !credentials_valid(dto.email@, dto.password@) <==> r == Err::<
            LoginUserSuccess,
            ServiceError,
        >(
            ServiceError::Validation {
                email_invalid: !is_email(dto.email@),
                password_too_short: dto.password@.len() < 8,
            },
        ),
        credentials_valid(dto.email@, dto.password@) ==> (r == Err::<
            LoginUserSuccess,
            ServiceError,
        >(ServiceError::InvalidCredentials) <==> credentials_rejected(
            store.users@,
            dto.email@,
            dto.password@,
        )),
        r matches Ok(s) ==> {
            &&& credentials_valid(dto.email@, dto.password@)
            &&& !credentials_rejected(store.users@, dto.email@, dto.password@)
            &&& {
                let u = store.users@[user_index_by_email(store.users@, dto.email@)];
                &&& s.id == u.id
                &&& s.email == u.email
                &&& s.created_at == u.created_at
                &&& s.updated_at == u.updated_at
                &&& s.token@ == token_of(
                    dec_digits(u.id),
                    now,
                    (now + TOKEN_LIFETIME_SECONDS) as u64,
                    secret@,
                )
                &&& token_claims(s.token@, secret@) == Some(
                    (dec_digits(u.id), now, (now + TOKEN_LIFETIME_SECONDS) as u64),
                )
            }
        },
        r == Err::<LoginUserSuccess, ServiceError>(ServiceError::Internal) ==> (credentials_valid(
            dto.email@,
            dto.password@,
        ) && !credentials_rejected(store.users@, dto.email@, dto.password@)),
        credentials_valid(dto.email@, dto.password@) && !credentials_rejected(
            store.users@,
            dto.email@,
            dto.password@,
        ) ==> (r is Ok || r == Err::<LoginUserSuccess, ServiceError>(ServiceError::Internal)),
{
    if let Some(e) = validate_credentials(dto.email.as_str(), dto.password.as_str()) {
        return Err(e);
    }
    let user = match store.find_by_email(&dto.email) {
        Some(u) => u,
        None => {
            return Err(ServiceError::InvalidCredentials);
        },
    };
    if !Argon2PasswordHash::verify_password(dto.password, user.password.clone()) {
        return Err(ServiceError::InvalidCredentials);
    }
    let token = match JWT::jwt_encode(u64_to_dec(user.id), secret, now) {
        Ok(t) => t,
        Err(e) => {
            return Err(e);
        },
    };
    Ok(user.to_login_success(token))
}

} // verus!
