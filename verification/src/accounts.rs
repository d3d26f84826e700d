//! Account flows: registration with its validation rules, login with a
//! deliberately uniform rejection, and password recovery through the
//! security answer.

use vstd::prelude::*;
use crate::auth::{bcrypt_check_fails, bcrypt_verifies, hash_password, verify_password};
use crate::textutil::normalized_answer;
use crate::users::{
    answer_matches,
    first_visible_user,
    username_taken,
    user_visible,
    verify_answer_spec,
    User,
    UserRepository,
    UserRepositoryError,
};

verus! {

/// A registration request.
#[derive(Clone, Debug)]
pub struct RegisterRequest {
    pub username: String,
    pub password: String,
    pub security_question_id: i64,
    pub security_answer: String,
    pub phone: Option<String>,
}

/// A login request.
#[derive(Clone, Debug)]
pub struct LoginRequest {
    pub username: String,
    pub password: String,
}

/// A token-refresh request; the token may instead come from a cookie.
#[derive(Clone, Debug)]
pub struct RefreshRequest {
    pub refresh_token: Option<String>,
}

/// A password-recovery request.
#[derive(Clone, Debug)]
pub struct ForgotPasswordRequest {
    pub username: String,
    pub security_question_id: i64,
    pub security_answer: String,
    pub new_password: String,
}

/// The user identity returned on successful registration, login or
/// refresh.
#[derive(Clone, Debug)]
pub struct UserInfo {
    pub id: i64,
    pub username: String,
}

/// The body of a successful auth response.
#[derive(Clone, Debug)]
pub struct AuthResponse {
    pub user: UserInfo,
}

/// What a registration request must satisfy: a username of 3 to 50
/// characters, a password of at least 8, and a non-empty security
/// answer.
pub open spec fn register_request_valid(req: RegisterRequest) -> bool {
    &&& 3 <= req.username@.len() <= 50
    &&& req.password@.len() >= 8
    &&& req.security_answer@.len() >= 1
}

/// What a login request must satisfy: a non-empty username and password.
pub open spec fn login_request_valid(req: LoginRequest) -> bool {
    req.username@.len() >= 1 && req.password@.len() >= 1
}

/// What a recovery request must satisfy: a non-empty username and
/// security answer, and a new password of at least 8 characters.
pub open spec fn forgot_request_valid(req: ForgotPasswordRequest) -> bool {
    &&& req.username@.len() >= 1
    &&& req.security_answer@.len() >= 1
    &&& req.new_password@.len() >= 8
}

impl RegisterRequest {
    /// Whether the request passes the registration validation rules.
    pub fn validate(&self) -> (r: bool)
        ensures
            r == register_request_valid(*self),
    {
        let ulen = self.username.as_str().unicode_len();
        let plen = self.password.as_str().unicode_len();
        let alen = self.security_answer.as_str().unicode_len();
        3 <= ulen && ulen <= 50 && plen >= 8 && alen >= 1
    }
}

impl LoginRequest {
    /// Whether the request passes the login validation rules.
    pub fn validate(&self) -> (r: bool)
        ensures
            r == login_request_valid(*self),
    {
        self.username.as_str().unicode_len() >= 1 && self.password.as_str().unicode_len() >= 1
    }
}

impl ForgotPasswordRequest {
    /// Whether the request passes the recovery validation rules.
    pub fn validate(&self) -> (r: bool)
        ensures
            r == forgot_request_valid(*self),
    {
        self.username.as_str().unicode_len() >= 1 && self.security_answer.as_str().unicode_len()
            >= 1 && self.new_password.as_str().unicode_len() >= 8
    }
}

/// Why a registration was refused, in the order the flow can discover
/// it: invalid input (400), a username already taken (409), or a hashing
/// or storage failure (500).
#[derive(Clone, Copy, Debug, PartialEq, Eq, Structural)]
pub enum RegisterError {
    Validation,
    UsernameExists,
    Internal,
}

/// Register an account: validate, refuse a taken username, hash the
/// password and the normalized security answer, and store the account.
pub fn register(repo: &mut UserRepository, req: &RegisterRequest, now: i64) -> (r: Result<
    User,
    RegisterError,
>)
    ensures
        r == Err::<User, RegisterError>(RegisterError::Validation) <==> !register_request_valid(
            *req,
        ),
        r == Err::<User, RegisterError>(RegisterError::UsernameExists) <==> (
        register_request_valid(*req) && username_taken(old(repo).users@, req.username@)),
        r is Err ==> final(repo).users@ == old(repo).users@,
        r matches Ok(u) ==> ({
            &&& register_request_valid(*req)
            &&& !username_taken(old(repo).users@, req.username@)
            &&& u.username@ == req.username@
            &&& u.security_question_id == req.security_question_id
            &&& u.deleted_at is None
            &&& bcrypt_verifies(req.password@, u.password_hash@)
            &&& !bcrypt_check_fails(u.password_hash@)
            &&& u.password_hash@.len() == 60 && u.password_hash@[0] == '$' && u.password_hash@[1]
                == '2'
            &&& bcrypt_verifies(normalized_answer(req.security_answer@), u.security_answer@)
            &&& !bcrypt_check_fails(u.security_answer@)
            &&& crate::textutil::trim_of(u.security_answer@) == u.security_answer@
            &&& u.security_answer@.len() == 60 && u.security_answer@[0] == '$'
                && u.security_answer@[1] == '2'
            &&& final(repo).users@ == old(repo).users@.push(u)
        }),
{
    if !req.validate() {
        return Err(RegisterError::Validation);
    }
    if repo.username_exists(req.username.as_str()) {
        return Err(RegisterError::UsernameExists);
    }
    let password_hash = match hash_password(req.password.as_str()) {
        Ok(h) => h,
        Err(_) => {
            return Err(RegisterError::Internal);
        },
    };
    let normalized = crate::textutil::normalize_answer(req.security_answer.as_str());
    let answer_hash = match hash_password(normalized.as_str()) {
        Ok(h) => h,
        Err(_) => {
            return Err(RegisterError::Internal);
        },
    };
    let created = repo.create_user(
        req.username.as_str(),
        password_hash.as_str(),
        req.security_question_id,
        answer_hash.as_str(),
        match &req.phone {
            Some(p) => Some(p.as_str()),
            None => None,
        },
        now,
    );
    match created {
        Ok(u) => Ok(u),
        Err(UserRepositoryError::UsernameExists) => Err(RegisterError::UsernameExists),
        Err(_) => Err(RegisterError::Internal),
    }
}

/// A second registration under the same username conflicts: once a
/// registration has stored an account, the username is taken in the new
/// state, so registering it again is refused with the username-exists
/// error, whatever the other fields say.
pub proof fn lemma_second_registration_conflicts(users: Seq<User>, u: User, name: Seq<char>)
    requires
        u.username@ == name,
        u.deleted_at is None,
    ensures
        username_taken(users.push(u), name),
{
    assert(user_visible(users.push(u)[users.len() as int], name));
}

/// Why a login was refused: invalid input (400), unknown username or
/// wrong password — one indistinguishable case (401) — or a hashing
/// failure (500).
#[derive(Clone, Copy, Debug, PartialEq, Eq, Structural)]
pub enum LoginError {
    Validation,
    InvalidCredentials,
    Internal,
}

impl LoginError {
    /// The user-facing message; an unknown username and a wrong password
    /// share one generic text.
    pub fn message(&self) -> (r: &'static str)
        ensures
            *self == LoginError::InvalidCredentials ==> r@ == "Invalid username or password"@,
    {
        match self {
            LoginError::Validation => "Validation error",
            LoginError::InvalidCredentials => "Invalid username or password",
            LoginError::Internal => "Password verification failed",
        }
    }
}

/// What a login returns, for every input: the validation error on a bad
/// request; otherwise the first live account under the username decides,
/// with an unknown username and a failed password check landing in one
/// and the same error, so the response never betrays which of the two
/// happened.
pub open spec fn login_spec(users: Seq<User>, req: LoginRequest) -> Result<User, LoginError> {
    if !login_request_valid(req) {
        Err(LoginError::Validation)
    } else {
        match first_visible_user(users, req.username@) {
            None => Err(LoginError::InvalidCredentials),
            Some(u) => {
                if bcrypt_check_fails(u.password_hash@) {
                    Err(LoginError::Internal)
                } else if bcrypt_verifies(req.password@, u.password_hash@) {
                    Ok(u)
                } else {
                    Err(LoginError::InvalidCredentials)
                }
            },
        }
    }
}

/// An unknown username and a wrong password produce the very same
/// rejection value, whatever account the wrong password was checked
/// against: the two cases cannot be told apart from the response.
pub proof fn lemma_login_rejection_is_uniform(
    users1: Seq<User>,
    req1: LoginRequest,
    users2: Seq<User>,
    req2: LoginRequest,
)
    requires
        login_request_valid(req1),
        login_request_valid(req2),
        first_visible_user(users1, req1.username@) is None,
        (first_visible_user(users2, req2.username@) matches Some(u) && !bcrypt_check_fails(
            u.password_hash@,
        ) && !bcrypt_verifies(req2.password@, u.password_hash@)),
    ensures
        login_spec(users1, req1) == login_spec(users2, req2),
        login_spec(users1, req1) == Err::<User, LoginError>(LoginError::InvalidCredentials),
{
}

/// Log a user in: validate, look the username up, check the password
/// against the stored bcrypt hash, and reject an unknown username and a
/// wrong password with one and the same error.  The outcome is pinned
/// down for every input: a live account whose hash verifies is owed the
/// login.
pub fn login(repo: &UserRepository, req: &LoginRequest) -> (r: Result<User, LoginError>)
    ensures
        r == login_spec(repo.users@, *req),
        r matches Ok(u) ==> ({
            &&& user_visible(u, req.username@)
            &&& repo.users@.contains(u)
            &&& bcrypt_verifies(req.password@, u.password_hash@)
        }),
{
    if !req.validate() {
        return Err(LoginError::Validation);
    }
    let user = match repo.find_by_username(req.username.as_str()) {
        Ok(u) => u,
        Err(_) => {
            return Err(LoginError::InvalidCredentials);
        },
    };
    let password_valid = match verify_password(req.password.as_str(), user.password_hash.as_str())
    {
        Ok(b) => b,
        Err(_) => {
            return Err(LoginError::Internal);
        },
    };
    if !password_valid {
        return Err(LoginError::InvalidCredentials);
    }
    Ok(user)
}

/// Why a password recovery was refused: invalid input (400), a failed
/// identity or answer check (401), or a hashing or storage failure
/// (500).
#[derive(Clone, Copy, Debug, PartialEq, Eq, Structural)]
pub enum ForgotPasswordError {
    Validation,
    InvalidAnswer,
    Internal,
}

/// Recover a password: validate, verify the security answer (normalized
/// before any comparison or hashing), then hash and store the new
/// password.
pub fn forgot_password(repo: &mut UserRepository, req: &ForgotPasswordRequest, now: i64) -> (r:
    Result<i64, ForgotPasswordError>)
    ensures
        r == Err::<i64, ForgotPasswordError>(ForgotPasswordError::Validation)
            <==> !forgot_request_valid(*req),
        r == Err::<i64, ForgotPasswordError>(ForgotPasswordError::InvalidAnswer) <==> (
        forgot_request_valid(*req) && verify_answer_spec(
            old(repo).users@,
            req.username@,
            req.security_question_id,
            req.security_answer@,
        ) is Err),
        r is Err ==> final(repo).users@ == old(repo).users@,
        r matches Ok(id) ==> verify_answer_spec(
            old(repo).users@,
            req.username@,
            req.security_question_id,
            req.security_answer@,
        ) == Ok::<i64, UserRepositoryError>(id),
        r matches Ok(id) ==> exists|i: int|
            0 <= i < old(repo).users@.len() && ({
                let u = #[trigger] old(repo).users@[i];
                &&& user_visible(u, req.username@)
                &&& u.id == id
                &&& u.security_question_id == req.security_question_id
                &&& answer_matches(u.security_answer@, req.security_answer@)
            }),
        r matches Ok(id) ==> exists|j: int|
            0 <= j < final(repo).users@.len() && (#[trigger] final(repo).users@[j]).id == id
                && bcrypt_verifies(req.new_password@, final(repo).users@[j].password_hash@),
{
    if !req.validate() {
        return Err(ForgotPasswordError::Validation);
    }
    let user_id = match repo.verify_security_answer(
        req.username.as_str(),
        req.security_question_id,
        req.security_answer.as_str(),
    ) {
        Ok(id) => id,
        Err(_) => {
            return Err(ForgotPasswordError::InvalidAnswer);
        },
    };
    let new_hash = match hash_password(req.new_password.as_str()) {
        Ok(h) => h,
        Err(_) => {
            return Err(ForgotPasswordError::Internal);
        },
    };
    let ghost mid = repo.users@;
    match repo.update_password(user_id, new_hash.as_str(), now) {
        Ok(_) => {
            proof {
                let i = choose|i: int|
                    0 <= i < mid.len() && (#[trigger] mid[i]).id == user_id && mid[i].deleted_at
                        is None;
                assert((final(repo).users@[i]).id == user_id && bcrypt_verifies(
                    req.new_password@,
                    final(repo).users@[i].password_hash@,
                ));
            }
            Ok(user_id)
        },
        Err(_) => Err(ForgotPasswordError::Internal),
    }
}

} // verus!
