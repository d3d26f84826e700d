//! User accounts: the user record, an in-memory repository over it, and
//! the security-answer verification used for password recovery.  A stored
//! security answer is either a bcrypt hash (it starts with `$2`) checked
//! against the normalized answer, or a legacy plain answer compared
//! ASCII-case-insensitively; the given answer is always whitespace- and
//! case-normalized first.

use vstd::prelude::*;
use crate::decimal::Dec;
use crate::auth::{bcrypt_check_fails, bcrypt_verifies, verify_password};
use crate::matchings::clone_opt_string;
use crate::textutil::{
    ascii_lower,
    normalized_answer,
    normalize_answer,
    str_eq,
    str_eq_ignore_ascii_case,
    str_starts_with,
    str_trim,
    trim_of,
};

verus! {

/// Why a user-repository operation failed.
#[derive(Clone, Copy, Debug, PartialEq, Eq, Structural)]
pub enum UserRepositoryError {
    DatabaseError,
    UserNotFound,
    UsernameExists,
}

/// A user account.  Timestamps are seconds since the Unix epoch.
#[derive(Clone, Debug)]
pub struct User {
    pub id: i64,
    pub username: String,
    pub password_hash: String,
    pub security_question_id: i64,
    pub security_answer: String,
    pub phone: Option<String>,
    pub default_employer_fee_rate: Dec,
    pub default_employee_fee_rate: Dec,
    pub last_login_at: Option<i64>,
    pub created_at: i64,
    pub updated_at: i64,
    pub deleted_at: Option<i64>,
}

impl User {
    /// An exact copy of the user.
    pub fn duplicate(&self) -> (r: User)
        ensures
            r == *self,
    {
        User {
            id: self.id,
            username: self.username.clone(),
            password_hash: self.password_hash.clone(),
            security_question_id: self.security_question_id,
            security_answer: self.security_answer.clone(),
            phone: clone_opt_string(&self.phone),
            default_employer_fee_rate: self.default_employer_fee_rate,
            default_employee_fee_rate: self.default_employee_fee_rate,
            last_login_at: self.last_login_at,
            created_at: self.created_at,
            updated_at: self.updated_at,
            deleted_at: self.deleted_at,
        }
    }
}

/// Whether the user is the live (not soft-deleted) account for `name`.
pub open spec fn user_visible(u: User, name: Seq<char>) -> bool {
    u.username@ == name && u.deleted_at is None
}

/// Whether some live account carries `name`.
pub open spec fn username_taken(users: Seq<User>, name: Seq<char>) -> bool {
    exists|i: int| 0 <= i < users.len() && user_visible(#[trigger] users[i], name)
}

/// Whether some live account carries `id`.
pub open spec fn user_id_present(users: Seq<User>, id: i64) -> bool {
    exists|i: int| 0 <= i < users.len() && (#[trigger] users[i]).id == id && users[i].deleted_at
        is None
}

/// The first live account carrying `name`, scanning from the front —
/// the row a lookup by username returns.
pub open spec fn first_visible_user(users: Seq<User>, name: Seq<char>) -> Option<User>
    decreases users.len(),
{
    if users.len() == 0 {
        None
    } else if user_visible(users[0], name) {
        Some(users[0])
    } else {
        first_visible_user(users.drop_first(), name)
    }
}

/// The first live account carrying `id`, scanning from the front.
pub open spec fn first_user_with_id(users: Seq<User>, id: i64) -> Option<User>
    decreases users.len(),
{
    if users.len() == 0 {
        None
    } else if users[0].id == id && users[0].deleted_at is None {
        Some(users[0])
    } else {
        first_user_with_id(users.drop_first(), id)
    }
}

/// The first-match scan lands on the first visible index.
proof fn lemma_first_visible_found(users: Seq<User>, idx: int, name: Seq<char>)
    requires
        0 <= idx < users.len(),
        user_visible(users[idx], name),
        forall|j: int| 0 <= j < idx ==> !user_visible(#[trigger] users[j], name),
    ensures
        first_visible_user(users, name) == Some(users[idx]),
    decreases users.len(),
{
    if idx > 0 {
        lemma_first_visible_found(users.drop_first(), idx - 1, name);
    }
}

/// With no visible account the first-match scan finds nothing.
proof fn lemma_first_visible_absent(users: Seq<User>, name: Seq<char>)
    requires
        forall|j: int| 0 <= j < users.len() ==> !user_visible(#[trigger] users[j], name),
    ensures
        first_visible_user(users, name) is None,
    decreases users.len(),
{
    if users.len() > 0 {
        lemma_first_visible_absent(users.drop_first(), name);
    }
}

/// The id scan lands on the first live index carrying the id.
proof fn lemma_first_id_found(users: Seq<User>, idx: int, id: i64)
    requires
        0 <= idx < users.len(),
        users[idx].id == id && users[idx].deleted_at is None,
        forall|j: int|
            0 <= j < idx ==> !((#[trigger] users[j]).id == id && users[j].deleted_at is None),
    ensures
        first_user_with_id(users, id) == Some(users[idx]),
    decreases users.len(),
{
    if idx > 0 {
        lemma_first_id_found(users.drop_first(), idx - 1, id);
    }
}

/// With no live account carrying the id the scan finds nothing.
proof fn lemma_first_id_absent(users: Seq<User>, id: i64)
    requires
        forall|j: int|
            0 <= j < users.len() ==> !((#[trigger] users[j]).id == id && users[j].deleted_at
                is None),
    ensures
        first_user_with_id(users, id) is None,
    decreases users.len(),
{
    if users.len() > 0 {
        lemma_first_id_absent(users.drop_first(), id);
    }
}

/// Whether a trimmed stored answer is a bcrypt hash rather than a
/// legacy plain answer: it starts with `$2`.
pub open spec fn stored_answer_hashed(st: Seq<char>) -> bool {
    st.len() >= 2 && st[0] == '$' && st[1] == '2'
}

/// Whether a given security answer passes against the stored one: a
/// hashed stored answer (it starts with `$2` once trimmed) is checked by
/// bcrypt against the normalized given answer; a legacy plain stored
/// answer is compared, trimmed, ASCII-case-insensitively.
pub open spec fn answer_matches(stored: Seq<char>, given: Seq<char>) -> bool {
    let st = trim_of(stored);
    if stored_answer_hashed(st) {
        bcrypt_verifies(normalized_answer(given), st)
    } else {
        ascii_lower(st) == ascii_lower(trim_of(given))
    }
}

/// What verifying a security answer returns, for every input: the
/// username must name a live account (the first such row decides), the
/// question id must match, and the answer must pass `answer_matches`;
/// every failure — including a stored hash bcrypt cannot parse — is the
/// same not-found error.
pub open spec fn verify_answer_spec(
    users: Seq<User>,
    name: Seq<char>,
    security_question_id: i64,
    answer: Seq<char>,
) -> Result<i64, UserRepositoryError> {
    match first_visible_user(users, name) {
        None => Err(UserRepositoryError::UserNotFound),
        Some(u) => {
            if u.security_question_id != security_question_id {
                Err(UserRepositoryError::UserNotFound)
            } else {
                let st = trim_of(u.security_answer@);
                if stored_answer_hashed(st) && bcrypt_check_fails(st) {
                    Err(UserRepositoryError::UserNotFound)
                } else if answer_matches(u.security_answer@, answer) {
                    Ok(u.id)
                } else {
                    Err(UserRepositoryError::UserNotFound)
                }
            }
        },
    }
}

/// Two answers with one trimmed form fare alike: the whole verification
/// reads the given answer only through `trim_of`, so leading and
/// trailing whitespace never changes the outcome.
pub proof fn lemma_answer_check_ignores_whitespace(
    users: Seq<User>,
    name: Seq<char>,
    security_question_id: i64,
    a: Seq<char>,
    b: Seq<char>,
)
    requires
        trim_of(a) == trim_of(b),
    ensures
        verify_answer_spec(users, name, security_question_id, a) == verify_answer_spec(
            users,
            name,
            security_question_id,
            b,
        ),
{
}

/// Two answers with one normal form fare alike against every stored
/// answer: the verification reads the given answer only through
/// `trim_of`, the Unicode lowering of the trimmed form (the hashed
/// branch) and the ASCII lowering of the trimmed form (the legacy
/// branch), so nothing else about the answer can change the outcome.
pub proof fn lemma_answer_check_normalizes(
    users: Seq<User>,
    name: Seq<char>,
    security_question_id: i64,
    a: Seq<char>,
    b: Seq<char>,
)
    requires
        normalized_answer(a) == normalized_answer(b),
        ascii_lower(trim_of(a)) == ascii_lower(trim_of(b)),
    ensures
        verify_answer_spec(users, name, security_question_id, a) == verify_answer_spec(
            users,
            name,
            security_question_id,
            b,
        ),
{
}

/// Against a legacy plain stored answer, two answers that agree up to
/// ASCII case (and whitespace) fare alike: that branch compares the
/// trimmed answers ASCII-case-insensitively.
pub proof fn lemma_plain_answer_check_ignores_ascii_case(stored: Seq<char>, a: Seq<char>, b: Seq<
    char,
>)
    requires
        !stored_answer_hashed(trim_of(stored)),
        ascii_lower(trim_of(a)) == ascii_lower(trim_of(b)),
    ensures
        answer_matches(stored, a) == answer_matches(stored, b),
{
}

/// The default fee rates a new account starts with, as whole-number
/// percentages: 15 for the employer side and 10 for the employee side.
pub const DEFAULT_EMPLOYER_FEE_RATE: i64 = 15;

pub const DEFAULT_EMPLOYEE_FEE_RATE: i64 = 10;

/// An in-memory repository of user accounts; `next_id` is the id the
/// next created account receives.
pub struct UserRepository {
    pub users: Vec<User>,
    pub next_id: i64,
}

impl UserRepository {
    /// An empty repository; ids are handed out from 1.
    pub fn new() -> (r: UserRepository)
        ensures
            r.users@.len() == 0,
            r.next_id == 1,
    {
        UserRepository { users: Vec::new(), next_id: 1 }
    }

    /// Create an account.  Refused when the username is already carried
    /// by a live account; otherwise the new account is appended, with the
    /// default fee rates and the given (already hashed) credentials.
    pub fn create_user(
        &mut self,
        username: &str,
        password_hash: &str,
        security_question_id: i64,
        security_answer: &str,
        phone: Option<&str>,
        now: i64,
    ) -> (r: Result<User, UserRepositoryError>)
        ensures
            username_taken(old(self).users@, username@) ==> r == Err::<User, UserRepositoryError>(
                UserRepositoryError::UsernameExists,
            ) && *final(self) == *old(self),
            old(self).next_id == i64::MAX && !username_taken(old(self).users@, username@) ==> r
                == Err::<User, UserRepositoryError>(UserRepositoryError::DatabaseError)
                && *final(self) == *old(self),
            !username_taken(old(self).users@, username@) && old(self).next_id < i64::MAX ==> ({
                &&& r matches Ok(u)
                &&& u.id == old(self).next_id
                &&& u.username@ == username@
                &&& u.password_hash@ == password_hash@
                &&& u.security_question_id == security_question_id
                &&& u.security_answer@ == security_answer@
                &&& (match phone {
                    Some(p) => u.phone matches Some(q) && q@ == p@,
                    None => u.phone is None,
                })
                &&& u.default_employer_fee_rate.m == DEFAULT_EMPLOYER_FEE_RATE
                &&& u.default_employer_fee_rate.s == 0
                &&& u.default_employee_fee_rate.m == DEFAULT_EMPLOYEE_FEE_RATE
                &&& u.default_employee_fee_rate.s == 0
                &&& u.deleted_at is None
                &&& u.created_at == now
                &&& final(self).users@ == old(self).users@.push(u)
                &&& final(self).next_id == old(self).next_id + 1
            }),
    {
        if self.username_exists(username) {
            return Err(UserRepositoryError::UsernameExists);
        }
        if self.next_id == i64::MAX {
            return Err(UserRepositoryError::DatabaseError);
        }
        let user = User {
            id: self.next_id,
            username: username.to_owned(),
            password_hash: password_hash.to_owned(),
            security_question_id,
            security_answer: security_answer.to_owned(),
            phone: match phone {
                Some(p) => Some(p.to_owned()),
                None => None,
            },
            default_employer_fee_rate: Dec::new(DEFAULT_EMPLOYER_FEE_RATE, 0),
            default_employee_fee_rate: Dec::new(DEFAULT_EMPLOYEE_FEE_RATE, 0),
            last_login_at: None,
            created_at: now,
            updated_at: now,
            deleted_at: None,
        };
        let copy = user.duplicate();
        self.users.push(user);
        self.next_id = self.next_id + 1;
        Ok(copy)
    }

    /// Whether a live account carries `username`.
    pub fn username_exists(&self, username: &str) -> (r: bool)
        ensures
            r == username_taken(self.users@, username@),
    {
        let n = self.users.len();
        let mut i: usize = 0;
        while i < n
            invariant
                n == self.users@.len(),
                i <= n,
                forall|j: int| 0 <= j < i ==> !user_visible(#[trigger] self.users@[j], username@),
            decreases n - i,
        {
            let u = &self.users[i];
            if u.deleted_at.is_none() && str_eq(u.username.as_str(), username) {
                return true;
            }
            i = i + 1;
        }
        false
    }

    /// The first live account for `username`, or the not-found error.
    pub fn find_by_username(&self, username: &str) -> (r: Result<User, UserRepositoryError>)
        ensures
            r == (match first_visible_user(self.users@, username@) {
                Some(u) => Ok::<User, UserRepositoryError>(u),
                None => Err::<User, UserRepositoryError>(UserRepositoryError::UserNotFound),
            }),
            r matches Ok(u) ==> user_visible(u, username@) && self.users@.contains(u),
            r is Ok <==> username_taken(self.users@, username@),
    {
        let n = self.users.len();
        let mut i: usize = 0;
        while i < n
            invariant
                n == self.users@.len(),
                i <= n,
                forall|j: int| 0 <= j < i ==> !user_visible(#[trigger] self.users@[j], username@),
            decreases n - i,
        {
            let u = &self.users[i];
            if u.deleted_at.is_none() && str_eq(u.username.as_str(), username) {
                proof {
                    lemma_first_visible_found(self.users@, i as int, username@);
                }
                return Ok(u.duplicate());
            }
            i = i + 1;
        }
        proof {
            lemma_first_visible_absent(self.users@, username@);
        }
        Err(UserRepositoryError::UserNotFound)
    }

    /// The first live account with `id`, or the not-found error.
    pub fn find_by_id(&self, id: i64) -> (r: Result<User, UserRepositoryError>)
        ensures
            r == (match first_user_with_id(self.users@, id) {
                Some(u) => Ok::<User, UserRepositoryError>(u),
                None => Err::<User, UserRepositoryError>(UserRepositoryError::UserNotFound),
            }),
            r matches Ok(u) ==> u.id == id && u.deleted_at is None && self.users@.contains(u),
            r is Ok <==> user_id_present(self.users@, id),
    {
        let n = self.users.len();
        let mut i: usize = 0;
        while i < n
            invariant
                n == self.users@.len(),
                i <= n,
                forall|j: int|
                    0 <= j < i ==> !((#[trigger] self.users@[j]).id == id && self.users@[j]
                        .deleted_at is None),
            decreases n - i,
        {
            let u = &self.users[i];
            if u.deleted_at.is_none() && u.id == id {
                proof {
                    lemma_first_id_found(self.users@, i as int, id);
                }
                return Ok(u.duplicate());
            }
            i = i + 1;
        }
        proof {
            lemma_first_id_absent(self.users@, id);
        }
        Err(UserRepositoryError::UserNotFound)
    }

    /// Record a login at `now` on the account with `id`; an absent id is
    /// not an error, as an update touching no row is not.
    pub fn update_last_login(&mut self, user_id: i64, now: i64) -> (r: Result<
        (),
        UserRepositoryError,
    >)
        ensures
            r is Ok,
            final(self).users@.len() == old(self).users@.len(),
            final(self).next_id == old(self).next_id,
            forall|j: int|
                0 <= j < old(self).users@.len() ==> if old(self).users@[j].id == user_id {
                    (#[trigger] final(self).users@[j]) == (User {
                        last_login_at: Some(now),
                        updated_at: now,
                        ..old(self).users@[j]
                    })
                } else {
                    final(self).users@[j] == old(self).users@[j]
                },
    {
        let n = self.users.len();
        let mut i: usize = 0;
        while i < n
            invariant
                n == self.users@.len(),
                i <= n,
                self.next_id == old(self).next_id,
                forall|j: int|
                    0 <= j < n ==> if j < i && old(self).users@[j].id == user_id {
                        (#[trigger] self.users@[j]) == (User {
                            last_login_at: Some(now),
                            updated_at: now,
                            ..old(self).users@[j]
                        })
                    } else {
                        self.users@[j] == old(self).users@[j]
                    },
            decreases n - i,
        {
            if self.users[i].id == user_id {
                self.users[i].last_login_at = Some(now);
                self.users[i].updated_at = now;
            }
            i = i + 1;
        }
        Ok(())
    }

    /// Replace the password hash on the live account with `id`; the
    /// not-found error exactly when no live row carries it.
    pub fn update_password(&mut self, user_id: i64, new_password_hash: &str, now: i64) -> (r:
        Result<(), UserRepositoryError>)
        ensures
            r is Ok <==> user_id_present(old(self).users@, user_id),
            !user_id_present(old(self).users@, user_id) ==> final(self).users@ == old(
                self,
            ).users@ && r == Err::<(), UserRepositoryError>(UserRepositoryError::UserNotFound),
            final(self).users@.len() == old(self).users@.len(),
            final(self).next_id == old(self).next_id,
            forall|j: int|
                0 <= j < old(self).users@.len() ==> if old(self).users@[j].id == user_id && old(
                    self,
                ).users@[j].deleted_at is None {
                    (#[trigger] final(self).users@[j]).password_hash@ == new_password_hash@
                        && final(self).users@[j] == (User {
                        password_hash: final(self).users@[j].password_hash,
                        updated_at: now,
                        ..old(self).users@[j]
                    })
                } else {
                    final(self).users@[j] == old(self).users@[j]
                },
    {
        let n = self.users.len();
        let mut i: usize = 0;
        let mut touched = false;
        while i < n
            invariant
                n == self.users@.len(),
                i <= n,
                self.next_id == old(self).next_id,
                touched == exists|j: int|
                    0 <= j < i && (#[trigger] old(self).users@[j]).id == user_id && old(
                        self,
                    ).users@[j].deleted_at is None,
                forall|j: int|
                    0 <= j < n ==> if j < i && old(self).users@[j].id == user_id && old(
                        self,
                    ).users@[j].deleted_at is None {
                        (#[trigger] self.users@[j]).password_hash@ == new_password_hash@
                            && self.users@[j] == (User {
                            password_hash: self.users@[j].password_hash,
                            updated_at: now,
                            ..old(self).users@[j]
                        })
                    } else {
                        self.users@[j] == old(self).users@[j]
                    },
            decreases n - i,
        {
            if self.users[i].deleted_at.is_none() && self.users[i].id == user_id {
                self.users[i].password_hash = new_password_hash.to_owned();
                self.users[i].updated_at = now;
                touched = true;
            }
            i = i + 1;
        }
        if touched {
            Ok(())
        } else {
            proof {
                assert(self.users@ =~= old(self).users@);
            }
            Err(UserRepositoryError::UserNotFound)
        }
    }

    /// Verify a security answer for password recovery.  The username must
    /// name a live account, the question id must match the account's, and
    /// the answer must pass `answer_matches`: against a hashed stored
    /// answer (`$2`...) the normalized answer is checked by bcrypt, and
    /// against a legacy plain one it is compared case-insensitively.
    /// Every failure is the same not-found error, and a passing answer is
    /// owed the account's id.
    pub fn verify_security_answer(
        &self,
        username: &str,
        security_question_id: i64,
        security_answer: &str,
    ) -> (r: Result<i64, UserRepositoryError>)
        ensures
            r == verify_answer_spec(
                self.users@,
                username@,
                security_question_id,
                security_answer@,
            ),
            r matches Ok(id) ==> exists|i: int|
                0 <= i < self.users@.len() && ({
                    let u = #[trigger] self.users@[i];
                    &&& user_visible(u, username@)
                    &&& u.id == id
                    &&& u.security_question_id == security_question_id
                    &&& answer_matches(u.security_answer@, security_answer@)
                }),
            r is Err ==> r == Err::<i64, UserRepositoryError>(UserRepositoryError::UserNotFound),
    {
        let user = match self.find_by_username(username) {
            Ok(u) => u,
            Err(_) => {
                return Err(UserRepositoryError::UserNotFound);
            },
        };
        let ghost w: int = choose|i: int|
            0 <= i < self.users@.len() && self.users@[i] == user;
        proof {
            assert(0 <= w < self.users@.len() && self.users@[w] == user);
        }
        if user.security_question_id != security_question_id {
            return Err(UserRepositoryError::UserNotFound);
        }
        let normalized = normalize_answer(security_answer);
        let stored = str_trim(user.security_answer.as_str());
        let hashed = str_starts_with(stored, "$2");
        proof {
            reveal_strlit("$2");
            if hashed {
                assert(stored@.subrange(0, 2) == "$2"@);
                assert(stored@[0] == '$') by {
                    assert(stored@.subrange(0, 2)[0] == stored@[0]);
                }
                assert(stored@[1] == '2') by {
                    assert(stored@.subrange(0, 2)[1] == stored@[1]);
                }
            } else {
                if stored_answer_hashed(stored@) {
                    assert(stored@.subrange(0, 2) =~= "$2"@);
                    assert(false);
                }
            }
            assert(hashed == stored_answer_hashed(stored@));
        }
        if hashed {
            let is_valid = match verify_password(normalized.as_str(), stored) {
                Ok(b) => b,
                Err(_) => {
                    return Err(UserRepositoryError::UserNotFound);
                },
            };
            if is_valid {
                proof {
                    assert(user_visible(self.users@[w], username@) && answer_matches(
                        self.users@[w].security_answer@,
                        security_answer@,
                    ));
                }
                Ok(user.id)
            } else {
                Err(UserRepositoryError::UserNotFound)
            }
        } else {
            if str_eq_ignore_ascii_case(stored, str_trim(security_answer)) {
                proof {
                    assert(user_visible(self.users@[w], username@) && answer_matches(
                        self.users@[w].security_answer@,
                        security_answer@,
                    ));
                }
                Ok(user.id)
            } else {
                Err(UserRepositoryError::UserNotFound)
            }
        }
    }
}

} // verus!
