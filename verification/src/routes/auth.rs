//! The account endpoints: signing up, logging in and logging out. Each
//! successful signup or login opens a session: a fresh token that expires
//! three months later.
use vstd::prelude::*;

use crate::clock::{add_months_micros, chrono_end_micros, chrono_last_year_micros, months_after, now_micros};
use crate::ids::{is_nanoid, new_id, new_token_id};
use crate::models::{NewToken, NewUser, User};
use crate::password::{bcrypt_hash, bcrypt_prefix, bcrypt_verifies, bcrypt_verify, is_checkable_hash};
use crate::response::{ResError, Response};
use crate::routes::{error_reply, error_reply_of, is_error_reply, route, table_of, Method, Route, Step};
use crate::text::owned;

verus! {

/// The credentials of a signup or login form.
pub struct UserCreds {
    pub username: String,
    pub password: String,
}

/// The reply to a signup, login or logout: the session token.
pub struct Data {
    pub token: String,
}

/// How many months a session lasts.
pub const SESSION_MONTHS: u32 = 3;

/// The session token of user `user_id` opened at `now`: a fresh
/// 128-character id, expiring three months after `now`; none when that
/// date cannot be represented, which cannot happen from a time between the
/// Unix epoch and the start of chrono's latest year.
pub fn new_token(user_id: &String, now: i64) -> (r: Option<NewToken>)
    ensures
        r is None <==> months_after(now, SESSION_MONTHS) is None,
        0 <= now < chrono_last_year_micros() ==> r is Some,
        r matches Some(t) ==> {
            &&& Some(t.expires_at) == months_after(now, SESSION_MONTHS)
            &&& t.user_id@ == user_id@
            &&& is_nanoid(t.id@, 128)
            &&& now < t.expires_at
        },
{
    match add_months_micros(now, SESSION_MONTHS) {
        None => None,
        Some(expires_at) => Some(NewToken { id: new_token_id(), user_id: user_id.clone(), expires_at }),
    }
}

/// The session token of user `user_id`, opened now (see [`new_token`]).
/// It is made unless the clock reads a time in chrono's latest year, from
/// which three months later cannot be represented.
pub fn create_token(user_id: &String) -> (r: Option<NewToken>)
    ensures
        r matches Some(t) ==> {
            &&& t.user_id@ == user_id@
            &&& is_nanoid(t.id@, 128)
            &&& exists|now: i64|
                0 <= now < t.expires_at && months_after(now, SESSION_MONTHS) == Some(t.expires_at)
        },
        r is None ==> exists|now: i64|
            chrono_last_year_micros() <= now < chrono_end_micros() && months_after(
                now,
                SESSION_MONTHS,
            ) is None,
{
    let now = now_micros();
    new_token(user_id, now)
}

/// The account row for a signup: a fresh id, the user name, and the
/// bcrypt hash of the password, against which that password verifies.
pub fn new_user(creds: &UserCreds) -> (r: NewUser)
    ensures
        is_nanoid(r.id@, 21),
        r.name@ == creds.username@,
        bcrypt_verifies(creds.password@, r.password@),
        is_checkable_hash(r.password@),
        r.password@.len() == 60,
        r.password@.take(7) == bcrypt_prefix(),
{
    NewUser { id: new_id(), name: creds.username.clone(), password: bcrypt_hash(&creds.password) }
}

/// A question that an account endpoint asks the database.
pub enum AccountQuery {
    /// Is there an account with this user name?
    NameTaken(String),
    /// Store the account made by [`new_user`] from the form and hand back
    /// its id, or the database's error text.
    CreateUser,
    /// Load the account with this user name.
    FetchUser(String),
    /// Open a session for the user with this id: store the token made by
    /// [`create_token`] for that user and hand back the token.
    IssueToken(String),
}

/// What the database has answered so far during a signup.
pub struct SignupFacts {
    pub name_taken: Option<bool>,
    pub created: Option<Result<String, String>>,
    pub token: Option<NewToken>,
}

/// `token` is a session token for the user with id `user_id`, as
/// [`create_token`] makes them: its id is 128 URL-safe characters.
pub open spec fn is_session_of(token: NewToken, user_id: Seq<char>) -> bool {
    is_nanoid(token.id@, 128) && token.user_id@ == user_id
}

/// How a signup proceeds: the user name must be free; then the account is
/// stored and a session opened for it.
pub open spec fn signup_next(
    username: Seq<char>,
    facts: SignupFacts,
    r: Step<AccountQuery, Response<Data>>,
) -> bool {
    match facts.name_taken {
        None => r matches Step::Ask(AccountQuery::NameTaken(n)) && n@ == username,
        Some(true) => is_error_reply(r, "Failed to signup"@, "Username already exists"@),
        Some(false) => match facts.created {
            None => r matches Step::Ask(AccountQuery::CreateUser),
            Some(Err(e)) => is_error_reply(r, e@, "Failed to create user"@),
            Some(Ok(user_id)) => match facts.token {
                None => r matches Step::Ask(AccountQuery::IssueToken(u)) && u@ == user_id@,
                Some(t) => r matches Step::Reply(Response::data(d)) && d.token@ == t.id@,
            },
        },
    }
}

/// The next step of signing up with these credentials. The facts stay as
/// they were. The token handed back must be the one opened for the
/// account that was stored (see [`AccountQuery::IssueToken`]); the reply
/// then carries its 128-character id.
pub fn signup_step(creds: &UserCreds, facts: &SignupFacts) -> (r: Step<AccountQuery, Response<Data>>)
    requires
        facts.created matches Some(Ok(u)) ==> (facts.token matches Some(t) ==> is_session_of(t, u@)),
    ensures
        signup_next(creds.username@, *facts, r),
        r matches Step::Reply(Response::data(d)) ==> is_nanoid(d.token@, 128),
{
    match &facts.name_taken {
        None => return Step::Ask(AccountQuery::NameTaken(creds.username.clone())),
        Some(true) => return error_reply("Failed to signup", "Username already exists"),
        Some(false) => {},
    }
    match &facts.created {
        None => Step::Ask(AccountQuery::CreateUser),
        Some(Err(e)) => error_reply_of(e.clone(), owned("Failed to create user")),
        Some(Ok(user_id)) => match &facts.token {
            None => Step::Ask(AccountQuery::IssueToken(user_id.clone())),
            Some(t) => Step::Reply(Response::data(Data { token: t.id.clone() })),
        },
    }
}

/// What the database has answered so far during a login.
pub struct LoginFacts {
    pub user_exists: Option<bool>,
    pub user: Option<Result<User, String>>,
    pub token: Option<NewToken>,
}

/// How a login proceeds: an account with the user name must exist and
/// load; the password must verify against its hash; then a session is
/// opened for it.
pub open spec fn login_next(
    username: Seq<char>,
    password: Seq<char>,
    facts: LoginFacts,
    r: Step<AccountQuery, Response<Data>>,
) -> bool {
    match facts.user_exists {
        None => r matches Step::Ask(AccountQuery::NameTaken(n)) && n@ == username,
        Some(false) => is_error_reply(r, "Failed to login"@, "User does not exists"@),
        Some(true) => match facts.user {
            None => r matches Step::Ask(AccountQuery::FetchUser(n)) && n@ == username,
            Some(Err(_)) => is_error_reply(r, "Failed to login"@, "user does not exists"@),
            Some(Ok(user)) => if !bcrypt_verifies(password, user.password@) {
                is_error_reply(r, "Failed to login"@, "Incorrect password"@)
            } else {
                match facts.token {
                    None => r matches Step::Ask(AccountQuery::IssueToken(u)) && u@ == user.id@,
                    Some(t) => r matches Step::Reply(Response::data(d)) && d.token@ == t.id@,
                }
            },
        },
    }
}

/// The next step of logging in with these credentials. The facts stay as
/// they were. A loaded account's stored hash must be one that `pwhash`
/// can check (see [`crate::password::checkable_hash`]), and the token
/// handed back must be the one opened for that account (see
/// [`AccountQuery::IssueToken`]); the reply then carries its
/// 128-character id.
pub fn login_step(creds: &UserCreds, facts: &LoginFacts) -> (r: Step<AccountQuery, Response<Data>>)
    requires
        facts.user matches Some(Ok(u)) ==> is_checkable_hash(u.password@),
        facts.user matches Some(Ok(u)) ==> (facts.token matches Some(t) ==> is_session_of(t, u.id@)),
    ensures
        login_next(creds.username@, creds.password@, *facts, r),
        r matches Step::Reply(Response::data(d)) ==> is_nanoid(d.token@, 128),
{
    match &facts.user_exists {
        None => return Step::Ask(AccountQuery::NameTaken(creds.username.clone())),
        Some(false) => return error_reply("Failed to login", "User does not exists"),
        Some(true) => {},
    }
    match &facts.user {
        None => Step::Ask(AccountQuery::FetchUser(creds.username.clone())),
        Some(Err(_)) => error_reply("Failed to login", "user does not exists"),
        Some(Ok(user)) => {
            if !bcrypt_verify(&creds.password, &user.password) {
                return error_reply("Failed to login", "Incorrect password");
            }
            match &facts.token {
                None => Step::Ask(AccountQuery::IssueToken(user.id.clone())),
                Some(t) => Step::Reply(Response::data(Data { token: t.id.clone() })),
            }
        },
    }
}

/// The reply to a logout of session `token`, given whether deleting the
/// session worked.
pub fn logout_reply(token: &str, deleted: Result<(), String>) -> (r: Response<Data>)
    ensures
        match deleted {
            Ok(()) => r matches Response::data(d) && d.token@ == token@,
            Err(_) => r matches Response::error(e) && e.msg@ == "Failed to logout"@ && e.detail@
                == "Failed to remove session id"@,
        },
{
    match deleted {
        Ok(()) => Response::data(Data { token: owned(token) }),
        Err(_) => Response::error(ResError::of("Failed to logout", "Failed to remove session id")),
    }
}

/// The account routes: method and URI of each.
pub open spec fn auth_table() -> Seq<(Method, Seq<char>)> {
    seq![
        (Method::Post, "/login"@),
        (Method::Post, "/logout"@),
        (Method::Post, "/signup"@),
    ]
}

/// The account routes.
pub fn routes() -> (r: Vec<Route>)
    ensures
        table_of(r@) == auth_table(),
{
    let mut r: Vec<Route> = Vec::new();
    r.push(route(Method::Post, "/login"));
    r.push(route(Method::Post, "/logout"));
    r.push(route(Method::Post, "/signup"));
    assert(table_of(r@) =~= auth_table());
    r
}

} // verus!
