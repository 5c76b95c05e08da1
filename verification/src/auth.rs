//! Request authorization: the `Authorization` header carries a session
//! token after `Bearer `; the token must be known and not expired.
use vstd::prelude::*;

use crate::clock::{chrono_end_micros, chrono_end_secs, nanos_of, utc_now};
use crate::models::{Token, User};
use crate::response::ResError;
use crate::routes::Step;
use crate::text::owned;

verus! {

/// Why a request could not be authorized.
#[derive(Debug)]
pub enum AuthorizationError {
    /// The request has no `Authorization` header.
    Missing,
    /// The header does not hold a valid session token.
    Invalid,
}

impl AuthorizationError {
    /// The error body sent for this failure.
    pub fn res_error(&self) -> (r: ResError)
        ensures
            r.msg@ == ""@,
            match self {
                AuthorizationError::Missing => r.detail@ == "Missing authentication token"@,
                AuthorizationError::Invalid => r.detail@ == "Invaild authentication token"@,
            },
    {
        match self {
            AuthorizationError::Missing => ResError::of("", "Missing authentication token"),
            AuthorizationError::Invalid => ResError::of("", "Invaild authentication token"),
        }
    }
}

/// An authorized request: the user, and the token it came with.
pub struct Authorization {
    pub user: User,
    pub token: String,
}

/// The white space characters: those with Unicode's White_Space property,
/// as `char::is_whitespace` has them.
pub open spec fn is_ws(c: char) -> bool {
    ||| '\t' <= c <= '\r'
    ||| c == ' '
    ||| c == '\u{85}'
    ||| c == '\u{A0}'
    ||| c == '\u{1680}'
    ||| '\u{2000}' <= c <= '\u{200A}'
    ||| c == '\u{2028}'
    ||| c == '\u{2029}'
    ||| c == '\u{202F}'
    ||| c == '\u{205F}'
    ||| c == '\u{3000}'
}

/// Whether `c` is white space.
pub fn is_whitespace(c: char) -> (r: bool)
    ensures
        r == is_ws(c),
{
    ('\t' <= c && c <= '\r') || c == ' ' || c == '\u{85}' || c == '\u{A0}' || c == '\u{1680}' || (
    '\u{2000}' <= c && c <= '\u{200A}') || c == '\u{2028}' || c == '\u{2029}' || c == '\u{202F}'
        || c == '\u{205F}' || c == '\u{3000}'
}

/// The first position at or after `i` that is not white space.
pub open spec fn skip_ws(s: Seq<char>, i: int) -> int
    decreases s.len() - i,
{
    if 0 <= i < s.len() && is_ws(s[i]) {
        skip_ws(s, i + 1)
    } else {
        i
    }
}

/// The first position at or after `i` that is white space.
pub open spec fn skip_word(s: Seq<char>, i: int) -> int
    decreases s.len() - i,
{
    if 0 <= i < s.len() && !is_ws(s[i]) {
        skip_word(s, i + 1)
    } else {
        i
    }
}

/// Where the second white-space separated word of `s` starts.
pub open spec fn second_word_start(s: Seq<char>) -> int {
    skip_ws(s, skip_word(s, skip_ws(s, 0)))
}

/// `s` holds at least two white-space separated words.
pub open spec fn has_second_word(s: Seq<char>) -> bool {
    second_word_start(s) < s.len()
}

/// The second white-space separated word of `s`.
pub open spec fn second_word(s: Seq<char>) -> Seq<char> {
    s.subrange(second_word_start(s), skip_word(s, second_word_start(s)))
}

/// The marker that a header must contain.
pub open spec fn bearer_marker() -> Seq<char> {
    seq!['B', 'e', 'a', 'r', 'e', 'r', ' ']
}

/// `s` contains `Bearer ` somewhere.
pub open spec fn contains_bearer(s: Seq<char>) -> bool {
    exists|i: int| 0 <= i && i + 7 <= s.len() && #[trigger] s.subrange(i, i + 7) == bearer_marker()
}

proof fn lemma_skip_ws_bounds(s: Seq<char>, i: int)
    requires
        0 <= i,
    ensures
        i <= skip_ws(s, i),
        i <= s.len() ==> skip_ws(s, i) <= s.len(),
        skip_ws(s, i) < s.len() ==> !is_ws(s[skip_ws(s, i)]),
        forall|k: int| i <= k < skip_ws(s, i) ==> is_ws(#[trigger] s[k]),
    decreases s.len() - i,
{
    if 0 <= i < s.len() && is_ws(s[i]) {
        lemma_skip_ws_bounds(s, i + 1);
    }
}

proof fn lemma_skip_word_bounds(s: Seq<char>, i: int)
    requires
        0 <= i,
    ensures
        i <= skip_word(s, i),
        i <= s.len() ==> skip_word(s, i) <= s.len(),
        skip_word(s, i) < s.len() ==> is_ws(s[skip_word(s, i)]),
        forall|k: int| i <= k < skip_word(s, i) ==> !is_ws(#[trigger] s[k]),
    decreases s.len() - i,
{
    if 0 <= i < s.len() && !is_ws(s[i]) {
        lemma_skip_word_bounds(s, i + 1);
    }
}

/// The first position at or after `i` of `s` that is not white space.
fn skip_ws_from(s: &str, n: usize, i: usize) -> (r: usize)
    requires
        n == s@.len(),
        i <= n,
    ensures
        r == skip_ws(s@, i as int),
        i <= r <= n,
{
    let mut j: usize = i;
    while j < n && is_whitespace(s.get_char(j))
        invariant
            i <= j <= n,
            n == s@.len(),
            skip_ws(s@, j as int) == skip_ws(s@, i as int),
        decreases n - j,
    {
        j = j + 1;
    }
    j
}

/// The first position at or after `i` of `s` that is white space.
fn skip_word_from(s: &str, n: usize, i: usize) -> (r: usize)
    requires
        n == s@.len(),
        i <= n,
    ensures
        r == skip_word(s@, i as int),
        i <= r <= n,
{
    let mut j: usize = i;
    while j < n && !is_whitespace(s.get_char(j))
        invariant
            i <= j <= n,
            n == s@.len(),
            skip_word(s@, j as int) == skip_word(s@, i as int),
        decreases n - j,
    {
        j = j + 1;
    }
    j
}

/// Whether `s` contains `Bearer `.
fn has_bearer(s: &str, n: usize) -> (r: bool)
    requires
        n == s@.len(),
    ensures
        r == contains_bearer(s@),
{
    if n < 7 {
        return false;
    }
    let mut i: usize = 0;
    while i <= n - 7
        invariant
            n == s@.len(),
            n >= 7,
            i <= n - 6,
            forall|k: int| 0 <= k < i ==> #[trigger] s@.subrange(k, k + 7) != bearer_marker(),
        decreases n - i,
    {
        if s.get_char(i) == 'B' && s.get_char(i + 1) == 'e' && s.get_char(i + 2) == 'a' && s.get_char(
            i + 3,
        ) == 'r' && s.get_char(i + 4) == 'e' && s.get_char(i + 5) == 'r' && s.get_char(i + 6) == ' ' {
            assert(s@.subrange(i as int, i + 7) =~= bearer_marker());
            return true;
        }
        assert(s@.subrange(i as int, i + 7) != bearer_marker()) by {
            let w = s@.subrange(i as int, i + 7);
            if w == bearer_marker() {
                assert(w[0] == s@[i as int]);
                assert(w[1] == s@[i + 1]);
                assert(w[2] == s@[i + 2]);
                assert(w[3] == s@[i + 3]);
                assert(w[4] == s@[i + 4]);
                assert(w[5] == s@[i + 5]);
                assert(w[6] == s@[i + 6]);
            }
        }
        i = i + 1;
    }
    false
}

/// The session token of an `Authorization` header: missing without a
/// header; invalid unless the header contains `Bearer `; otherwise the
/// second white-space separated word of the header.
pub fn bearer_token(header: Option<&str>) -> (r: Result<String, AuthorizationError>)
    requires
        header matches Some(h) ==> (contains_bearer(h@) ==> has_second_word(h@)),
    ensures
        match header {
            None => r matches Err(AuthorizationError::Missing),
            Some(h) => if contains_bearer(h@) {
                r matches Ok(t) && t@ == second_word(h@)
            } else {
                r matches Err(AuthorizationError::Invalid)
            },
        },
{
    match header {
        None => Err(AuthorizationError::Missing),
        Some(h) => {
            let n: usize = h.unicode_len();
            if !has_bearer(h, n) {
                return Err(AuthorizationError::Invalid);
            }
            let a: usize = skip_ws_from(h, n, 0);
            let b: usize = skip_word_from(h, n, a);
            let c: usize = skip_ws_from(h, n, b);
            let d: usize = skip_word_from(h, n, c);
            Ok(owned(h.substring_char(c, d)))
        },
    }
}

/// A token expiring at `expires_at` (microseconds since the Unix epoch)
/// is still valid at the time `now_secs` seconds and `now_nanos`
/// nanoseconds after the epoch: it expires only once that time is past
/// its expiry.
pub fn token_is_active(expires_at: i64, now_secs: i64, now_nanos: u32) -> (r: bool)
    requires
        now_nanos < 1_000_000_000,
    ensures
        r == (nanos_of(now_secs, now_nanos) <= expires_at * 1000),
{
    let now: i128 = now_secs as i128 * 1_000_000_000 + now_nanos as i128;
    let expiry: i128 = expires_at as i128 * 1000;
    !(now > expiry)
}

/// The outcome of checking a session token: whether it is valid, and the
/// time at which it was checked (seconds and nanoseconds since the Unix
/// epoch, read from the clock).
pub struct TokenCheck {
    pub valid: bool,
    pub now_secs: i64,
    pub now_nanos: u32,
}

/// Checks the token row that the header's token id found, at the current
/// time: an unknown token is not valid; a known one is while the time of
/// the check has not passed its expiry (see [`token_is_active`]). The time
/// of the check lies between the Unix epoch and the end of chrono's
/// range, so a token that expired before the epoch is never valid, and one
/// expiring at or after the end of that range always is.
pub fn validate_token(token: Option<&Token>) -> (r: TokenCheck)
    ensures
        0 <= r.now_secs < chrono_end_secs(),
        r.now_nanos < 1_000_000_000,
        r.valid == (token matches Some(t) && nanos_of(r.now_secs, r.now_nanos) <= t.expires_at * 1000),
        token matches Some(t) ==> (t.expires_at < 0 ==> !r.valid),
        token matches Some(t) ==> (t.expires_at >= chrono_end_micros() ==> r.valid),
{
    let (secs, nanos) = utc_now();
    let valid = match token {
        None => false,
        Some(t) => token_is_active(t.expires_at, secs, nanos),
    };
    TokenCheck { valid, now_secs: secs, now_nanos: nanos }
}

/// A question that authorization asks the database.
pub enum AuthQuery {
    /// Is the token with this id known and not expired
    /// (see [`validate_token`])?
    CheckToken(String),
    /// Load the user of the token with this id.
    FetchUser(String),
}

/// What the database has answered so far during authorization. The user
/// of a valid token is always found; the caller fails otherwise.
pub struct AuthFacts {
    pub token_valid: Option<bool>,
    pub user: Option<User>,
}

/// How authorization proceeds: the header must hold a token; the token
/// must be valid; then its user is loaded.
pub open spec fn authorize_next(
    header: Option<Seq<char>>,
    facts: AuthFacts,
    r: Step<AuthQuery, Result<Authorization, AuthorizationError>>,
) -> bool {
    match header {
        None => r matches Step::Reply(Err(AuthorizationError::Missing)),
        Some(h) => if !contains_bearer(h) {
            r matches Step::Reply(Err(AuthorizationError::Invalid))
        } else {
            match facts.token_valid {
                None => r matches Step::Ask(AuthQuery::CheckToken(t)) && t@ == second_word(h),
                Some(false) => r matches Step::Reply(Err(AuthorizationError::Invalid)),
                Some(true) => match facts.user {
                    None => r matches Step::Ask(AuthQuery::FetchUser(t)) && t@ == second_word(h),
                    Some(u) => r matches Step::Reply(Ok(a)) && a.user == u && a.token@
                        == second_word(h),
                },
            }
        },
    }
}

/// The view of an optional header.
pub open spec fn header_view(header: Option<&str>) -> Option<Seq<char>> {
    match header {
        Some(h) => Some(h@),
        None => None,
    }
}

/// The next step of authorizing a request with this `Authorization`
/// header. The facts stay as they were, except that authorizing takes the
/// user out of them.
pub fn authorize_step(header: Option<&str>, facts: &mut AuthFacts) -> (r: Step<
    AuthQuery,
    Result<Authorization, AuthorizationError>,
>)
    requires
        header matches Some(h) ==> (contains_bearer(h@) ==> has_second_word(h@)),
    ensures
        authorize_next(header_view(header), *old(facts), r),
        r matches Step::Reply(Ok(_)) ==> *final(facts) == (AuthFacts {
            user: None,
            ..*old(facts)
        }),
        !(r matches Step::Reply(Ok(_))) ==> *final(facts) == *old(facts),
{
    let token = match bearer_token(header) {
        Err(e) => return Step::Reply(Err(e)),
        Ok(t) => t,
    };
    match &facts.token_valid {
        None => return Step::Ask(AuthQuery::CheckToken(token)),
        Some(false) => return Step::Reply(Err(AuthorizationError::Invalid)),
        Some(true) => {},
    }
    if facts.user.is_none() {
        return Step::Ask(AuthQuery::FetchUser(token));
    }
    match facts.user.take() {
        Some(user) => Step::Reply(Ok(Authorization { user, token })),
        None => {
            proof {
                assert(false);
            }
            Step::Reply(Err(AuthorizationError::Invalid))
        },
    }
}

} // verus!
