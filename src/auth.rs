//! Optional token checks for device endpoints.
//!
//! A device may carry a `token` query parameter. Requests are checked
//! against an expected value, or let through when none is configured.

use vstd::prelude::*;

use crate::text::{find_text, occurs_at, str_eq};

verus! {

/// Why a token check failed.
#[derive(Clone, Debug)]
pub struct AuthError {
    pub message: &'static str,
}

/// The token that a request carried, if any.
#[derive(Clone, Debug)]
pub struct TokenAuth {
    pub token: Option<String>,
}

/// Name and value pairs of a form-encoded query, in order, as
/// `form_urlencoded::parse` decodes them.
pub uninterp spec fn form_pairs(query: Seq<char>) -> Seq<(Seq<char>, Seq<char>)>;

pub open spec fn pairs_view(pairs: Seq<(String, String)>) -> Seq<(Seq<char>, Seq<char>)> {
    pairs.map_values(|p: (String, String)| (p.0@, p.1@))
}

pub open spec fn token_view(token: Option<String>) -> Option<Seq<char>> {
    match token {
        Some(t) => Some(t@),
        None => None,
    }
}

/// The value of the last pair named `key`.
pub open spec fn last_value_for(pairs: Seq<(Seq<char>, Seq<char>)>, key: Seq<char>) -> Option<Seq<char>>
    decreases pairs.len(),
{
    if pairs.len() == 0 {
        None
    } else if pairs.last().0 == key {
        Some(pairs.last().1)
    } else {
        last_value_for(pairs.drop_last(), key)
    }
}

/// The value of the first pair named `key`.
pub open spec fn first_value_for(pairs: Seq<(Seq<char>, Seq<char>)>, key: Seq<char>) -> Option<Seq<char>>
    decreases pairs.len(),
{
    if pairs.len() == 0 {
        None
    } else if pairs[0].0 == key {
        Some(pairs[0].1)
    } else {
        first_value_for(pairs.drop_first(), key)
    }
}

pub open spec fn first_occurrence_at(s: Seq<char>, pat: Seq<char>, i: int) -> bool {
    occurs_at(s, pat, i) && forall|j: int| 0 <= j < i ==> !occurs_at(s, pat, j)
}

/// A token with everything from its first "/api/" on removed. Some
/// firmware appends the request path to a token given in the base URL.
pub open spec fn without_api_suffix(s: Seq<char>) -> Seq<char> {
    if exists|i: int| first_occurrence_at(s, "/api/"@, i) {
        s.take(choose|i: int| first_occurrence_at(s, "/api/"@, i))
    } else {
        s
    }
}

/// Whether a carried token passes a check against `expected`.
pub open spec fn token_accepted(token: Option<Seq<char>>, expected: Seq<char>) -> bool {
    token == Some(expected)
}

/// Relies on `form_urlencoded::parse`: the decoded name and value pairs of
/// a query, in order; an empty query has none.
#[verifier::external_body]
fn query_pairs(query: &str) -> (r: Vec<(String, String)>)
    ensures
        pairs_view(r@) == form_pairs(query@),
        query@.len() == 0 ==> r@.len() == 0,
{
    form_urlencoded::parse(query.as_bytes()).into_owned().collect()
}

/// Removes everything from the first "/api/" on.
pub fn strip_api_suffix(token: &str) -> (r: String)
    ensures
        r@ == without_api_suffix(token@),
{
    match find_text(token, "/api/") {
        Some(i) => {
            proof {
                assert(first_occurrence_at(token@, "/api/"@, i as int));
                let c = choose|k: int| first_occurrence_at(token@, "/api/"@, k);
                if c < i {
                    assert(!occurs_at(token@, "/api/"@, c));
                } else if i < c {
                    assert(!occurs_at(token@, "/api/"@, i as int));
                }
            }
            String::from_str(token.substring_char(0, i))
        },
        None => String::from_str(token),
    }
}

impl AuthError {
    pub fn new(message: &'static str) -> (r: Self)
        ensures
            r.message == message,
    {
        AuthError { message }
    }
}

impl TokenAuth {
    pub fn new(token: Option<String>) -> (r: Self)
        ensures
            r.token == token,
    {
        TokenAuth { token }
    }

    /// Succeeds exactly when a token was carried and equals `expected`;
    /// else fails with "Missing token" or "Invalid token".
    pub fn validate(&self, expected: &str) -> (r: Result<(), AuthError>)
        ensures
            r.is_ok() == token_accepted(token_view(self.token), expected@),
            self.token.is_none() ==> (r matches Err(e) && e.message == "Missing token"),
            self.token.is_some() && !token_accepted(token_view(self.token), expected@) ==> (r matches Err(
                e,
            ) && e.message == "Invalid token"),
    {
        match &self.token {
            Some(token) => {
                if str_eq(token.as_str(), expected) {
                    Ok(())
                } else {
                    Err(AuthError::new("Invalid token"))
                }
            },
            None => Err(AuthError::new("Missing token")),
        }
    }

    /// Checks against an expected token where one is configured; with none
    /// configured every request passes.
    pub fn validate_configured(&self, expected: Option<&str>) -> (r: Result<(), AuthError>)
        ensures
            expected.is_none() ==> r.is_ok(),
            expected matches Some(e) ==> r.is_ok() == token_accepted(token_view(self.token), e@),
    {
        match expected {
            Some(e) => self.validate(e),
            None => Ok(()),
        }
    }

    /// Whether a token was carried, valid or not.
    pub fn has_token(&self) -> (r: bool)
        ensures
            r == self.token.is_some(),
    {
        self.token.is_some()
    }

    /// The token of already decoded query pairs: the value of the last pair
    /// named "token".
    pub fn from_pairs(pairs: &Vec<(String, String)>) -> (r: Self)
        ensures
            token_view(r.token) == last_value_for(pairs_view(pairs@), "token"@),
    {
        let mut i: usize = pairs.len();
        assert(pairs_view(pairs@).take(i as int) =~= pairs_view(pairs@));
        while i > 0
            invariant
                i <= pairs@.len(),
                last_value_for(pairs_view(pairs@).take(i as int), "token"@) == last_value_for(
                    pairs_view(pairs@),
                    "token"@,
                ),
            decreases i,
        {
            let ghost v = pairs_view(pairs@).take(i as int);
            assert(v.last() == (pairs@[i - 1].0@, pairs@[i - 1].1@));
            if str_eq(pairs[i - 1].0.as_str(), "token") {
                return TokenAuth { token: Some(pairs[i - 1].1.clone()) };
            }
            assert(v.drop_last() =~= pairs_view(pairs@).take(i - 1));
            i = i - 1;
        }
        TokenAuth { token: None }
    }

    /// The token of a query string: the value of its last "token" pair.
    pub fn from_query_string(query: &str) -> (r: Self)
        ensures
            token_view(r.token) == last_value_for(form_pairs(query@), "token"@),
    {
        let pairs = query_pairs(query);
        TokenAuth::from_pairs(&pairs)
    }

    /// The token of a request's decoded query pairs: the value of the first
    /// pair named "token", without a trailing "/api/..." path.
    pub fn from_request_pairs(pairs: &Vec<(String, String)>) -> (r: Self)
        ensures
            token_view(r.token) == (match first_value_for(pairs_view(pairs@), "token"@) {
                Some(v) => Some(without_api_suffix(v)),
                None => None,
            }),
    {
        let mut i: usize = 0;
        assert(pairs_view(pairs@).skip(0) =~= pairs_view(pairs@));
        while i < pairs.len()
            invariant
                i <= pairs@.len(),
                first_value_for(pairs_view(pairs@).skip(i as int), "token"@) == first_value_for(
                    pairs_view(pairs@),
                    "token"@,
                ),
            decreases pairs@.len() - i,
        {
            let ghost v = pairs_view(pairs@).skip(i as int);
            assert(v[0] == (pairs@[i as int].0@, pairs@[i as int].1@));
            if str_eq(pairs[i].0.as_str(), "token") {
                return TokenAuth { token: Some(strip_api_suffix(pairs[i].1.as_str())) };
            }
            assert(v.drop_first() =~= pairs_view(pairs@).skip(i + 1));
            i = i + 1;
        }
        TokenAuth { token: None }
    }

    /// The token of a request's query, if it has one: the first "token"
    /// value, without a trailing "/api/..." path.
    pub fn from_request_query(query: Option<&str>) -> (r: Self)
        ensures
            query.is_none() ==> r.token.is_none(),
            query matches Some(q) ==> token_view(r.token) == (match first_value_for(form_pairs(q@), "token"@) {
                Some(v) => Some(without_api_suffix(v)),
                None => None,
            }),
    {
        match query {
            Some(q) => {
                let pairs = query_pairs(q);
                TokenAuth::from_request_pairs(&pairs)
            },
            None => TokenAuth { token: None },
        }
    }
}

/// A token made of the secret, then "/api/" and any path, comes back to the
/// secret once the suffix is stripped, provided "/api/" does not occur
/// earlier; the stripped token then passes a check against the secret.
pub proof fn law_stripped_token_is_secret(secret: Seq<char>, rest: Seq<char>)
    requires
        forall|j: int| 0 <= j < secret.len() ==> !occurs_at(secret + "/api/"@ + rest, "/api/"@, j),
    ensures
        without_api_suffix(secret + "/api/"@ + rest) == secret,
        token_accepted(Some(without_api_suffix(secret + "/api/"@ + rest)), secret),
{
    let raw = secret + "/api/"@ + rest;
    let n = secret.len() as int;
    reveal_strlit("/api/");
    assert(raw.subrange(n, n + 5) =~= "/api/"@);
    assert(first_occurrence_at(raw, "/api/"@, n));
    let c = choose|k: int| first_occurrence_at(raw, "/api/"@, k);
    if c < n {
        assert(!occurs_at(raw, "/api/"@, c));
    } else if n < c {
        assert(!occurs_at(raw, "/api/"@, n));
    }
    assert(raw.take(n) =~= secret);
}

} // verus!
