use vstd::prelude::*;

verus! {

/// How long a token issued now stays valid: three weeks, in seconds.
pub const TOKEN_LIFETIME_SECS: i64 = 1814400;

/// What an API token carries: the caller's identity and when it expires.
#[derive(Clone, Debug, PartialEq, Eq)]
pub struct Claims {
    sub: String,
    /// Seconds since the Unix epoch.
    exp: i64,
}

impl Claims {
    pub closed spec fn subject(&self) -> Seq<char> {
        self.sub@
    }

    pub closed spec fn expires(&self) -> i64 {
        self.exp
    }

    /// Claims for `user_id` issued at `now` (seconds since the epoch),
    /// expiring three weeks later.
    pub fn new(user_id: &str, now: i64) -> (r: Claims)
        requires
            now <= i64::MAX - TOKEN_LIFETIME_SECS,
        ensures
            r.subject() == user_id@,
            r.expires() == now + TOKEN_LIFETIME_SECS,
    {
        Claims { sub: user_id.to_owned(), exp: now + TOKEN_LIFETIME_SECS }
    }

    /// Claims as a decoded token holds them.
    pub fn from_parts(sub: String, exp: i64) -> (r: Claims)
        ensures
            r.subject() == sub@,
            r.expires() == exp,
    {
        Claims { sub, exp }
    }

    /// The caller's identity.
    pub fn user_id(&self) -> (r: &str)
        ensures
            r@ == self.subject(),
    {
        self.sub.as_str()
    }

    /// The expiry, in seconds since the epoch.
    pub fn expiration(&self) -> (r: i64)
        ensures
            r == self.expires(),
    {
        self.exp
    }

    /// The same claims with another expiry (seconds since the epoch).
    pub fn with_expiration(self, exp: i64) -> (r: Claims)
        ensures
            r.subject() == self.subject(),
            r.expires() == exp,
    {
        Claims { sub: self.sub, exp }
    }
}

} // verus!
