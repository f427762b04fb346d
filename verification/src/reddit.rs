use vstd::prelude::*;
use vstd::string::StringExecFns;

use crate::error::Error;
use crate::text::{chars_of, digit_run_end, digit_run_end_exec, digits_val, parse_digits_u64};

verus! {

/// Credentials, endpoints and the polling cadence of the listing source.
#[derive(Debug, PartialEq)]
pub struct Config {
    pub auth_host: String,
    pub api_host: String,
    pub token_file: String,
    pub username: String,
    pub password: String,
    pub client_id: String,
    pub client_secret: String,
    pub user_agent: String,
    pub wait_time_secs: u64,
}

/// A cached access token with the quota feedback last reported beside it.
/// Times are seconds of Unix time; the reset is a delay in seconds.
#[derive(Debug, PartialEq)]
pub struct Auth {
    pub access_token: String,
    pub expires_at_secs: u64,
    pub ratelimit_used: u64,
    pub ratelimit_remaining: u64,
    pub ratelimit_reset_secs: u64,
}

/// The listing source's client state: configuration plus the cached token.
/// The HTTP calls themselves happen outside this library; every decision about
/// pacing and reauthentication is made here, from values handed in.
pub struct Client {
    pub config: Config,
    pub auth: Option<Auth>,
}

/// One page request to the listing source.
#[derive(Debug, PartialEq)]
pub struct ListingRequest {
    pub count: u64,
    pub limit: u64,
}

impl Client {
    pub fn new(config: Config) -> (r: Self)
        ensures
            r.config == config,
            r.auth is None,
    {
        Self { config, auth: None }
    }

    /// Whether a new token must be fetched before the next call: there is no
    /// cached token, or the cached one has expired by `now_secs`.
    pub fn is_auth_expired(&self, now_secs: u64) -> (r: bool)
        ensures
            r == match self.auth {
                Some(a) => a.expires_at_secs < now_secs,
                None => true,
            },
    {
        match &self.auth {
            Some(auth) => auth.expires_at_secs < now_secs,
            None => true,
        }
    }

    /// The seconds to wait before the next poll: the configured interval,
    /// unless the remote quota is exhausted, in which case the remote-reported
    /// reset delay.
    pub fn get_wait_time(&self) -> (r: u64)
        ensures
            r == match self.auth {
                Some(a) => if a.ratelimit_remaining == 0 {
                    a.ratelimit_reset_secs
                } else {
                    self.config.wait_time_secs
                },
                None => self.config.wait_time_secs,
            },
    {
        match &self.auth {
            Some(auth) => {
                if auth.ratelimit_remaining == 0 {
                    auth.ratelimit_reset_secs
                } else {
                    self.config.wait_time_secs
                }
            },
            None => self.config.wait_time_secs,
        }
    }

    /// Installs a token fresh from authentication, valid for `expires_in_secs`
    /// from `now_secs` (saturating at the largest representable time), with the
    /// quota feedback reset to one remaining call.
    pub fn install_auth(&mut self, access_token: String, expires_in_secs: u64, now_secs: u64)
        ensures
            final(self).config == old(self).config,
            final(self).auth == Some(
                Auth {
                    access_token,
                    expires_at_secs: (if now_secs + expires_in_secs <= u64::MAX {
                        (now_secs + expires_in_secs) as u64
                    } else {
                        u64::MAX
                    }),
                    ratelimit_used: 0u64,
                    ratelimit_remaining: 1u64,
                    ratelimit_reset_secs: 3600u64,
                },
            ),
    {
        self.auth = Some(
            Auth {
                access_token,
                expires_at_secs: now_secs.saturating_add(expires_in_secs),
                ratelimit_used: 0,
                ratelimit_remaining: 1,
                ratelimit_reset_secs: 3600,
            },
        );
    }

    /// Adopts a token restored from durable storage, but only when it has not
    /// yet expired at `now_secs`; a stale stored token changes nothing.
    pub fn adopt_stored_auth(&mut self, auth: Auth, now_secs: u64)
        ensures
            final(self).config == old(self).config,
            final(self).auth == (if auth.expires_at_secs > now_secs {
                Some(auth)
            } else {
                old(self).auth
            }),
    {
        if auth.expires_at_secs > now_secs {
            self.auth = Some(auth);
        }
    }

    /// The bearer header for an API call; demands reauthentication when no
    /// unexpired token is at hand.
    pub fn get_auth_payload(&self, now_secs: u64) -> (r: Result<String, Error>)
        ensures
            match self.auth {
                Some(a) => if a.expires_at_secs < now_secs {
                    r == Err::<String, Error>(Error::Reauthenticate)
                } else {
                    r matches Ok(s) && s@ == "bearer "@ + a.access_token@
                },
                None => r == Err::<String, Error>(Error::Reauthenticate),
            },
    {
        match &self.auth {
            Some(auth) => {
                if self.is_auth_expired(now_secs) {
                    Err(Error::Reauthenticate)
                } else {
                    let mut s = "bearer ".to_owned();
                    s.append(auth.access_token.as_str());
                    Ok(s)
                }
            },
            None => Err(Error::Reauthenticate),
        }
    }

    /// Applies the quota feedback the listing source reported after a call;
    /// without a cached token there is nothing to update.
    pub fn update_ratelimit_counts(&mut self, used: u64, remaining: u64, reset_secs: u64)
        ensures
            final(self).config == old(self).config,
            match old(self).auth {
                Some(a) => final(self).auth == Some(
                    Auth {
                        access_token: a.access_token,
                        expires_at_secs: a.expires_at_secs,
                        ratelimit_used: used,
                        ratelimit_remaining: remaining,
                        ratelimit_reset_secs: reset_secs,
                    },
                ),
                None => final(self).auth is None,
            },
    {
        let auth = match &mut self.auth {
            Some(auth) => auth,
            None => {
                return ;
            },
        };
        auth.ratelimit_used = used;
        auth.ratelimit_remaining = remaining;
        auth.ratelimit_reset_secs = reset_secs;
    }
}

/// The whole-unit value of a decimal quota header such as "599.0" or "42":
/// a run of digits, an optional fraction after a dot, nothing else; at least
/// one digit in all. The fraction is discarded; a value beyond `u64::MAX`, or
/// any other shape, yields nothing.
pub open spec fn spec_ratelimit_value(s: Seq<char>) -> Option<int> {
    let e = digit_run_end(s, 0);
    let ip = digits_val(s.subrange(0, e));
    if e == s.len() {
        if e == 0 || ip > u64::MAX {
            None
        } else {
            Some(ip)
        }
    } else if s[e] == '.' {
        let f = digit_run_end(s, e + 1);
        if f == s.len() && (e > 0 || f > e + 1) && ip <= u64::MAX {
            Some(ip)
        } else {
            None
        }
    } else {
        None
    }
}

/// Reads a quota header value, discarding any fraction.
pub fn parse_ratelimit_value(s: &str) -> (r: Option<u64>)
    ensures
        match r {
            Some(x) => spec_ratelimit_value(s@) == Some(x as int),
            None => spec_ratelimit_value(s@) is None,
        },
{
    let v = chars_of(s);
    let n = v.len();
    let e = digit_run_end_exec(&v, 0);
    if e < n {
        if v[e] != '.' {
            return None;
        }
        let f = digit_run_end_exec(&v, e + 1);
        if !(f == n && (e > 0 || f > e + 1)) {
            return None;
        }
    } else if e == 0 {
        return None;
    }
    match parse_digits_u64(&v, 0, e) {
        Some(x) => Some(x),
        None => None,
    }
}

} // verus!
