//! Settings of the session layer: how long sessions live and how the session cookie is set.

use vstd::prelude::*;
use crate::clock::{MAX_TIMEOUT, MINUTE_MILLIS, DAY_MILLIS};
use crate::text::{decimal_of, decimal_text, debug_str, spec_debug_str};

verus! {

/// How long sessions live, in milliseconds: a signed-in session is kept for
/// `idle_timeout` after its last change, an anonymous one for `memory_clear_timeout`.
#[derive(Clone, Copy, Debug)]
pub struct SessionTimeouts {
    idle_timeout: i64,
    memory_clear_timeout: i64,
}

impl SessionTimeouts {
    #[verifier::type_invariant]
    closed spec fn bounded(&self) -> bool {
        &&& -MAX_TIMEOUT <= self.idle_timeout <= MAX_TIMEOUT
        &&& -MAX_TIMEOUT <= self.memory_clear_timeout <= MAX_TIMEOUT
    }

    /// The lifetime of a signed-in session.
    pub closed spec fn idle(&self) -> int {
        self.idle_timeout as int
    }

    /// The lifetime of an anonymous session.
    pub closed spec fn memory_clear(&self) -> int {
        self.memory_clear_timeout as int
    }

    /// Timeouts of the given lengths, when both lie within `MAX_TIMEOUT` of zero.
    pub fn new(idle_timeout: i64, memory_clear_timeout: i64) -> (r: Option<SessionTimeouts>)
        ensures
            r is Some <==> (-MAX_TIMEOUT <= idle_timeout <= MAX_TIMEOUT && -MAX_TIMEOUT
                <= memory_clear_timeout <= MAX_TIMEOUT),
            r matches Some(t) ==> t.idle() == idle_timeout && t.memory_clear()
                == memory_clear_timeout,
    {
        if -MAX_TIMEOUT <= idle_timeout && idle_timeout <= MAX_TIMEOUT && -MAX_TIMEOUT
            <= memory_clear_timeout && memory_clear_timeout <= MAX_TIMEOUT {
            Some(SessionTimeouts { idle_timeout, memory_clear_timeout })
        } else {
            None
        }
    }

    /// The lifetime of a signed-in session.
    pub fn idle_timeout(&self) -> (r: i64)
        ensures
            r == self.idle(),
            -MAX_TIMEOUT <= r <= MAX_TIMEOUT,
    {
        proof {
            use_type_invariant(self);
        }
        self.idle_timeout
    }

    /// The lifetime of an anonymous session.
    pub fn memory_clear_timeout(&self) -> (r: i64)
        ensures
            r == self.memory_clear(),
            -MAX_TIMEOUT <= r <= MAX_TIMEOUT,
    {
        proof {
            use_type_invariant(self);
        }
        self.memory_clear_timeout
    }
}

/// The lifetimes of the default configuration: 300 days for a signed-in session,
/// 10 minutes for an anonymous one.
pub open spec fn default_idle_timeout() -> int {
    25_920_000_000int
}

/// The lifetime of an anonymous session in the default configuration.
pub open spec fn default_memory_clear_timeout() -> int {
    600_000int
}

impl SessionTimeouts {
    /// 300 days for a signed-in session, 10 minutes for an anonymous one.
    pub fn default_timeouts() -> (r: SessionTimeouts)
        ensures
            r.idle() == default_idle_timeout(),
            r.memory_clear() == default_memory_clear_timeout(),
    {
        SessionTimeouts { idle_timeout: 300 * DAY_MILLIS, memory_clear_timeout: 10 * MINUTE_MILLIS }
    }
}

/// How the session cookie restricts cross-site requests.
#[derive(Clone, Copy, Debug, PartialEq, Eq, Structural)]
pub enum CookieSameSite {
    Strict,
    Lax,
    NoRestriction,
}

/// Settings of the session layer.
pub struct AxumSessionConfig {
    pub timeouts: SessionTimeouts,
    /// Session cookie domain.
    pub cookie_domain: Option<String>,
    /// Session cookie http-only flag.
    pub cookie_http_only: bool,
    /// Session cookie path.
    pub cookie_path: String,
    /// How the cookie is sent cross-site.
    pub cookie_same_site: CookieSameSite,
    /// Session cookie secure flag.
    pub cookie_secure: bool,
    /// Key material of the private (encrypted) session cookie, at least 64 bytes; none
    /// for plain cookies.
    pub key: Option<Vec<u8>>,
}

impl Default for AxumSessionConfig {
    fn default() -> (r: AxumSessionConfig)
        ensures
            r.timeouts.idle() == default_idle_timeout(),
            r.timeouts.memory_clear() == default_memory_clear_timeout(),
            r.cookie_path@ == seq!['/'],
            r.cookie_http_only,
            !r.cookie_secure,
            r.cookie_domain is None,
            r.cookie_same_site == CookieSameSite::Lax,
            r.key is None,
    {
        let path = "/";
        proof {
            reveal_strlit("/");
        }
        AxumSessionConfig {
            timeouts: SessionTimeouts::default_timeouts(),
            cookie_domain: None,
            cookie_http_only: true,
            cookie_path: path.to_owned(),
            cookie_same_site: CookieSameSite::Lax,
            cookie_secure: false,
            key: None,
        }
    }
}

/// `true` or `false`.
pub open spec fn bool_text(b: bool) -> Seq<char> {
    if b {
        "true"@
    } else {
        "false"@
    }
}

/// The name of a same-site rule.
pub open spec fn same_site_name(s: CookieSameSite) -> Seq<char> {
    match s {
        CookieSameSite::Strict => "Strict"@,
        CookieSameSite::Lax => "Lax"@,
        CookieSameSite::NoRestriction => "None"@,
    }
}

/// What `Debug` of a `chrono` duration of `ms` milliseconds writes: its whole seconds
/// (rounded down) and the nanoseconds left over.
pub open spec fn duration_debug(ms: int) -> Seq<char> {
    "TimeDelta { secs: "@ + decimal_of(ms / 1000) + ", nanos: "@ + decimal_of((ms % 1000) * 1_000_000)
        + " }"@
}

/// The description of a configuration, as its `Debug` writes it: every setting, with
/// the key shown only as hidden.
pub open spec fn config_description(c: AxumSessionConfig) -> Seq<char> {
    "AxumSessionConfig { idle_timeout: "@ + duration_debug(c.timeouts.idle()) + ", memory_clear_timeout: "@
        + duration_debug(c.timeouts.memory_clear()) + ", cookie_domain: "@ + match c.cookie_domain {
        Some(d) => "Some("@ + spec_debug_str(d@) + ")"@,
        None => "None"@,
    } + ", cookie_http_only: "@ + bool_text(c.cookie_http_only) + ", cookie_path: "@ + spec_debug_str(
        c.cookie_path@,
    ) + ", cookie_same_site: "@ + same_site_name(c.cookie_same_site) + ", cookie_secure: "@ + bool_text(
        c.cookie_secure,
    ) + ", key: \"key hidden\" }"@
}

/// The whole seconds and the leftover nanoseconds of a duration in milliseconds.
fn duration_parts(ms: i64) -> (r: (i64, i64))
    requires
        -MAX_TIMEOUT <= ms <= MAX_TIMEOUT,
    ensures
        r.0 == ms / 1000,
        r.1 == (ms % 1000) * 1_000_000,
{
    let shifted: i64 = ms + MAX_TIMEOUT;
    let q: i64 = shifted / 1000;
    let m: i64 = shifted % 1000;
    proof {
        let k: int = 400_000_000_000;
        assert(shifted == ms + k * 1000);
        let q0 = (ms as int) / 1000;
        let r0 = (ms as int) % 1000;
        vstd::arithmetic::div_mod::lemma_fundamental_div_mod(ms as int, 1000);
        assert(ms + k * 1000 == (q0 + k) * 1000 + r0);
        vstd::arithmetic::div_mod::lemma_fundamental_div_mod_converse(ms + k * 1000, 1000, q0 + k, r0);
    }
    (q - 400_000_000_000, m * 1_000_000)
}

fn push_duration(r: &mut String, ms: i64)
    requires
        -MAX_TIMEOUT <= ms <= MAX_TIMEOUT,
    ensures
        final(r)@ == old(r)@ + duration_debug(ms as int),
{
    let (secs, nanos) = duration_parts(ms);
    r.append("TimeDelta { secs: ");
    r.append(decimal_text(secs).as_str());
    r.append(", nanos: ");
    r.append(decimal_text(nanos).as_str());
    r.append(" }");
    assert(r@ =~= old(r)@ + duration_debug(ms as int));
}

fn bool_str(b: bool) -> (r: &'static str)
    ensures
        r@ == bool_text(b),
{
    if b {
        "true"
    } else {
        "false"
    }
}

impl AxumSessionConfig {
    /// The configuration's description, with the key shown only as hidden.
    pub fn describe(&self) -> (r: String)
        ensures
            r@ == config_description(*self),
    {
        let mut r = String::new();
        r.append("AxumSessionConfig { idle_timeout: ");
        push_duration(&mut r, self.timeouts.idle_timeout());
        r.append(", memory_clear_timeout: ");
        push_duration(&mut r, self.timeouts.memory_clear_timeout());
        r.append(", cookie_domain: ");
        match &self.cookie_domain {
            Some(d) => {
                r.append("Some(");
                r.append(debug_str(d.as_str()).as_str());
                r.append(")");
            },
            None => {
                r.append("None");
            },
        }
        r.append(", cookie_http_only: ");
        r.append(bool_str(self.cookie_http_only));
        r.append(", cookie_path: ");
        r.append(debug_str(self.cookie_path.as_str()).as_str());
        r.append(", cookie_same_site: ");
        match self.cookie_same_site {
            CookieSameSite::Strict => r.append("Strict"),
            CookieSameSite::Lax => r.append("Lax"),
            CookieSameSite::NoRestriction => r.append("None"),
        }
        r.append(", cookie_secure: ");
        r.append(bool_str(self.cookie_secure));
        r.append(", key: \"key hidden\" }");
        assert(r@ =~= config_description(*self));
        r
    }
}

} // verus!
