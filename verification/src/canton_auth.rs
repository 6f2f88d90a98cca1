//! The claims of a JWT for Canton v2 participants, and a builder for them.
//!
//! A Canton v2 token carries the standard `aud`/`sub`/`scope` claims:
//!
//! * `aud` — the participant's expected audience URL;
//! * `sub` — the Daml ledger user-id the token authorises;
//! * `scope` — must contain `daml_ledger_api` for ledger API access;
//!   several scopes are space-separated;
//! * `iss`, `iat`, `exp` — the standard issuer and timestamps.
//!
//! Signing the claims is done where they are serialized.

use vstd::prelude::*;

use crate::datetime::{UtcDateTime, MAX_UTC_TIMESTAMP, MIN_UTC_TIMESTAMP};

verus! {

/// The claims of a token. Every field but `exp` is optional, so that an
/// absent value is left out rather than written as an empty string.
#[derive(Debug)]
pub struct DamlCantonClaims {
    /// Issuer URL — typically the OIDC IdP.
    pub iss: Option<String>,
    /// Subject — the Daml user-id the token authorises.
    pub sub: Option<String>,
    /// Audience — the participant's `aud` URL.
    pub aud: Option<String>,
    /// Space-separated scope list; must contain `daml_ledger_api`.
    pub scope: Option<String>,
    /// Issued-at (seconds since epoch).
    pub iat: Option<i64>,
    /// Expiry (seconds since epoch). Required by the participant.
    pub exp: i64,
}

impl Default for DamlCantonClaims {
    fn default() -> (claims: Self)
        ensures
            claims.iss is None,
            claims.sub is None,
            claims.aud is None,
            claims.scope is None,
            claims.iat is None,
            claims.exp == 0,
    {
        DamlCantonClaims { iss: None, sub: None, aud: None, scope: None, iat: None, exp: 0 }
    }
}

/// The widest span, in seconds, a time span may have.
pub const MAX_SPAN_SECS: i64 = 9_223_372_036_854_775;

#[verifier::external_type_specification]
#[verifier::external_body]
pub struct ExSystemTime(std::time::SystemTime);

/// `std::time::SystemTime::now`: the system clock's reading. It depends on
/// the clock, so nothing is claimed of it.
#[verifier::external_body]
fn system_now() -> (now: std::time::SystemTime) {
    std::time::SystemTime::now()
}

/// `SystemTime::duration_since(UNIX_EPOCH)`: the time elapsed since the
/// epoch, `None` where `time` lies before it (the call's error). Nothing is
/// claimed of which outcome a reading of the clock gives.
#[verifier::external_body]
fn elapsed_since_epoch(time: &std::time::SystemTime) -> (elapsed: Option<core::time::Duration>) {
    match time.duration_since(std::time::UNIX_EPOCH) {
        Ok(elapsed) => Some(elapsed),
        Err(_) => None,
    }
}

/// `Duration::as_secs`: the whole seconds of a span. The span is opaque
/// here, so nothing is claimed of the number.
#[verifier::external_body]
fn whole_secs(span: &core::time::Duration) -> (secs: u64) {
    span.as_secs()
}

/// The clock's reading in whole seconds since the epoch: `None` where the
/// clock reads before the epoch.
fn clock_epoch_secs() -> (secs: Option<u64>) {
    let now = system_now();
    match elapsed_since_epoch(&now) {
        Some(elapsed) => Some(whole_secs(&elapsed)),
        None => None,
    }
}

/// The current time as the timestamp of a UTC date-time: `None` where the
/// clock reads before the epoch or past the latest date-time.
fn utc_now_timestamp() -> (t: Option<i64>)
    ensures
        t matches Some(s) ==> 0 <= s <= MAX_UTC_TIMESTAMP,
{
    let secs = match clock_epoch_secs() {
        Some(secs) => secs,
        None => return None,
    };
    if secs > i64::MAX as u64 {
        return None;
    }
    match UtcDateTime::from_timestamp(secs as i64, 0) {
        Some(d) => Some(d.timestamp()),
        None => None,
    }
}

/// Builds the claims of a Canton v2 token.
#[derive(Debug)]
pub struct DamlCantonTokenBuilder {
    claims: DamlCantonClaims,
}

impl DamlCantonTokenBuilder {
    pub closed spec fn spec_claims(&self) -> DamlCantonClaims {
        self.claims
    }

    /// A builder whose token was issued at `now` and expires `duration_secs`
    /// later.
    pub fn new_at(now: i64, duration_secs: i64) -> (builder: Self)
        requires
            -MAX_SPAN_SECS <= duration_secs <= MAX_SPAN_SECS,
            MIN_UTC_TIMESTAMP <= now + duration_secs <= MAX_UTC_TIMESTAMP,
        ensures
            builder.spec_claims().iat == Some(now),
            builder.spec_claims().exp == now + duration_secs,
            builder.spec_claims().iss is None,
            builder.spec_claims().sub is None,
            builder.spec_claims().aud is None,
            builder.spec_claims().scope is None,
    {
        DamlCantonTokenBuilder {
            claims: DamlCantonClaims { iss: None, sub: None, aud: None, scope: None, iat: Some(now), exp: now + duration_secs },
        }
    }

    /// A builder whose token was issued at `now` and expires `duration_secs`
    /// later: `None` when the span is wider than a time span may be, or the
    /// expiry is not a date-time.
    pub fn new_with_duration_secs_at(now: i64, duration_secs: i64) -> (builder: Option<Self>)
        ensures
            builder is Some <==> (-MAX_SPAN_SECS <= duration_secs <= MAX_SPAN_SECS && MIN_UTC_TIMESTAMP <= now
                + duration_secs <= MAX_UTC_TIMESTAMP),
            builder matches Some(b) ==> {
                &&& b.spec_claims().iat == Some(now)
                &&& b.spec_claims().exp == now + duration_secs
                &&& b.spec_claims().iss is None
                &&& b.spec_claims().sub is None
                &&& b.spec_claims().aud is None
                &&& b.spec_claims().scope is None
            },
    {
        if duration_secs < -MAX_SPAN_SECS || duration_secs > MAX_SPAN_SECS {
            return None;
        }
        if now > MAX_UTC_TIMESTAMP - duration_secs || now < MIN_UTC_TIMESTAMP - duration_secs {
            return None;
        }
        Some(Self::new_at(now, duration_secs))
    }

    /// A builder whose token expires `duration_secs` after the current time,
    /// at which it is issued: what [`Self::new_with_duration_secs_at`] gives
    /// for the clock's reading. `None` when the clock does not read as a
    /// date-time (before the epoch), the span is wider than a time span may
    /// be, or the expiry is not a date-time; since a date-time's timestamp
    /// lies between the epoch and the latest one, a span past the latest
    /// timestamp, or short of the earliest less the latest, never succeeds.
    pub fn new_with_duration_secs(duration_secs: i64) -> (builder: Option<Self>)
        ensures
            builder matches Some(b) ==> {
                &&& b.spec_claims().iat matches Some(now) && 0 <= now <= MAX_UTC_TIMESTAMP
                &&& b.spec_claims().exp == b.spec_claims().iat->Some_0 + duration_secs
                &&& MIN_UTC_TIMESTAMP <= b.spec_claims().exp <= MAX_UTC_TIMESTAMP
                &&& b.spec_claims().iss is None
                &&& b.spec_claims().sub is None
                &&& b.spec_claims().aud is None
                &&& b.spec_claims().scope is None
            },
            !(-MAX_SPAN_SECS <= duration_secs <= MAX_SPAN_SECS) ==> builder is None,
            duration_secs > MAX_UTC_TIMESTAMP ==> builder is None,
            duration_secs < MIN_UTC_TIMESTAMP - MAX_UTC_TIMESTAMP ==> builder is None,
    {
        match utc_now_timestamp() {
            Some(now) => Self::new_with_duration_secs_at(now, duration_secs),
            None => None,
        }
    }

    /// A builder whose token expires at `expiry_epoch_secs`, issued at `now`.
    pub fn new_with_expiry_at(now: i64, expiry_epoch_secs: i64) -> (builder: Self)
        ensures
            builder.spec_claims().iat == Some(now),
            builder.spec_claims().exp == expiry_epoch_secs,
            builder.spec_claims().iss is None,
            builder.spec_claims().sub is None,
            builder.spec_claims().aud is None,
            builder.spec_claims().scope is None,
    {
        DamlCantonTokenBuilder {
            claims: DamlCantonClaims {
                iss: None,
                sub: None,
                aud: None,
                scope: None,
                iat: Some(now),
                exp: expiry_epoch_secs,
            },
        }
    }

    /// A builder whose token expires at `expiry_epoch_secs`, issued at the
    /// current time: what [`Self::new_with_expiry_at`] gives for the clock's
    /// reading. `None` where the clock does not read as a date-time (before
    /// the epoch).
    pub fn new_with_expiry(expiry_epoch_secs: i64) -> (builder: Option<Self>)
        ensures
            builder matches Some(b) ==> {
                &&& b.spec_claims().iat matches Some(now) && 0 <= now <= MAX_UTC_TIMESTAMP
                &&& b.spec_claims().exp == expiry_epoch_secs
                &&& b.spec_claims().iss is None
                &&& b.spec_claims().sub is None
                &&& b.spec_claims().aud is None
                &&& b.spec_claims().scope is None
            },
    {
        match utc_now_timestamp() {
            Some(now) => Some(Self::new_with_expiry_at(now, expiry_epoch_secs)),
            None => None,
        }
    }

    /// Set the issuer.
    pub fn issuer(self, iss: &str) -> (builder: Self)
        ensures
            builder.spec_claims().iss matches Some(s) && s@ == iss@,
            builder.spec_claims() == (DamlCantonClaims { iss: builder.spec_claims().iss, ..self.spec_claims() }),
    {
        let mut builder = self;
        builder.claims.iss = Some(String::from_str(iss));
        builder
    }

    /// Set the subject.
    pub fn subject(self, sub: &str) -> (builder: Self)
        ensures
            builder.spec_claims().sub matches Some(s) && s@ == sub@,
            builder.spec_claims() == (DamlCantonClaims { sub: builder.spec_claims().sub, ..self.spec_claims() }),
    {
        let mut builder = self;
        builder.claims.sub = Some(String::from_str(sub));
        builder
    }

    /// Set the audience.
    pub fn audience(self, aud: &str) -> (builder: Self)
        ensures
            builder.spec_claims().aud matches Some(s) && s@ == aud@,
            builder.spec_claims() == (DamlCantonClaims { aud: builder.spec_claims().aud, ..self.spec_claims() }),
    {
        let mut builder = self;
        builder.claims.aud = Some(String::from_str(aud));
        builder
    }

    /// Set the scope.
    pub fn scope(self, scope: &str) -> (builder: Self)
        ensures
            builder.spec_claims().scope matches Some(s) && s@ == scope@,
            builder.spec_claims() == (DamlCantonClaims { scope: builder.spec_claims().scope, ..self.spec_claims() }),
    {
        let mut builder = self;
        builder.claims.scope = Some(String::from_str(scope));
        builder
    }

    pub fn claims(&self) -> (claims: &DamlCantonClaims)
        ensures
            *claims == self.spec_claims(),
    {
        &self.claims
    }

    /// The claims, to sign.
    pub fn into_claims(self) -> (claims: DamlCantonClaims)
        ensures
            claims == self.spec_claims(),
    {
        self.claims
    }
}

} // verus!
