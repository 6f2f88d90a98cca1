use daml::datetime::{MAX_UTC_TIMESTAMP, MIN_UTC_TIMESTAMP};
use daml::canton_auth::{DamlCantonClaims, DamlCantonTokenBuilder, MAX_SPAN_SECS};

#[test]
fn expiry_is_in_the_future() {
    let builder = DamlCantonTokenBuilder::new_with_duration_secs(60).expect("a builder");
    let now = chrono::Utc::now().timestamp();
    assert!(builder.claims().exp >= now);
    assert!(builder.claims().exp <= now + 60 + 1);
}

#[test]
fn a_builder_at_a_time_expires_the_span_later() {
    let builder = DamlCantonTokenBuilder::new_at(1_700_000_000, 3600);
    assert_eq!(builder.claims().iat, Some(1_700_000_000));
    assert_eq!(builder.claims().exp, 1_700_003_600);
    assert!(builder.claims().sub.is_none());
}

#[test]
fn setters_fill_their_own_claim() {
    let builder = DamlCantonTokenBuilder::new_with_expiry(1_800_000_000)
        .expect("a builder")
        .issuer("https://example.invalid")
        .subject("alice")
        .audience("https://daml.com/jwt/aud/participant/sandbox")
        .scope("daml_ledger_api");
    let claims = builder.claims();
    assert_eq!(claims.exp, 1_800_000_000);
    assert!(claims.iat.is_some());
    assert_eq!(claims.iss.as_deref(), Some("https://example.invalid"));
    assert_eq!(claims.sub.as_deref(), Some("alice"));
    assert_eq!(claims.aud.as_deref(), Some("https://daml.com/jwt/aud/participant/sandbox"));
    assert_eq!(claims.scope.as_deref(), Some("daml_ledger_api"));
}

#[test]
fn a_span_wider_than_a_time_span_builds_nothing() {
    assert!(DamlCantonTokenBuilder::new_with_duration_secs(MAX_SPAN_SECS + 1).is_none());
    assert!(DamlCantonTokenBuilder::new_with_duration_secs(-MAX_SPAN_SECS - 1).is_none());
    assert!(DamlCantonTokenBuilder::new_with_duration_secs(i64::MAX).is_none());
}

#[test]
fn default_claims_are_empty() {
    let claims = DamlCantonClaims::default();
    assert!(claims.iss.is_none() && claims.sub.is_none() && claims.aud.is_none() && claims.scope.is_none());
    assert!(claims.iat.is_none());
    assert_eq!(claims.exp, 0);
}

#[test]
fn an_expiry_must_be_a_date_time() {
    let b = DamlCantonTokenBuilder::new_with_duration_secs_at(100, 50).expect("a builder");
    assert_eq!((b.claims().iat, b.claims().exp), (Some(100), 150));
    assert!(DamlCantonTokenBuilder::new_with_duration_secs_at(MAX_UTC_TIMESTAMP, 1).is_none());
    assert!(DamlCantonTokenBuilder::new_with_duration_secs_at(MAX_UTC_TIMESTAMP, 0).is_some());
    assert!(DamlCantonTokenBuilder::new_with_duration_secs_at(0, MIN_UTC_TIMESTAMP).is_some());
    assert!(DamlCantonTokenBuilder::new_with_duration_secs_at(0, MIN_UTC_TIMESTAMP - 1).is_none());
    assert!(DamlCantonTokenBuilder::new_with_duration_secs_at(0, MAX_SPAN_SECS + 1).is_none());
    assert!(DamlCantonTokenBuilder::new_with_duration_secs(-3600).is_some());
    let at = DamlCantonTokenBuilder::new_with_expiry_at(100, 200);
    assert_eq!((at.claims().iat, at.claims().exp), (Some(100), 200));
    assert!(DamlCantonTokenBuilder::new_with_duration_secs(MAX_UTC_TIMESTAMP + 1).is_none());
}
