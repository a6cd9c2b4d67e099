use zeroclaw::auth::cloudflare_access::{
    check_cloudflare_token, extract_cloudflare_jwt, has_cloudflare_access_headers,
    judge_claims, parse_rsa_public_key, validate_cloudflare_token,
    validate_cloudflare_token_at, verify_rsa_sha256,
    CloudflareAudience, CloudflareAuthResult, CloudflareClaims, FaultKind, Header,
};

const RS256: &str = "eyJhbGciOiJSUzI1NiJ9";
const KEY: &str = "-----BEGIN PUBLIC KEY-----\nAQIDBA==\n-----END PUBLIC KEY-----";

fn header(name: &str, value: &str) -> Header {
    Header { name: name.to_string(), value: value.to_string() }
}

fn claims(text: &str) -> CloudflareClaims {
    CloudflareClaims::from_json(&serde_json::from_str(text).unwrap()).unwrap()
}

fn fault_of(jwt: &str, aud: Option<&str>, now: i64) -> (FaultKind, String) {
    match check_cloudflare_token(jwt, KEY, aud, now) {
        Err(Some(fault)) => (fault.kind, fault.message),
        Err(None) => panic!("no token seen"),
        Ok(_) => panic!("token accepted"),
    }
}

#[test]
fn test_extract_jwt_from_cookie() {
    let headers =
        vec![header("cookie", "CF_Access_JWT=eyJhbGciOiJSUzI1NiJ9.test.signature")];
    let jwt = extract_cloudflare_jwt(&headers);
    assert!(jwt.is_some());
    assert!(jwt.unwrap().starts_with("eyJhbGciOiJSUzI1NiJ9"));
}

#[test]
fn test_parse_rsa_public_key_accepts_standard_pem_base64() {
    let pem = "-----BEGIN PUBLIC KEY-----\nAQIDBA==\n-----END PUBLIC KEY-----";
    let parsed = parse_rsa_public_key(pem).expect("pem parse should succeed");
    assert_eq!(parsed, vec![1, 2, 3, 4]);
}

#[test]
fn test_validate_audience_with_array_claim() {
    let claims = claims(r#"{"aud":["aud-a","aud-b"]}"#);
    let aud_ok = match &claims.aud {
        Some(CloudflareAudience::Multiple(v)) => v.iter().any(|a| a == "aud-b"),
        _ => false,
    };
    assert!(aud_ok);
    assert!(claims.aud.as_ref().unwrap().names("aud-b"));
    assert!(!claims.aud.as_ref().unwrap().names("aud-c"));
}

#[test]
fn test_parse_rsa_public_key_rejects_certificate_pem() {
    let cert = "-----BEGIN CERTIFICATE-----\nAQIDBA==\n-----END CERTIFICATE-----";
    let err = parse_rsa_public_key(cert).expect_err("certificate pem should be rejected");
    assert!(err.contains("expected a PUBLIC KEY PEM"));
}

#[test]
fn key_text_without_pem_frame_is_decoded_or_taken_as_it_is() {
    assert_eq!(parse_rsa_public_key("  AQIDBA==  ").unwrap(), vec![1, 2, 3, 4]);
    assert_eq!(parse_rsa_public_key("-_8").unwrap(), vec![0xfb, 0xff]);
    assert_eq!(parse_rsa_public_key("!!").unwrap(), b"!!".to_vec());
    assert_eq!(
        parse_rsa_public_key("-----BEGIN PUBLIC KEY-----\nAQ ID\r\nBA==\n-----END PUBLIC KEY-----\n")
            .unwrap(),
        vec![1, 2, 3, 4]
    );
    assert!(parse_rsa_public_key("-----BEGIN PUBLIC KEY-----\n!!\n-----END PUBLIC KEY-----").is_err());
    assert!(parse_rsa_public_key("-----END PUBLIC KEY----- -----BEGIN PUBLIC KEY-----").is_err());
}

#[test]
fn header_and_cookie_carry_the_token() {
    assert_eq!(extract_cloudflare_jwt(&vec![]), None);
    let by_header = vec![
        header("Cookie", "CF_Access_JWT=from.the.cookie"),
        header("CF-Access-JWT-Assertion", "from.the.header"),
    ];
    assert_eq!(extract_cloudflare_jwt(&by_header), Some("from.the.header".to_string()));
    let among = vec![header("cookie", "a=b; CF_Access_JWT=x.y.z ; c=d")];
    assert_eq!(extract_cloudflare_jwt(&among), Some("x.y.z".to_string()));
    let other = vec![header("cookie", "a=b; c=d")];
    assert_eq!(extract_cloudflare_jwt(&other), None);
}

#[test]
fn signs_of_cloudflare_access() {
    assert!(!has_cloudflare_access_headers(&vec![]));
    assert!(has_cloudflare_access_headers(&vec![header("cf-access-jwt-assertion", "t")]));
    assert!(has_cloudflare_access_headers(&vec![header("Cf-Access-Client-Token", "t")]));
    assert!(has_cloudflare_access_headers(&vec![header("cookie", "x=1; CF_Authorization=abc")]));
    assert!(!has_cloudflare_access_headers(&vec![header("cookie", "x=1")]));
    assert!(!has_cloudflare_access_headers(&vec![header("authorization", "CF_Authorization")]));
}

#[test]
fn token_faults_in_the_order_they_are_looked_for() {
    assert!(matches!(validate_cloudflare_token_at("", KEY, None, 0), CloudflareAuthResult::NotPresent));
    assert!(matches!(validate_cloudflare_token("", KEY, None), CloudflareAuthResult::NotPresent));
    assert!(matches!(
        validate_cloudflare_token(&format!("{RS256}.eyJleHAiOjEwMH0.c2ln"), KEY, None),
        CloudflareAuthResult::Invalid(m) if m == "Token expired"
    ));
    assert!(check_cloudflare_token("", KEY, None, 0).unwrap_err().is_none());
    assert_eq!(fault_of("a.b", None, 0), (FaultKind::Format, "Invalid JWT format".to_string()));
    assert_eq!(fault_of("a.b.c.d", None, 0).0, FaultKind::Format);
    assert_eq!(fault_of("!!.e30.c2ln", None, 0).0, FaultKind::HeaderEncoding);
    assert!(fault_of("!!.e30.c2ln", None, 0).1.starts_with("Failed to decode header: "));
    assert_eq!(fault_of("bm90IGpzb24.e30.c2ln", None, 0).0, FaultKind::HeaderJson);
    assert_eq!(
        fault_of("eyJhbGciOiJIUzI1NiJ9.e30.c2ln", None, 0),
        (FaultKind::Algorithm, "Unsupported algorithm: HS256".to_string())
    );
    assert_eq!(fault_of(&format!("{RS256}.!!.c2ln"), None, 0).0, FaultKind::PayloadEncoding);
    assert_eq!(fault_of(&format!("{RS256}.bm90IGpzb24.c2ln"), None, 0).0, FaultKind::ClaimsJson);
    assert_eq!(fault_of(&format!("{RS256}.eyJleHAiOiJzb29uIn0.c2ln"), None, 0).0, FaultKind::ClaimsJson);
    assert_eq!(
        fault_of(&format!("{RS256}.eyJleHAiOjEwMH0.c2ln"), None, 101),
        (FaultKind::Expired, "Token expired".to_string())
    );
    assert_eq!(
        fault_of(&format!("{RS256}.eyJleHAiOjEwMH0.c2ln"), Some("tag"), 100),
        (FaultKind::MissingAudience, "Missing audience claim".to_string())
    );
    assert_eq!(
        fault_of(&format!("{RS256}.eyJhdWQiOlsiYXVkLWEiLCJhdWQtYiJdfQ.c2ln"), Some("tag"), 0),
        (FaultKind::Audience, "Invalid audience: expected tag, got aud-a,aud-b".to_string())
    );
    assert_eq!(
        fault_of(&format!("{RS256}.eyJhdWQiOiJhIn0.c2ln"), Some("tag"), 0),
        (FaultKind::Audience, "Invalid audience: expected tag, got a".to_string())
    );
    assert_eq!(
        fault_of(&format!("{RS256}.eyJpc3MiOiJodHRwczovL2V2aWwuZXhhbXBsZSJ9.c2ln"), None, 0),
        (FaultKind::Issuer, "Invalid issuer: https://evil.example".to_string())
    );
    assert_eq!(fault_of(&format!("{RS256}.e30.!!"), None, 0).0, FaultKind::SignatureEncoding);
    let good = "eyJpc3MiOiJodHRwczovL3RlYW0uY2xvdWRmbGFyZWFjY2Vzcy5jb20iLCJhdWQiOiJ0YWciLCJleHAiOjIwMCwiZW1haWwiOiJhQGIuYyIsImdyb3VwcyI6WyJnIl19";
    let (kind, message) = fault_of(&format!("{RS256}.{good}.c2ln"), Some("tag"), 200);
    assert_eq!(kind, FaultKind::Signature);
    assert!(message.starts_with("Signature verification failed: "));
    assert!(matches!(
        validate_cloudflare_token_at(&format!("{RS256}.{good}.c2ln"), KEY, Some("tag"), 200),
        CloudflareAuthResult::Invalid(_)
    ));
}

#[test]
fn claims_are_read_and_judged() {
    let c = claims(
        r#"{"iss":"https://team.cloudflareaccess.com","aud":"tag","exp":200,"iat":5,"email":"a@b.c","sub":"s","groups":["g"],"more":1}"#,
    );
    assert_eq!(c.email, Some("a@b.c".to_string()));
    assert_eq!(c.sub, Some("s".to_string()));
    assert_eq!(c.exp, Some(200));
    assert_eq!(c.iat, Some(5));
    assert_eq!(c.groups, vec!["g".to_string()]);
    assert!(matches!(&c.aud, Some(CloudflareAudience::Single(a)) if a == "tag"));
    assert!(judge_claims(&c, Some("tag"), 200).is_none());
    assert_eq!(judge_claims(&c, Some("tag"), 201).unwrap().kind, FaultKind::Expired);
    assert_eq!(judge_claims(&c, Some("other"), 0).unwrap().kind, FaultKind::Audience);
    assert!(judge_claims(&c, None, 0).is_none());
    let bare = claims("{}");
    assert!(bare.groups.is_empty());
    assert!(judge_claims(&bare, None, i64::MAX).is_none());
    assert!(CloudflareClaims::from_json(&serde_json::from_str(r#"{"aud":3}"#).unwrap()).is_none());
    assert!(CloudflareClaims::from_json(&serde_json::from_str(r#"{"groups":[1]}"#).unwrap()).is_none());
}

#[test]
fn signature_under_a_key_that_is_no_key_does_not_verify() {
    assert!(verify_rsa_sha256(KEY, b"message", b"signature").is_err());
    let err = verify_rsa_sha256("-----BEGIN CERTIFICATE-----", b"m", b"s").unwrap_err();
    assert!(err.contains("expected a PUBLIC KEY PEM"));
}
