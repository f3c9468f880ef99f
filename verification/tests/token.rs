use rust_flutter_application::utils::error::AuthError;
use rust_flutter_application::utils::token::{
    issue, issue_with, parse, settle, verify, IssueError, ParsedToken, TokenClaims, TokenError,
    TokenKind,
};

const ACCESS_PRIVATE: [&str; 26] = [
    "MIIEvQIBADANBgkqhkiG9w0BAQEFAASCBKcwggSjAgEAAoIBAQDM9as+soDTknSE",
    "AWWyFq/sSI16HKecm4uQuLEKQbjxr/lguJCxZdsXrZhvL0bG1SLr0OejWagEKVOM",
    "hDIxEqMaTeT2Pm4lZ551h2xHvlTEiwjP85/JvU6loJ3OGNb0nsxYNibm7pMhwefv",
    "S6qDLyfQgi+1fXltCZsdXplwAI/8RD63gaXOOteEMJhuiaZYvuCjiCyPr2JQ6lHX",
    "8aJ19tlcpqdVtfw6VgygCIYFd7flQjWOY89Ma3fFmiMBmBvzVZjNku1wRQyXdSMt",
    "+wRVLvqQ6jGw7I+dWFoJbVYrmPiZ/benZrBez1aOaXpCDto5OC0SmrUbXSQvRywU",
    "DNy6XUHJAgMBAAECggEABdQZdeB7CmLSHmwXWY+mNBV1Thr6tAwcu9WMvB2ijHj0",
    "VTxNnRKoJUDu1bNl+cLw42NFWxKL7rmQImEi0Xait117HK32aujkWDPgL+m2AzRv",
    "xtFT4qRLOsMmo0hDwKDnCPEm43VQYmrfVVSoOWMBzyU/0kaKfL/Qe4huDs6gfMxI",
    "KRI2je3Z4bwfzDxZHFb142QylJ91FLGGqkhjXQkHx4T7eu8qQV4CBBGCtQNRUGXV",
    "7ReYJSGJy8Mn95kZu0vTBjb4E913bEXiYBDRKV4zD2GvVO2LPe60D1v209g2pRPi",
    "pVWBlAp8gXWbHohjkEIK4LjjEhv8YV3aSyoly5L9yQKBgQD4SxP7Ygkavvds+ukI",
    "P5N1IaC9hssS/mJzraemVsnugicsxZLXvKow/sTOYAD2x3UgiodGiSTUEM+Wodi4",
    "liAUi1UpbQaJUFP0FIXZE1KXguGsglao8x0PVceONEJA8eLge98BZvh4cgshOEgw",
    "xHwYSlCe680Wc9MDGiimFGptnQKBgQDTUkPEXUau97BhiUhwZmJf0xmkoVgCNu8W",
    "MY/Tn963NmzhTpGODGwOVUzXbbEdi2wWjLmuOz/dJovr3Cx9cw42/Nxuv3bRnAgU",
    "20oBoAqCSxkOg499i7QoLJ5E76eVWFXHaXyKssPnxlZwUMpmD2cMuWB2uUXy3vUC",
    "ouGYaz4DHQKBgQDsBKoM5mbTJr4ZuPS044Iu8HVUU4JMHsXFQkg/5PX0o4HLnE92",
    "hZ+eDT9VEYs5CeZ7tVLbqNf6QbSiclyJMiNyg/PC+iEhe9siBDQrYaO75CzTB96K",
    "oPZ5skeMFH76LzRDwVv9gD0mePm9bTuqJ8vyZwn11x3PfvARXddP784vPQKBgDoL",
    "IYQBHtYWQIM54wTEiobJhASdMIBDOH5/FINLKTBnqZZlL0O2E8QIF/ggMALudbzn",
    "4GSD77G90bbyHeJDRQdDgwSEYI2IbwvTg8tYeyp4mCRNbI9OXSifwMUsknpJ7h28",
    "0rGCEp9J8hodhsprtqFfFajmkNj59pBHzvE/m6PdAoGAGvNqgm5wDl2K6eke5gvw",
    "u6EESNqdz102E3KWlRB/dwKP5ZBCevatijRnYtj7JW156w0HBTGfLvDymCj0KdgE",
    "aASig8dCSJphgSgN5/YxIHsTRdTFj1XI7jUv+UjfUtenEKr3VxF3KUDxCGfQ381U",
    "DJGmePGyeW2qk72H1fIpLFY=",
];

const ACCESS_PUBLIC: [&str; 7] = [
    "MIIBIjANBgkqhkiG9w0BAQEFAAOCAQ8AMIIBCgKCAQEAzPWrPrKA05J0hAFlshav",
    "7EiNehynnJuLkLixCkG48a/5YLiQsWXbF62Yby9GxtUi69Dno1moBClTjIQyMRKj",
    "Gk3k9j5uJWeedYdsR75UxIsIz/Ofyb1OpaCdzhjW9J7MWDYm5u6TIcHn70uqgy8n",
    "0IIvtX15bQmbHV6ZcACP/EQ+t4GlzjrXhDCYbommWL7go4gsj69iUOpR1/GidfbZ",
    "XKanVbX8OlYMoAiGBXe35UI1jmPPTGt3xZojAZgb81WYzZLtcEUMl3UjLfsEVS76",
    "kOoxsOyPnVhaCW1WK5j4mf23p2awXs9Wjml6Qg7aOTgtEpq1G10kL0csFAzcul1B",
    "yQIDAQAB",
];

const REFRESH_PRIVATE: [&str; 26] = [
    "MIIEvQIBADANBgkqhkiG9w0BAQEFAASCBKcwggSjAgEAAoIBAQCmuMth2cCZ4run",
    "5TZN9AbzYiUIkdMJVbDJJZaMbGRPy7TvcngaZJ1zxa9JwkiiewUSy4ZOHoXWVIdQ",
    "3FO3wSOZ00t94VNYhJI9Uo5aWlHbfbGh7Snr89wbe3/iXAYnDVJbu57GPdpylQcL",
    "47RYg4jboKRacdrBF7WBztTx7usakd+3LPFXIAsocnnBYIZL8PJd1xHJvzVqyawp",
    "ZsVssIoiN9gXIQaZ6RNkwUUuSZ1/EYUerYJsEW+30w2zf2pkUtUIjVJgRBbKjYUN",
    "6dr6/ZU6GvZQBWQAFbFaihQrvGMqi4h3rQjWh2uuw5uJ2e43FbHOX5oEDYd4B71K",
    "WBiP2D9BAgMBAAECggEABF/R2kHj10XHJasSZy4xZn5bOWPWFScd6dEmJ44Kfbt7",
    "BlNLCmo8ZVa4+Cb0T+sJYYpcfj03xr1WBY2aVrZnEDimgOmCDc8ApUI+wOkgv7EH",
    "EZgO4wV1b3UokFBYyvqDACwmiM4DpsD5O9sgFrhwxU5sMYFOO4W7Oeoq1SQvH/XL",
    "/YvD7mvZneGsbqY2SeFd+VrORPwq1NKDvDeyAhDaNmfRvE0vL2p3ykhj9YNZLON8",
    "knAgDhl1MHJaAxNw1gu7BeXcNo0oZ00Nu3ksIYftrm5+WcrArMgrtpZ9GVcQSt+K",
    "RoEAfUK8/AcEkM3J8z4J7W8sLuHDuWIu3YRCaWsM6QKBgQDZQuY6DWnV3iEIbZ3x",
    "HCNKo+UKNfvRujPmiuCZ6z67zrekhEmV0KVlfBOs01pPENCdO6avxgy9HmXTpyXW",
    "gkgTOTLHa2B+yPDzbI+LFTVts9SqARxVghzMhRPFJ6EV+28F8vY+03Okh/dQeMaA",
    "YDU7s19WNr+SOEso3kfuWNlF5QKBgQDEcvkA9LvJGBopS5/nIbYBPrSGAgTGeTl1",
    "HWFv86gbHC/cA45XnEeYD4JPMd9ZHWMneFMM+ekcndAD3dTwMN1DikpfbBZLVscR",
    "vOjskGPaDZS3T5CgY8rQ63dlvu1tM+aEvrxylH/nMhzS30wKTuBJhRBAhLuqyWP1",
    "dmRLBDu+LQKBgQCEkGFRwqV1LVgSgHACkhymimJSXKYOTgMlBFAPGo7ooTVEWMNd",
    "ejWxOof2x+8ulx/zEFagocNcEZQoFLDttgisUhY9v7LdKVZ78R2Uy5gSG8wC/zJ+",
    "qilQUVLC1W9grk4L3zeJFhRVq/CnVUopQoq4prXhMP6rBVY21YomUGgiUQKBgEnn",
    "cvPAHjE95wGoGKTsUrtPKrzLX56HFm2PuwtR3+krBno/wDoHaguzsfM3MO4mlxnP",
    "M3dLQT5pxErgFm6yA1uYV/hkAlMfd06eAgaVH2t19n+r6B3ezPshyk41sL6Hau5/",
    "jweQBDom6R8PsFykZc5ix8Vt6egLUZaTjpGGKy+VAoGAWyAMNdWjYVg1HCVX08cC",
    "NcTKhdUXm1upJ/ph9RJ+UphcVMcoBdRi+FxZnp5uXM2Vd/ggAPdwI6WaZwOhH6tq",
    "TP2jqykMYm5sblcSrrZcomInaZ00T3MoQmKELL+sJxi+yS6r+snBzxE4AsbhPohj",
    "xU5BadT3EzJWiJkRKZl37EY=",
];

const REFRESH_PUBLIC: [&str; 7] = [
    "MIIBIjANBgkqhkiG9w0BAQEFAAOCAQ8AMIIBCgKCAQEAprjLYdnAmeK7p+U2TfQG",
    "82IlCJHTCVWwySWWjGxkT8u073J4GmSdc8WvScJIonsFEsuGTh6F1lSHUNxTt8Ej",
    "mdNLfeFTWISSPVKOWlpR232xoe0p6/PcG3t/4lwGJw1SW7uexj3acpUHC+O0WIOI",
    "26CkWnHawRe1gc7U8e7rGpHftyzxVyALKHJ5wWCGS/DyXdcRyb81asmsKWbFbLCK",
    "IjfYFyEGmekTZMFFLkmdfxGFHq2CbBFvt9MNs39qZFLVCI1SYEQWyo2FDena+v2V",
    "Ohr2UAVkABWxWooUK7xjKouId60I1odrrsObidnuNxWxzl+aBA2HeAe9SlgYj9g/",
    "QQIDAQAB",
];

fn pem(label: &str, body: &[&str]) -> String {
    format!("-----BEGIN {}-----\n{}\n-----END {}-----\n", label, body.join("\n"), label)
}

fn access_private() -> String {
    pem("PRIVATE KEY", &ACCESS_PRIVATE)
}

fn access_public() -> String {
    pem("PUBLIC KEY", &ACCESS_PUBLIC)
}

fn refresh_private() -> String {
    pem("PRIVATE KEY", &REFRESH_PRIVATE)
}

fn refresh_public() -> String {
    pem("PUBLIC KEY", &REFRESH_PUBLIC)
}

const SIGNED: &str =
    "RS256.a.00f1536500000000.84f4536500000000.0f0e0d0c0b0a09080706050403020100.7531";
const SESSION: u128 = 0x0001_0203_0405_0607_0809_0a0b_0c0d_0e0f;
const ISSUED_AT: i64 = 1_700_000_000;
const EXPIRES_AT: i64 = 1_700_000_900;

fn sample_claims() -> TokenClaims {
    TokenClaims {
        subject_id: "u1".to_string(),
        session_id: SESSION,
        issued_at: ISSUED_AT,
        expires_at: EXPIRES_AT,
        kind: TokenKind::Access,
    }
}

fn assert_claims(claims: &TokenClaims, subject: &str, session: u128, kind: TokenKind) {
    assert_eq!(claims.subject_id, subject);
    assert_eq!(claims.session_id, session);
    assert_eq!(claims.kind, kind);
}

#[test]
fn issued_token_has_the_written_form() {
    let issued =
        issue_with("u1", 15, TokenKind::Access, &access_private(), ISSUED_AT, SESSION).unwrap();
    assert_eq!(issued.token, format!("{}.{}", SIGNED, issued.signature));
    assert_eq!(issued.claims.subject_id, "u1");
    assert_eq!(issued.claims.session_id, SESSION);
    assert_eq!(issued.claims.issued_at, ISSUED_AT);
    assert_eq!(issued.claims.expires_at, EXPIRES_AT);
    assert_eq!(issued.claims.kind, TokenKind::Access);
}

#[test]
fn signature_is_unpadded_url_safe_base64_of_an_rsa_2048_signature() {
    let issued =
        issue_with("u1", 15, TokenKind::Access, &access_private(), ISSUED_AT, SESSION).unwrap();
    assert_eq!(issued.signature.len(), 342);
    assert!(issued
        .signature
        .chars()
        .all(|c| c.is_ascii_alphanumeric() || c == '-' || c == '_'));
    assert_ne!(issued.signature, SIGNED);
}

#[test]
fn signing_is_determined_by_message_and_key() {
    let a = issue_with("u1", 15, TokenKind::Access, &access_private(), ISSUED_AT, SESSION).unwrap();
    let b = issue_with("u1", 15, TokenKind::Access, &access_private(), ISSUED_AT, SESSION).unwrap();
    let c = issue_with("u1", 15, TokenKind::Access, &refresh_private(), ISSUED_AT, SESSION).unwrap();
    let d = issue_with("u2", 15, TokenKind::Access, &access_private(), ISSUED_AT, SESSION).unwrap();
    assert_eq!(a.signature, b.signature);
    assert_ne!(a.signature, c.signature);
    assert_ne!(a.signature, d.signature);
}

#[test]
fn refresh_token_is_tagged_as_refresh() {
    let issued =
        issue_with("u1", 15, TokenKind::Refresh, &refresh_private(), ISSUED_AT, SESSION).unwrap();
    assert!(issued.token.starts_with("RS256.r.00f1536500000000.84f4536500000000."));
    assert_eq!(issued.claims.kind, TokenKind::Refresh);
}

#[test]
fn parse_reads_every_field() {
    let token = format!("{}.c2ln", SIGNED);
    let parsed: ParsedToken = parse(&token).unwrap();
    assert_eq!(parsed.signed_len, 79);
    assert_eq!(parsed.claims.subject_id, "u1");
    assert_eq!(parsed.claims.session_id, SESSION);
    assert_eq!(parsed.claims.issued_at, ISSUED_AT);
    assert_eq!(parsed.claims.expires_at, EXPIRES_AT);
    assert_eq!(parsed.claims.kind, TokenKind::Access);
}

#[test]
fn parse_takes_an_empty_subject_and_an_empty_signature() {
    let token = "RS256.r.00f1536500000000.84f4536500000000.0f0e0d0c0b0a09080706050403020100..";
    let parsed = parse(token).unwrap();
    assert_eq!(parsed.signed_len, 75);
    assert_eq!(parsed.claims.subject_id, "");
    assert_eq!(parsed.claims.kind, TokenKind::Refresh);
}

#[test]
fn parse_reads_a_subject_beyond_ascii() {
    let issued =
        issue_with("zo\u{e9}-\u{1f600}", 1, TokenKind::Access, &access_private(), 0, 7).unwrap();
    assert!(issued.token.starts_with(
        "RS256.a.0000000000000000.3c00000000000000.07000000000000000000000000000000.7a6fc3a92df09f9880."
    ));
    let parsed = parse(&issued.token).unwrap();
    assert_eq!(parsed.claims.subject_id, "zo\u{e9}-\u{1f600}");
    assert_eq!(parsed.claims.expires_at, 60);
}

#[test]
fn parse_refuses_what_is_not_written_as_tokens_are() {
    let cases = [
        "",
        "garbage",
        "RS256",
        // no signature part
        "RS256.a.00f1536500000000.84f4536500000000.0f0e0d0c0b0a09080706050403020100.7531",
        // another algorithm
        "HS256.a.00f1536500000000.84f4536500000000.0f0e0d0c0b0a09080706050403020100.7531.c2ln",
        "none..a.00f1536500000000.84f4536500000000.0f0e0d0c0b0a09080706050403020100.7531.c2ln",
        "rs256.a.00f1536500000000.84f4536500000000.0f0e0d0c0b0a09080706050403020100.7531.c2ln",
        // an unknown kind
        "RS256.x.00f1536500000000.84f4536500000000.0f0e0d0c0b0a09080706050403020100.7531.c2ln",
        // capital digits
        "RS256.a.00F1536500000000.84f4536500000000.0f0e0d0c0b0a09080706050403020100.7531.c2ln",
        // a field that is no digit
        "RS256.a.00f15365000000g0.84f4536500000000.0f0e0d0c0b0a09080706050403020100.7531.c2ln",
        // a session id that is too short
        "RS256.a.00f1536500000000.84f4536500000000.0f0e0d0c0b0a090807060504030201.7531.c2ln",
        // half a byte of subject
        "RS256.a.00f1536500000000.84f4536500000000.0f0e0d0c0b0a09080706050403020100.753.c2ln",
        // a subject that is no UTF-8
        "RS256.a.00f1536500000000.84f4536500000000.0f0e0d0c0b0a09080706050403020100.ff.c2ln",
        // expiry not after issue
        "RS256.a.00f1536500000000.00f1536500000000.0f0e0d0c0b0a09080706050403020100.7531.c2ln",
        "RS256.a.84f4536500000000.00f1536500000000.0f0e0d0c0b0a09080706050403020100.7531.c2ln",
        // a timestamp beyond the range
        "RS256.a.00f1536500000000.ffffffffffffffff.0f0e0d0c0b0a09080706050403020100.7531.c2ln",
        // a signature beyond ASCII
        "RS256.a.00f1536500000000.84f4536500000000.0f0e0d0c0b0a09080706050403020100.7531.\u{e9}",
    ];
    for case in cases {
        assert!(parse(case).is_none(), "{}", case);
        assert_eq!(
            verify(case, TokenKind::Access, &access_public(), ISSUED_AT).unwrap_err(),
            TokenError::Malformed,
            "{}",
            case
        );
    }
}

#[test]
fn a_json_web_token_of_another_algorithm_is_malformed() {
    let mut claims = std::collections::BTreeMap::new();
    claims.insert("sub".to_string(), "u1".to_string());
    let foreign = jsonwebtoken::encode(
        &jsonwebtoken::Header::new(jsonwebtoken::Algorithm::HS256),
        &claims,
        &jsonwebtoken::EncodingKey::from_secret(b"secret"),
    )
    .unwrap();
    let outcome = verify(&foreign, TokenKind::Access, &access_public(), ISSUED_AT);
    assert_eq!(outcome.unwrap_err(), TokenError::Malformed);
    let error = AuthError::from_token_error(TokenError::Malformed);
    assert_eq!(error, AuthError::Malformed);
    assert_eq!(error.status_code(), 401);
}

#[test]
fn a_token_signed_with_another_key_is_unauthorized() {
    let forged =
        issue_with("u1", 15, TokenKind::Access, &refresh_private(), ISSUED_AT, SESSION).unwrap();
    let outcome = verify(&forged.token, TokenKind::Access, &access_public(), ISSUED_AT);
    assert_eq!(outcome.unwrap_err(), TokenError::InvalidSignature);
    let error = AuthError::from_token_error(TokenError::InvalidSignature);
    assert_eq!(error, AuthError::Malformed);
    assert_eq!(error.status_code(), 401);
}

#[test]
fn issued_token_verifies_within_its_lifetime() {
    let issued = issue("u1", 15, TokenKind::Access, &access_private(), ISSUED_AT).unwrap();
    for now in [ISSUED_AT, ISSUED_AT + 1, EXPIRES_AT - 1, EXPIRES_AT, 0] {
        let claims = verify(&issued.token, TokenKind::Access, &access_public(), now).unwrap();
        assert_claims(&claims, "u1", issued.claims.session_id, TokenKind::Access);
        assert_eq!(claims.issued_at, ISSUED_AT);
        assert_eq!(claims.expires_at, EXPIRES_AT);
    }
}

#[test]
fn refresh_token_verifies_with_the_refresh_key() {
    let issued = issue("u9", 60 * 24, TokenKind::Refresh, &refresh_private(), ISSUED_AT).unwrap();
    let claims =
        verify(&issued.token, TokenKind::Refresh, &refresh_public(), ISSUED_AT + 86_400).unwrap();
    assert_claims(&claims, "u9", issued.claims.session_id, TokenKind::Refresh);
    assert_eq!(claims.expires_at, ISSUED_AT + 86_400);
}

#[test]
fn token_is_expired_after_its_expiry_whatever_the_signature() {
    let issued = issue("u1", 15, TokenKind::Access, &access_private(), ISSUED_AT).unwrap();
    let after = EXPIRES_AT + 1;
    assert_eq!(
        verify(&issued.token, TokenKind::Access, &access_public(), after).unwrap_err(),
        TokenError::Expired
    );
    // the wrong key
    assert_eq!(
        verify(&issued.token, TokenKind::Access, &refresh_public(), after).unwrap_err(),
        TokenError::Expired
    );
    // no key at all
    assert_eq!(
        verify(&issued.token, TokenKind::Access, "", after).unwrap_err(),
        TokenError::Expired
    );
    // the other kind
    assert_eq!(
        verify(&issued.token, TokenKind::Refresh, &refresh_public(), after).unwrap_err(),
        TokenError::Expired
    );
    // a signature that was tampered with
    let tampered = format!("{}.AAAA", SIGNED);
    assert_eq!(
        verify(&tampered, TokenKind::Access, &access_public(), after).unwrap_err(),
        TokenError::Expired
    );
    assert_eq!(
        verify(&issued.token, TokenKind::Access, &access_public(), i64::MAX).unwrap_err(),
        TokenError::Expired
    );
}

#[test]
fn token_of_the_other_kind_has_an_invalid_signature() {
    let issued = issue("u1", 15, TokenKind::Access, &access_private(), ISSUED_AT).unwrap();
    assert_eq!(
        verify(&issued.token, TokenKind::Refresh, &access_public(), ISSUED_AT).unwrap_err(),
        TokenError::InvalidSignature
    );
    assert_eq!(
        verify(&issued.token, TokenKind::Refresh, &refresh_public(), ISSUED_AT).unwrap_err(),
        TokenError::InvalidSignature
    );
}

#[test]
fn tampered_token_has_an_invalid_signature() {
    let issued =
        issue_with("u1", 15, TokenKind::Access, &access_private(), ISSUED_AT, SESSION).unwrap();
    // another subject under the same signature
    let other_subject = format!(
        "RS256.a.00f1536500000000.84f4536500000000.0f0e0d0c0b0a09080706050403020100.7532.{}",
        issued.signature
    );
    // a later expiry under the same signature
    let later = format!(
        "RS256.a.00f1536500000000.85f4536500000000.0f0e0d0c0b0a09080706050403020100.7531.{}",
        issued.signature
    );
    // a signature that is no base64
    let no_base64 = format!("{}.!!!", SIGNED);
    // no signature
    let empty = format!("{}.", SIGNED);
    for token in [other_subject, later, no_base64, empty] {
        assert!(parse(&token).is_some());
        assert_eq!(
            verify(&token, TokenKind::Access, &access_public(), ISSUED_AT).unwrap_err(),
            TokenError::InvalidSignature
        );
    }
}

#[test]
fn key_that_is_no_key_accepts_nothing() {
    let issued = issue("u1", 15, TokenKind::Access, &access_private(), ISSUED_AT).unwrap();
    for key in ["", "not a key", "-----BEGIN PUBLIC KEY-----\nAAAA\n-----END PUBLIC KEY-----\n"] {
        assert_eq!(
            verify(&issued.token, TokenKind::Access, key, ISSUED_AT).unwrap_err(),
            TokenError::InvalidSignature
        );
    }
}

#[test]
fn issue_refuses_a_lifetime_that_does_not_fit() {
    let key = access_private();
    for (ttl, now) in [
        (0, ISSUED_AT),
        (-1, ISSUED_AT),
        (i64::MIN, ISSUED_AT),
        (15, -1),
        (15, i64::MIN),
        (i64::MAX, 0),
        (i64::MAX / 60 + 1, 0),
        (1, i64::MAX - 59),
        (1, i64::MAX),
    ] {
        assert_eq!(
            issue("u1", ttl, TokenKind::Access, &key, now).unwrap_err(),
            IssueError::Lifetime,
            "{} {}",
            ttl,
            now
        );
    }
    // a lifetime is judged before the key is looked at
    assert_eq!(
        issue("u1", 0, TokenKind::Access, "not a key", ISSUED_AT).unwrap_err(),
        IssueError::Lifetime
    );
}

#[test]
fn issue_takes_the_longest_lifetime_that_fits() {
    let issued = issue("u1", i64::MAX / 60, TokenKind::Access, &access_private(), 7).unwrap();
    assert_eq!(issued.claims.expires_at, i64::MAX);
    let issued = issue("u1", 1, TokenKind::Access, &access_private(), i64::MAX - 60).unwrap();
    assert_eq!(issued.claims.expires_at, i64::MAX);
    let claims =
        verify(&issued.token, TokenKind::Access, &access_public(), i64::MAX).unwrap();
    assert_eq!(claims.issued_at, i64::MAX - 60);
}

#[test]
fn issue_fails_with_a_key_that_is_no_key() {
    for key in ["", "not a key", access_public().as_str()] {
        assert_eq!(
            issue("u1", 15, TokenKind::Access, key, ISSUED_AT).unwrap_err(),
            IssueError::Signing
        );
    }
}

#[test]
fn every_issue_draws_a_session_id_of_its_own() {
    let key = access_private();
    let a = issue("u1", 15, TokenKind::Access, &key, ISSUED_AT).unwrap();
    let b = issue("u1", 15, TokenKind::Access, &key, ISSUED_AT).unwrap();
    assert_ne!(a.claims.session_id, b.claims.session_id);
    assert_ne!(a.token, b.token);
    for id in [a.claims.session_id, b.claims.session_id] {
        assert_eq!((id >> 76) & 0xf, 4);
        assert_eq!((id >> 62) & 0x3, 2);
        assert_eq!(uuid::Uuid::from_u128(id).get_version_num(), 4);
    }
}

#[test]
fn settle_goes_by_reading_then_expiry_then_signature() {
    let parsed = || Some(ParsedToken { claims: sample_claims(), signed_len: 79 });
    assert_eq!(
        settle(None, TokenKind::Access, 0, true).unwrap_err(),
        TokenError::Malformed
    );
    assert_eq!(
        settle(parsed(), TokenKind::Access, EXPIRES_AT + 1, true).unwrap_err(),
        TokenError::Expired
    );
    assert_eq!(
        settle(parsed(), TokenKind::Refresh, EXPIRES_AT + 1, false).unwrap_err(),
        TokenError::Expired
    );
    assert_eq!(
        settle(parsed(), TokenKind::Refresh, EXPIRES_AT, true).unwrap_err(),
        TokenError::InvalidSignature
    );
    assert_eq!(
        settle(parsed(), TokenKind::Access, EXPIRES_AT, false).unwrap_err(),
        TokenError::InvalidSignature
    );
    let claims = settle(parsed(), TokenKind::Access, EXPIRES_AT, true).unwrap();
    assert_claims(&claims, "u1", SESSION, TokenKind::Access);
}

#[test]
fn token_errors_count_as_unauthorized() {
    assert_eq!(AuthError::from_token_error(TokenError::Malformed), AuthError::Malformed);
    assert_eq!(AuthError::from_token_error(TokenError::InvalidSignature), AuthError::Malformed);
    assert_eq!(AuthError::from_token_error(TokenError::Expired), AuthError::Expired);
    for e in [TokenError::Malformed, TokenError::InvalidSignature, TokenError::Expired] {
        assert_eq!(AuthError::from_token_error(e).status_code(), 401);
    }
}
