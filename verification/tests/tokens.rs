use petring::jwt::{
    accept_access, accept_refresh, decode_claims, generate_token, mint_pair, refresh_token,
    refresh_token_at, verify_token, verify_token_at, BotSetupResponse, Claims, TokenBlacklist,
    TokenError, TokenSecrets, TokenType, ACCESS_LIFETIME, REFRESH_LIFETIME, TOKEN_ID_LENGTH,
};

fn secrets() -> TokenSecrets {
    TokenSecrets::new("access-secret".to_string(), "refresh-secret".to_string())
}

fn shared_secret() -> TokenSecrets {
    TokenSecrets::new("one-secret".to_string(), "one-secret".to_string())
}

#[test]
fn lifetimes_are_five_minutes_and_one_day() {
    assert_eq!(ACCESS_LIFETIME, 300);
    assert_eq!(REFRESH_LIFETIME, 86400);
    assert_eq!(TokenType::Access.window(), 300);
    assert_eq!(TokenType::Refresh.window(), 86400);
    assert_eq!(TokenType::Access.name(), "access");
    assert_eq!(TokenType::Refresh.name(), "refresh");
}

#[test]
fn access_claims_hold_exact_values() {
    let claims = Claims::access("bot", 1000);
    assert_eq!(
        claims,
        Claims { sub: "bot".to_string(), exp: 1300, iat: 1000, aud: "access".to_string(), jti: None }
    );
}

#[test]
fn refresh_claims_hold_exact_values() {
    let claims = Claims::refresh("bot", 1000, "id-1");
    assert_eq!(
        claims,
        Claims {
            sub: "bot".to_string(),
            exp: 87400,
            iat: 1000,
            aud: "refresh".to_string(),
            jti: Some("id-1".to_string()),
        }
    );
}

#[test]
fn claims_issued_now_follow_the_clock() {
    let access = Claims::new("bot", TokenType::Access);
    assert_eq!(access.sub, "bot");
    assert_eq!(access.aud, "access");
    assert_eq!(access.exp - access.iat, 300);
    assert!(access.jti.is_none());
    // Well after 2020 and well before the year 3000.
    assert!(access.iat > 1_577_836_800);
    assert!(access.iat < 32_503_680_000);

    let first = Claims::new("bot", TokenType::Refresh);
    let second = Claims::new("bot", TokenType::Refresh);
    assert_eq!(first.aud, "refresh");
    assert_eq!(first.exp - first.iat, 86400);
    assert!(first.jti.is_some());
    assert_eq!(TOKEN_ID_LENGTH, 36);
    assert_eq!(first.jti.as_ref().unwrap().chars().count(), TOKEN_ID_LENGTH);
    assert_ne!(first.jti, second.jti);
}

#[test]
fn access_token_verifies_until_its_expiry() {
    let secrets = secrets();
    let claims = Claims::access("bot", 1000);
    assert_eq!(claims.exp, 1300);
    let token = generate_token(claims, &secrets).unwrap();
    let seen = verify_token_at(&token, &secrets, 1299).unwrap();
    assert_eq!(seen.exp, 1300);
    assert_eq!(seen.iat, 1000);
    assert_eq!(seen.aud, "access");
    assert!(verify_token_at(&token, &secrets, 1300).is_ok());
    assert_eq!(verify_token_at(&token, &secrets, 1301), Err(TokenError::Expired));
}

#[test]
fn token_is_three_parts_and_not_the_claims() {
    let secrets = secrets();
    let token = generate_token(Claims::access("bot", 1000), &secrets).unwrap();
    let parts: Vec<&str> = token.split('.').collect();
    assert_eq!(parts.len(), 3);
    // The header of a token signed with HS256.
    assert_eq!(parts[0], "eyJ0eXAiOiJKV1QiLCJhbGciOiJIUzI1NiJ9");
    // The payload, with the members in the order of the fields.
    assert_eq!(
        parts[1],
        "eyJzdWIiOiJib3QiLCJleHAiOjEzMDAsImlhdCI6MTAwMCwiYXVkIjoiYWNjZXNzIiwianRpIjpudWxsfQ"
    );
    assert_ne!(token, "bot");
}

#[test]
fn signing_is_repeatable_and_depends_on_the_secret() {
    let one = generate_token(Claims::access("bot", 1000), &secrets()).unwrap();
    let two = generate_token(Claims::access("bot", 1000), &secrets()).unwrap();
    assert_eq!(one, two);
    let other = TokenSecrets::new("another".to_string(), "refresh-secret".to_string());
    let three = generate_token(Claims::access("bot", 1000), &other).unwrap();
    assert_ne!(one, three);
}

#[test]
fn claims_survive_the_round_trip() {
    let secrets = secrets();
    let access = Claims::access("bot \"quoted\" \\ \u{e9}\u{1F600}", 1_700_000_000);
    let token = generate_token(access.clone(), &secrets).unwrap();
    assert_eq!(decode_claims(&token, secrets.access_secret()), Some(access));

    let refresh = Claims::refresh("bot", 1_700_000_000, "6d1a3cbe-9b70-4f0e-8f9e-0d6c6a7f2b11");
    let token = generate_token(refresh.clone(), &secrets).unwrap();
    assert_eq!(decode_claims(&token, secrets.refresh_secret()), Some(refresh));
}

#[test]
fn each_audience_is_signed_with_its_own_secret() {
    let secrets = secrets();
    let access = generate_token(Claims::access("bot", 1000), &secrets).unwrap();
    let refresh = generate_token(Claims::refresh("bot", 1000, "id"), &secrets).unwrap();
    assert!(decode_claims(&access, "access-secret").is_some());
    assert!(decode_claims(&access, "refresh-secret").is_none());
    assert!(decode_claims(&refresh, "refresh-secret").is_some());
    assert!(decode_claims(&refresh, "access-secret").is_none());
}

#[test]
fn claims_before_the_epoch_and_far_ahead_are_read_back() {
    let secrets = secrets();
    let far = Claims {
        sub: "bot".to_string(),
        exp: i64::MAX,
        iat: 0,
        aud: "access".to_string(),
        jti: None,
    };
    let token = generate_token(far.clone(), &secrets).unwrap();
    assert_eq!(decode_claims(&token, "access-secret"), Some(far));
}

#[test]
fn verify_refuses_what_is_no_token() {
    let secrets = secrets();
    assert_eq!(verify_token_at("", &secrets, 0), Err(TokenError::InvalidSignature));
    assert_eq!(verify_token_at("a.b.c", &secrets, 0), Err(TokenError::InvalidSignature));
    assert_eq!(verify_token_at("not a token", &secrets, 0), Err(TokenError::InvalidSignature));
    assert_eq!(verify_token("a.b.c", &secrets), Err(TokenError::InvalidSignature));
}

#[test]
fn verify_refuses_a_tampered_token() {
    let secrets = secrets();
    let token = generate_token(Claims::access("bot", 1000), &secrets).unwrap();
    let other = generate_token(Claims::access("bot", 2000), &secrets).unwrap();
    let parts: Vec<&str> = token.split('.').collect();
    let other_parts: Vec<&str> = other.split('.').collect();
    let forged = format!("{}.{}.{}", parts[0], other_parts[1], parts[2]);
    assert_eq!(verify_token_at(&forged, &secrets, 1000), Err(TokenError::InvalidSignature));
}

#[test]
fn verify_refuses_a_refresh_token() {
    let secrets = secrets();
    let token = generate_token(Claims::refresh("bot", 1000, "id"), &secrets).unwrap();
    assert_eq!(verify_token_at(&token, &secrets, 1000), Err(TokenError::InvalidSignature));
}

#[test]
fn verify_checks_revocation_first() {
    let mut secrets = secrets();
    let token = generate_token(Claims::access("bot", 1000), &secrets).unwrap();
    secrets.revoke(&token);
    secrets.revoke("a.b.c");
    assert_eq!(verify_token_at(&token, &secrets, 1000), Err(TokenError::Revoked));
    // Revoked comes before the signature and before the expiry.
    assert_eq!(verify_token_at("a.b.c", &secrets, 1000), Err(TokenError::Revoked));
    assert_eq!(verify_token_at(&token, &secrets, 5000), Err(TokenError::Revoked));
}

#[test]
fn verify_with_the_clock_accepts_a_fresh_token() {
    let secrets = secrets();
    let token = generate_token(Claims::new("bot", TokenType::Access), &secrets).unwrap();
    let claims = verify_token(&token, &secrets).unwrap();
    assert_eq!(claims.sub, "bot");
    let stale = generate_token(Claims::access("bot", 1000), &secrets).unwrap();
    assert_eq!(verify_token(&stale, &secrets), Err(TokenError::Expired));
}

#[test]
fn blacklist_adds_removes_and_finds() {
    let mut blacklist = TokenBlacklist::new();
    assert!(!blacklist.contains_token("a"));
    blacklist.add_token("a");
    blacklist.add_token("b");
    blacklist.add_token("a");
    assert!(blacklist.contains_token("a"));
    assert!(blacklist.contains_token("b"));
    assert!(!blacklist.contains_token("c"));
    blacklist.remove_token("a");
    assert!(!blacklist.contains_token("a"));
    assert!(blacklist.contains_token("b"));
    blacklist.remove_token("never added");
    assert!(blacklist.contains_token("b"));
}

#[test]
fn secrets_start_with_nothing_revoked() {
    let secrets = secrets();
    assert_eq!(secrets.access_secret(), "access-secret");
    assert_eq!(secrets.refresh_secret(), "refresh-secret");
    assert!(!secrets.blacklist().contains_token("anything"));
}

#[test]
fn minted_pair_holds_both_tokens_and_expiries() {
    let secrets = secrets();
    let pair: BotSetupResponse = mint_pair(&secrets, "bot", 1000, "id-1");
    assert_eq!(pair.access_token_expires_at, 1300);
    assert_eq!(pair.refresh_token_expires_at, 87400);
    assert_eq!(
        pair.access_token,
        generate_token(Claims::access("bot", 1000), &secrets).unwrap()
    );
    assert_eq!(
        pair.refresh_token,
        generate_token(Claims::refresh("bot", 1000, "id-1"), &secrets).unwrap()
    );
}

#[test]
fn refresh_gives_a_new_pair_for_the_same_subject() {
    let secrets = secrets();
    let old = mint_pair(&secrets, "bot", 1000, "id-1");
    let new = refresh_token_at(&old.refresh_token, &secrets, 2000, "id-2").unwrap();
    assert_eq!(new.access_token_expires_at, 2300);
    assert_eq!(new.refresh_token_expires_at, 88400);
    let access = verify_token_at(&new.access_token, &secrets, 2000).unwrap();
    assert_eq!(access.sub, "bot");
    assert_eq!(access.iat, 2000);
    assert_eq!(access.exp, 2300);
    assert_eq!(access.aud, "access");
    assert_eq!(access.jti, None);
    let refresh = decode_claims(&new.refresh_token, "refresh-secret").unwrap();
    assert_eq!(refresh.sub, "bot");
    assert_eq!(refresh.iat, 2000);
    assert_eq!(refresh.exp, 88400);
    assert_eq!(refresh.aud, "refresh");
    assert_eq!(refresh.jti, Some("id-2".to_string()));
}

#[test]
fn refresh_holds_until_the_expiry_of_the_refresh_token() {
    let secrets = secrets();
    let old = mint_pair(&secrets, "bot", 1000, "id-1");
    assert!(refresh_token_at(&old.refresh_token, &secrets, 87399, "id-2").is_ok());
    assert!(refresh_token_at(&old.refresh_token, &secrets, 87400, "id-2").is_ok());
    assert_eq!(
        refresh_token_at(&old.refresh_token, &secrets, 87401, "id-2"),
        Err(TokenError::Expired)
    );
}

#[test]
fn refresh_refuses_an_access_token() {
    // Signed with the access secret, it does not verify against the refresh secret.
    let secrets = secrets();
    let old = mint_pair(&secrets, "bot", 1000, "id-1");
    assert_eq!(
        refresh_token_at(&old.access_token, &secrets, 1000, "id-2"),
        Err(TokenError::InvalidSignature)
    );
    // Where it does verify, its audience gives it away.
    let shared = shared_secret();
    let old = mint_pair(&shared, "bot", 1000, "id-1");
    assert_eq!(
        refresh_token_at(&old.access_token, &shared, 1000, "id-2"),
        Err(TokenError::InvalidFormat)
    );
    assert!(refresh_token_at(&old.refresh_token, &shared, 1000, "id-2").is_ok());
}

#[test]
fn refresh_checks_the_audience_before_the_expiry() {
    let shared = shared_secret();
    let old = mint_pair(&shared, "bot", 1000, "id-1");
    assert_eq!(
        refresh_token_at(&old.access_token, &shared, 999_999, "id-2"),
        Err(TokenError::InvalidFormat)
    );
}

#[test]
fn refresh_refuses_a_revoked_token_first() {
    let mut secrets = secrets();
    let old = mint_pair(&secrets, "bot", 1000, "id-1");
    secrets.revoke(&old.refresh_token);
    assert_eq!(
        refresh_token_at(&old.refresh_token, &secrets, 1000, "id-2"),
        Err(TokenError::Revoked)
    );
    secrets.revoke("a.b.c");
    assert_eq!(refresh_token_at("a.b.c", &secrets, 1000, "id-2"), Err(TokenError::Revoked));
    assert_eq!(refresh_token_at("x.y.z", &secrets, 1000, "id-2"), Err(TokenError::InvalidSignature));
}

#[test]
fn refresh_with_the_clock_gives_fresh_tokens() {
    let secrets = secrets();
    let first = generate_token(Claims::new("bot", TokenType::Refresh), &secrets).unwrap();
    let pair = refresh_token(&first, &secrets).unwrap();
    assert_eq!(pair.refresh_token_expires_at - pair.access_token_expires_at, 86100);
    assert!(verify_token(&pair.access_token, &secrets).is_ok());
    let claims = decode_claims(&pair.refresh_token, "refresh-secret").unwrap();
    assert!(claims.jti.is_some());
    let stale = generate_token(Claims::refresh("bot", 1000, "id"), &secrets).unwrap();
    assert_eq!(refresh_token(&stale, &secrets), Err(TokenError::Expired));
}

#[test]
fn another_audience_is_not_signed() {
    let secrets = secrets();
    for aud in ["else", "", "Access", "access ", "refresh-token"] {
        let odd = Claims {
            sub: "bot".to_string(),
            exp: 2000,
            iat: 1000,
            aud: aud.to_string(),
            jti: None,
        };
        assert_eq!(generate_token(odd, &secrets), Err(TokenError::InvalidFormat));
    }
}

fn claims(aud: &str, exp: i64) -> Claims {
    Claims { sub: "bot".to_string(), exp, iat: 1000, aud: aud.to_string(), jti: None }
}

#[test]
fn access_token_is_accepted_by_what_was_found_in_it() {
    assert_eq!(accept_access(false, Some(claims("access", 1300)), 1299), Ok(claims("access", 1300)));
    assert_eq!(accept_access(false, Some(claims("access", 1300)), 1300), Ok(claims("access", 1300)));
    assert_eq!(accept_access(false, Some(claims("access", 1300)), 1301), Err(TokenError::Expired));
    assert_eq!(accept_access(false, None, 0), Err(TokenError::InvalidSignature));
    assert_eq!(accept_access(true, Some(claims("access", 1300)), 0), Err(TokenError::Revoked));
    assert_eq!(accept_access(true, None, 0), Err(TokenError::Revoked));
    // The audience is not looked at here.
    assert_eq!(accept_access(false, Some(claims("refresh", 1300)), 0), Ok(claims("refresh", 1300)));
    assert_eq!(accept_access(false, Some(claims("access", i64::MIN)), i64::MIN), Ok(claims("access", i64::MIN)));
}

#[test]
fn refresh_token_is_accepted_by_what_was_found_in_it() {
    assert_eq!(accept_refresh(false, Some(claims("refresh", 87400)), 87400), Ok(claims("refresh", 87400)));
    assert_eq!(accept_refresh(false, Some(claims("refresh", 87400)), 87401), Err(TokenError::Expired));
    assert_eq!(accept_refresh(false, Some(claims("access", 87400)), 0), Err(TokenError::InvalidFormat));
    assert_eq!(accept_refresh(false, Some(claims("access", 0)), 5), Err(TokenError::InvalidFormat));
    assert_eq!(accept_refresh(false, Some(claims("", 87400)), 0), Err(TokenError::InvalidFormat));
    assert_eq!(accept_refresh(false, None, 0), Err(TokenError::InvalidSignature));
    assert_eq!(accept_refresh(true, Some(claims("refresh", 87400)), 0), Err(TokenError::Revoked));
    assert_eq!(accept_refresh(true, None, 0), Err(TokenError::Revoked));
}

#[test]
fn payload_with_another_audience_is_read() {
    let secrets = secrets();
    // Signed with the access secret by other means: the claims are read as they stand.
    let odd = Claims {
        sub: "bot".to_string(),
        exp: 2000,
        iat: 1000,
        aud: "else".to_string(),
        jti: None,
    };
    // Signed with the access secret, as every audience but `refresh` is.
    let token = sign_as_access(odd.clone(), &secrets);
    assert_eq!(verify_token_at(&token, &secrets, 1500), Ok(odd));
}

fn sign_as_access(claims: Claims, secrets: &TokenSecrets) -> String {
    let mut stand_in = claims.clone();
    stand_in.aud = "access".to_string();
    let signed = generate_token(stand_in, secrets).unwrap();
    let mut payload = serde_json::Map::new();
    payload.insert("sub".to_string(), serde_json::Value::from(claims.sub));
    payload.insert("exp".to_string(), serde_json::Value::from(claims.exp));
    payload.insert("iat".to_string(), serde_json::Value::from(claims.iat));
    payload.insert("aud".to_string(), serde_json::Value::from(claims.aud));
    payload.insert("jti".to_string(), serde_json::Value::Null);
    let token = jsonwebtoken::encode(
        &jsonwebtoken::Header::new(jsonwebtoken::Algorithm::HS256),
        &payload,
        &jsonwebtoken::EncodingKey::from_secret(secrets.access_secret().as_bytes()),
    )
    .unwrap();
    assert_ne!(token, signed);
    token
}

fn sign_payload(payload: serde_json::Value, secret: &str) -> String {
    jsonwebtoken::encode(
        &jsonwebtoken::Header::new(jsonwebtoken::Algorithm::HS256),
        &payload,
        &jsonwebtoken::EncodingKey::from_secret(secret.as_bytes()),
    )
    .unwrap()
}

fn object(members: Vec<(&str, serde_json::Value)>) -> serde_json::Value {
    let mut map = serde_json::Map::new();
    for (name, value) in members {
        map.insert(name.to_string(), value);
    }
    serde_json::Value::Object(map)
}

#[test]
fn claims_are_read_member_by_member() {
    let text = |s: &str| serde_json::Value::from(s);
    let number = |n: i64| serde_json::Value::from(n);

    // All five members.
    let full = object(vec![
        ("sub", text("bot")),
        ("exp", number(2000)),
        ("iat", number(1000)),
        ("aud", text("access")),
        ("jti", text("id")),
    ]);
    assert_eq!(
        decode_claims(&sign_payload(full, "s"), "s"),
        Some(Claims {
            sub: "bot".to_string(),
            exp: 2000,
            iat: 1000,
            aud: "access".to_string(),
            jti: Some("id".to_string()),
        })
    );

    // `jti` missing, further members ignored.
    let lean = object(vec![
        ("extra", number(1)),
        ("aud", text("access")),
        ("iat", number(1000)),
        ("exp", number(2000)),
        ("sub", text("bot")),
    ]);
    assert_eq!(
        decode_claims(&sign_payload(lean, "s"), "s"),
        Some(Claims { sub: "bot".to_string(), exp: 2000, iat: 1000, aud: "access".to_string(), jti: None })
    );

    // `sub` missing.
    let no_sub =
        object(vec![("exp", number(2000)), ("iat", number(1000)), ("aud", text("access"))]);
    assert_eq!(decode_claims(&sign_payload(no_sub, "s"), "s"), None);

    // `iat` a string.
    let odd_iat = object(vec![
        ("sub", text("bot")),
        ("exp", number(2000)),
        ("iat", text("1000")),
        ("aud", text("access")),
    ]);
    assert_eq!(decode_claims(&sign_payload(odd_iat, "s"), "s"), None);

    // `jti` a number.
    let odd_jti = object(vec![
        ("sub", text("bot")),
        ("exp", number(2000)),
        ("iat", number(1000)),
        ("aud", text("access")),
        ("jti", number(7)),
    ]);
    assert_eq!(decode_claims(&sign_payload(odd_jti, "s"), "s"), None);

    // `aud` missing.
    let no_aud = object(vec![("sub", text("bot")), ("exp", number(2000)), ("iat", number(1000))]);
    assert_eq!(decode_claims(&sign_payload(no_aud, "s"), "s"), None);

    // Not an object at all.
    assert_eq!(decode_claims(&sign_payload(serde_json::Value::from(5), "s"), "s"), None);
}
