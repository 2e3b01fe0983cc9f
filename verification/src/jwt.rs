//! Signed bearer tokens: their claims, the secrets that sign them, and the
//! set of tokens withdrawn before their time.

use crate::text::same_text;
use vstd::hash_set::StringHashSet;
use vstd::pervasive::unreached;
use vstd::prelude::*;

verus! {

/// Seconds for which an access token is valid.
pub const ACCESS_LIFETIME: i64 = 300;

/// Seconds for which a refresh token is valid.
pub const REFRESH_LIFETIME: i64 = 86400;

/// The two kinds of token.
#[derive(Debug, Clone, Copy, PartialEq, Eq, Structural)]
pub enum TokenType {
    Access,
    Refresh,
}

impl TokenType {
    /// The audience written into a token of this kind.
    pub open spec fn audience(self) -> Seq<char> {
        match self {
            TokenType::Access => "access"@,
            TokenType::Refresh => "refresh"@,
        }
    }

    /// The number of seconds between issue and expiry.
    pub open spec fn lifetime(self) -> int {
        match self {
            TokenType::Access => ACCESS_LIFETIME as int,
            TokenType::Refresh => REFRESH_LIFETIME as int,
        }
    }

    /// The audience as text.
    pub fn name(&self) -> (r: &'static str)
        ensures
            r@ == self.audience(),
    {
        match self {
            TokenType::Access => "access",
            TokenType::Refresh => "refresh",
        }
    }

    /// The lifetime in seconds.
    pub fn window(&self) -> (r: i64)
        ensures
            r == self.lifetime(),
    {
        match self {
            TokenType::Access => ACCESS_LIFETIME,
            TokenType::Refresh => REFRESH_LIFETIME,
        }
    }
}

/// Why a token operation was refused.
#[derive(Debug, Clone, Copy, PartialEq, Eq, Structural)]
pub enum TokenError {
    /// The secret offered at setup is not the bot's.
    Unauthorized,
    /// Setup has already been completed.
    AlreadyConfigured,
    /// Setup has not been completed yet.
    NotConfigured,
    /// The token has been withdrawn.
    Revoked,
    /// The token does not verify against the secret, or its payload is not
    /// a set of claims.
    InvalidSignature,
    /// The token's expiry lies in the past.
    Expired,
    /// The audience is not the one asked for: a token that verifies was
    /// issued for another use, or claims name an audience that no secret
    /// signs.
    InvalidFormat,
}

/// The payload of a token.
#[derive(Debug, Clone, PartialEq, Eq)]
pub struct Claims {
    /// The bot's shared secret, used as its identity.
    pub sub: String,
    /// Expiry, in seconds since the Unix epoch.
    pub exp: i64,
    /// Time of issue, in seconds since the Unix epoch.
    pub iat: i64,
    /// `"access"` or `"refresh"`.
    pub aud: String,
    /// Identifier of a refresh token; absent on access tokens.
    pub jti: Option<String>,
}

/// The mathematical value of a [`Claims`].
pub struct ClaimsView {
    pub sub: Seq<char>,
    pub exp: int,
    pub iat: int,
    pub aud: Seq<char>,
    pub jti: Option<Seq<char>>,
}

impl View for Claims {
    type V = ClaimsView;

    open spec fn view(&self) -> ClaimsView {
        ClaimsView {
            sub: self.sub@,
            exp: self.exp as int,
            iat: self.iat as int,
            aud: self.aud@,
            jti: match self.jti {
                Some(id) => Some(id@),
                None => None,
            },
        }
    }
}

/// The claims of a token of kind `kind` issued to `sub` at time `now`. A
/// refresh token carries `token_id`; an access token carries no identifier.
pub open spec fn issued(sub: Seq<char>, kind: TokenType, now: int, token_id: Seq<char>) -> ClaimsView {
    ClaimsView {
        sub,
        exp: now + kind.lifetime(),
        iat: now,
        aud: kind.audience(),
        jti: match kind {
            TokenType::Access => None,
            TokenType::Refresh => Some(token_id),
        },
    }
}

/// The range within which the clock reports the time.
pub open spec fn clock_range(now: int) -> bool {
    -0x1_0000_0000_0000 < now < 0x1_0000_0000_0000
}

/// Reads the clock through `chrono::Utc::now` and `DateTime::timestamp`.
/// The timestamp is a day count that fits in 32 bits, times 86400, plus the
/// seconds of the day, so it lies within 2^48 of the epoch. Which time it is
/// is not stated. `Utc::now` does not return on a machine whose clock is set
/// before 1970.
#[verifier::external_body]
pub(crate) fn unix_now() -> (now: i64)
    ensures
        clock_range(now as int),
{
    chrono::Utc::now().timestamp()
}

/// The number of characters of a token identifier: 32 hexadecimal digits in
/// five groups, with a hyphen between them.
pub const TOKEN_ID_LENGTH: usize = 36;

/// Draws a random version-4 identifier with `uuid::Uuid::new_v4` and writes
/// it out with `to_string`, which gives the hyphenated form of 36
/// characters. Which identifier it is is not stated.
#[verifier::external_body]
pub(crate) fn fresh_token_id() -> (r: String)
    ensures
        r@.len() == TOKEN_ID_LENGTH,
{
    uuid::Uuid::new_v4().to_string()
}

impl Claims {
    /// Claims of an access token issued to `bot_token` at `now`.
    pub fn access(bot_token: &str, now: i64) -> (r: Claims)
        requires
            now + ACCESS_LIFETIME <= i64::MAX,
        ensures
            r@ == issued(bot_token@, TokenType::Access, now as int, Seq::empty()),
    {
        Claims {
            sub: bot_token.to_owned(),
            exp: now + TokenType::Access.window(),
            iat: now,
            aud: TokenType::Access.name().to_owned(),
            jti: None,
        }
    }

    /// Claims of a refresh token issued to `bot_token` at `now` under the
    /// identifier `token_id`.
    pub fn refresh(bot_token: &str, now: i64, token_id: &str) -> (r: Claims)
        requires
            now + REFRESH_LIFETIME <= i64::MAX,
        ensures
            r@ == issued(bot_token@, TokenType::Refresh, now as int, token_id@),
    {
        Claims {
            sub: bot_token.to_owned(),
            exp: now + TokenType::Refresh.window(),
            iat: now,
            aud: TokenType::Refresh.name().to_owned(),
            jti: Some(token_id.to_owned()),
        }
    }

    /// Claims of a token of the given kind, issued now. A refresh token gets
    /// a fresh random identifier of 36 characters.
    pub fn new(bot_token: &str, token_type: TokenType) -> (r: Claims)
        ensures
            exists|now: int, token_id: Seq<char>|
                clock_range(now) && token_id.len() == TOKEN_ID_LENGTH && r@ == #[trigger] issued(
                    bot_token@,
                    token_type,
                    now,
                    token_id,
                ),
    {
        let now: i64 = unix_now();
        match token_type {
            TokenType::Access => {
                let claims = Claims::access(bot_token, now);
                proof {
                    let unused = Seq::new(TOKEN_ID_LENGTH as nat, |i: int| '0');
                    assert(claims@ == issued(bot_token@, token_type, now as int, unused));
                }
                claims
            },
            TokenType::Refresh => {
                let token_id = fresh_token_id();
                let claims = Claims::refresh(bot_token, now, token_id.as_str());
                assert(claims@ == issued(bot_token@, token_type, now as int, token_id@));
                claims
            },
        }
    }
}

/// The tokens withdrawn before their expiry.
pub struct TokenBlacklist {
    tokens: StringHashSet,
}

impl View for TokenBlacklist {
    type V = Set<Seq<char>>;

    closed spec fn view(&self) -> Set<Seq<char>> {
        self.tokens@
    }
}

impl TokenBlacklist {
    /// An empty blacklist.
    pub fn new() -> (r: Self)
        ensures
            r@ == Set::<Seq<char>>::empty(),
    {
        Self { tokens: StringHashSet::new() }
    }

    /// Withdraws `token`.
    pub fn add_token(&mut self, token: &str)
        ensures
            final(self)@ == old(self)@.insert(token@),
    {
        self.tokens.insert(token.to_owned());
    }

    /// Takes `token` off the blacklist.
    pub fn remove_token(&mut self, token: &str)
        ensures
            final(self)@ == old(self)@.remove(token@),
    {
        self.tokens.remove(token);
    }

    /// Whether `token` has been withdrawn.
    pub fn contains_token(&self, token: &str) -> (r: bool)
        ensures
            r == self@.contains(token@),
    {
        self.tokens.contains(token)
    }
}

/// The two signing secrets together with the blacklist.
pub struct TokenSecrets {
    access_secret: String,
    refresh_secret: String,
    blacklist: TokenBlacklist,
}

/// The mathematical value of a [`TokenSecrets`].
pub struct SecretsView {
    pub access_secret: Seq<char>,
    pub refresh_secret: Seq<char>,
    pub revoked: Set<Seq<char>>,
}

impl View for TokenSecrets {
    type V = SecretsView;

    closed spec fn view(&self) -> SecretsView {
        SecretsView {
            access_secret: self.access_secret@,
            refresh_secret: self.refresh_secret@,
            revoked: self.blacklist@,
        }
    }
}

impl TokenSecrets {
    /// The given secrets with an empty blacklist.
    pub fn new(access_secret: String, refresh_secret: String) -> (r: Self)
        ensures
            r@ == (SecretsView {
                access_secret: access_secret@,
                refresh_secret: refresh_secret@,
                revoked: Set::empty(),
            }),
    {
        Self { access_secret, refresh_secret, blacklist: TokenBlacklist::new() }
    }

    /// The secret that signs access tokens.
    pub fn access_secret(&self) -> (r: &str)
        ensures
            r@ == self@.access_secret,
    {
        self.access_secret.as_str()
    }

    /// The secret that signs refresh tokens.
    pub fn refresh_secret(&self) -> (r: &str)
        ensures
            r@ == self@.refresh_secret,
    {
        self.refresh_secret.as_str()
    }

    /// The blacklist.
    pub fn blacklist(&self) -> (r: &TokenBlacklist)
        ensures
            r@ == self@.revoked,
    {
        &self.blacklist
    }

    /// Withdraws `token`; the secrets stay as they are.
    pub fn revoke(&mut self, token: &str)
        ensures
            final(self)@ == (SecretsView { revoked: old(self)@.revoked.insert(token@), ..old(self)@ }),
    {
        self.blacklist.add_token(token);
    }
}

/// One member of a token's payload, as far as the claims depend on it.
pub enum Field {
    /// The payload has no member of that name.
    Absent,
    /// The member is `null`.
    Null,
    /// The member is a string.
    Text(String),
    /// The member is an integer that fits in 64 bits.
    Integer(i64),
    /// The member is anything else.
    Other,
}

/// The mathematical value of a [`Field`].
pub enum FieldView {
    Absent,
    Null,
    Text(Seq<char>),
    Integer(int),
    Other,
}

impl View for Field {
    type V = FieldView;

    open spec fn view(&self) -> FieldView {
        match self {
            Field::Absent => FieldView::Absent,
            Field::Null => FieldView::Null,
            Field::Text(text) => FieldView::Text(text@),
            Field::Integer(number) => FieldView::Integer(*number as int),
            Field::Other => FieldView::Other,
        }
    }
}

/// `jsonwebtoken::errors::Error`, which is passed on unread.
#[verifier::external_type_specification]
#[verifier::external_body]
pub struct ExTokenFault(jsonwebtoken::errors::Error);

/// `serde_json::Value`, which is read through [`json_field`] only.
#[verifier::external_type_specification]
#[verifier::external_body]
pub struct ExPayload(serde_json::Value);

/// The token that `jsonwebtoken::encode` returns for an HS256 header, a
/// payload object whose members are `sub`, `exp`, `iat`, `aud` and `jti` in
/// that order, and the key made from `secret`.
pub uninterp spec fn hs256_token(claims: ClaimsView, secret: Seq<char>) -> Seq<char>;

/// The members of a JSON value that is an object, by name. Any other value
/// has none.
pub uninterp spec fn json_members(value: serde_json::Value) -> Map<Seq<char>, FieldView>;

/// What `jsonwebtoken::decode` finds in `token` when it checks the HS256
/// signature against the key made from `secret` and checks neither expiry
/// nor audience: the members of the payload, or `None` where it reports an
/// error.
pub uninterp spec fn hs256_payload(token: Seq<char>, secret: Seq<char>) -> Option<Map<Seq<char>, FieldView>>;

/// The member called `name`, or `Absent`.
pub open spec fn member(members: Map<Seq<char>, FieldView>, name: Seq<char>) -> FieldView {
    if members.contains_key(name) {
        members[name]
    } else {
        FieldView::Absent
    }
}

/// Calls `jsonwebtoken::encode` with an HS256 header and the key made from
/// `secret`. The claims are handed over as a JSON object with one member
/// per field, in the order of the fields. `encode` reports an error where
/// the key is of another family than the algorithm, where a part cannot be
/// written as JSON, or where signing fails: a key made from a secret is of
/// the family of HS256, a header and an object of strings, integers and
/// `null` are always written, and signing with HS256 always gives a
/// signature. So the call succeeds; the contract names the token and says
/// nothing else of it.
#[verifier::external_body]
fn encode_hs256(claims: &Claims, secret: &str) -> (r: Result<String, jsonwebtoken::errors::Error>)
    ensures
        match r {
            Ok(token) => token@ == hs256_token(claims@, secret@),
            Err(_) => false,
        },
{
    let mut payload = serde_json::Map::new();
    payload.insert("sub".into(), claims.sub.clone().into());
    payload.insert("exp".into(), claims.exp.into());
    payload.insert("iat".into(), claims.iat.into());
    payload.insert("aud".into(), claims.aud.clone().into());
    payload.insert("jti".into(), claims.jti.clone().into());
    let key = jsonwebtoken::EncodingKey::from_secret(secret.as_bytes());
    jsonwebtoken::encode(&jsonwebtoken::Header::new(jsonwebtoken::Algorithm::HS256), &payload, &key)
}

/// Calls `jsonwebtoken::decode` for HS256 with the key made from `secret`,
/// with the checks of expiry and audience and the list of required claims
/// switched off, so that the outcome depends on the token and the secret
/// alone. The contract names the outcome and says nothing else of it.
#[verifier::external_body]
fn decode_hs256(token: &str, secret: &str) -> (r: Result<serde_json::Value, jsonwebtoken::errors::Error>)
    ensures
        match r {
            Ok(payload) => hs256_payload(token@, secret@) == Some(json_members(payload)),
            Err(_) => hs256_payload(token@, secret@) is None,
        },
{
    let mut validation = jsonwebtoken::Validation::new(jsonwebtoken::Algorithm::HS256);
    validation.validate_exp = false;
    validation.validate_aud = false;
    validation.required_spec_claims.clear();
    let key = jsonwebtoken::DecodingKey::from_secret(secret.as_bytes());
    jsonwebtoken::decode::<serde_json::Value>(token, &key, &validation).map(|data| data.claims)
}

/// Looks `name` up with `serde_json::Value::get` and tells the variants of
/// what it finds apart. A number counts as an integer where
/// `serde_json::Number::as_i64` gives one.
#[verifier::external_body]
fn json_field(payload: &serde_json::Value, name: &str) -> (r: Field)
    ensures
        r@ == member(json_members(*payload), name@),
{
    match payload.get(name) {
        None => Field::Absent,
        Some(serde_json::Value::Null) => Field::Null,
        Some(serde_json::Value::String(text)) => Field::Text(text.clone()),
        Some(serde_json::Value::Number(number)) => match number.as_i64() {
            Some(integer) => Field::Integer(integer),
            None => Field::Other,
        },
        Some(_) => Field::Other,
    }
}

/// The claims that a payload with these members holds. `sub` and `aud` must
/// be strings, `exp` and `iat` integers; `jti` may be missing or `null`, and
/// is a string otherwise. Further members are ignored.
pub open spec fn claims_of(members: Map<Seq<char>, FieldView>) -> Option<ClaimsView> {
    match (
        member(members, "sub"@),
        member(members, "exp"@),
        member(members, "iat"@),
        member(members, "aud"@),
    ) {
        (FieldView::Text(sub), FieldView::Integer(exp), FieldView::Integer(iat), FieldView::Text(aud)) => {
            match member(members, "jti"@) {
                FieldView::Absent | FieldView::Null => Some(ClaimsView { sub, exp, iat, aud, jti: None }),
                FieldView::Text(id) => Some(ClaimsView { sub, exp, iat, aud, jti: Some(id) }),
                _ => None,
            }
        },
        _ => None,
    }
}

/// The value of claims that may be missing.
pub open spec fn claims_view(claims: Option<Claims>) -> Option<ClaimsView> {
    match claims {
        Some(c) => Some(c@),
        None => None,
    }
}

/// Reads the claims out of a decoded payload.
fn read_claims(payload: &serde_json::Value) -> (r: Option<Claims>)
    ensures
        claims_view(r) == claims_of(json_members(*payload)),
{
    let sub = match json_field(payload, "sub") {
        Field::Text(text) => text,
        _ => { return None; },
    };
    let exp: i64 = match json_field(payload, "exp") {
        Field::Integer(number) => number,
        _ => { return None; },
    };
    let iat: i64 = match json_field(payload, "iat") {
        Field::Integer(number) => number,
        _ => { return None; },
    };
    let aud = match json_field(payload, "aud") {
        Field::Text(text) => text,
        _ => { return None; },
    };
    let jti = match json_field(payload, "jti") {
        Field::Absent | Field::Null => None,
        Field::Text(id) => Some(id),
        _ => { return None; },
    };
    Some(Claims { sub, exp, iat, aud, jti })
}

/// The claims found in `token` under `secret`: `None` where the signature
/// does not verify or the payload is not a set of claims.
pub open spec fn decoded(token: Seq<char>, secret: Seq<char>) -> Option<ClaimsView> {
    match hs256_payload(token, secret) {
        Some(members) => claims_of(members),
        None => None,
    }
}

/// Checks the signature of `token` against `secret` and reads its claims.
pub fn decode_claims(token: &str, secret: &str) -> (r: Option<Claims>)
    ensures
        claims_view(r) == decoded(token@, secret@),
{
    match decode_hs256(token, secret) {
        Ok(payload) => read_claims(&payload),
        Err(_) => None,
    }
}

/// Signs `claims` with `secret`.
fn sign(claims: &Claims, secret: &str) -> (token: String)
    ensures
        token@ == hs256_token(claims@, secret@),
{
    match encode_hs256(claims, secret) {
        Ok(token) => token,
        Err(_) => unreached(),
    }
}

/// What signing `claims` gives: the token signed with the access secret for
/// the audience `access`, with the refresh secret for the audience
/// `refresh`, and `InvalidFormat` for any other audience.
pub open spec fn signed(claims: ClaimsView, secrets: SecretsView) -> Result<Seq<char>, TokenError> {
    if claims.aud == TokenType::Access.audience() {
        Ok(hs256_token(claims, secrets.access_secret))
    } else if claims.aud == TokenType::Refresh.audience() {
        Ok(hs256_token(claims, secrets.refresh_secret))
    } else {
        Err(TokenError::InvalidFormat)
    }
}

/// The value of a result that holds text.
pub open spec fn text_result(r: Result<String, TokenError>) -> Result<Seq<char>, TokenError> {
    match r {
        Ok(text) => Ok(text@),
        Err(e) => Err(e),
    }
}

/// Signs `claims` with the secret of their audience.
pub fn generate_token(claims: Claims, secrets: &TokenSecrets) -> (r: Result<String, TokenError>)
    ensures
        text_result(r) == signed(claims@, secrets@),
{
    if same_text(claims.aud.as_str(), TokenType::Access.name()) {
        Ok(sign(&claims, secrets.access_secret()))
    } else if same_text(claims.aud.as_str(), TokenType::Refresh.name()) {
        Ok(sign(&claims, secrets.refresh_secret()))
    } else {
        Err(TokenError::InvalidFormat)
    }
}

/// The value of a result that holds claims.
pub open spec fn claims_result(r: Result<Claims, TokenError>) -> Result<ClaimsView, TokenError> {
    match r {
        Ok(claims) => Ok(claims@),
        Err(e) => Err(e),
    }
}

/// What verifying `token` as an access token at time `now` gives. A
/// withdrawn token is refused before its signature is looked at; then the
/// signature is checked against the access secret; then the expiry.
pub open spec fn verify_outcome(secrets: SecretsView, token: Seq<char>, now: int) -> Result<ClaimsView, TokenError> {
    access_decision(secrets.revoked.contains(token), decoded(token, secrets.access_secret), now)
}

/// What is decided of an access token at time `now`, given whether it has
/// been withdrawn and the claims that were found in it under the access
/// secret, if any. A withdrawn token is refused whatever it holds.
pub open spec fn access_decision(revoked: bool, claims: Option<ClaimsView>, now: int) -> Result<
    ClaimsView,
    TokenError,
> {
    if revoked {
        Err(TokenError::Revoked)
    } else {
        match claims {
            None => Err(TokenError::InvalidSignature),
            Some(claims) => if now > claims.exp {
                Err(TokenError::Expired)
            } else {
                Ok(claims)
            },
        }
    }
}

/// Decides of an access token at time `now`, given whether it has been
/// withdrawn and the claims found in it, if any.
pub fn accept_access(revoked: bool, claims: Option<Claims>, now: i64) -> (r: Result<Claims, TokenError>)
    ensures
        claims_result(r) == access_decision(revoked, claims_view(claims), now as int),
{
    if revoked {
        return Err(TokenError::Revoked);
    }
    match claims {
        None => Err(TokenError::InvalidSignature),
        Some(claims) => {
            if now > claims.exp {
                Err(TokenError::Expired)
            } else {
                Ok(claims)
            }
        },
    }
}

/// Verifies `token` as an access token at time `now`.
pub fn verify_token_at(token: &str, secrets: &TokenSecrets, now: i64) -> (r: Result<Claims, TokenError>)
    ensures
        claims_result(r) == verify_outcome(secrets@, token@, now as int),
{
    if secrets.blacklist().contains_token(token) {
        // Nothing is looked for in a withdrawn token.
        return accept_access(true, None, now);
    }
    accept_access(false, decode_claims(token, secrets.access_secret()), now)
}

/// Verifies `token` as an access token at the time the clock shows.
pub fn verify_token(token: &str, secrets: &TokenSecrets) -> (r: Result<Claims, TokenError>)
    ensures
        exists|now: int| clock_range(now) && claims_result(r) == #[trigger] verify_outcome(secrets@, token@, now),
{
    let now: i64 = unix_now();
    let r = verify_token_at(token, secrets, now);
    assert(claims_result(r) == verify_outcome(secrets@, token@, now as int));
    r
}

/// A fresh pair of tokens with the times at which they expire.
#[derive(Debug, Clone, PartialEq, Eq)]
pub struct BotSetupResponse {
    pub access_token: String,
    pub refresh_token: String,
    pub access_token_expires_at: i64,
    pub refresh_token_expires_at: i64,
}

/// The mathematical value of a [`BotSetupResponse`].
pub struct TokenPairView {
    pub access_token: Seq<char>,
    pub refresh_token: Seq<char>,
    pub access_token_expires_at: int,
    pub refresh_token_expires_at: int,
}

impl View for BotSetupResponse {
    type V = TokenPairView;

    open spec fn view(&self) -> TokenPairView {
        TokenPairView {
            access_token: self.access_token@,
            refresh_token: self.refresh_token@,
            access_token_expires_at: self.access_token_expires_at as int,
            refresh_token_expires_at: self.refresh_token_expires_at as int,
        }
    }
}

/// The value of a result that holds a pair of tokens.
pub open spec fn pair_result(r: Result<BotSetupResponse, TokenError>) -> Result<TokenPairView, TokenError> {
    match r {
        Ok(pair) => Ok(pair@),
        Err(e) => Err(e),
    }
}

/// The pair issued to `sub` at `now`: an access token and a refresh token
/// with identifier `token_id`, each signed with its own secret.
pub open spec fn minted(secrets: SecretsView, sub: Seq<char>, now: int, token_id: Seq<char>) -> TokenPairView {
    let access = issued(sub, TokenType::Access, now, token_id);
    let refresh = issued(sub, TokenType::Refresh, now, token_id);
    TokenPairView {
        access_token: hs256_token(access, secrets.access_secret),
        refresh_token: hs256_token(refresh, secrets.refresh_secret),
        access_token_expires_at: access.exp,
        refresh_token_expires_at: refresh.exp,
    }
}

/// Issues a pair of tokens to `sub` at `now`.
pub fn mint_pair(secrets: &TokenSecrets, sub: &str, now: i64, token_id: &str) -> (r: BotSetupResponse)
    requires
        now + REFRESH_LIFETIME <= i64::MAX,
    ensures
        r@ == minted(secrets@, sub@, now as int, token_id@),
{
    let access = Claims::access(sub, now);
    let refresh = Claims::refresh(sub, now, token_id);
    BotSetupResponse {
        access_token: sign(&access, secrets.access_secret()),
        refresh_token: sign(&refresh, secrets.refresh_secret()),
        access_token_expires_at: access.exp,
        refresh_token_expires_at: refresh.exp,
    }
}

/// What is decided of a refresh token at time `now`, given whether it has
/// been withdrawn and the claims that were found in it under the refresh
/// secret, if any. A withdrawn token is refused whatever it holds; then
/// come the signature, the audience and the expiry, in that order.
pub open spec fn refresh_decision(revoked: bool, claims: Option<ClaimsView>, now: int) -> Result<
    ClaimsView,
    TokenError,
> {
    if revoked {
        Err(TokenError::Revoked)
    } else {
        match claims {
            None => Err(TokenError::InvalidSignature),
            Some(claims) => if claims.aud != TokenType::Refresh.audience() {
                Err(TokenError::InvalidFormat)
            } else if now > claims.exp {
                Err(TokenError::Expired)
            } else {
                Ok(claims)
            },
        }
    }
}

/// Decides of a refresh token at time `now`, given whether it has been
/// withdrawn and the claims found in it, if any.
pub fn accept_refresh(revoked: bool, claims: Option<Claims>, now: i64) -> (r: Result<Claims, TokenError>)
    ensures
        claims_result(r) == refresh_decision(revoked, claims_view(claims), now as int),
{
    if revoked {
        return Err(TokenError::Revoked);
    }
    match claims {
        None => Err(TokenError::InvalidSignature),
        Some(claims) => {
            if !same_text(claims.aud.as_str(), TokenType::Refresh.name()) {
                Err(TokenError::InvalidFormat)
            } else if now > claims.exp {
                Err(TokenError::Expired)
            } else {
                Ok(claims)
            }
        },
    }
}

/// Whether `token` may be exchanged for a new pair at time `now`, and the
/// claims it holds if so.
pub open spec fn refresh_check(secrets: SecretsView, token: Seq<char>, now: int) -> Result<ClaimsView, TokenError> {
    refresh_decision(secrets.revoked.contains(token), decoded(token, secrets.refresh_secret), now)
}

/// What exchanging `token` at time `now` gives: the pair issued to the
/// token's subject, where the token passes [`refresh_check`].
pub open spec fn refresh_outcome(secrets: SecretsView, token: Seq<char>, now: int, token_id: Seq<char>) -> Result<
    TokenPairView,
    TokenError,
> {
    match refresh_check(secrets, token, now) {
        Err(e) => Err(e),
        Ok(claims) => Ok(minted(secrets, claims.sub, now, token_id)),
    }
}

/// Exchanges the refresh token `token` at time `now` for a new pair whose
/// refresh token carries `token_id`.
pub fn refresh_token_at(token: &str, secrets: &TokenSecrets, now: i64, token_id: &str) -> (r: Result<
    BotSetupResponse,
    TokenError,
>)
    requires
        now + REFRESH_LIFETIME <= i64::MAX,
    ensures
        pair_result(r) == refresh_outcome(secrets@, token@, now as int, token_id@),
{
    let accepted = if secrets.blacklist().contains_token(token) {
        // Nothing is looked for in a withdrawn token.
        accept_refresh(true, None, now)
    } else {
        accept_refresh(false, decode_claims(token, secrets.refresh_secret()), now)
    };
    match accepted {
        Ok(claims) => Ok(mint_pair(secrets, claims.sub.as_str(), now, token_id)),
        Err(e) => Err(e),
    }
}

/// Exchanges the refresh token `token` for a new pair at the time the clock
/// shows; the new refresh token gets a fresh random identifier.
pub fn refresh_token(token: &str, secrets: &TokenSecrets) -> (r: Result<BotSetupResponse, TokenError>)
    ensures
        exists|now: int, token_id: Seq<char>|
            clock_range(now) && token_id.len() == TOKEN_ID_LENGTH && pair_result(r) == #[trigger] refresh_outcome(
                secrets@,
                token@,
                now,
                token_id,
            ),
{
    let now: i64 = unix_now();
    let token_id = fresh_token_id();
    let r = refresh_token_at(token, secrets, now, token_id.as_str());
    assert(pair_result(r) == refresh_outcome(secrets@, token@, now as int, token_id@));
    r
}

} // verus!
