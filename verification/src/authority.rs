//! The token authority: one-time setup with the bot's secret, verification
//! of access tokens, and the exchange of refresh tokens.

use crate::jwt::{
    claims_result, clock_range, fresh_token_id, mint_pair, minted, pair_result, refresh_check,
    refresh_outcome, refresh_token_at, unix_now, verify_outcome, verify_token_at, BotSetupResponse,
    Claims, ClaimsView, SecretsView, TokenError, TokenPairView, TokenSecrets, TokenType,
    REFRESH_LIFETIME, TOKEN_ID_LENGTH,
};
use crate::text::same_text;
use vstd::prelude::*;

verus! {

/// The authority of one process. It starts unconfigured, with nothing
/// withdrawn, and keeps no state beyond the life of the value.
///
/// Setup and exchange take the authority by `&mut`, so each of them runs
/// from its first check to its last change with nothing in between. A
/// program that serves several requests at once keeps the authority behind
/// one lock and holds it for the whole call.
pub struct TokenAuthority {
    bot_token: String,
    secrets: TokenSecrets,
    configured: bool,
}

/// The mathematical value of a [`TokenAuthority`].
pub struct AuthorityView {
    /// The secret that the bot has to present at setup.
    pub bot_token: Seq<char>,
    /// The signing secrets and the withdrawn tokens.
    pub secrets: SecretsView,
    /// Whether setup has been completed.
    pub configured: bool,
}

impl View for TokenAuthority {
    type V = AuthorityView;

    closed spec fn view(&self) -> AuthorityView {
        AuthorityView { bot_token: self.bot_token@, secrets: self.secrets@, configured: self.configured }
    }
}

impl AuthorityView {
    /// The authority after setup with `candidate` at `now`, and what the
    /// caller gets. Only a successful setup changes the authority.
    pub open spec fn bootstrap(self, candidate: Seq<char>, now: int, token_id: Seq<char>) -> (
        AuthorityView,
        Result<TokenPairView, TokenError>,
    ) {
        if self.configured {
            (self, Err(TokenError::AlreadyConfigured))
        } else if candidate != self.bot_token {
            (self, Err(TokenError::Unauthorized))
        } else {
            (AuthorityView { configured: true, ..self }, Ok(minted(self.secrets, candidate, now, token_id)))
        }
    }

    /// What verifying `token` at `now` gives. Verification changes nothing.
    pub open spec fn verify(self, token: Seq<char>, now: int) -> Result<ClaimsView, TokenError> {
        verify_outcome(self.secrets, token, now)
    }

    /// The authority after the exchange of `refresh_token` at `now`, and what
    /// the caller gets. A successful exchange withdraws `access_token`, the
    /// access token handed in with the request; the refresh token itself is
    /// not withdrawn.
    pub open spec fn refresh(
        self,
        refresh_token: Seq<char>,
        access_token: Seq<char>,
        now: int,
        token_id: Seq<char>,
    ) -> (AuthorityView, Result<TokenPairView, TokenError>) {
        if !self.configured {
            (self, Err(TokenError::NotConfigured))
        } else {
            match refresh_outcome(self.secrets, refresh_token, now, token_id) {
                Ok(pair) => (
                    AuthorityView {
                        secrets: SecretsView { revoked: self.secrets.revoked.insert(access_token), ..self.secrets },
                        ..self
                    },
                    Ok(pair),
                ),
                Err(e) => (self, Err(e)),
            }
        }
    }
}

impl TokenAuthority {
    /// An unconfigured authority with the given secrets and nothing
    /// withdrawn.
    pub fn new(bot_token: String, access_secret: String, refresh_secret: String) -> (r: Self)
        ensures
            r@ == (AuthorityView {
                bot_token: bot_token@,
                secrets: SecretsView {
                    access_secret: access_secret@,
                    refresh_secret: refresh_secret@,
                    revoked: Set::empty(),
                },
                configured: false,
            }),
    {
        Self { bot_token, secrets: TokenSecrets::new(access_secret, refresh_secret), configured: false }
    }

    /// Whether setup has been completed.
    pub fn is_configured(&self) -> (r: bool)
        ensures
            r == self@.configured,
    {
        self.configured
    }

    /// The signing secrets and the blacklist.
    pub fn secrets(&self) -> (r: &TokenSecrets)
        ensures
            r@ == self@.secrets,
    {
        &self.secrets
    }

    /// Setup at time `now`: checks `candidate` against the bot's secret and
    /// issues the first pair of tokens, whose refresh token carries
    /// `token_id`.
    pub fn bootstrap_at(&mut self, candidate: &str, now: i64, token_id: &str) -> (r: Result<
        BotSetupResponse,
        TokenError,
    >)
        requires
            now + REFRESH_LIFETIME <= i64::MAX,
        ensures
            (final(self)@, pair_result(r)) == old(self)@.bootstrap(candidate@, now as int, token_id@),
    {
        if self.configured {
            return Err(TokenError::AlreadyConfigured);
        }
        if !same_text(candidate, self.bot_token.as_str()) {
            return Err(TokenError::Unauthorized);
        }
        let pair = mint_pair(&self.secrets, candidate, now, token_id);
        self.configured = true;
        Ok(pair)
    }

    /// Setup at the time the clock shows, with a fresh random identifier for
    /// the refresh token.
    pub fn bootstrap(&mut self, candidate: &str) -> (r: Result<BotSetupResponse, TokenError>)
        ensures
            exists|now: int, token_id: Seq<char>|
                clock_range(now) && token_id.len() == TOKEN_ID_LENGTH && (final(self)@, pair_result(r))
                    == #[trigger] old(self)@.bootstrap(
                    candidate@,
                    now,
                    token_id,
                ),
    {
        let now: i64 = unix_now();
        let token_id = fresh_token_id();
        let r = self.bootstrap_at(candidate, now, token_id.as_str());
        assert((self@, pair_result(r)) == old(self)@.bootstrap(candidate@, now as int, token_id@));
        r
    }

    /// Verifies `token` as an access token at time `now`.
    pub fn verify_at(&self, token: &str, now: i64) -> (r: Result<Claims, TokenError>)
        ensures
            claims_result(r) == self@.verify(token@, now as int),
    {
        verify_token_at(token, &self.secrets, now)
    }

    /// Verifies `token` as an access token at the time the clock shows.
    pub fn verify(&self, token: &str) -> (r: Result<Claims, TokenError>)
        ensures
            exists|now: int| clock_range(now) && claims_result(r) == #[trigger] self@.verify(token@, now),
    {
        let now: i64 = unix_now();
        let r = self.verify_at(token, now);
        assert(claims_result(r) == self@.verify(token@, now as int));
        r
    }

    /// Exchanges `refresh_token` at time `now` for a new pair whose refresh
    /// token carries `token_id`, and withdraws `access_token`.
    pub fn refresh_at(&mut self, refresh_token: &str, access_token: &str, now: i64, token_id: &str) -> (r:
        Result<BotSetupResponse, TokenError>)
        requires
            now + REFRESH_LIFETIME <= i64::MAX,
        ensures
            (final(self)@, pair_result(r)) == old(self)@.refresh(
                refresh_token@,
                access_token@,
                now as int,
                token_id@,
            ),
    {
        if !self.configured {
            return Err(TokenError::NotConfigured);
        }
        match refresh_token_at(refresh_token, &self.secrets, now, token_id) {
            Ok(pair) => {
                self.secrets.revoke(access_token);
                Ok(pair)
            },
            Err(e) => Err(e),
        }
    }

    /// Exchanges `refresh_token` at the time the clock shows, with a fresh
    /// random identifier for the new refresh token, and withdraws
    /// `access_token`.
    pub fn refresh(&mut self, refresh_token: &str, access_token: &str) -> (r: Result<
        BotSetupResponse,
        TokenError,
    >)
        ensures
            exists|now: int, token_id: Seq<char>|
                clock_range(now) && token_id.len() == TOKEN_ID_LENGTH && (final(self)@, pair_result(r))
                    == #[trigger] old(self)@.refresh(
                    refresh_token@,
                    access_token@,
                    now,
                    token_id,
                ),
    {
        let now: i64 = unix_now();
        let token_id = fresh_token_id();
        let r = self.refresh_at(refresh_token, access_token, now, token_id.as_str());
        assert((self@, pair_result(r)) == old(self)@.refresh(
            refresh_token@,
            access_token@,
            now as int,
            token_id@,
        ));
        r
    }
}

/// One call of setup: the secret offered, the time of the call and the
/// identifier for the refresh token.
pub struct SetupCall {
    pub candidate: Seq<char>,
    pub now: int,
    pub token_id: Seq<char>,
}

impl AuthorityView {
    /// The authority after the setup calls `calls`, made one after the other,
    /// and what each caller gets.
    pub open spec fn bootstrap_all(self, calls: Seq<SetupCall>) -> (
        AuthorityView,
        Seq<Result<TokenPairView, TokenError>>,
    )
        decreases calls.len(),
    {
        if calls.len() == 0 {
            (self, Seq::empty())
        } else {
            let first = self.bootstrap(calls[0].candidate, calls[0].now, calls[0].token_id);
            let rest = first.0.bootstrap_all(calls.drop_first());
            (rest.0, seq![first.1] + rest.1)
        }
    }
}

/// The number of successes among `outcomes`.
pub open spec fn successes(outcomes: Seq<Result<TokenPairView, TokenError>>) -> nat
    decreases outcomes.len(),
{
    if outcomes.len() == 0 {
        0
    } else {
        let one: nat = if outcomes[0] is Ok {
            1
        } else {
            0
        };
        one + successes(outcomes.drop_first())
    }
}

/// The two audiences are different texts.
pub proof fn audiences_differ()
    ensures
        TokenType::Access.audience() != TokenType::Refresh.audience(),
{
    reveal_strlit("access");
    reveal_strlit("refresh");
    assert("access"@.len() == 6);
    assert("refresh"@.len() == 7);
}

/// Setup calls made against a configured authority all end in
/// `AlreadyConfigured` and leave it as it was.
pub proof fn configured_refuses_setup(authority: AuthorityView, calls: Seq<SetupCall>)
    requires
        authority.configured,
    ensures
        authority.bootstrap_all(calls).0 == authority,
        authority.bootstrap_all(calls).1.len() == calls.len(),
        forall|i: int|
            0 <= i < calls.len() ==> authority.bootstrap_all(calls).1[i] == Err::<TokenPairView, TokenError>(
                TokenError::AlreadyConfigured,
            ),
        successes(authority.bootstrap_all(calls).1) == 0,
    decreases calls.len(),
{
    if calls.len() > 0 {
        configured_refuses_setup(authority, calls.drop_first());
        let rest = authority.bootstrap_all(calls.drop_first()).1;
        let all = authority.bootstrap_all(calls).1;
        assert(all == seq![Err::<TokenPairView, TokenError>(TokenError::AlreadyConfigured)] + rest);
        assert(all.drop_first() == rest);
        assert forall|i: int| 0 <= i < calls.len() implies all[i] == Err::<TokenPairView, TokenError>(
            TokenError::AlreadyConfigured,
        ) by {
            if i > 0 {
                assert(all[i] == rest[i - 1]);
            }
        }
    }
}

/// However many setup calls are made, in whatever order, and whatever they
/// offer, at most one of them succeeds.
pub proof fn setup_succeeds_at_most_once(authority: AuthorityView, calls: Seq<SetupCall>)
    ensures
        authority.bootstrap_all(calls).1.len() == calls.len(),
        successes(authority.bootstrap_all(calls).1) <= 1,
        authority.configured ==> successes(authority.bootstrap_all(calls).1) == 0,
    decreases calls.len(),
{
    if authority.configured {
        configured_refuses_setup(authority, calls);
    } else if calls.len() > 0 {
        let first = authority.bootstrap(calls[0].candidate, calls[0].now, calls[0].token_id);
        let rest = first.0.bootstrap_all(calls.drop_first()).1;
        let all = authority.bootstrap_all(calls).1;
        setup_succeeds_at_most_once(first.0, calls.drop_first());
        assert(all == seq![first.1] + rest);
        assert(all.drop_first() == rest);
    }
}

/// Setup calls that race for an unconfigured authority are served one
/// after the other. Where the one served first presents the bot's secret,
/// it succeeds, and every other one ends in `AlreadyConfigured`, whatever
/// it presents. So of `n` calls exactly one
/// succeeds and `n - 1` are told of the conflict, in whatever order they
/// come to be served.
pub proof fn setup_race_has_one_winner(authority: AuthorityView, calls: Seq<SetupCall>)
    requires
        !authority.configured,
        calls.len() > 0,
        calls[0].candidate == authority.bot_token,
    ensures
        authority.bootstrap_all(calls).0.configured,
        authority.bootstrap_all(calls).1.len() == calls.len(),
        authority.bootstrap_all(calls).1[0] is Ok,
        forall|i: int|
            1 <= i < calls.len() ==> authority.bootstrap_all(calls).1[i] == Err::<TokenPairView, TokenError>(
                TokenError::AlreadyConfigured,
            ),
        successes(authority.bootstrap_all(calls).1) == 1,
{
    let first = authority.bootstrap(calls[0].candidate, calls[0].now, calls[0].token_id);
    let rest = first.0.bootstrap_all(calls.drop_first()).1;
    let all = authority.bootstrap_all(calls).1;
    assert(first.1 is Ok);
    configured_refuses_setup(first.0, calls.drop_first());
    assert(all == seq![first.1] + rest);
    assert(all.drop_first() == rest);
    assert forall|i: int| 1 <= i < calls.len() implies all[i] == Err::<TokenPairView, TokenError>(
        TokenError::AlreadyConfigured,
    ) by {
        assert(all[i] == rest[i - 1]);
    }
}

/// An access token issued at `issued_at` that has not been withdrawn
/// verifies up to and including the second of its expiry, 300 seconds
/// later, and is refused as expired from the next second on.
pub proof fn access_token_window(
    authority: AuthorityView,
    token: Seq<char>,
    sub: Seq<char>,
    issued_at: int,
    now: int,
)
    requires
        !authority.secrets.revoked.contains(token),
        crate::jwt::decoded(token, authority.secrets.access_secret) == Some(
            crate::jwt::issued(sub, TokenType::Access, issued_at, Seq::empty()),
        ),
    ensures
        now <= issued_at + 300 ==> authority.verify(token, now) == Ok::<ClaimsView, TokenError>(
            crate::jwt::issued(sub, TokenType::Access, issued_at, Seq::empty()),
        ),
        now > issued_at + 300 ==> authority.verify(token, now) == Err::<ClaimsView, TokenError>(
            TokenError::Expired,
        ),
{
}

/// A token whose claims, read under the refresh secret, name another
/// audience than `refresh` is never exchanged for a pair, and the authority
/// stays as it was. Where the authority is configured and the token has not
/// been withdrawn, the refusal is `InvalidFormat`.
pub proof fn refresh_refuses_other_audience(
    authority: AuthorityView,
    refresh_token: Seq<char>,
    access_token: Seq<char>,
    now: int,
    token_id: Seq<char>,
)
    requires
        crate::jwt::decoded(refresh_token, authority.secrets.refresh_secret) matches Some(claims)
            && claims.aud != TokenType::Refresh.audience(),
    ensures
        authority.refresh(refresh_token, access_token, now, token_id).1 is Err,
        authority.refresh(refresh_token, access_token, now, token_id).0 == authority,
        authority.configured && !authority.secrets.revoked.contains(refresh_token) ==> authority.refresh(
            refresh_token,
            access_token,
            now,
            token_id,
        ).1 == Err::<TokenPairView, TokenError>(TokenError::InvalidFormat),
{
}

/// An access token is never exchanged for a pair: where it verifies against
/// the refresh secret at all, its audience gives it away. On a configured
/// authority that has not withdrawn the token, the refusal is
/// `InvalidFormat`.
pub proof fn refresh_refuses_access_token(
    authority: AuthorityView,
    token: Seq<char>,
    access_token: Seq<char>,
    now: int,
    token_id: Seq<char>,
)
    requires
        crate::jwt::decoded(token, authority.secrets.refresh_secret) matches Some(claims) && claims.aud
            == TokenType::Access.audience(),
    ensures
        authority.refresh(token, access_token, now, token_id).1 is Err,
        authority.refresh(token, access_token, now, token_id).0 == authority,
        authority.configured && !authority.secrets.revoked.contains(token) ==> authority.refresh(
            token,
            access_token,
            now,
            token_id,
        ).1 == Err::<TokenPairView, TokenError>(TokenError::InvalidFormat),
{
    audiences_differ();
    refresh_refuses_other_audience(authority, token, access_token, now, token_id);
}

/// After a successful exchange the access token handed in with it is
/// refused as revoked at every later time.
pub proof fn refresh_withdraws_access_token(
    authority: AuthorityView,
    refresh_token: Seq<char>,
    access_token: Seq<char>,
    now: int,
    token_id: Seq<char>,
    later: int,
)
    requires
        authority.refresh(refresh_token, access_token, now, token_id).1 is Ok,
    ensures
        authority.refresh(refresh_token, access_token, now, token_id).0.verify(access_token, later) == Err::<
            ClaimsView,
            TokenError,
        >(TokenError::Revoked),
{
}

/// After a successful exchange the refresh token that was exchanged can be
/// exchanged again, at every time up to its own expiry and whichever access
/// token is handed in with it, unless it was itself handed in as the access
/// token to withdraw.
pub proof fn refresh_keeps_refresh_token(
    authority: AuthorityView,
    refresh_token: Seq<char>,
    access_token: Seq<char>,
    now: int,
    token_id: Seq<char>,
    later: int,
    next_access_token: Seq<char>,
    next_token_id: Seq<char>,
)
    requires
        authority.refresh(refresh_token, access_token, now, token_id).1 is Ok,
        refresh_token != access_token,
    ensures
        refresh_check(authority.secrets, refresh_token, now) matches Ok(claims) && (later <= claims.exp
            ==> authority.refresh(refresh_token, access_token, now, token_id).0.refresh(
            refresh_token,
            next_access_token,
            later,
            next_token_id,
        ).1 is Ok),
{
}

} // verus!
