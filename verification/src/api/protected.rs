//! The endpoints that only the bot may call, the check that guards them,
//! and the screening of addresses.

use crate::authority::TokenAuthority;
use crate::jwt::{
    clock_range, pair_result, unix_now, verify_outcome, verify_token_at, BotSetupResponse, SecretsView,
    TokenError, TOKEN_ID_LENGTH,
};
use crate::text::{chars_of, contains_text, has_text, pieces, pieces_tell_separators, same_text, split_text};
use vstd::prelude::*;
use vstd::string::*;

pub mod petads;
pub mod petring;

verus! {

/// What the bot sends to set the authority up.
#[derive(Debug, Clone, PartialEq, Eq)]
pub struct BotSetupRequest {
    /// The secret that the bot presents.
    pub bot_token: String,
}

/// What the bot sends to exchange its tokens.
#[derive(Debug, Clone, PartialEq, Eq)]
pub struct BotRefreshRequest {
    pub refresh_token: String,
    /// The access token that the new pair supersedes.
    pub access_token: String,
}

/// Setup on the bot's request, at the time the clock shows. The caller
/// holds the authority alone for the whole call.
pub fn post_bot_setup(authority: &mut TokenAuthority, request: &BotSetupRequest) -> (r: Result<
    BotSetupResponse,
    TokenError,
>)
    ensures
        exists|now: int, token_id: Seq<char>|
            clock_range(now) && token_id.len() == TOKEN_ID_LENGTH && (final(authority)@, pair_result(r))
                == #[trigger] old(authority)@.bootstrap(
                request.bot_token@,
                now,
                token_id,
            ),
{
    authority.bootstrap(request.bot_token.as_str())
}

/// The exchange of tokens on the bot's request, at the time the clock
/// shows. The caller holds the authority alone for the whole call.
pub fn post_refresh_tokens(authority: &mut TokenAuthority, request: &BotRefreshRequest) -> (r: Result<
    BotSetupResponse,
    TokenError,
>)
    ensures
        exists|now: int, token_id: Seq<char>|
            clock_range(now) && token_id.len() == TOKEN_ID_LENGTH && (final(authority)@, pair_result(r))
                == #[trigger] old(authority)@.refresh(
                request.refresh_token@,
                request.access_token@,
                now,
                token_id,
            ),
{
    authority.refresh(request.refresh_token.as_str(), request.access_token.as_str())
}

/// Why a request does not get past the guard.
#[derive(Debug, Clone, Copy, PartialEq, Eq, Structural)]
pub enum Denial {
    /// The request has no `Authorization` header.
    NoAuthorization,
    /// The request carries a body and does not say of what type.
    MissingContentType,
    /// The request carries a body that is not JSON.
    WrongContentType,
    /// The token is not a valid access token.
    InvalidToken,
}

/// The number of characters in front of the token in an `Authorization`
/// header: `Bearer` and a blank.
pub const SCHEME_LENGTH: usize = 7;

/// What the guard decides at time `now` for a request with these headers.
/// `is_get` tells whether the method is `GET`; every other method has to
/// carry JSON. The token is what follows the first seven characters of the
/// `Authorization` header, whatever they are; a header that is shorter
/// holds no token.
pub open spec fn guard_outcome(
    secrets: SecretsView,
    authorization: Option<Seq<char>>,
    is_get: bool,
    content_type: Option<Seq<char>>,
    now: int,
) -> Result<(), Denial> {
    match authorization {
        None => Err(Denial::NoAuthorization),
        Some(header) => if !is_get && content_type is None {
            Err(Denial::MissingContentType)
        } else if header.len() < SCHEME_LENGTH || verify_outcome(
            secrets,
            header.skip(SCHEME_LENGTH as int),
            now,
        ) is Err {
            Err(Denial::InvalidToken)
        } else if !is_get && content_type != Some("application/json"@) {
            Err(Denial::WrongContentType)
        } else {
            Ok(())
        },
    }
}

/// The value of a header that may be missing.
pub open spec fn header_view(header: Option<&str>) -> Option<Seq<char>> {
    match header {
        Some(text) => Some(text@),
        None => None,
    }
}

/// The guard at time `now`.
pub fn require_auth_at(
    authority: &TokenAuthority,
    authorization: Option<&str>,
    is_get: bool,
    content_type: Option<&str>,
    now: i64,
) -> (r: Result<(), Denial>)
    ensures
        r == guard_outcome(
            authority@.secrets,
            header_view(authorization),
            is_get,
            header_view(content_type),
            now as int,
        ),
{
    let header = match authorization {
        Some(header) => header,
        None => { return Err(Denial::NoAuthorization); },
    };
    let content_type = if !is_get {
        match content_type {
            Some(text) => text,
            None => { return Err(Denial::MissingContentType); },
        }
    } else {
        ""
    };
    let length = header.unicode_len();
    if length < SCHEME_LENGTH {
        return Err(Denial::InvalidToken);
    }
    let token = header.substring_char(SCHEME_LENGTH, length);
    assert(token@ == header@.skip(SCHEME_LENGTH as int));
    match verify_token_at(token, authority.secrets(), now) {
        Ok(_) => {
            if !is_get && !same_text(content_type, "application/json") {
                return Err(Denial::WrongContentType);
            }
            Ok(())
        },
        Err(_) => Err(Denial::InvalidToken),
    }
}

/// The guard at the time the clock shows.
pub fn require_auth(
    authority: &TokenAuthority,
    authorization: Option<&str>,
    is_get: bool,
    content_type: Option<&str>,
) -> (r: Result<(), Denial>)
    ensures
        exists|now: int|
            clock_range(now) && r == #[trigger] guard_outcome(
                authority@.secrets,
                header_view(authorization),
                is_get,
                header_view(content_type),
                now,
            ),
{
    let now: i64 = unix_now();
    let r = require_auth_at(authority, authorization, is_get, content_type, now);
    assert(r == guard_outcome(
        authority@.secrets,
        header_view(authorization),
        is_get,
        header_view(content_type),
        now as int,
    ));
    r
}

/// Whether `url` has a `/` in it, so that it has a part in front of the
/// first one and a part behind it.
pub open spec fn has_two_parts(url: Seq<char>) -> bool {
    pieces(url, '/').len() >= 2
}

/// An address has two parts exactly where it holds a `/`.
pub proof fn two_parts_need_a_slash(url: Seq<char>)
    ensures
        has_two_parts(url) <==> url.contains('/'),
{
    pieces_tell_separators(url, '/');
}

/// The part of `url` that is screened: what stands in front of its second
/// `/`, or all of it where there is one `/` only.
pub open spec fn url_base(url: Seq<char>) -> Seq<char> {
    pieces(url, '/')[0] + seq!['/'] + pieces(url, '/')[1]
}

/// Whether the screened part of `url` holds one of `sites`.
pub open spec fn holds_site(url: Seq<char>, sites: Seq<Seq<char>>) -> bool {
    exists|k: int| 0 <= k < sites.len() && contains_text(url_base(url), #[trigger] sites[k])
}

/// Whether `url` is turned down: it has no `/` in it, so that there is
/// nothing to screen, or its screened part holds one of `sites`.
pub open spec fn is_screened_out(url: Seq<char>, sites: Seq<Seq<char>>) -> bool {
    !has_two_parts(url) || holds_site(url, sites)
}

/// The sites that a member's address may not be on.
pub open spec fn barred_user_sites() -> Seq<Seq<char>> {
    seq![
        "discord"@,
        "localhost"@,
        "127.0.0.1"@,
        "google"@,
        "twitter"@,
        "x.com"@,
        "reddit"@,
        "pixiv"@,
        "tumblr"@,
        "facebook"@,
        "instagram"@,
        "youtube"@,
        "tiktok"@,
        "snapchat"@,
        "pinterest"@,
        "github"@,
        "gitlab"@,
        "bitbucket"@,
        "medium"@,
        "linkedin"@,
        "stackoverflow"@,
        "stackexchange"@,
    ]
}

/// The sites that the picture of an advertisement may not be on.
pub open spec fn barred_ad_sites() -> Seq<Seq<char>> {
    seq![
        "discord"@,
        "localhost"@,
        "127.0.0.1"@,
        "discord"@,
        "catbox"@,
        "fileditch"@,
        "imageshack"@,
        "google"@,
        "imgbb"@,
        "gyazo"@,
        "twitter"@,
        "reddit"@,
        "pixiv"@,
        "tumblr"@,
    ]
}

/// The texts in `sites`.
pub open spec fn site_texts(sites: Seq<&'static str>) -> Seq<Seq<char>> {
    Seq::new(sites.len(), |k: int| sites[k]@)
}

/// Computes [`barred_user_sites`].
pub fn user_sites() -> (r: Vec<&'static str>)
    ensures
        site_texts(r@) == barred_user_sites(),
{
    let sites = vec![
        "discord",
        "localhost",
        "127.0.0.1",
        "google",
        "twitter",
        "x.com",
        "reddit",
        "pixiv",
        "tumblr",
        "facebook",
        "instagram",
        "youtube",
        "tiktok",
        "snapchat",
        "pinterest",
        "github",
        "gitlab",
        "bitbucket",
        "medium",
        "linkedin",
        "stackoverflow",
        "stackexchange",
    ];
    assert(site_texts(sites@) =~= barred_user_sites());
    sites
}

/// Computes [`barred_ad_sites`].
pub fn ad_sites() -> (r: Vec<&'static str>)
    ensures
        site_texts(r@) == barred_ad_sites(),
{
    let sites = vec![
        "discord",
        "localhost",
        "127.0.0.1",
        "discord",
        "catbox",
        "fileditch",
        "imageshack",
        "google",
        "imgbb",
        "gyazo",
        "twitter",
        "reddit",
        "pixiv",
        "tumblr",
    ];
    assert(site_texts(sites@) =~= barred_ad_sites());
    sites
}

/// Whether `url` is turned down on account of `sites`.
pub fn screen(url: &str, sites: &Vec<&'static str>) -> (r: bool)
    ensures
        r == is_screened_out(url@, site_texts(sites@)),
{
    let text = chars_of(url);
    let parts = split_text(&text, '/');
    if parts.len() < 2 {
        return true;
    }
    let mut base: Vec<char> = Vec::new();
    let mut n: usize = 0;
    while n < parts[0].len()
        invariant
            n <= parts@[0]@.len(),
            parts@.len() >= 2,
            base@ == parts@[0]@.take(n as int),
        decreases parts@[0]@.len() - n,
    {
        base.push(parts[0][n]);
        n += 1;
    }
    assert(parts@[0]@.take(n as int) =~= parts@[0]@);
    base.push('/');
    n = 0;
    while n < parts[1].len()
        invariant
            n <= parts@[1]@.len(),
            parts@.len() >= 2,
            base@ == parts@[0]@ + seq!['/'] + parts@[1]@.take(n as int),
        decreases parts@[1]@.len() - n,
    {
        base.push(parts[1][n]);
        assert(parts@[1]@.take(n + 1) =~= parts@[1]@.take(n as int).push(parts@[1]@[n as int]));
        n += 1;
    }
    assert(parts@[1]@.take(n as int) =~= parts@[1]@);
    assert(base@ == url_base(url@));
    let mut k: usize = 0;
    while k < sites.len()
        invariant
            k <= sites.len(),
            base@ == url_base(url@),
            has_two_parts(url@),
            forall|x: int| 0 <= x < k ==> !contains_text(base@, #[trigger] site_texts(sites@)[x]),
        decreases sites.len() - k,
    {
        let site = chars_of(sites[k]);
        assert(site@ == site_texts(sites@)[k as int]);
        if has_text(&base, &site) {
            return true;
        }
        k += 1;
    }
    false
}

} // verus!
