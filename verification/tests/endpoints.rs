use petring::api::lookup::{find_by_discord_id, find_by_username, has_position, pick};
use petring::api::protected::petads;
use petring::api::protected::petring as members;
use petring::api::protected::{
    ad_sites, post_bot_setup, post_refresh_tokens, require_auth, require_auth_at, screen, user_sites,
    BotRefreshRequest, BotSetupRequest, Denial, SCHEME_LENGTH,
};
use petring::api::public;
use petring::api::{
    to_shown_id, to_stored_id, AdEditRequest, AdResponse, AdSubmission, BulkUserDeleteRequest,
    PublicAdResponse, Refusal, Serializeableuser, UserEdit, UserResponse, UserSubmission,
};
use petring::authority::TokenAuthority;
use petring::database::{ads, users};
use petring::jess_museum;
use petring::jwt::TokenError;
use petring::ring::{seed_for, Predicate};
use petring::text::same_chars;
use rand::seq::IndexedRandom;
use rand::SeedableRng;

fn user(id: i32, name: &str, verified: bool) -> users::Model {
    users::Model {
        id,
        username: name.to_string(),
        discord_id: 100 + id as i64,
        url: format!("https://{}.example/home", name),
        verified,
        created_at: "2025-01-01T00:00:00+00:00".to_string(),
        edited_at: String::new(),
        verified_at: if verified { "2025-01-02T00:00:00+00:00".to_string() } else { String::new() },
    }
}

fn ad(id: i32, name: &str, verified: bool) -> ads::Model {
    ads::Model {
        id,
        username: name.to_string(),
        discord_id: 100 + id as i64,
        image_url: format!("https://{}.example/ad.png", name),
        ad_url: format!("https://{}.example/home", name),
        verified,
        created_at: "2025-01-01T00:00:00+00:00".to_string(),
        edited_at: String::new(),
        verified_at: if verified { "2025-01-02T00:00:00+00:00".to_string() } else { String::new() },
    }
}

fn store() -> Vec<users::Model> {
    vec![user(1, "ann", true), user(2, "bob", false), user(3, "cat", true), user(5, "dan", true)]
}

const NOW: &str = "2025-06-01T12:00:00+00:00";

#[test]
fn list_shows_the_verified_members() {
    let listed = public::get_all_users(&store());
    assert_eq!(
        listed.users,
        vec![
            Serializeableuser { username: "ann".to_string(), url: "https://ann.example/home".to_string() },
            Serializeableuser { username: "cat".to_string(), url: "https://cat.example/home".to_string() },
            Serializeableuser { username: "dan".to_string(), url: "https://dan.example/home".to_string() },
        ]
    );
    assert!(public::get_all_users(&Vec::new()).users.is_empty());
}

#[test]
fn member_is_found_by_name_verified_or_not() {
    let users = store();
    assert_eq!(public::get_user(&users, "bob").map(|m| m.id), Some(2));
    assert_eq!(public::get_user(&users, "ann").map(|m| m.url.clone()), Some("https://ann.example/home".to_string()));
    assert!(public::get_user(&users, "eve").is_none());
    assert!(public::get_user(&users, "Ann").is_none());
}

#[test]
fn forward_counts_everyone_and_back_counts_the_verified() {
    let users = store();
    assert_eq!(public::get_user_next(&users, "ann").map(|m| m.id), Some(2));
    assert_eq!(public::get_user_next(&users, "bob").map(|m| m.id), Some(3));
    assert_eq!(public::get_user_next(&users, "dan").map(|m| m.id), Some(1));
    assert!(public::get_user_next(&users, "eve").is_none());
    assert_eq!(public::get_user_prev(&users, "cat").map(|m| m.id), Some(1));
    assert_eq!(public::get_user_prev(&users, "ann").map(|m| m.id), Some(5));
    assert_eq!(public::get_user_prev(&users, "dan").map(|m| m.id), Some(3));
    assert!(public::get_user_prev(&users, "bob").is_none());
    assert!(public::get_user_prev(&users, "eve").is_none());
}

#[test]
fn random_pick_for_a_member_is_seeded_with_its_identifier() {
    let users = store();
    let verified: Vec<usize> = vec![0, 2, 3];
    for name in ["ann", "cat", "dan"] {
        let id = public::get_user(&users, name).unwrap().id;
        let mut generator = rand::rngs::StdRng::seed_from_u64(seed_for(id));
        let expected = users[*verified.choose(&mut generator).unwrap()].id;
        for _ in 0..5 {
            assert_eq!(public::get_user_random(&users, name).map(|m| m.id), Some(expected));
        }
    }
    assert!(public::get_user_random(&users, "bob").is_none());
    assert!(public::get_user_random(&users, "eve").is_none());
}

#[test]
fn random_member_and_random_ad_are_verified() {
    let users = store();
    for _ in 0..50 {
        assert!(public::get_random_user(&users).unwrap().verified);
    }
    assert!(public::get_random_user(&vec![user(2, "bob", false)]).is_none());
    let ads = vec![ad(1, "ann", false), ad(3, "cat", true)];
    for _ in 0..20 {
        assert_eq!(
            public::get_random_ad(&ads),
            Some(PublicAdResponse {
                username: "cat".to_string(),
                image_url: "https://cat.example/ad.png".to_string(),
                ad_url: "https://cat.example/home".to_string(),
            })
        );
    }
    assert_eq!(public::get_random_ad(&vec![ad(1, "ann", false)]), None);
    assert_eq!(public::get_random_ad(&Vec::new()), None);
}

#[test]
fn first_ring_goes_the_same_ways() {
    let member = |id: i32, name: &str, verified: bool| jess_museum::members::Model {
        id,
        username: name.to_string(),
        discord: format!("{}#0001", name),
        url: format!("https://{}.example/", name),
        verified,
    };
    let members = vec![member(1, "ann", true), member(2, "bob", false), member(3, "cat", true)];
    assert_eq!(jess_museum::api::get_member(&members, "bob").map(|m| m.id), Some(2));
    assert!(jess_museum::api::get_member(&members, "eve").is_none());
    assert_eq!(jess_museum::api::get_member_next(&members, "ann").map(|m| m.id), Some(2));
    assert_eq!(jess_museum::api::get_member_next(&members, "cat").map(|m| m.id), Some(1));
    assert_eq!(jess_museum::api::get_member_prev(&members, "ann").map(|m| m.id), Some(3));
    assert_eq!(jess_museum::api::get_member_prev(&members, "cat").map(|m| m.id), Some(1));
    assert!(jess_museum::api::get_member_prev(&members, "bob").is_none());
    let listed = jess_museum::api::get_all_members(&members);
    assert_eq!(listed.members.len(), 2);
    assert_eq!(listed.members[0].username, "ann");
    assert_eq!(listed.members[1].url, "https://cat.example/");
}

fn configured() -> (TokenAuthority, String) {
    let mut authority =
        TokenAuthority::new("bot".to_string(), "access".to_string(), "refresh".to_string());
    let pair = authority.bootstrap_at("bot", 1000, "id").unwrap();
    (authority, pair.access_token)
}

#[test]
fn guard_lets_a_valid_token_through() {
    let (authority, token) = configured();
    let header = format!("Bearer {}", token);
    assert_eq!(SCHEME_LENGTH, 7);
    assert_eq!(require_auth_at(&authority, Some(&header), true, None, 1000), Ok(()));
    assert_eq!(
        require_auth_at(&authority, Some(&header), false, Some("application/json"), 1300),
        Ok(())
    );
    // The seven characters in front of the token are not looked at.
    let odd = format!("Tokens:{}", token);
    assert_eq!(require_auth_at(&authority, Some(&odd), true, None, 1000), Ok(()));
}

#[test]
fn guard_turns_requests_down_in_order() {
    let (authority, token) = configured();
    let header = format!("Bearer {}", token);
    assert_eq!(
        require_auth_at(&authority, None, false, None, 1000),
        Err(Denial::NoAuthorization)
    );
    assert_eq!(
        require_auth_at(&authority, Some(&header), false, None, 1000),
        Err(Denial::MissingContentType)
    );
    assert_eq!(
        require_auth_at(&authority, Some(&header), false, Some("text/plain"), 1000),
        Err(Denial::WrongContentType)
    );
    assert_eq!(
        require_auth_at(&authority, Some(&header), false, Some("application/json; charset=utf-8"), 1000),
        Err(Denial::WrongContentType)
    );
    // A bad token is reported before a wrong content type.
    assert_eq!(
        require_auth_at(&authority, Some("Bearer a.b.c"), false, Some("text/plain"), 1000),
        Err(Denial::InvalidToken)
    );
    assert_eq!(
        require_auth_at(&authority, Some(&header), true, None, 1301),
        Err(Denial::InvalidToken)
    );
    assert_eq!(
        require_auth_at(&authority, Some("Bearer "), true, None, 1000),
        Err(Denial::InvalidToken)
    );
    // A header that is too short to hold a token is turned down like a bad token.
    for short in ["", "B", "Bearer", "\u{e9}\u{e9}\u{e9}"] {
        assert_eq!(
            require_auth_at(&authority, Some(short), true, None, 1000),
            Err(Denial::InvalidToken)
        );
        assert_eq!(
            require_auth_at(&authority, Some(short), false, None, 1000),
            Err(Denial::MissingContentType)
        );
    }
    // The scheme is seven characters, whatever they are.
    let odd = format!("\u{e9}\u{e9}\u{e9}\u{e9}\u{e9}\u{e9}\u{e9}{}", token);
    assert_eq!(require_auth_at(&authority, Some(&odd), true, None, 1000), Ok(()));
    // A request with GET needs no content type, and a wrong one does no harm.
    assert_eq!(require_auth_at(&authority, Some(&header), true, Some("text/plain"), 1000), Ok(()));
}

#[test]
fn addresses_are_screened_up_to_the_second_slash() {
    let sites = user_sites();
    assert_eq!(sites.len(), 22);
    assert_eq!(ad_sites().len(), 14);
    // An address without a slash cannot be screened and is turned down.
    assert!(screen("no-slash", &sites));
    assert!(screen("", &sites));
    assert!(screen("example.org", &Vec::new()));
    assert!(!screen("example.org/", &Vec::new()));
    assert!(!screen("/", &sites));
    // With a scheme, the screened part ends before the host.
    assert!(!screen("https://discord.com/invite", &sites));
    assert!(!screen("https://github.com/someone", &sites));
    // Without one, it holds the host and one step of the path.
    assert!(screen("discord.com/invite/abc", &sites));
    assert!(screen("my.site/github/page", &sites));
    assert!(screen("x.com/someone", &sites));
    assert!(!screen("my.site/page/github", &sites));
    assert!(!screen("example.org/home", &sites));
    assert!(screen("localhost/", &sites));
    assert!(screen("/127.0.0.1", &sites));
    assert!(screen("files.catbox.moe/a.png", &ad_sites()));
    assert!(!screen("files.catbox.moe/a.png", &sites));
    assert!(!screen("github.com/a.png", &ad_sites()));
}

#[test]
fn principals_keep_their_bits() {
    assert_eq!(to_stored_id(5), 5);
    assert_eq!(to_shown_id(5), 5);
    assert_eq!(to_stored_id(u64::MAX), -1);
    assert_eq!(to_shown_id(-1), u64::MAX);
    assert_eq!(to_stored_id(1 << 63), i64::MIN);
    assert_eq!(to_shown_id(to_stored_id(12_345_678_901_234_567_890)), 12_345_678_901_234_567_890);
}

#[test]
fn lookups_find_the_first_match() {
    let mut users = store();
    users.push(user(9, "ann", true));
    users[4].discord_id = 101;
    assert_eq!(find_by_discord_id(&users, 101), Some(0));
    assert_eq!(find_by_discord_id(&users, 105), Some(3));
    assert_eq!(find_by_discord_id(&users, 7), None);
    let name: Vec<char> = "ann".chars().collect();
    assert_eq!(find_by_username(&users, &name), Some(0));
    let missing: Vec<char> = "an".chars().collect();
    assert_eq!(find_by_username(&users, &missing), None);
    assert!(has_position(&vec![3, 1], 1));
    assert!(!has_position(&vec![3, 1], 2));
    assert!(same_chars(&name, &name));
    assert!(!same_chars(&name, &missing));
}

fn shown(user: &users::Model) -> UserResponse {
    UserResponse {
        username: user.username.clone(),
        discord_id: user.discord_id as u64,
        url: user.url.clone(),
        verified: user.verified,
        created_at: user.created_at.clone(),
        edited_at: user.edited_at.clone(),
        verified_at: user.verified_at.clone(),
    }
}

#[test]
fn member_of_a_principal() {
    let users = store();
    assert_eq!(UserResponse::of(&users[0]), shown(&users[0]));
    assert_eq!(members::get_user_by_discord_id(&users, 101), Ok(shown(&users[0])));
    assert_eq!(members::get_user_by_discord_id(&users, 102), Err(Refusal::NotVerified));
    assert_eq!(members::get_user_by_discord_id(&users, 104), Err(Refusal::NotFound));
    let mut unverified = shown(&users[1]);
    unverified.verified = false;
    assert_eq!(members::get_user_by_discord_id_unverified(&users, 102), Ok(unverified));
    // A verified member is shown as not verified here too.
    let mut hidden = shown(&users[0]);
    hidden.verified = false;
    assert_eq!(members::get_user_by_discord_id_unverified(&users, 101), Ok(hidden));
    assert_eq!(members::get_user_by_discord_id_unverified(&users, 104), Err(Refusal::NotFound));
}

#[test]
fn members_are_removed_by_name_and_by_principal() {
    let users = store();
    let removal = members::delete_user_by_username(&users, "cat").unwrap();
    assert_eq!(removal.id, 3);
    assert_eq!(removal.response, shown(&users[2]));
    assert_eq!(members::delete_user_by_username(&users, "eve"), Err(Refusal::NotFound));
    let removal = members::delete_user_by_discord_id(&users, 105).unwrap();
    assert_eq!(removal.id, 5);
    assert_eq!(removal.response, shown(&users[3]));
    assert_eq!(members::delete_user_by_discord_id(&users, 0), Err(Refusal::NotFound));
}

#[test]
fn several_members_are_removed_at_once() {
    let users = store();
    let request = BulkUserDeleteRequest {
        discord_ids: Some(vec![105, 101]),
        usernames: Some(vec!["bob".to_string(), "ann".to_string(), "bob".to_string()]),
    };
    let removal = members::bulk_delete_users(&users, &request).unwrap();
    assert_eq!(removal.ids, vec![5, 1, 2]);
    assert_eq!(removal.response.message, "Users deleted");
    assert_eq!(removal.response.discord_ids, vec![105, 101, 102]);
    assert_eq!(removal.response.usernames, vec!["dan", "ann", "bob"]);
    assert_eq!(pick(&users, &request.discord_ids, &request.usernames), Some(vec![3, 0, 1]));

    // Principals may repeat; names that have come before do not.
    let twice = BulkUserDeleteRequest { discord_ids: Some(vec![101, 101]), usernames: None };
    assert_eq!(members::bulk_delete_users(&users, &twice).unwrap().ids, vec![1, 1]);

    let nothing = BulkUserDeleteRequest { discord_ids: None, usernames: None };
    let removal = members::bulk_delete_users(&users, &nothing).unwrap();
    assert!(removal.ids.is_empty());
    assert!(removal.response.usernames.is_empty());

    let missing = BulkUserDeleteRequest { discord_ids: Some(vec![101, 7]), usernames: None };
    assert_eq!(members::bulk_delete_users(&users, &missing), Err(Refusal::NotFound));
    let missing = BulkUserDeleteRequest {
        discord_ids: Some(vec![101]),
        usernames: Some(vec!["eve".to_string()]),
    };
    assert_eq!(members::bulk_delete_users(&users, &missing), Err(Refusal::NotFound));
}

#[test]
fn member_is_verified_at_the_given_time() {
    let users = store();
    let mut expected = shown(&users[1]);
    expected.verified = true;
    expected.verified_at = NOW.to_string();
    assert_eq!(members::put_user_verify(&users, 102, NOW), Ok(expected));
    assert_eq!(members::put_user_verify(&users, 7, NOW), Err(Refusal::NotFound));
}

#[test]
fn new_member_must_be_new() {
    let users = store();
    let submission = |name: &str, discord_id: u64| UserSubmission {
        username: name.to_string(),
        url: "https://new.example/".to_string(),
        discord_id,
    };
    assert_eq!(
        members::post_user_submit(&users, &submission("eve", 200), NOW),
        Ok(UserResponse {
            username: "eve".to_string(),
            discord_id: 200,
            url: "https://new.example/".to_string(),
            verified: false,
            created_at: NOW.to_string(),
            edited_at: String::new(),
            verified_at: String::new(),
        })
    );
    assert_eq!(members::post_user_submit(&users, &submission("ann", 200), NOW), Err(Refusal::Conflict));
    assert_eq!(members::post_user_submit(&users, &submission("eve", 102), NOW), Err(Refusal::Conflict));
    // The name that is checked is the name that is stored, blanks and dots and all.
    let mut raw = store();
    raw.push(user(6, "e.v e", true));
    assert_eq!(members::post_user_submit(&raw, &submission("e.v e", 200), NOW), Err(Refusal::Conflict));
    let mut dotted = store();
    dotted.push(user(6, "e_v_e", true));
    let taken = members::post_user_submit(&dotted, &submission("e.v e", 200), NOW).unwrap();
    assert_eq!(taken.username, "e.v e");
    assert_eq!(members::post_user_submit(&users, &submission("Ann", 200), NOW).unwrap().username, "Ann");
}

#[test]
fn member_is_edited() {
    let users = store();
    let edit = UserEdit {
        discord_id: 103,
        username: Some("kit".to_string()),
        url: Some("kit.example/home".to_string()),
    };
    let revision = members::put_user_edit(&users, &edit, NOW).unwrap();
    let mut record = users[2].clone();
    record.username = "kit".to_string();
    record.url = "kit.example/home".to_string();
    record.edited_at = NOW.to_string();
    assert_eq!(revision.record, record);
    assert_eq!(revision.response.old, shown(&users[2]));
    let mut new = shown(&record);
    new.verified = true;
    assert_eq!(revision.response.new, new);

    // The answer shows an edited member as verified, whatever the record says.
    let edit = UserEdit { discord_id: 102, username: Some("rob".to_string()), url: None };
    let revision = members::put_user_edit(&users, &edit, NOW).unwrap();
    assert!(!revision.record.verified);
    assert!(revision.response.new.verified);
    assert!(!revision.response.old.verified);
    assert_eq!(revision.record.url, users[1].url);
    assert_eq!(revision.record.username, "rob");
}

#[test]
fn edits_are_turned_down() {
    let users = store();
    let nothing = UserEdit { discord_id: 103, username: None, url: None };
    assert_eq!(members::put_user_edit(&users, &nothing, NOW), Err(Refusal::NotModified));
    let unknown = UserEdit { discord_id: 7, username: Some("kit".to_string()), url: None };
    assert_eq!(members::put_user_edit(&users, &unknown, NOW), Err(Refusal::NotFound));
    let unknown_nothing = UserEdit { discord_id: 7, username: None, url: None };
    assert_eq!(members::put_user_edit(&users, &unknown_nothing, NOW), Err(Refusal::NotFound));
    let barred = UserEdit { discord_id: 103, username: None, url: Some("github.com/cat".to_string()) };
    assert_eq!(members::put_user_edit(&users, &barred, NOW), Err(Refusal::InvalidUrl));
    // A new address without a slash cannot be screened and is turned down.
    let bare = UserEdit { discord_id: 103, username: Some("kit".to_string()), url: Some("elsewhere".to_string()) };
    assert_eq!(members::put_user_edit(&users, &bare, NOW), Err(Refusal::InvalidUrl));
    // An address that stays is not screened.
    let mut hosted = store();
    hosted[2].url = "github.com/cat".to_string();
    let same = UserEdit { discord_id: 103, username: None, url: Some("github.com/cat".to_string()) };
    let revision = members::put_user_edit(&hosted, &same, NOW).unwrap();
    assert_eq!(revision.record.url, "github.com/cat");
    assert_eq!(revision.record.edited_at, NOW);
}

fn shown_ad(ad: &ads::Model) -> AdResponse {
    AdResponse {
        username: ad.username.clone(),
        discord_id: ad.discord_id as u64,
        image_url: ad.image_url.clone(),
        ad_url: ad.ad_url.clone(),
        verified: ad.verified,
        created_at: ad.created_at.clone(),
        edited_at: ad.edited_at.clone(),
        verified_at: ad.verified_at.clone(),
    }
}

#[test]
fn ad_is_placed_by_a_verified_member_once() {
    let users = store();
    let ads = vec![ad(1, "ann", true)];
    let submission = |discord_id: u64, image: &str| AdSubmission { image_url: image.to_string(), discord_id };
    assert_eq!(
        petads::post_ad_submit(&users, &ads, &submission(103, "img.example/cat.png"), NOW),
        Ok(AdResponse {
            username: "cat".to_string(),
            discord_id: 103,
            image_url: "img.example/cat.png".to_string(),
            ad_url: "https://cat.example/home".to_string(),
            verified: false,
            created_at: NOW.to_string(),
            edited_at: String::new(),
            verified_at: String::new(),
        })
    );
    assert_eq!(
        petads::post_ad_submit(&users, &ads, &submission(7, "img.example/x.png"), NOW),
        Err(Refusal::NotFound)
    );
    assert_eq!(
        petads::post_ad_submit(&users, &ads, &submission(102, "img.example/x.png"), NOW),
        Err(Refusal::NotVerified)
    );
    assert_eq!(
        petads::post_ad_submit(&users, &ads, &submission(101, "img.example/x.png"), NOW),
        Err(Refusal::Conflict)
    );
    assert_eq!(
        petads::post_ad_submit(&users, &ads, &submission(103, "i.imgbb.com/x.png"), NOW),
        Err(Refusal::InvalidUrl)
    );
    // An address without a slash is turned down, after the refusals that come before the screening.
    assert_eq!(petads::post_ad_submit(&users, &ads, &submission(7, "x"), NOW), Err(Refusal::NotFound));
    assert_eq!(petads::post_ad_submit(&users, &ads, &submission(102, "x"), NOW), Err(Refusal::NotVerified));
    assert_eq!(petads::post_ad_submit(&users, &ads, &submission(101, "x"), NOW), Err(Refusal::Conflict));
    assert_eq!(petads::post_ad_submit(&users, &ads, &submission(103, "x"), NOW), Err(Refusal::InvalidUrl));
}

#[test]
fn ad_is_verified_edited_and_removed() {
    let ads = vec![ad(1, "ann", true), ad(2, "bob", false), ad(3, "cat", true)];
    assert_eq!(AdResponse::of(&ads[0]), shown_ad(&ads[0]));

    let mut verified = shown_ad(&ads[1]);
    verified.verified = true;
    verified.verified_at = NOW.to_string();
    assert_eq!(petads::put_ad_verify(&ads, 102, NOW), Ok(verified));
    assert_eq!(petads::put_ad_verify(&ads, 7, NOW), Err(Refusal::NotFound));

    let edit = |discord_id: u64, url: Option<&str>| AdEditRequest { discord_id, url: url.map(|u| u.to_string()) };
    let revision = petads::put_ad_edit(&ads, &edit(103, Some("img.example/new.png")), NOW).unwrap();
    let mut record = ads[2].clone();
    record.image_url = "img.example/new.png".to_string();
    record.edited_at = NOW.to_string();
    assert_eq!(revision.record, record);
    assert_eq!(revision.response, shown_ad(&record));
    // Only a verified advertisement is edited.
    assert_eq!(petads::put_ad_edit(&ads, &edit(102, Some("img.example/new.png")), NOW), Err(Refusal::NotFound));
    assert_eq!(petads::find_verified_ad(&ads, 102), None);
    assert_eq!(petads::find_verified_ad(&ads, 103), Some(2));
    assert_eq!(petads::put_ad_edit(&ads, &edit(103, None), NOW), Err(Refusal::NotModified));
    assert_eq!(petads::put_ad_edit(&ads, &edit(7, None), NOW), Err(Refusal::NotFound));
    assert_eq!(petads::put_ad_edit(&ads, &edit(103, Some("gyazo.com/x.png")), NOW), Err(Refusal::InvalidUrl));
    assert_eq!(petads::put_ad_edit(&ads, &edit(103, Some("no-slash")), NOW), Err(Refusal::InvalidUrl));
    // An address that stays is not screened, and the time of the edit is still recorded.
    let same = petads::put_ad_edit(&ads, &edit(103, Some("https://cat.example/ad.png")), NOW).unwrap();
    assert_eq!(same.record.image_url, ads[2].image_url);
    assert_eq!(same.record.edited_at, NOW);

    let removal = petads::delete_ad_by_discord_id(&ads, 102).unwrap();
    assert_eq!(removal.id, 2);
    assert_eq!(removal.response, shown_ad(&ads[1]));
    assert_eq!(petads::delete_ad_by_discord_id(&ads, 7), Err(Refusal::NotFound));
    let removal = petads::delete_ad_by_username(&ads, "cat").unwrap();
    assert_eq!(removal.id, 3);
    assert_eq!(petads::delete_ad_by_username(&ads, "eve"), Err(Refusal::NotFound));

    let request = BulkUserDeleteRequest {
        discord_ids: Some(vec![103]),
        usernames: Some(vec!["cat".to_string(), "ann".to_string()]),
    };
    let removal = petads::bulk_delete_ads(&ads, &request).unwrap();
    assert_eq!(removal.ids, vec![3, 1]);
    assert_eq!(removal.response.message, "Ads deleted");
    assert_eq!(removal.response.discord_ids, vec![103, 101]);
    assert_eq!(removal.response.usernames, vec!["cat", "ann"]);
    assert_eq!(
        removal.response.image_urls,
        vec!["https://cat.example/ad.png", "https://ann.example/ad.png"]
    );
    let missing = BulkUserDeleteRequest { discord_ids: None, usernames: Some(vec!["eve".to_string()]) };
    assert_eq!(petads::bulk_delete_ads(&ads, &missing), Err(Refusal::NotFound));
}

#[test]
fn records_take_part_by_their_flag() {
    let users = store();
    assert!(Predicate::Verified.accepts(&users[0]));
    assert!(!Predicate::Verified.accepts(&users[1]));
    let ads = vec![ad(1, "ann", false)];
    assert!(!Predicate::Verified.accepts(&ads[0]));
    assert!(Predicate::Any.accepts(&ads[0]));
}

#[test]
fn guard_with_the_clock() {
    let mut authority =
        TokenAuthority::new("bot".to_string(), "access".to_string(), "refresh".to_string());
    let pair = authority.bootstrap("bot").unwrap();
    let header = format!("Bearer {}", pair.access_token);
    assert_eq!(require_auth(&authority, Some(&header), true, None), Ok(()));
    assert_eq!(require_auth(&authority, None, true, None), Err(Denial::NoAuthorization));
    let (stale, token) = configured();
    let header = format!("Bearer {}", token);
    assert_eq!(require_auth(&stale, Some(&header), true, None), Err(Denial::InvalidToken));
}

#[test]
fn bot_sets_up_once_and_exchanges_its_tokens() {
    let mut authority =
        TokenAuthority::new("bot".to_string(), "access".to_string(), "refresh".to_string());
    let exchange = BotRefreshRequest { refresh_token: "a.b.c".to_string(), access_token: "x".to_string() };
    assert_eq!(post_refresh_tokens(&mut authority, &exchange), Err(TokenError::NotConfigured));
    let wrong = BotSetupRequest { bot_token: "guess".to_string() };
    assert_eq!(post_bot_setup(&mut authority, &wrong), Err(TokenError::Unauthorized));
    let setup = BotSetupRequest { bot_token: "bot".to_string() };
    let pair = post_bot_setup(&mut authority, &setup).unwrap();
    assert_eq!(pair.refresh_token_expires_at - pair.access_token_expires_at, 86100);
    assert_eq!(post_bot_setup(&mut authority, &setup), Err(TokenError::AlreadyConfigured));
    assert_eq!(
        post_refresh_tokens(&mut authority, &exchange),
        Err(TokenError::InvalidSignature)
    );
    let exchange = BotRefreshRequest {
        refresh_token: pair.refresh_token.clone(),
        access_token: pair.access_token.clone(),
    };
    assert!(post_refresh_tokens(&mut authority, &exchange).is_ok());
    assert_eq!(authority.verify(&pair.access_token), Err(TokenError::Revoked));
}
