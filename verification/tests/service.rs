use spende::auth::AuthUser;
use spende::errors::create_error;
use spende::errors::ErrorBody;
use spende::store::Store;
use spende::store::RATIONAL_ONE;
use spende::token::clear_token;
use spende::token::create_token;
use spende::token::TokenJar;
use spende::users::create_user;
use spende::users::delete_user;
use spende::users::get_user;
use spende::users::login_user;
use spende::users::update_user;
use spende::users::LoginUser;
use spende::users::NewUser;
use spende::users::UpdateUser;
use spende::validated_json::invalid_body_error;
use spende::wallets::create_wallet;
use spende::wallets::delete_wallet;
use spende::wallets::get_wallets;
use spende::wallets::update_wallet;
use spende::wallets::NewWallet;

const KEY: &str = "test-signing-secret";

fn generator() -> snowflake_me::Snowflake {
    snowflake_me::Snowflake::builder()
        .machine_id(&|| Ok(7u16))
        .data_center_id(&|| Ok(3u16))
        .finalize()
        .expect("failed to build the id generator")
}

fn new_user(name: &str, username: &str, password: &str) -> NewUser {
    NewUser {
        name: name.to_string(),
        username: username.to_string(),
        password: password.to_string(),
    }
}

fn register(
    store: &mut Store,
    sf: &snowflake_me::Snowflake,
    jar: &mut TokenJar,
    name: &str,
    username: &str,
    password: &str,
) -> spende::users::PublicUser {
    create_user(store, sf, jar, KEY, &new_user(name, username, password)).expect("registration")
}

fn assert_error(e: &ErrorBody, code: u16, reason: &str, description: &str) {
    assert_eq!(e.code, code);
    assert_eq!(e.reason.as_str(), reason);
    assert_eq!(e.description.as_str(), description);
}

#[test]
fn register_sets_cookie_and_get_user_projects() {
    let sf = generator();
    let mut store = Store::new();
    let mut jar = TokenJar::new();
    let created = register(&mut store, &sf, &mut jar, "Ann", "ann", "pw1");
    assert_eq!(created.name.as_str(), "Ann");
    assert_eq!(created.username.as_str(), "ann");
    assert!(jar.token.is_some());

    let identity = AuthUser::from_request(&store, KEY, &jar).expect("cookie resolves");
    let shown = get_user(identity);
    assert_eq!(shown.id.as_str(), created.id.as_str());
    assert_eq!(shown.name.as_str(), "Ann");
    assert_eq!(shown.username.as_str(), "ann");
}

#[test]
fn login_round_trip_and_collapsed_failures() {
    let sf = generator();
    let mut store = Store::new();
    let mut jar = TokenJar::new();
    let created = register(&mut store, &sf, &mut jar, "Ann", "ann", "pw1");

    clear_token(&mut jar);
    let login = LoginUser { username: "ann".to_string(), password: "pw1".to_string() };
    let logged_in = login_user(&store, &mut jar, KEY, &login).expect("login succeeds");
    assert_eq!(logged_in.id.as_str(), created.id.as_str());
    let identity = AuthUser::from_request(&store, KEY, &jar).expect("cookie resolves");
    assert_eq!(identity.0.id.as_str(), created.id.as_str());

    let wrong_password = LoginUser { username: "ann".to_string(), password: "pw2".to_string() };
    let e1 = login_user(&store, &mut jar, KEY, &wrong_password).expect_err("wrong password");
    assert!(jar.token.is_none());
    let unknown_user = LoginUser { username: "bob".to_string(), password: "pw1".to_string() };
    let e2 = login_user(&store, &mut jar, KEY, &unknown_user).expect_err("unknown username");
    assert_error(&e1, 401, "Invalid credentials", "Invalid username or password");
    assert_eq!(e1.code, e2.code);
    assert_eq!(e1.reason, e2.reason);
    assert_eq!(e1.description, e2.description);
}

const BASE64URL: &[u8; 64] = b"ABCDEFGHIJKLMNOPQRSTUVWXYZabcdefghijklmnopqrstuvwxyz0123456789-_";

fn flip_base64url_byte(c: u8) -> u8 {
    let value = BASE64URL
        .iter()
        .position(|&a| a == c)
        .expect("signature byte is base64url");
    // Flipping this bit always lands inside the decoded signature's bits,
    // even in the final, partially-used symbol.
    BASE64URL[value ^ 16]
}

#[test]
fn tampered_token_signature_is_rejected() {
    let sf = generator();
    let mut store = Store::new();
    let mut jar = TokenJar::new();
    register(&mut store, &sf, &mut jar, "Ann", "ann", "pw1");

    let token = jar.token.clone().expect("cookie set");
    let signature_start = token.rfind('.').expect("token has a signature portion") + 1;
    assert!(signature_start < token.len());
    for i in signature_start..token.len() {
        let mut bytes = token.clone().into_bytes();
        bytes[i] = flip_base64url_byte(bytes[i]);
        let tampered = String::from_utf8(bytes).expect("still ascii");
        assert_ne!(tampered, token);
        let tampered_jar = TokenJar { token: Some(tampered) };
        let e = AuthUser::from_request(&store, KEY, &tampered_jar)
            .expect_err("tampered signature must not verify");
        assert_error(&e, 401, "Unauthorized", "Invalid token");
    }
}

#[test]
fn missing_cookie_is_unauthorized() {
    let store = Store::new();
    let jar = TokenJar::new();
    let e = AuthUser::from_request(&store, KEY, &jar).expect_err("no cookie");
    assert_error(&e, 401, "Unauthorized", "No token provided");
}

#[test]
fn unknown_subject_is_invalid_token() {
    let store = Store::new();
    let mut jar = TokenJar::new();
    create_token(&mut jar, KEY, "ghost-user");
    let e = AuthUser::from_request(&store, KEY, &jar).expect_err("subject not stored");
    assert_error(&e, 401, "Unauthorized", "Invalid token");
}

#[test]
fn wrong_key_is_invalid_token() {
    let sf = generator();
    let mut store = Store::new();
    let mut jar = TokenJar::new();
    register(&mut store, &sf, &mut jar, "Ann", "ann", "pw1");
    let e = AuthUser::from_request(&store, "another-secret", &jar).expect_err("wrong key");
    assert_error(&e, 401, "Unauthorized", "Invalid token");
}

#[test]
fn duplicate_username_is_rejected() {
    let sf = generator();
    let mut store = Store::new();
    let mut jar = TokenJar::new();
    register(&mut store, &sf, &mut jar, "Ann", "ann", "pw1");
    let e = create_user(&mut store, &sf, &mut jar, KEY, &new_user("Ann Again", "ann", "pw2"))
        .expect_err("duplicate username");
    assert_eq!(e.code, 422);
    assert_eq!(e.reason.as_str(), "Failed to create user");
}

#[test]
fn wallet_create_defaults_and_update_carries_over() {
    let sf = generator();
    let mut store = Store::new();
    let mut jar = TokenJar::new();
    register(&mut store, &sf, &mut jar, "Ann", "ann", "pw1");
    let ann = AuthUser::from_request(&store, KEY, &jar).expect("cookie resolves");

    let body = NewWallet {
        name: "Cash".to_string(),
        currency: "USD".to_string(),
        rational: None,
    };
    let cash = create_wallet(&mut store, &sf, &ann, &body).expect("create wallet");
    assert_eq!(cash.rational, RATIONAL_ONE);
    assert_eq!(cash.balance, 0);
    assert_eq!(cash.user_id.as_str(), ann.0.id.as_str());

    let scaled_body = NewWallet {
        name: "Points".to_string(),
        currency: "PTS".to_string(),
        rational: Some(2_500_000),
    };
    let points = create_wallet(&mut store, &sf, &ann, &scaled_body).expect("create wallet");
    assert_eq!(points.rational, 2_500_000);

    // Omitting `rational` on update preserves the stored value.
    let rename = NewWallet {
        name: "Loyalty".to_string(),
        currency: "PTS".to_string(),
        rational: None,
    };
    let renamed = update_wallet(&mut store, &ann, &points.id, &rename).expect("update wallet");
    assert_eq!(renamed.rational, 2_500_000);
    assert_eq!(renamed.name.as_str(), "Loyalty");
    assert_eq!(renamed.balance, 0);

    // Omitting it on create always yields the default, regardless of prior state.
    let another = NewWallet {
        name: "Spare".to_string(),
        currency: "PTS".to_string(),
        rational: None,
    };
    let spare = create_wallet(&mut store, &sf, &ann, &another).expect("create wallet");
    assert_eq!(spare.rational, RATIONAL_ONE);
}

#[test]
fn cross_user_wallet_access_is_not_found() {
    let sf = generator();
    let mut store = Store::new();
    let mut ann_jar = TokenJar::new();
    register(&mut store, &sf, &mut ann_jar, "Ann", "ann", "pw1");
    let ann = AuthUser::from_request(&store, KEY, &ann_jar).expect("ann resolves");

    let mut bob_jar = TokenJar::new();
    register(&mut store, &sf, &mut bob_jar, "Bob", "bob", "pw2");
    let bob = AuthUser::from_request(&store, KEY, &bob_jar).expect("bob resolves");

    let body = NewWallet {
        name: "Cash".to_string(),
        currency: "USD".to_string(),
        rational: None,
    };
    let cash = create_wallet(&mut store, &sf, &ann, &body).expect("create wallet");

    let delete_as_bob = delete_wallet(&mut store, &bob, &cash.id).expect_err("not bob's wallet");
    assert_error(&delete_as_bob, 404, "Wallet not found", "Wallet not found");
    let update_as_bob =
        update_wallet(&mut store, &bob, &cash.id, &body).expect_err("not bob's wallet");
    let missing_id = "no-such-wallet".to_string();
    let nonexistent = delete_wallet(&mut store, &bob, &missing_id).expect_err("nonexistent id");
    assert_eq!(delete_as_bob.code, nonexistent.code);
    assert_eq!(delete_as_bob.reason, nonexistent.reason);
    assert_eq!(delete_as_bob.description, nonexistent.description);
    assert_eq!(update_as_bob.code, nonexistent.code);

    // The wallet is untouched and still listed for its owner, and never for Bob.
    let anns = get_wallets(&store, &ann).expect("list");
    assert_eq!(anns.len(), 1);
    assert_eq!(anns[0].id.as_str(), cash.id.as_str());
    let bobs = get_wallets(&store, &bob).expect("list");
    assert!(bobs.is_empty());

    let delete_as_ann = delete_wallet(&mut store, &ann, &cash.id).expect("ann may delete");
    assert_eq!(delete_as_ann.id.as_str(), cash.id.as_str());
    assert!(get_wallets(&store, &ann).expect("list").is_empty());
}

#[test]
fn password_change_requires_and_checks_old_password() {
    let sf = generator();
    let mut store = Store::new();
    let mut jar = TokenJar::new();
    register(&mut store, &sf, &mut jar, "Ann", "ann", "pw1");
    let ann = AuthUser::from_request(&store, KEY, &jar).expect("cookie resolves");

    let missing_old = UpdateUser {
        name: None,
        username: None,
        password: Some("new".to_string()),
        old_password: None,
    };
    let e = update_user(&mut store, &ann, &missing_old).expect_err("old password required");
    assert_error(&e, 400, "Invalid request", "Old password is required");

    let wrong_old = UpdateUser {
        name: None,
        username: None,
        password: Some("new".to_string()),
        old_password: Some("nope".to_string()),
    };
    let e = update_user(&mut store, &ann, &wrong_old).expect_err("wrong old password");
    assert_error(&e, 401, "Invalid credentials", "Invalid old password");

    let correct = UpdateUser {
        name: None,
        username: None,
        password: Some("new".to_string()),
        old_password: Some("pw1".to_string()),
    };
    update_user(&mut store, &ann, &correct).expect("password change");

    let mut login_jar = TokenJar::new();
    let stale = LoginUser { username: "ann".to_string(), password: "pw1".to_string() };
    let e = login_user(&store, &mut login_jar, KEY, &stale).expect_err("old password is gone");
    assert_error(&e, 401, "Invalid credentials", "Invalid username or password");
    let fresh = LoginUser { username: "ann".to_string(), password: "new".to_string() };
    login_user(&store, &mut login_jar, KEY, &fresh).expect("new password works");
}

#[test]
fn profile_update_merges_provided_fields() {
    let sf = generator();
    let mut store = Store::new();
    let mut jar = TokenJar::new();
    let created = register(&mut store, &sf, &mut jar, "Ann", "ann", "pw1");
    let ann = AuthUser::from_request(&store, KEY, &jar).expect("cookie resolves");

    let rename = UpdateUser {
        name: Some("Anna".to_string()),
        username: None,
        password: None,
        old_password: None,
    };
    let updated = update_user(&mut store, &ann, &rename).expect("rename");
    assert_eq!(updated.id.as_str(), created.id.as_str());
    assert_eq!(updated.name.as_str(), "Anna");
    assert_eq!(updated.username.as_str(), "ann");

    let identity = AuthUser::from_request(&store, KEY, &jar).expect("cookie still resolves");
    assert_eq!(identity.0.name.as_str(), "Anna");
}

#[test]
fn deleting_the_account_clears_the_session() {
    let sf = generator();
    let mut store = Store::new();
    let mut jar = TokenJar::new();
    let created = register(&mut store, &sf, &mut jar, "Ann", "ann", "pw1");
    let ann = AuthUser::from_request(&store, KEY, &jar).expect("cookie resolves");

    let keep_token = jar.token.clone();
    let deleted = delete_user(&mut store, &mut jar, &ann).expect("account deletion");
    assert_eq!(deleted.id.as_str(), created.id.as_str());
    assert!(jar.token.is_none());

    // A still-valid token whose subject no longer exists collapses to the
    // generic invalid-token response.
    let stale_jar = TokenJar { token: keep_token };
    let e = AuthUser::from_request(&store, KEY, &stale_jar).expect_err("user is gone");
    assert_error(&e, 401, "Unauthorized", "Invalid token");
}

#[test]
fn error_envelope_holds_its_three_parts() {
    let e = create_error(418, "Teapot", "short and stout");
    assert_error(&e, 418, "Teapot", "short and stout");
    let body = invalid_body_error(422, "missing field `name`");
    assert_error(&body, 422, "Invalid Body", "missing field `name`");
}

#[test]
fn colliding_user_id_violates_the_key_constraint() {
    let mut store = Store::new();
    let mut jar = TokenJar::new();
    let hashed = bcrypt::hash("pw1", bcrypt::DEFAULT_COST).expect("hash");
    let name = "Ann".to_string();
    let username = "ann".to_string();
    spende::users::register_user(
        &mut store,
        &mut jar,
        KEY,
        "user-1".to_string(),
        hashed.clone(),
        &name,
        &username,
    )
    .expect("first insert");

    let other_name = "Bob".to_string();
    let other_username = "bob".to_string();
    let e = spende::users::register_user(
        &mut store,
        &mut jar,
        KEY,
        "user-1".to_string(),
        hashed,
        &other_name,
        &other_username,
    )
    .expect_err("same primary key");
    assert_eq!(e.code, 422);
    assert_eq!(e.reason.as_str(), "Failed to create user");
}

#[test]
fn colliding_wallet_id_violates_the_key_constraint() {
    let sf = generator();
    let mut store = Store::new();
    let mut jar = TokenJar::new();
    register(&mut store, &sf, &mut jar, "Ann", "ann", "pw1");
    let ann = AuthUser::from_request(&store, KEY, &jar).expect("cookie resolves");

    let body = NewWallet {
        name: "Cash".to_string(),
        currency: "USD".to_string(),
        rational: None,
    };
    spende::wallets::insert_wallet(&mut store, &ann, "wallet-1".to_string(), &body)
        .expect("first insert");
    let e = spende::wallets::insert_wallet(&mut store, &ann, "wallet-1".to_string(), &body)
        .expect_err("same primary key");
    assert_eq!(e.code, 422);
    assert_eq!(e.reason.as_str(), "Failed to create wallet");
    assert_eq!(get_wallets(&store, &ann).expect("list").len(), 1);
}

#[test]
fn exhausted_id_generator_is_internal_error() {
    // A generator whose time field is far too small for the elapsed time
    // fails every generation call.
    let exhausted = snowflake_me::Snowflake::builder()
        .machine_id(&|| Ok(1u16))
        .data_center_id(&|| Ok(1u16))
        .start_time(1)
        .bit_len_time(10)
        .bit_len_sequence(43)
        .finalize()
        .expect("generator builds");
    let e = spende::ids::generate_id(&exhausted).expect_err("time field exhausted");
    assert_eq!(e.code, 500);
    assert_eq!(e.reason.as_str(), "Failed to generate id");

    // The failure surfaces through wallet creation as the same internal
    // error, and nothing is stored.
    let sf = generator();
    let mut store = Store::new();
    let mut jar = TokenJar::new();
    register(&mut store, &sf, &mut jar, "Ann", "ann", "pw1");
    let ann = AuthUser::from_request(&store, KEY, &jar).expect("cookie resolves");
    let body = NewWallet {
        name: "Cash".to_string(),
        currency: "USD".to_string(),
        rational: None,
    };
    let e = create_wallet(&mut store, &exhausted, &ann, &body).expect_err("generator fails");
    assert_eq!(e.code, 500);
    assert_eq!(e.reason.as_str(), "Failed to generate id");
    assert!(get_wallets(&store, &ann).expect("list").is_empty());
}

#[test]
fn generated_ids_differ_between_calls() {
    let sf = generator();
    let first = spende::ids::generate_id(&sf).expect("id");
    let second = spende::ids::generate_id(&sf).expect("id");
    assert_ne!(first, second);
}
