use demeter::common::error::AppError;
use demeter::common::id::Id;
use demeter::common::password::{hash_password, verify_password, PASSWORD_HASH_COST};
use demeter::modules::auth::handlers::{
    authenticate, reject_taken_email, reject_taken_username, require_active_user,
    require_stored_refresh_token, validate_login, validate_registration,
};
use demeter::modules::auth::models::{
    AuthResponse, AuthUser, LoginRequest, RefreshToken, RegisterRequest,
};
use demeter::modules::user::handlers::{
    replacement_password_hash, temporary_password_from, validate_new_user,
};
use demeter::modules::user::models::{CreateUserParams, User};

const KNOWN_PASSWORD: &str = "correct horse";

fn known_hash() -> String {
    bcrypt::hash(KNOWN_PASSWORD, 4).unwrap()
}

fn moment() -> chrono::NaiveDateTime {
    chrono::DateTime::from_timestamp(1_700_000_000, 0).unwrap().naive_utc()
}

fn account(password: Option<String>, is_active: bool) -> AuthUser {
    AuthUser {
        id: Id(11),
        username: "ada".to_string(),
        password,
        full_name: "Ada L".to_string(),
        email: "ada@example.org".to_string(),
        phone: None,
        is_active,
        creator_id: Id(1),
        updater_id: None,
        create_date_time: moment(),
        update_date_time: None,
    }
}

fn refusal<T: std::fmt::Debug>(result: Result<T, AppError>) -> (u16, String) {
    result.unwrap_err().status_and_message()
}

fn register(username: &str, password: &str) -> RegisterRequest {
    RegisterRequest {
        username: username.to_string(),
        password: password.to_string(),
        full_name: "N".to_string(),
        email: "n@example.org".to_string(),
        phone: None,
    }
}

#[test]
fn registration_asks_for_a_name_and_six_bytes_of_password() {
    assert!(validate_registration(&register("ada", "123456")).is_ok());
    assert!(validate_registration(&register("a", "a long password")).is_ok());
    let empty = (400, "Username and password cannot be empty".to_string());
    assert_eq!(refusal(validate_registration(&register("", "123456"))), empty);
    assert_eq!(refusal(validate_registration(&register("ada", ""))), empty);
    assert_eq!(refusal(validate_registration(&register("", ""))), empty);
    let short = (400, "Password must be at least 6 characters".to_string());
    assert_eq!(refusal(validate_registration(&register("ada", "12345"))), short);
    assert_eq!(refusal(validate_registration(&register("ada", "a"))), short);
    // The length counts bytes: two letters of three bytes each are enough.
    assert!(validate_registration(&register("ada", "\u{4e2d}\u{6587}")).is_ok());
    assert_eq!(refusal(validate_registration(&register("ada", "\u{e9}\u{e9}"))), short);
}

#[test]
fn taken_names_and_addresses_are_refused() {
    assert!(reject_taken_username(false).is_ok());
    assert!(reject_taken_email(false).is_ok());
    assert_eq!(refusal(reject_taken_username(true)), (400, "Username already exists".to_string()));
    assert_eq!(refusal(reject_taken_email(true)), (400, "Email is already registered".to_string()));
}

#[test]
fn login_asks_for_a_name_and_a_password() {
    let ok = LoginRequest { username: "ada".to_string(), password: "x".to_string() };
    assert!(validate_login(&ok).is_ok());
    let empty = (400, "Username and password cannot be empty".to_string());
    let no_name = LoginRequest { username: String::new(), password: "x".to_string() };
    assert_eq!(refusal(validate_login(&no_name)), empty);
    let no_password = LoginRequest { username: "ada".to_string(), password: String::new() };
    assert_eq!(refusal(validate_login(&no_password)), empty);
}

#[test]
fn the_right_password_lets_an_active_account_in() {
    let admitted = authenticate(Some(account(Some(known_hash()), true)), KNOWN_PASSWORD).unwrap();
    assert_eq!(admitted.id, Id(11));
    assert_eq!(admitted.username, "ada");
}

#[test]
fn a_wrong_password_and_an_unknown_name_are_answered_alike() {
    let wrong = (401, "Incorrect username or password".to_string());
    assert_eq!(refusal(authenticate(Some(account(Some(known_hash()), true)), "wrong")), wrong);
    assert_eq!(refusal(authenticate(Some(account(Some(known_hash()), true)), "")), wrong);
    assert_eq!(refusal(authenticate(None, KNOWN_PASSWORD)), wrong);
}

#[test]
fn a_disabled_account_stays_out_even_with_the_right_password() {
    let disabled = (401, "User has been disabled".to_string());
    assert_eq!(
        refusal(authenticate(Some(account(Some(known_hash()), false)), KNOWN_PASSWORD)),
        disabled
    );
    assert_eq!(refusal(authenticate(Some(account(None, false)), KNOWN_PASSWORD)), disabled);
}

#[test]
fn an_account_without_a_readable_hash_is_a_fault_of_the_service() {
    assert_eq!(
        refusal(authenticate(Some(account(None, true)), KNOWN_PASSWORD)),
        (500, "User password data error".to_string())
    );
    let (status, message) =
        refusal(authenticate(Some(account(Some("not a hash".to_string()), true)), KNOWN_PASSWORD));
    assert_eq!(status, 500);
    assert!(message.starts_with("Password verification failed: "), "{}", message);
    assert!(message.len() > "Password verification failed: ".len());
}

#[test]
fn verify_password_tells_right_from_wrong() {
    let hash = known_hash();
    assert_eq!(verify_password(KNOWN_PASSWORD, &hash).ok(), Some(true));
    assert_eq!(verify_password("correct horse ", &hash).ok(), Some(false));
    assert_eq!(verify_password("", &hash).ok(), Some(false));
    let (status, message) = refusal(verify_password(KNOWN_PASSWORD, ""));
    assert_eq!(status, 500);
    assert!(message.starts_with("Password verification failed: "));
    // A password longer than the 72 bytes bcrypt looks at matches on its
    // beginning alone.
    let long = "x".repeat(80);
    let hash = bcrypt::hash(&long, 4).unwrap();
    assert_eq!(verify_password(&long[..72], &hash).ok(), Some(true));
    assert_eq!(verify_password(&long[..70], &hash).ok(), Some(false));
}

#[test]
fn hash_password_salts_each_hash_anew() {
    assert_eq!(PASSWORD_HASH_COST, bcrypt::DEFAULT_COST);
    let first = hash_password("s3cret!!").ok().unwrap();
    let second = hash_password("s3cret!!").ok().unwrap();
    assert_ne!(first, second);
    assert_ne!(first, "s3cret!!");
    assert!(first.starts_with("$2b$12$"), "{}", first);
    assert_eq!(first.len(), 60);
    assert_eq!(verify_password("s3cret!!", &first).ok(), Some(true));
    assert_eq!(verify_password("s3cret!", &second).ok(), Some(false));
}

#[test]
fn a_session_needs_an_account_that_is_there_and_active() {
    let user = User::from_account(account(Some("h".to_string()), true));
    let copy = user.clone();
    assert_eq!(copy.create_date_time, moment());
    assert_eq!(copy.username, "ada");
    assert_eq!(require_active_user(Some(copy)).unwrap().id, Id(11));
    assert_eq!(refusal(require_active_user(None)), (404, "User does not exist".to_string()));
    let disabled = User::from_account(account(None, false));
    assert_eq!(
        refusal(require_active_user(Some(disabled))),
        (401, "User has been disabled".to_string())
    );
    let response = AuthResponse { user };
    assert_eq!(response.user.username, "ada");
}

#[test]
fn an_account_becomes_a_user_outside_of_any_department() {
    let user = User::from_account(account(Some("h".to_string()), true));
    assert_eq!(user.id, Id(11));
    assert_eq!(user.username, "ada");
    assert_eq!(user.password.as_deref(), Some("h"));
    assert_eq!(user.full_name, "Ada L");
    assert_eq!(user.email, "ada@example.org");
    assert_eq!(user.phone, None);
    assert!(user.is_active);
    assert_eq!(user.department_id, None);
    assert_eq!(user.department_name, None);
    assert!(user.team_ids.is_empty());
    assert!(user.team_names.is_empty());
    assert_eq!(user.creator_id, Id(1));
    assert_eq!(user.updater_id, None);
    assert_eq!(user.create_date_time, moment());
    assert_eq!(user.update_date_time, None);
}

#[test]
fn an_unknown_refresh_token_is_refused() {
    let stored = RefreshToken {
        id: 1,
        user_id: 11,
        token: "t".to_string(),
        expires_at: moment(),
        created_at: moment(),
    };
    assert_eq!(require_stored_refresh_token(Some(stored)).unwrap().user_id, 11);
    assert_eq!(
        refusal(require_stored_refresh_token(None)),
        (401, "Invalid or expired refresh token".to_string())
    );
}

fn new_user(username: &str, password: &str) -> CreateUserParams {
    CreateUserParams {
        username: username.to_string(),
        password: password.to_string(),
        full_name: "N".to_string(),
        email: "n@example.org".to_string(),
        phone: None,
        department_id: None,
        team_ids: None,
        is_active: None,
    }
}

#[test]
fn an_administrator_sets_passwords_of_eight_bytes_or_more() {
    assert!(validate_new_user(&new_user("ada", "12345678")).is_ok());
    let empty = (400, "Username and password cannot be empty".to_string());
    assert_eq!(refusal(validate_new_user(&new_user("", "12345678"))), empty);
    assert_eq!(refusal(validate_new_user(&new_user("ada", ""))), empty);
    let short = (400, "Password must be at least 8 characters".to_string());
    assert_eq!(refusal(validate_new_user(&new_user("ada", "1234567"))), short);
    assert_eq!(refusal(validate_new_user(&new_user("ada", "x"))), short);
}

#[test]
fn an_update_changes_the_password_only_where_one_is_sent() {
    assert_eq!(replacement_password_hash(&None).ok(), Some(None));
    assert_eq!(replacement_password_hash(&Some(String::new())).ok(), Some(None));
    assert_eq!(
        refusal(replacement_password_hash(&Some("1234567".to_string()))),
        (400, "Password must be at least 8 characters".to_string())
    );
    let hash = replacement_password_hash(&Some("12345678".to_string())).ok().unwrap().unwrap();
    assert_ne!(hash, "12345678");
    assert_eq!(verify_password("12345678", &hash).ok(), Some(true));
}

#[test]
fn a_temporary_password_takes_nine_characters_past_the_hyphens() {
    assert_eq!(
        temporary_password_from("123e4567-e89b-42d3-a456-426614174000"),
        Some("Tmp123e4567e".to_string())
    );
    assert_eq!(temporary_password_from("abcdefghi"), Some("Tmpabcdefghi".to_string()));
    assert_eq!(temporary_password_from("a-b-c-d-e-f-g-h-i-j"), Some("Tmpabcdefghi".to_string()));
    assert_eq!(temporary_password_from("---------abcdefghijk"), Some("Tmpabcdefghi".to_string()));
    assert_eq!(temporary_password_from("abcdefgh"), None);
    assert_eq!(temporary_password_from("abcd-efgh-"), None);
    assert_eq!(temporary_password_from(""), None);
    // What the text is cut to is what removing the hyphens and slicing gives.
    let text = "0f8fad5b-d9cb-469f-a165-70867728950e";
    assert_eq!(
        temporary_password_from(text),
        Some(format!("Tmp{}", &text.replace('-', "")[..9]))
    );
}

#[test]
fn every_uuid_gives_a_temporary_password_of_twelve_characters() {
    let mut seen = std::collections::HashSet::new();
    for _ in 0..200 {
        let random = uuid::Uuid::new_v4().to_string();
        let password = temporary_password_from(&random).unwrap();
        assert_eq!(password.len(), 12);
        assert!(password.starts_with("Tmp"));
        assert_eq!(password[3..11], random[..8]);
        assert_eq!(password[11..], random[9..10]);
        assert!(password[3..].chars().all(|c| c.is_ascii_hexdigit() && !c.is_ascii_uppercase()));
        seen.insert(password);
    }
    assert!(seen.len() > 190);
    assert_eq!(
        temporary_password_from("00000000-0000-4000-8000-000000000000"),
        Some("Tmp000000000".to_string())
    );
}
