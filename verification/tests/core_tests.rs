use auth_core::auth::{LoginRedirect, auth, handle_login, is_valid_client_token, session_auth, token_auth};
use auth_core::authz::{HttpMethod, PermissionExpr, authorize};
use auth_core::error::{DbErrorKind, Error, db_code_detail, db_error, db_error_json};
use auth_core::identity::{GUEST_ID, ResolveStep, User, resolve_loaded, resolve_principal};
use auth_core::model::{ClientModel, Uid, UserTransportModel};
use auth_core::schema::{LoginPayload, SendCode, send_code};
use auth_core::session::{Session, SessionStore};
use auth_core::token::{TOKEN_LENGTH, generate_random_string, generate_token, random_state_string, token_is_valid};
use auth_core::users::UserDirectory;

#[test]
fn lib_it_works() {
    let result = auth_core::add(2, 2);
    assert_eq!(result, 4);
}

#[test]
fn resolve_none_is_anonymous_guest() {
    match resolve_principal(None) {
        ResolveStep::Resolved(u) => {
            assert!(u.anonymous);
            assert_eq!(u.id.value, GUEST_ID);
            assert_eq!(u.username, "Guest");
            assert_eq!(u.permissions.len(), 1);
            assert!(u.permissions.has(&"Category::View".to_owned()));
            assert!(!u.permissions.has(&"Admin::View".to_owned()));
        }
        ResolveStep::Lookup(_) => panic!("an absent principal must resolve with no lookup"),
    }
}

#[test]
fn resolve_some_asks_for_lookup() {
    let id = Uid { value: 7 };
    match resolve_principal(Some(id)) {
        ResolveStep::Lookup(l) => assert_eq!(l, id),
        ResolveStep::Resolved(_) => panic!("a bound principal must be looked up"),
    }
}

#[test]
fn resolve_loaded_success_grants_admin() {
    let fetched = Ok(UserTransportModel { id: Uid { value: 3 }, name: "taro".to_owned() });
    let u = resolve_loaded(fetched);
    assert!(!u.anonymous);
    assert_eq!(u.id.value, 3);
    assert_eq!(u.username, "taro");
    assert_eq!(u.permissions.len(), 2);
    assert!(u.permissions.has(&"Category::View".to_owned()));
    assert!(u.permissions.has(&"Admin::View".to_owned()));
}

#[test]
fn resolve_loaded_failure_degrades_to_guest() {
    let u = resolve_loaded(Err(Error::NotFound));
    assert!(u.anonymous);
    assert_eq!(u.username, "Guest");
    assert_eq!(u.id.value, GUEST_ID);
    assert_eq!(u.permissions.len(), 1);
}

#[test]
fn register_then_validate_succeeds() {
    let mut users = UserDirectory::new();
    let payload = LoginPayload { name: "alice".to_owned(), password: "secret123".to_owned() };
    let created = users.create_user(&payload).expect("registration must succeed");
    assert_eq!(created.name, "alice");

    let validated = users.validate_credentials(&payload).expect("the registered pair must validate");
    assert_eq!(validated.id, created.id);
    assert_eq!(validated.name, "alice");
}

#[test]
fn validate_with_wrong_password_is_unauthorized() {
    let mut users = UserDirectory::new();
    let payload = LoginPayload { name: "alice".to_owned(), password: "secret123".to_owned() };
    users.create_user(&payload).expect("registration must succeed");

    let wrong = LoginPayload { name: "alice".to_owned(), password: "secret124".to_owned() };
    assert_eq!(users.validate_credentials(&wrong), Err(Error::Unauthorized));

    let unknown = LoginPayload { name: "bob".to_owned(), password: "secret123".to_owned() };
    assert_eq!(users.verify_credentials(&unknown), Err(Error::Unauthorized));
}

#[test]
fn duplicate_registration_is_a_conflict() {
    let mut users = UserDirectory::new();
    let payload = LoginPayload { name: "alice".to_owned(), password: "secret123".to_owned() };
    users.create_user(&payload).expect("registration must succeed");
    let again = LoginPayload { name: "alice".to_owned(), password: "other".to_owned() };
    assert_eq!(users.create_user(&again), Err(Error::Conflict));
}

#[test]
fn get_user_finds_registered_record() {
    let mut users = UserDirectory::new();
    let payload = LoginPayload { name: "taro".to_owned(), password: "pw".to_owned() };
    let created = users.create_user(&payload).unwrap();
    let fetched = users.get_user(created.id).unwrap();
    assert_eq!(fetched, created);
    assert_eq!(users.get_user(Uid { value: 999 }), Err(Error::NotFound));
}

#[test]
fn view_delegates_to_the_store() {
    let mut users = UserDirectory::new();
    let payload = LoginPayload { name: "taro".to_owned(), password: "pw".to_owned() };
    let created = users.create_user(&payload).unwrap();
    let viewed = auth_core::users::view(&users, created.id).unwrap();
    assert_eq!(viewed, created);
}

#[test]
fn tokens_have_fixed_length_and_alphabet() {
    let t = generate_token();
    assert_eq!(t.len(), TOKEN_LENGTH);
    assert!(t.chars().all(|c| c.is_ascii_alphanumeric()));

    let s = generate_random_string(64);
    assert_eq!(s.len(), 64);
    assert!(s.chars().all(|c| c.is_ascii_alphanumeric()));

    let state = random_state_string();
    assert_eq!(state.len(), 30);
    assert!(state.chars().all(|c| c.is_ascii_alphanumeric()));
}

#[test]
fn ten_thousand_tokens_have_no_duplicates() {
    let mut seen = std::collections::HashSet::new();
    for _ in 0..10_000 {
        let t = generate_token();
        assert!(seen.insert(t), "a freshly drawn token repeated");
    }
}

#[test]
fn authorize_checks_intersection() {
    let user = resolve_loaded(Ok(UserTransportModel { id: Uid { value: 1 }, name: "alice".to_owned() }));
    let admin_only = PermissionExpr::Any(vec!["Admin::View".to_owned()]);
    assert!(authorize(&user, HttpMethod::Get, &admin_only));

    let guest = User::default();
    let admin_only = PermissionExpr::Any(vec!["Admin::View".to_owned()]);
    assert!(!authorize(&guest, HttpMethod::Get, &admin_only));

    let base_only = PermissionExpr::Any(vec!["Category::View".to_owned()]);
    assert!(authorize(&guest, HttpMethod::Get, &base_only));

    let both = PermissionExpr::All(vec!["Category::View".to_owned(), "Admin::View".to_owned()]);
    assert!(!authorize(&guest, HttpMethod::Post, &both));
    assert!(authorize(&user, HttpMethod::Post, &both));

    let none = PermissionExpr::Any(Vec::new());
    assert!(!authorize(&user, HttpMethod::Delete, &none));
}

#[test]
fn session_binding_is_last_write_wins() {
    let mut store = SessionStore::new();
    let cookie = "session-cookie".to_owned();
    let a = Uid { value: 1 };
    let b = Uid { value: 2 };
    store.bind(&cookie, Some(a));
    assert_eq!(store.current_principal(&cookie), Some(a));
    store.bind(&cookie, Some(b));
    assert_eq!(store.current_principal(&cookie), Some(b));

    let other = "another-cookie".to_owned();
    assert_eq!(store.current_principal(&other), None);
    assert!(store.is_anonymous(&other));
    assert!(!store.is_anonymous(&cookie));
}

#[test]
fn single_session_overwrites_binding() {
    let mut session = Session::new();
    assert!(session.is_anonymous());
    session.login_user(Some(Uid { value: 5 }));
    session.login_user(Some(Uid { value: 6 }));
    assert_eq!(session.current_principal(), Some(Uid { value: 6 }));
    session.login_user(None);
    assert!(session.is_anonymous());
}

#[test]
fn middleware_checks_decide_as_documented() {
    assert!(token_is_valid(&"anything".to_owned()));
    assert_eq!(auth(&"anything".to_owned()), Ok(()));

    let client = ClientModel {
        id: Uid { value: 1 },
        name: "ci".to_owned(),
        user_id: Uid { value: 2 },
        token: "tok".to_owned(),
    };
    assert_eq!(token_auth(Ok(client.clone())), Ok(client));
    assert_eq!(token_auth(Err(Error::NotFound)), Err(Error::Unauthorized));
    assert_eq!(token_auth(Err(Error::InternalServerError)), Err(Error::Unauthorized));

    let guest = User::default();
    assert_eq!(session_auth(&guest), Err(Error::Unauthorized));
    let user = resolve_loaded(Ok(UserTransportModel { id: Uid { value: 1 }, name: "n".to_owned() }));
    assert_eq!(session_auth(&user), Ok(()));
}

#[test]
fn client_token_lookup_goes_through_the_store() {
    let mut clients = auth_core::clients::ClientDirectory::new();
    let created = clients.create_client(Uid { value: 9 }, "ci".to_owned()).unwrap();
    let found = is_valid_client_token(&clients, &created.token).unwrap();
    assert_eq!(found.user_id.value, 9);
    assert_eq!(is_valid_client_token(&clients, &"absent".to_owned()), Err(Error::NotFound));
}

#[test]
fn login_outcome_binds_session_and_redirects() {
    let mut session = Session::new();
    let user = UserTransportModel { id: Uid { value: 4 }, name: "alice".to_owned() };
    let r = handle_login(&mut session, Ok(user));
    assert_eq!(r, LoginRedirect::PermPage);
    assert_eq!(r.target(), "/perm");
    assert_eq!(session.current_principal(), Some(Uid { value: 4 }));

    let r = handle_login(&mut session, Err(Error::Unauthorized));
    assert_eq!(r, LoginRedirect::LoginPage);
    assert_eq!(r.target(), "/login");
    assert_eq!(session.current_principal(), Some(Uid { value: 4 }));
}

#[test]
fn error_taxonomy_maps_to_status_codes() {
    assert_eq!(Error::Unauthorized.status_code(), 401);
    assert_eq!(Error::Forbidden.status_code(), 403);
    assert_eq!(Error::NotFound.status_code(), 404);
    assert_eq!(Error::BadRequest.status_code(), 400);
    assert_eq!(Error::Conflict.status_code(), 409);
    assert_eq!(Error::InternalServerError.status_code(), 500);

    let (code, detail) = Error::Unauthorized.code_detail();
    assert_eq!(code, 401);
    assert_eq!(detail, "Request lacks valid authentication credentials for the requested resource");

    let json = Error::NotFound.to_error_json();
    assert_eq!(json.status, "404");
    assert_eq!(json.title, "404 Not Found");
    assert_eq!(json.detail, "Not found");
    assert!(json.source.is_none());

    assert_eq!(db_error(DbErrorKind::RowNotFound), Error::NotFound);
    assert_eq!(db_error(DbErrorKind::UniqueViolation), Error::Conflict);
    assert_eq!(db_error(DbErrorKind::Other), Error::InternalServerError);
}

#[test]
fn database_failures_render_their_own_details() {
    let none = String::new();
    assert_eq!(
        db_code_detail(DbErrorKind::RowNotFound, &none),
        (404, "Request returned no results".to_owned())
    );
    let message = "duplicate key value violates a unique constraint".to_owned();
    assert_eq!(
        db_code_detail(DbErrorKind::UniqueViolation, &message),
        (409, "Conflict: duplicate key value violates a unique constraint".to_owned())
    );
    assert_eq!(db_code_detail(DbErrorKind::Other, &none), (500, "Internal server error".to_owned()));

    let json = db_error_json(DbErrorKind::RowNotFound, &none);
    assert_eq!(json.status, "404");
    assert_eq!(json.title, "404 Not Found");
    assert_eq!(json.detail, "Request returned no results");
    assert!(json.source.is_none());

    let json = db_error_json(DbErrorKind::UniqueViolation, &message);
    assert_eq!(json.status, "409");
    assert_eq!(json.title, "409 Conflict");
    assert_eq!(json.detail, "Conflict: duplicate key value violates a unique constraint");
}

#[test]
fn uid_renders_in_canonical_hyphenated_form() {
    let guest = Uid { value: GUEST_ID };
    assert_eq!(guest.to_text(), "b416d7eb-7c5b-4133-96a4-49c860cea964");
    assert_eq!(Uid { value: 0 }.to_text(), "00000000-0000-0000-0000-000000000000");
    assert_eq!(
        Uid { value: u128::MAX }.to_text(),
        "ffffffff-ffff-ffff-ffff-ffffffffffff"
    );
    assert_eq!(Uid { value: 0x123abc }.to_text(), "00000000-0000-0000-0000-000000123abc");
}

#[test]
fn send_code_reports_no_account() {
    let r = send_code(&SendCode { mobile: "0170".to_owned() });
    assert!(!r.found_account);
}
