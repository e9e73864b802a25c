use auth_core::accounts::AccountDirectory;
use auth_core::auth0::{Auth0JWTPayload, AuthSettings};
use auth_core::authz::HttpMethod;
use auth_core::client::{clients_url, map_user_response, user_url, users_login_url};
use auth_core::clients::ClientDirectory;
use auth_core::error::Error;
use auth_core::handlers::perm;
use auth_core::hashing::{generate_hash, verify_password_hash};
use auth_core::identity::{PermissionSet, User, resolve_loaded, resolve_principal, ResolveStep};
use auth_core::model::{DataBody, Uid, UserTransportModel};
use auth_core::openfga::{
    make_check_request, make_tuple, map_model_write, store_check_url, store_model_url,
    store_write_url, stores_url, validate_model_document, WriteAuthorizationModelResponse,
};
use auth_core::proxy::{build_proxy_request, relay_upstream, UpstreamFailure};
use auth_core::schema::{CreateAccount, FilterOptions, LoginPayload};
use auth_core::session::SessionStore;
use auth_core::users::UserDirectory;

#[test]
fn main_it_works() {
    let result = 2 + 2;
    assert_eq!(result, 4);
}

#[test]
fn proxy_builds_the_exact_upstream_url() {
    let r = build_proxy_request(
        &"http://up".to_owned(),
        HttpMethod::Get,
        &"widgets".to_owned(),
        Some("x=1".to_owned()),
        None,
    )
    .expect("a well-formed upstream URL must pass");
    assert_eq!(r.url, "http://up/api/widgets?x=1");
    assert_eq!(r.method, HttpMethod::Get);
    assert!(r.body.is_none());
}

#[test]
fn proxy_forwards_method_and_body() {
    let r = build_proxy_request(
        &"http://up".to_owned(),
        HttpMethod::Post,
        &"widgets".to_owned(),
        None,
        Some("{\"a\":1}".to_owned()),
    )
    .unwrap();
    assert_eq!(r.url, "http://up/api/widgets?");
    assert_eq!(r.method, HttpMethod::Post);
    assert_eq!(r.body.as_deref(), Some("{\"a\":1}"));
}

#[test]
fn proxy_rejects_a_bad_base_url() {
    let r = build_proxy_request(
        &"not a url".to_owned(),
        HttpMethod::Get,
        &"widgets".to_owned(),
        None,
        None,
    );
    assert_eq!(r.err(), Some(Error::BadRequest));
}

#[test]
fn proxy_relays_the_upstream_body_unchanged() {
    let body = "{\"data\":[1,2,3]}".to_owned();
    assert_eq!(relay_upstream(Ok(body.clone())), Ok(body));
    assert_eq!(
        relay_upstream(Err(UpstreamFailure::ConnectionFailed)),
        Err(Error::InternalServerError)
    );
    assert_eq!(relay_upstream(Err(UpstreamFailure::InvalidJson)), Err(Error::InternalServerError));
}

#[test]
fn register_login_and_permission_page_end_to_end() {
    // Register alice, log in through the session store, resolve the
    // identity, and render the permission page.
    let mut users = UserDirectory::new();
    let payload = LoginPayload { name: "alice".to_owned(), password: "secret123".to_owned() };
    users.create_user(&payload).unwrap();

    let mut sessions = SessionStore::new();
    let cookie = "cookie-1".to_owned();
    let login = users.verify_credentials(&payload).expect("the registered pair must log in");
    sessions.bind(&cookie, Some(login.id));

    let principal = sessions.current_principal(&cookie);
    let user = match resolve_principal(principal) {
        ResolveStep::Resolved(u) => u,
        ResolveStep::Lookup(id) => resolve_loaded(users.get_user(id)),
    };
    assert!(!user.anonymous);

    let page = perm(HttpMethod::Get, &user);
    assert!(page.contains("alice"));
    assert!(page.contains("Category::View"));
    assert!(page.starts_with("User id "));
    assert!(page.contains(&user.id.to_text()));

    // A wrong password leaves no binding behind.
    let wrong = LoginPayload { name: "alice".to_owned(), password: "wrong".to_owned() };
    let mut fresh = auth_core::session::Session::new();
    let r = auth_core::auth::handle_login(&mut fresh, users.verify_credentials(&wrong));
    assert_eq!(r.target(), "/login");
    assert!(fresh.is_anonymous());
}

#[test]
fn permission_page_rejects_an_identity_without_tags() {
    let bare = User {
        id: Uid { value: 1 },
        anonymous: false,
        username: "norights".to_owned(),
        permissions: PermissionSet::empty(),
    };
    let page = perm(HttpMethod::Get, &bare);
    assert!(page.contains("norights"));
    assert!(page.contains("does not have permissions"));
}

#[test]
fn password_hashes_round_trip() {
    let password = "hunter42".to_owned();
    let hash = generate_hash(&password);
    assert!(hash.starts_with("$argon2"));
    assert_eq!(verify_password_hash(&hash, &password), Ok(()));
    assert_eq!(verify_password_hash(&hash, &"hunter43".to_owned()), Err(Error::Unauthorized));
    assert_eq!(
        verify_password_hash(&"not a phc string".to_owned(), &password),
        Err(Error::InternalServerError)
    );
}

#[test]
fn client_store_issues_and_finds_tokens() {
    let mut clients = ClientDirectory::new();
    let c1 = clients.create_client(Uid { value: 1 }, "first".to_owned()).unwrap();
    let c2 = clients.create_client(Uid { value: 2 }, "second".to_owned()).unwrap();
    assert_eq!(c1.token.len(), 18);
    assert_ne!(c1.id, c2.id);

    let found = clients.get_client(&c2.token).unwrap();
    assert_eq!(found, c2);
    assert_eq!(clients.get_client(&"missing".to_owned()), Err(Error::NotFound));
}

#[test]
fn client_list_pages_through_the_records() {
    let mut clients = ClientDirectory::new();
    for i in 0..25u32 {
        clients.create_client(Uid { value: i as u128 }, format!("client-{}", i)).unwrap();
    }
    let first = clients.get_client_list(&FilterOptions { page: None, limit: None });
    assert_eq!(first.len(), 10);
    assert_eq!(first[0].name, "client-0");

    let third = clients.get_client_list(&FilterOptions { page: Some(3), limit: Some(10) });
    assert_eq!(third.len(), 5);
    assert_eq!(third[0].name, "client-20");
    assert!(third.windows(2).all(|w| w[0].id.value < w[1].id.value));

    let beyond = clients.get_client_list(&FilterOptions { page: Some(7), limit: Some(10) });
    assert!(beyond.is_empty());
}

#[test]
fn account_store_supports_crud() {
    let mut accounts = AccountDirectory::new();
    let created = accounts
        .create_account(&CreateAccount { name: "acme".to_owned(), credential: "c1".to_owned() })
        .unwrap();
    assert_eq!(created.name, "acme");

    let by_id = accounts.get_account(created.id).unwrap();
    assert_eq!(by_id, created);
    let by_name = accounts.get_account_by_name(&"acme".to_owned()).unwrap();
    assert_eq!(by_name, created);
    assert_eq!(accounts.get_account(Uid { value: 99 }), Err(Error::NotFound));

    let dup = accounts
        .create_account(&CreateAccount { name: "acme".to_owned(), credential: "c2".to_owned() });
    assert_eq!(dup, Err(Error::Conflict));

    let other = accounts
        .create_account(&CreateAccount { name: "other".to_owned(), credential: "c3".to_owned() })
        .unwrap();
    let updated = accounts
        .put_account(created.id, &CreateAccount { name: "acme2".to_owned(), credential: "c4".to_owned() })
        .unwrap();
    assert_eq!(updated.name, "acme2");
    assert_eq!(updated.credential, "c4");
    assert_eq!(accounts.get_account(created.id).unwrap().name, "acme2");

    let clash = accounts
        .put_account(other.id, &CreateAccount { name: "acme2".to_owned(), credential: "c5".to_owned() });
    assert_eq!(clash, Err(Error::Conflict));
    let missing = accounts
        .put_account(Uid { value: 99 }, &CreateAccount { name: "x".to_owned(), credential: "y".to_owned() });
    assert_eq!(missing, Err(Error::NotFound));
}

#[test]
fn auth0_urls_and_request_are_exact() {
    let settings = AuthSettings::new(
        "client-123".to_owned(),
        "shhh-not-telling".to_owned(),
        "http://localhost/cb".to_owned(),
        "example.auth0.com".to_owned(),
    );
    assert_eq!(settings.token_endpoint_url(), "https://example.auth0.com/oauth/token");

    let url = settings.authorize_endpoint_url(&"st4te".to_owned());
    assert_eq!(
        url,
        "https://example.auth0.com/authorize?response_type=code&client_id=client-123\
         &redirect_uri=http%3A%2F%2Flocalhost%2Fcb&scope=openid%20email%20profile&state=st4te"
    );

    let req = settings.token_request(&"code-1".to_owned());
    assert_eq!(req.grant_type, "authorization_code");
    assert_eq!(req.client_id, "client-123");
    assert_eq!(req.client_secret, "shhh-not-telling");
    assert_eq!(req.code, "code-1");
    assert_eq!(req.redirect_uri, "http://localhost/cb");
}

#[test]
fn jwt_claims_are_validated_against_audience_and_issuer() {
    let settings = AuthSettings::new(
        "client-123".to_owned(),
        "shhh-not-telling".to_owned(),
        "http://localhost/cb".to_owned(),
        "example.auth0.com".to_owned(),
    );
    let good = Auth0JWTPayload {
        email: "a@example.com".to_owned(),
        sub: "auth0|1".to_owned(),
        exp: 2_000_000_000,
        iss: "https://example.auth0.com/".to_owned(),
        aud: "client-123".to_owned(),
    };
    assert_eq!(settings.validate_jwt_claims(&good), Ok(()));

    let bad_aud = Auth0JWTPayload { aud: "someone-else".to_owned(), ..good };
    assert_eq!(settings.validate_jwt_claims(&bad_aud), Err(Error::Unauthorized));

    let bad_iss = Auth0JWTPayload {
        aud: "client-123".to_owned(),
        iss: "https://evil.example/".to_owned(),
        ..bad_aud
    };
    assert_eq!(settings.validate_jwt_claims(&bad_iss), Err(Error::Unauthorized));
}

#[test]
fn relationship_store_urls_and_requests_are_exact() {
    let base = "http://127.0.0.1:8080".to_owned();
    assert_eq!(stores_url(&base), "http://127.0.0.1:8080/stores");
    let store = "s1".to_owned();
    assert_eq!(store_write_url(&base, &store), "http://127.0.0.1:8080/stores/s1/write");
    assert_eq!(
        store_model_url(&base, &store),
        "http://127.0.0.1:8080/stores/s1/authorization-models"
    );
    assert_eq!(store_check_url(&base, &store), "http://127.0.0.1:8080/stores/s1/check");

    let tuple = make_tuple("user:789", "reader", "document:z");
    assert_eq!(tuple.user, "user:789");
    assert_eq!(tuple.relation, "reader");
    assert_eq!(tuple.object, "document:z");

    let check = make_check_request(&"m1".to_owned(), tuple.clone());
    assert_eq!(check.authorization_model_id, "m1");
    assert_eq!(check.tuple_key, tuple);
}

#[test]
fn model_documents_are_validated_as_json() {
    assert_eq!(validate_model_document(&"{\"schema_version\":\"1.1\"}".to_owned()), Ok(()));
    assert_eq!(validate_model_document(&"{".to_owned()), Err(Error::InternalServerError));

    let ok = map_model_write(Ok(WriteAuthorizationModelResponse {
        authorization_model_id: "m1".to_owned(),
    }))
    .unwrap();
    assert_eq!(ok.authorization_model_id, "m1");
    assert!(matches!(
        map_model_write(Err(Error::InternalServerError)),
        Err(Error::NotFound)
    ));
}

#[test]
fn website_client_urls_and_response_mapping() {
    let base = "http://api".to_owned();
    assert_eq!(users_login_url(&base), "http://api/api/users/login");
    assert_eq!(clients_url(&base), "http://api/api/clients");
    assert_eq!(user_url(&base, &"36f9".to_owned()), "http://api/api/users/36f9");

    let body = DataBody { data: UserTransportModel { id: Uid { value: 8 }, name: "n".to_owned() } };
    let mapped = map_user_response(Ok(body)).unwrap();
    assert_eq!(mapped.id.value, 8);
    assert_eq!(map_user_response(Err(Error::BadRequest)), Err(Error::Unauthorized));
}
