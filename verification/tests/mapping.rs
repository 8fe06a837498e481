//! Unit checks of the mapping tables, the boundary validation, the
//! credential service, and the authorization guard, each through the
//! library's public surface.

use blog_core::credentials::{check_secret, JwtService};
use blog_core::errors::{
    check_post_auth_err, check_post_auth_err_rpc, classify_get_post_http, classify_get_post_rpc,
    classify_login_http, classify_login_rpc, classify_register_http, classify_register_rpc,
    BlogClientError, ErrorKind, PostError, RpcCode, UserError,
};
use blog_core::http_handlers;
use blog_core::middleware::authorize;
use blog_core::presentation::AppState;
use blog_core::services::{AuthService, BlogService};
use blog_core::store::{PostRepository, UserRepository};
use blog_core::domain::{CreatePostRequest, CreateUserRequest};

const NOW: i64 = 4_000_000_000;

const SECRET: &str = "0123456789abcdef0123456789abcdef";

fn fresh_server() -> AppState {
    AppState::new(
        AuthService::new(JwtService::new(SECRET), UserRepository::new()),
        BlogService::new(PostRepository::new()),
        JwtService::new(SECRET),
    )
}

#[test]
fn server_error_status_tables() {
    assert_eq!(UserError::UserNotFound.http_status(), 404);
    assert_eq!(UserError::UserAlreadyExists.http_status(), 409);
    assert_eq!(UserError::InvalidCredentials.http_status(), 401);
    assert_eq!(UserError::InvalidRegistrationCredentials.http_status(), 400);
    assert_eq!(UserError::PasswordHashing.http_status(), 500);
    assert_eq!(UserError::CreateJwtToken("x".to_string()).http_status(), 500);
    assert_eq!(UserError::Database("x".to_string()).http_status(), 500);

    assert_eq!(UserError::UserNotFound.rpc_code(), RpcCode::NotFound);
    assert_eq!(UserError::UserAlreadyExists.rpc_code(), RpcCode::AlreadyExists);
    assert_eq!(UserError::InvalidCredentials.rpc_code(), RpcCode::InvalidArgument);
    assert_eq!(
        UserError::InvalidRegistrationCredentials.rpc_code(),
        RpcCode::InvalidArgument
    );
    assert_eq!(UserError::Database("x".to_string()).rpc_code(), RpcCode::Internal);

    assert_eq!(PostError::PostNotFound.http_status(), 404);
    assert_eq!(PostError::Forbidden.http_status(), 403);
    assert_eq!(PostError::Database("x".to_string()).http_status(), 500);

    assert_eq!(PostError::PostNotFound.rpc_code(), RpcCode::NotFound);
    assert_eq!(PostError::Forbidden.rpc_code(), RpcCode::InvalidArgument);
    assert_eq!(PostError::Database("x".to_string()).rpc_code(), RpcCode::Internal);
}

#[test]
fn client_classification_tables() {
    let d = || "diag".to_string();
    assert!(matches!(
        classify_register_http(400, d()),
        BlogClientError::InvalidRegistrationCredentials
    ));
    assert!(matches!(classify_register_http(409, d()), BlogClientError::UserAlreadyExists));
    assert!(matches!(classify_register_http(500, d()), BlogClientError::Http(Some(500), _)));

    assert!(matches!(classify_login_http(404, d()), BlogClientError::UserNotFound));
    assert!(matches!(classify_login_http(401, d()), BlogClientError::InvalidCredentials));
    assert!(matches!(classify_login_http(418, d()), BlogClientError::Http(Some(418), _)));

    assert!(matches!(classify_get_post_http(404, d()), BlogClientError::PostNotFound));
    assert!(matches!(classify_get_post_http(500, d()), BlogClientError::Http(Some(500), _)));

    assert!(matches!(check_post_auth_err(401, d()), BlogClientError::UserUnauthorized));
    assert!(matches!(check_post_auth_err(404, d()), BlogClientError::PostNotFound));
    assert!(matches!(check_post_auth_err(403, d()), BlogClientError::Forbidden));
    assert!(matches!(check_post_auth_err(500, d()), BlogClientError::Http(Some(500), _)));

    assert!(matches!(
        classify_register_rpc(RpcCode::AlreadyExists, d()),
        BlogClientError::UserAlreadyExists
    ));
    assert!(matches!(
        classify_register_rpc(RpcCode::InvalidArgument, d()),
        BlogClientError::InvalidRegistrationCredentials
    ));
    assert!(matches!(
        classify_register_rpc(RpcCode::Internal, d()),
        BlogClientError::GrpcStatus(RpcCode::Internal, _)
    ));

    assert!(matches!(classify_login_rpc(RpcCode::NotFound, d()), BlogClientError::UserNotFound));
    assert!(matches!(
        classify_login_rpc(RpcCode::InvalidArgument, d()),
        BlogClientError::InvalidCredentials
    ));

    assert!(matches!(
        classify_get_post_rpc(RpcCode::NotFound, d()),
        BlogClientError::PostNotFound
    ));

    assert!(matches!(
        check_post_auth_err_rpc(RpcCode::Unauthenticated, d()),
        BlogClientError::UserUnauthorized
    ));
    assert!(matches!(
        check_post_auth_err_rpc(RpcCode::NotFound, d()),
        BlogClientError::PostNotFound
    ));
    assert!(matches!(
        check_post_auth_err_rpc(RpcCode::InvalidArgument, d()),
        BlogClientError::Forbidden
    ));
    assert!(matches!(
        check_post_auth_err_rpc(RpcCode::Unknown, d()),
        BlogClientError::GrpcStatus(RpcCode::Unknown, _)
    ));
}

#[test]
fn taxonomy_kinds_collapse_transport_failures() {
    assert_eq!(BlogClientError::InvalidToken.kind_of(), ErrorKind::SessionInvalid);
    assert_eq!(BlogClientError::TokenNotFound.kind_of(), ErrorKind::SessionMissing);
    assert_eq!(BlogClientError::UserUnauthorized.kind_of(), ErrorKind::SessionInvalid);
    assert_eq!(
        BlogClientError::Http(None, "connection refused".to_string()).kind_of(),
        ErrorKind::UnexpectedFailure
    );
    assert_eq!(
        BlogClientError::Grpc("connection refused".to_string()).kind_of(),
        ErrorKind::UnexpectedFailure
    );
    assert_eq!(
        BlogClientError::GrpcStatus(RpcCode::Unknown, String::new()).kind_of(),
        ErrorKind::UnexpectedFailure
    );
    assert_eq!(BlogClientError::Unexpected.kind_of(), ErrorKind::UnexpectedFailure);
}

#[test]
fn secret_length_check() {
    assert!(check_secret(SECRET));
    assert!(!check_secret("too-short"));
    assert!(!check_secret(""));
}

#[test]
fn tokens_round_trip_through_the_token_service() {
    let jwt = JwtService::new(SECRET);
    let token = jwt.generate_token(42, "alice", NOW).expect("signing should succeed");
    let claims = jwt.verify_token(&token).expect("verification should succeed");
    assert_eq!(claims.user_id, 42);
    assert_eq!(claims.username, "alice");
    assert_eq!(claims.exp, NOW + 86400);

    let other = JwtService::new("another-secret-another-secret-32");
    assert!(other.verify_token(&token).is_none());
    assert!(jwt.verify_token("garbage").is_none());

    let expired = jwt.generate_token(42, "alice", 1_000_000).unwrap();
    assert!(jwt.verify_token(&expired).is_none());
}

#[test]
fn guard_accepts_only_well_formed_bearer_values() {
    let jwt = JwtService::new(SECRET);
    let token = jwt.generate_token(7, "alice", NOW).unwrap();

    let header = format!("Bearer {token}");
    let claims = authorize(&jwt, Some(&header)).expect("a valid bearer value must pass");
    assert_eq!(claims.user_id, 7);
    assert_eq!(claims.username, "alice");

    assert!(authorize(&jwt, None).is_none());
    assert!(authorize(&jwt, Some(&token)).is_none());
    assert!(authorize(&jwt, Some("Basic abc")).is_none());
    assert!(authorize(&jwt, Some("Bearer garbage")).is_none());
}

#[test]
fn pagination_defaults_apply_on_the_text_protocol() {
    let mut server = fresh_server();
    let resp = http_handlers::register(
        &mut server,
        CreateUserRequest {
            username: "alice".to_string(),
            email: "alice@x.com".to_string(),
            password: "secret1".to_string(),
        },
        NOW,
    )
    .expect("registration should succeed");
    let header = format!("Bearer {}", resp.token);
    for i in 0..12 {
        http_handlers::create_post(
            &mut server,
            Some(&header),
            CreatePostRequest { title: format!("t{i}"), content: format!("c{i}") },
            NOW,
        )
        .expect("post creation should succeed");
    }
    let page = http_handlers::get_posts(&server, None, None).expect("listing should succeed");
    assert_eq!(page.len(), 10);
    assert_eq!(page[0].id, 12);
    assert_eq!(page[9].id, 3);

    let rest = http_handlers::get_posts(&server, None, Some(10)).unwrap();
    assert_eq!(rest.len(), 2);

    assert_eq!(http_handlers::get_posts(&server, Some(-1), None).unwrap_err(), 500);
    assert_eq!(http_handlers::get_posts(&server, None, Some(-3)).unwrap_err(), 500);
    assert_eq!(http_handlers::default_limit(), 10);
}

#[test]
fn password_hashes_are_salted_but_verify() {
    let mut server = fresh_server();
    let first = http_handlers::register(
        &mut server,
        CreateUserRequest {
            username: "alice".to_string(),
            email: "alice@x.com".to_string(),
            password: "secret1".to_string(),
        },
        NOW,
    )
    .unwrap();
    let second = http_handlers::register(
        &mut server,
        CreateUserRequest {
            username: "bob".to_string(),
            email: "bob@x.com".to_string(),
            password: "secret1".to_string(),
        },
        NOW,
    )
    .unwrap();
    assert_ne!(first.user.password_hash, second.user.password_hash);
    assert!(first.user.password_hash.starts_with("$argon2"));
}
