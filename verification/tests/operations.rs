//! End-to-end scenarios through the transport-agnostic client against
//! an in-process server, on both protocol backends.

use blog_core::client::{BlogClient, Transport};
use blog_core::credentials::JwtService;
use blog_core::errors::{BlogClientError, ErrorKind};
use blog_core::presentation::AppState;
use blog_core::services::{AuthService, BlogService};
use blog_core::store::{PostRepository, UserRepository};

/// A timestamp far enough in the future that issued tokens are not yet
/// expired when the signing library checks them against the real clock.
const NOW: i64 = 4_000_000_000;

const SECRET: &str = "0123456789abcdef0123456789abcdef";

fn fresh_server() -> AppState {
    AppState::new(
        AuthService::new(JwtService::new(SECRET), UserRepository::new()),
        BlogService::new(PostRepository::new()),
        JwtService::new(SECRET),
    )
}

fn http_client() -> BlogClient {
    BlogClient::new(Transport::Http("127.0.0.1:3000".to_string()))
}

fn grpc_client() -> BlogClient {
    BlogClient::new(Transport::Grpc("127.0.0.1:50051".to_string()))
}

#[test]
fn register_caches_session_with_subject_name() {
    let mut server = fresh_server();
    let mut client = http_client();
    let user = client
        .register(&mut server, "alice", "alice@x.com", "secret1", NOW)
        .expect("registration should succeed");
    assert_eq!(user.username, "alice");
    assert_eq!(user.email, "alice@x.com");
    assert_eq!(user.id, 1);
    assert_eq!(user.created_at, NOW);

    let token = client.get_token().expect("session should be cached");
    let claims = server
        .jwt_service
        .verify_token(&token)
        .expect("cached token should verify");
    assert_eq!(claims.username, "alice");
    assert_eq!(claims.user_id, user.id);
    assert_eq!(claims.exp, NOW + 86400);
}

#[test]
fn register_same_username_twice_is_already_exists() {
    let mut server = fresh_server();
    let mut client = http_client();
    client
        .register(&mut server, "alice", "alice@x.com", "secret1", NOW)
        .expect("first registration should succeed");
    let err = client
        .register(&mut server, "alice", "other@x.com", "secret2", NOW)
        .expect_err("second registration with the same name must fail");
    assert!(matches!(err, BlogClientError::UserAlreadyExists));
    assert_eq!(err.kind_of(), ErrorKind::UserAlreadyExists);
}

#[test]
fn non_owner_update_is_forbidden_and_changes_nothing() {
    let mut server = fresh_server();
    let mut alice = http_client();
    let alice_user = alice
        .register(&mut server, "alice", "alice@x.com", "secret1", NOW)
        .unwrap();
    let post = alice.create_post(&mut server, "T", "C", NOW).unwrap();
    assert_eq!(post.author_id, alice_user.id);
    assert_eq!(post.title, "T");
    assert_eq!(post.content, "C");

    let mut bob = http_client();
    bob.register(&mut server, "bob", "bob@x.com", "secret2", NOW)
        .unwrap();
    bob.login(&server, "bob", "secret2", NOW).unwrap();
    let err = bob
        .update_post(&mut server, post.id, None, Some("hack".to_string()), NOW + 1)
        .expect_err("a non-owner must not update the post");
    assert!(matches!(err, BlogClientError::Forbidden));

    let read_back = bob.get_post(&server, post.id).unwrap();
    assert_eq!(read_back.content, "C");
    assert_eq!(read_back.title, "T");
    assert_eq!(read_back.updated_at, NOW);
}

#[test]
fn non_owner_delete_is_forbidden() {
    let mut server = fresh_server();
    let mut alice = http_client();
    alice
        .register(&mut server, "alice", "alice@x.com", "secret1", NOW)
        .unwrap();
    let post = alice.create_post(&mut server, "T", "C", NOW).unwrap();

    let mut bob = http_client();
    bob.register(&mut server, "bob", "bob@x.com", "secret2", NOW)
        .unwrap();
    let err = bob
        .delete_post(&mut server, post.id)
        .expect_err("a non-owner must not delete the post");
    assert!(matches!(err, BlogClientError::Forbidden));
    assert!(alice.get_post(&server, post.id).is_ok());
}

#[test]
fn get_post_with_unissued_id_is_not_found() {
    let mut server = fresh_server();
    let mut client = http_client();
    let err = client
        .get_post(&server, 999999999)
        .expect_err("an id that was never issued must not resolve");
    assert!(matches!(err, BlogClientError::PostNotFound));
    assert_eq!(err.kind_of(), ErrorKind::ResourceNotFound);
}

#[test]
fn list_posts_pages_by_descending_id() {
    let mut server = fresh_server();
    let mut client = http_client();
    client
        .register(&mut server, "alice", "alice@x.com", "secret1", NOW)
        .unwrap();
    for i in 0..5 {
        client
            .create_post(&mut server, &format!("t{i}"), &format!("c{i}"), NOW)
            .unwrap();
    }
    let page = client.get_posts(&server, 2, 0).unwrap();
    let ids: Vec<i64> = page.iter().map(|p| p.id).collect();
    assert_eq!(ids, vec![5, 4]);

    let second = client.get_posts(&server, 2, 2).unwrap();
    let ids: Vec<i64> = second.iter().map(|p| p.id).collect();
    assert_eq!(ids, vec![3, 2]);

    let tail = client.get_posts(&server, 10, 4).unwrap();
    let ids: Vec<i64> = tail.iter().map(|p| p.id).collect();
    assert_eq!(ids, vec![1]);

    let empty = client.get_posts(&server, 10, 99).unwrap();
    assert!(empty.is_empty());
}

#[test]
fn owner_partial_update_keeps_title_and_refreshes_updated_at() {
    let mut server = fresh_server();
    let mut client = http_client();
    client
        .register(&mut server, "alice", "alice@x.com", "secret1", NOW)
        .unwrap();
    let post = client.create_post(&mut server, "T", "C", NOW).unwrap();
    let updated = client
        .update_post(&mut server, post.id, None, Some("new".to_string()), NOW + 7)
        .expect("the owner may update the post");
    assert_eq!(updated.title, "T");
    assert_eq!(updated.content, "new");
    assert_eq!(updated.created_at, NOW);
    assert!(updated.updated_at > post.updated_at);
    assert_eq!(updated.updated_at, NOW + 7);

    let read_back = client.get_post(&server, post.id).unwrap();
    assert_eq!(read_back.title, "T");
    assert_eq!(read_back.content, "new");
}

#[test]
fn owner_delete_removes_the_post() {
    let mut server = fresh_server();
    let mut client = http_client();
    client
        .register(&mut server, "alice", "alice@x.com", "secret1", NOW)
        .unwrap();
    let post = client.create_post(&mut server, "T", "C", NOW).unwrap();
    client
        .delete_post(&mut server, post.id)
        .expect("the owner may delete the post");
    let err = client.get_post(&server, post.id).unwrap_err();
    assert!(matches!(err, BlogClientError::PostNotFound));
}

#[test]
fn repeated_reads_return_identical_results() {
    let mut server = fresh_server();
    let mut client = http_client();
    client
        .register(&mut server, "alice", "alice@x.com", "secret1", NOW)
        .unwrap();
    let post = client.create_post(&mut server, "T", "C", NOW).unwrap();

    let a = client.get_post(&server, post.id).unwrap();
    let b = client.get_post(&server, post.id).unwrap();
    assert_eq!(a.id, b.id);
    assert_eq!(a.title, b.title);
    assert_eq!(a.content, b.content);
    assert_eq!(a.updated_at, b.updated_at);

    let p1 = client.get_posts(&server, 10, 0).unwrap();
    let p2 = client.get_posts(&server, 10, 0).unwrap();
    assert_eq!(p1.len(), p2.len());
    for (x, y) in p1.iter().zip(p2.iter()) {
        assert_eq!(x.id, y.id);
        assert_eq!(x.title, y.title);
        assert_eq!(x.content, y.content);
    }
}

#[test]
fn create_post_without_session_fails_locally() {
    let mut server = fresh_server();
    let mut client = http_client();
    let err = client
        .create_post(&mut server, "T", "C", NOW)
        .expect_err("creating a post without a session must fail");
    assert!(matches!(err, BlogClientError::TokenNotFound));
    assert_eq!(err.kind_of(), ErrorKind::SessionMissing);
}

#[test]
fn garbage_token_is_rejected_by_the_server() {
    let mut server = fresh_server();
    let mut client = http_client();
    client.set_token("not-a-real-token".to_string());
    let err = client
        .create_post(&mut server, "T", "C", NOW)
        .expect_err("a forged token must be rejected");
    assert!(matches!(err, BlogClientError::UserUnauthorized));
    assert_eq!(err.kind_of(), ErrorKind::SessionInvalid);
}

#[test]
fn login_errors_distinguish_unknown_user_from_wrong_password() {
    let mut server = fresh_server();
    let mut client = http_client();
    client
        .register(&mut server, "alice", "alice@x.com", "secret1", NOW)
        .unwrap();

    let err = client.login(&server, "nobody", "secret1", NOW).unwrap_err();
    assert!(matches!(err, BlogClientError::UserNotFound));

    let err = client.login(&server, "alice", "wrongpass", NOW).unwrap_err();
    assert!(matches!(err, BlogClientError::InvalidCredentials));

    let user = client.login(&server, "alice", "secret1", NOW).unwrap();
    assert_eq!(user.username, "alice");
}

#[test]
fn malformed_registration_is_rejected_at_the_boundary() {
    let mut server = fresh_server();
    let mut client = http_client();

    let err = client
        .register(&mut server, "alice", "not-an-email", "secret1", NOW)
        .unwrap_err();
    assert!(matches!(err, BlogClientError::InvalidRegistrationCredentials));

    let err = client
        .register(&mut server, "alice", "alice@x.com", "12345", NOW)
        .unwrap_err();
    assert!(matches!(err, BlogClientError::InvalidRegistrationCredentials));

    assert!(client
        .register(&mut server, "alice", "alice@x.com", "123456", NOW)
        .is_ok());
}

#[test]
fn both_transports_yield_the_same_taxonomy_outcomes() {
    fn outcomes(client: BlogClient, outsider: BlogClient, server: &mut AppState) -> Vec<Option<ErrorKind>> {
        let mut client = client;
        let mut outsider = outsider;
        let mut kinds: Vec<Option<ErrorKind>> = Vec::new();
        kinds.push(client
            .register(server, "alice", "alice@x.com", "secret1", NOW)
            .err()
            .map(|e| e.kind_of()));
        kinds.push(client
            .register(server, "alice", "alice@x.com", "secret1", NOW)
            .err()
            .map(|e| e.kind_of()));
        kinds.push(client
            .register(server, "bob", "bad-email", "secret2", NOW)
            .err()
            .map(|e| e.kind_of()));
        kinds.push(client.login(server, "nobody", "secret1", NOW).err().map(|e| e.kind_of()));
        kinds.push(client.login(server, "alice", "wrong", NOW).err().map(|e| e.kind_of()));
        kinds.push(client.login(server, "alice", "secret1", NOW).err().map(|e| e.kind_of()));
        let post = client.create_post(server, "T", "C", NOW).unwrap();
        kinds.push(client.get_post(server, post.id).err().map(|e| e.kind_of()));
        kinds.push(client.get_post(server, 424242).err().map(|e| e.kind_of()));
        kinds.push(client
            .update_post(server, 424242, None, Some("x".to_string()), NOW)
            .err()
            .map(|e| e.kind_of()));
        kinds.push(client.delete_post(server, 424242).err().map(|e| e.kind_of()));
        outsider
            .register(server, "carol", "carol@x.com", "secret3", NOW)
            .unwrap();
        kinds.push(outsider
            .update_post(server, post.id, None, Some("hack".to_string()), NOW)
            .err()
            .map(|e| e.kind_of()));
        kinds.push(outsider.delete_post(server, post.id).err().map(|e| e.kind_of()));
        kinds.push(client.delete_post(server, post.id).err().map(|e| e.kind_of()));
        kinds
    }

    let mut http_server = fresh_server();
    let http_outcomes = outcomes(http_client(), http_client(), &mut http_server);
    let mut grpc_server = fresh_server();
    let grpc_outcomes = outcomes(grpc_client(), grpc_client(), &mut grpc_server);
    assert_eq!(http_outcomes, grpc_outcomes);
    assert_eq!(
        http_outcomes,
        vec![
            None,
            Some(ErrorKind::UserAlreadyExists),
            Some(ErrorKind::InvalidRegistration),
            Some(ErrorKind::UserNotFound),
            Some(ErrorKind::InvalidCredentials),
            None,
            None,
            Some(ErrorKind::ResourceNotFound),
            Some(ErrorKind::ResourceNotFound),
            Some(ErrorKind::ResourceNotFound),
            Some(ErrorKind::Forbidden),
            Some(ErrorKind::Forbidden),
            None,
        ]
    );
}

#[test]
fn grpc_owner_title_only_update_keeps_content() {
    let mut server = fresh_server();
    let mut client = grpc_client();
    client
        .register(&mut server, "alice", "alice@x.com", "secret1", NOW)
        .unwrap();
    let post = client.create_post(&mut server, "T", "C", NOW).unwrap();
    let updated = client
        .update_post(&mut server, post.id, Some("T2".to_string()), None, NOW + 3)
        .expect("the owner may update the post");
    assert_eq!(updated.title, "T2");
    assert_eq!(updated.content, "C");
    assert_eq!(updated.updated_at, NOW + 3);

    let read_back = client.get_post(&server, post.id).unwrap();
    assert_eq!(read_back.title, "T2");
    assert_eq!(read_back.content, "C");
}

#[test]
fn zero_limit_returns_an_empty_page() {
    let mut server = fresh_server();
    let mut client = http_client();
    client
        .register(&mut server, "alice", "alice@x.com", "secret1", NOW)
        .unwrap();
    client.create_post(&mut server, "T", "C", NOW).unwrap();
    let page = client.get_posts(&server, 0, 0).unwrap();
    assert!(page.is_empty());
    let err = client.get_posts(&server, -1, 0).unwrap_err();
    assert_eq!(err.kind_of(), ErrorKind::UnexpectedFailure);
}
