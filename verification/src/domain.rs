//! Domain entities and request/response shapes.
//!
//! Timestamps are unix seconds held as `i64`; converting them to and from
//! RFC 3339 strings is a concern of the wire layer outside this crate.

use vstd::prelude::*;

verus! {

/// Mathematical model of a stored user.
#[verifier::ext_equal]
pub ghost struct UserView {
    pub id: int,
    pub username: Seq<char>,
    pub email: Seq<char>,
    pub password_hash: Seq<char>,
    pub created_at: int,
}

/// A registered user. The password hash is never serialized outward.
#[derive(Debug)]
pub struct User {
    /// Server-assigned unique identifier.
    pub id: i64,
    /// Unique name the user registered under.
    pub username: String,
    /// Email address given at registration.
    pub email: String,
    /// PHC-format hash of the user's password.
    pub password_hash: String,
    /// Unix time of registration.
    pub created_at: i64,
}

impl View for User {
    type V = UserView;

    open spec fn view(&self) -> UserView {
        UserView {
            id: self.id as int,
            username: self.username@,
            email: self.email@,
            password_hash: self.password_hash@,
            created_at: self.created_at as int,
        }
    }
}

impl User {
    /// A field-for-field copy.
    pub fn duplicate(&self) -> (r: User)
        ensures
            r@ == self@,
    {
        User {
            id: self.id,
            username: self.username.clone(),
            email: self.email.clone(),
            password_hash: self.password_hash.clone(),
            created_at: self.created_at,
        }
    }
}

/// Mathematical model of a stored post.
#[verifier::ext_equal]
pub ghost struct PostView {
    pub id: int,
    pub title: Seq<char>,
    pub content: Seq<char>,
    pub author_id: int,
    pub created_at: int,
    pub updated_at: int,
}

/// A blog post. `author_id` is fixed at creation and never reassigned.
#[derive(Debug)]
pub struct Post {
    /// Server-assigned unique identifier.
    pub id: i64,
    /// Title of the post.
    pub title: String,
    /// Body of the post.
    pub content: String,
    /// Identifier of the user who created the post.
    pub author_id: i64,
    /// Unix time of creation.
    pub created_at: i64,
    /// Unix time of the last successful update.
    pub updated_at: i64,
}

impl View for Post {
    type V = PostView;

    open spec fn view(&self) -> PostView {
        PostView {
            id: self.id as int,
            title: self.title@,
            content: self.content@,
            author_id: self.author_id as int,
            created_at: self.created_at as int,
            updated_at: self.updated_at as int,
        }
    }
}

impl Post {
    /// A field-for-field copy.
    pub fn duplicate(&self) -> (r: Post)
        ensures
            r@ == self@,
    {
        Post {
            id: self.id,
            title: self.title.clone(),
            content: self.content.clone(),
            author_id: self.author_id,
            created_at: self.created_at,
            updated_at: self.updated_at,
        }
    }
}

/// Payload of a request to create a post.
#[derive(Debug)]
pub struct CreatePostRequest {
    /// Title of the new post.
    pub title: String,
    /// Body of the new post.
    pub content: String,
}

/// Payload of a request to update a post. Absent fields keep their prior
/// value.
#[derive(Debug)]
pub struct UpdatePostRequest {
    /// Identifier of the post to update.
    pub id: i64,
    /// Replacement title, if any.
    pub title: Option<String>,
    /// Replacement body, if any.
    pub content: Option<String>,
}

/// Payload of a registration request.
#[derive(Debug)]
pub struct CreateUserRequest {
    /// Requested user name.
    pub username: String,
    /// Email address; must be well formed.
    pub email: String,
    /// Plaintext password; must be at least six characters.
    pub password: String,
}

/// Payload of a login request.
#[derive(Debug)]
pub struct LoginUserRequest {
    /// Name of the user logging in.
    pub username: String,
    /// Plaintext password to check.
    pub password: String,
}

/// Successful registration: a session token plus the created user.
#[derive(Debug)]
pub struct CreateUserResponse {
    /// Signed session token.
    pub token: String,
    /// The user that was created.
    pub user: User,
}

/// Successful login: a session token plus the authenticated user.
#[derive(Debug)]
pub struct LoginUserResponse {
    /// Signed session token.
    pub token: String,
    /// The user that logged in.
    pub user: User,
}

/// What either protocol hands back to the client on successful
/// registration or login.
#[derive(Debug)]
pub struct AuthResponse {
    /// Signed session token to cache.
    pub token: String,
    /// The authenticated user.
    pub user: User,
}

/// Identity payload embedded in a session token.
#[derive(Debug)]
pub struct Claims {
    /// Identifier of the subject.
    pub user_id: i64,
    /// Name of the subject.
    pub username: String,
    /// Unix time after which the token is no longer valid.
    pub exp: i64,
}

} // verus!
