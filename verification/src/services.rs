//! Application services: authentication orchestration and post
//! orchestration, including the ownership guard on post mutation.
//!
//! `BlogService::update_post` and `BlogService::delete_post` are the
//! resource mutation guard: existence is read first, then ownership is
//! compared, then the mutation is applied — and a failing check leaves
//! the store exactly as it was, the model-level form of rolling the
//! transaction back.

use vstd::prelude::*;
use vstd::utf8::encode_utf8;

use crate::credentials::{
    hash_password, password_matches, token_claims, verify_password, JwtService, TOKEN_TTL_SECS,
};
use crate::domain::{
    UserView,
    CreatePostRequest, CreateUserRequest, CreateUserResponse, LoginUserRequest, LoginUserResponse,
    Post, PostView, UpdatePostRequest,
};
use crate::errors::{PostError, UserError};
use crate::store::{
    lemma_post_id_unique, lemma_username_unique, post_id_present, username_taken, users_wf,
    PostRepository, PostStoreView, UserRepository, UserStoreView,
};

verus! {

/// Whether the post carrying `id` exists and is owned by `user_id`.
pub open spec fn post_owned_by(posts: Seq<PostView>, id: int, user_id: int) -> bool {
    exists|k: int|
        0 <= k < posts.len() && (#[trigger] posts[k]).id == id && posts[k].author_id == user_id
}

/// What a successful registration means: the name was free, the stored
/// user carries the request's data with a fresh id and a hash of the
/// request's password, the token speaks for the new identity, and the
/// user table grew by exactly that row.
pub open spec fn register_success(
    pre: UserStoreView,
    key: Seq<u8>,
    username: Seq<char>,
    email: Seq<char>,
    password: Seq<char>,
    token: Seq<char>,
    user: UserView,
    now: i64,
    post: UserStoreView,
) -> bool {
    &&& !username_taken(pre.users, username)
    &&& user.id == pre.next_id
    &&& user.username == username
    &&& user.email == email
    &&& user.created_at == now as int
    &&& password_matches(encode_utf8(password), user.password_hash)
    &&& token_claims(key, token) == Some((user.id as i64, username, (now + TOKEN_TTL_SECS) as i64))
    &&& post.users == pre.users.push(user)
    &&& post.next_id == pre.next_id + 1
}

/// What a successful login means: the returned user is a stored row
/// carrying the requested name, its hash matches the request's
/// password, and the token speaks for that identity.
pub open spec fn login_success(
    s: UserStoreView,
    key: Seq<u8>,
    username: Seq<char>,
    password: Seq<char>,
    token: Seq<char>,
    user: UserView,
    now: i64,
) -> bool {
    &&& exists|j: int| 0 <= j < s.users.len() && #[trigger] s.users[j] == user
    &&& user.username == username
    &&& password_matches(encode_utf8(password), user.password_hash)
    &&& token_claims(key, token) == Some(
        (user.id as i64, user.username, (now + TOKEN_TTL_SECS) as i64),
    )
}

/// What a successful post creation means: the new row carries the
/// request's fields and the caller as author, both timestamps are
/// `now`, and it stands at the head of the descending order.
pub open spec fn create_post_success(
    pre: PostStoreView,
    title: Seq<char>,
    content: Seq<char>,
    author_id: i64,
    now: i64,
    p: PostView,
    post: PostStoreView,
) -> bool {
    &&& p == (PostView {
        id: pre.next_id,
        title: title,
        content: content,
        author_id: author_id as int,
        created_at: now as int,
        updated_at: now as int,
    })
    &&& post.posts == seq![p] + pre.posts
    &&& post.next_id == pre.next_id + 1
}

/// What a successful update means: the caller owned the row, exactly
/// the fields present in the request were overwritten, `updated_at`
/// was refreshed, and nothing else moved.
pub open spec fn update_post_success(
    pre: PostStoreView,
    id: i64,
    title: Option<Seq<char>>,
    content: Option<Seq<char>>,
    user_id: i64,
    now: i64,
    p: PostView,
    post: PostStoreView,
) -> bool {
    exists|k: int|
        {
            &&& 0 <= k < pre.posts.len()
            &&& (#[trigger] pre.posts[k]).id == id
            &&& pre.posts[k].author_id == user_id
            &&& p == (PostView {
                id: pre.posts[k].id,
                title: if title is Some {
                    title->0
                } else {
                    pre.posts[k].title
                },
                content: if content is Some {
                    content->0
                } else {
                    pre.posts[k].content
                },
                author_id: pre.posts[k].author_id,
                created_at: pre.posts[k].created_at,
                updated_at: now as int,
            })
            &&& post.posts == pre.posts.update(k, p)
        }
}

/// Whether a user carrying the requested name exists whose stored
/// hash does not match the request's password.
pub open spec fn wrong_password(s: UserStoreView, username: Seq<char>, password: Seq<char>) -> bool {
    exists|j: int|
        {
            &&& 0 <= j < s.users.len()
            &&& (#[trigger] s.users[j]).username == username
            &&& !password_matches(encode_utf8(password), s.users[j].password_hash)
        }
}

/// What a successful deletion means: the caller owned the row and
/// exactly that row is gone.
pub open spec fn delete_post_success(
    pre: PostStoreView,
    id: i64,
    user_id: i64,
    post: PostStoreView,
) -> bool {
    exists|k: int|
        {
            &&& 0 <= k < pre.posts.len()
            &&& (#[trigger] pre.posts[k]).id == id
            &&& pre.posts[k].author_id == user_id
            &&& post.posts == pre.posts.remove(k)
        }
}

/// Manages registration and login of users.
pub struct AuthService {
    jwt_service: JwtService,
    user_repository: UserRepository,
}

impl View for AuthService {
    type V = UserStoreView;

    closed spec fn view(&self) -> UserStoreView {
        self.user_repository@
    }
}

impl AuthService {
    /// The signing key of the session tokens this service issues.
    pub closed spec fn key(&self) -> Seq<u8> {
        self.jwt_service.key()
    }

    /// Invariant this service maintains.
    pub open spec fn wf(&self) -> bool {
        users_wf(self@)
    }

    /// Compose the service from the token service and the user store.
    pub fn new(jwt_service: JwtService, user_repository: UserRepository) -> (r: AuthService)
        ensures
            r.key() == jwt_service.key(),
            r@ == user_repository@,
    {
        AuthService { jwt_service, user_repository }
    }

    /// Register a new user: hash the password, create the row, and
    /// issue a session token for the new identity. The name being
    /// taken surfaces as `UserAlreadyExists` with the store untouched.
    /// Input validation belongs to the protocol boundary, not here.
    pub fn register(&mut self, user: CreateUserRequest, now: i64) -> (r: Result<
        CreateUserResponse,
        UserError,
    >)
        requires
            old(self).wf(),
            0 <= now <= i64::MAX - TOKEN_TTL_SECS,
        ensures
            final(self).wf(),
            final(self).key() == old(self).key(),
            r matches Ok(resp) ==> register_success(
                old(self)@,
                old(self).key(),
                user.username@,
                user.email@,
                user.password@,
                resp.token@,
                resp.user@,
                now,
                final(self)@,
            ),
            r is Err && r->Err_0 is UserAlreadyExists ==> username_taken(
                old(self)@.users,
                user.username@,
            ),
            username_taken(old(self)@.users, user.username@) ==> r is Err && (
            r->Err_0 is UserAlreadyExists || r->Err_0 is PasswordHashing),
            r is Err && (r->Err_0 is UserAlreadyExists || r->Err_0 is PasswordHashing
                || r->Err_0 is Database) ==> final(self)@ == old(self)@,
            r is Err ==> r->Err_0 is UserAlreadyExists || r->Err_0 is PasswordHashing
                || r->Err_0 is Database || r->Err_0 is CreateJwtToken,
            r is Err && r->Err_0 is CreateJwtToken ==> final(self)@.users.len() == old(
                self,
            )@.users.len() + 1 && final(self)@.next_id == old(self)@.next_id + 1,
            !username_taken(old(self)@.users, user.username@) && old(self)@.next_id < i64::MAX
                ==> r is Ok || r->Err_0 is PasswordHashing || r->Err_0 is CreateJwtToken,
    {
        let password_hash = match hash_password(user.password.as_str()) {
            Ok(h) => h,
            Err(e) => {
                return Err(e);
            },
        };
        let created = match self.user_repository.create_user(
            user.username,
            user.email,
            password_hash,
            now,
        ) {
            Ok(u) => u,
            Err(e) => {
                return Err(e);
            },
        };
        let token = match self.jwt_service.generate_token(
            created.id,
            created.username.as_str(),
            now,
        ) {
            Ok(t) => t,
            Err(e) => {
                return Err(e);
            },
        };
        Ok(CreateUserResponse { token, user: created })
    }

    /// Authenticate a user: look the name up, check the password
    /// against the stored hash, and issue a session token. Failure
    /// distinguishes an unknown name from a wrong password.
    pub fn login(&self, request: LoginUserRequest, now: i64) -> (r: Result<
        LoginUserResponse,
        UserError,
    >)
        requires
            self.wf(),
            0 <= now <= i64::MAX - TOKEN_TTL_SECS,
        ensures
            r matches Ok(resp) ==> login_success(
                self@,
                self.key(),
                request.username@,
                request.password@,
                resp.token@,
                resp.user@,
                now,
            ),
            (r is Err && r->Err_0 is UserNotFound) <==> !username_taken(
                self@.users,
                request.username@,
            ),
            (r is Err && r->Err_0 is InvalidCredentials) <==> wrong_password(
                self@,
                request.username@,
                request.password@,
            ),
            r is Err ==> r->Err_0 is UserNotFound || r->Err_0 is InvalidCredentials
                || r->Err_0 is CreateJwtToken,
    {
        let user = match self.user_repository.get_user(request.username.as_str()) {
            Ok(u) => u,
            Err(_) => {
                return Err(UserError::UserNotFound);
            },
        };
        if !verify_password(request.password.as_str(), user.password_hash.as_str()) {
            proof {
                let j = choose|j: int|
                    0 <= j < self@.users.len() && #[trigger] self@.users[j] == user@;
                assert(self@.users[j].username == request.username@);
            }
            return Err(UserError::InvalidCredentials);
        }
        proof {
            let j = choose|j: int|
                0 <= j < self@.users.len() && #[trigger] self@.users[j] == user@;
            assert forall|k: int|
                0 <= k < self@.users.len() && (#[trigger] self@.users[k]).username
                    == request.username@ implies password_matches(
                encode_utf8(request.password@),
                self@.users[k].password_hash,
            ) by {
                lemma_username_unique(self@, j, k);
            }
        }
        let token = match self.jwt_service.generate_token(
            user.id,
            user.username.as_str(),
            now,
        ) {
            Ok(t) => t,
            Err(e) => {
                return Err(e);
            },
        };
        Ok(LoginUserResponse { token, user })
    }
}

/// Manages the posts of the blog.
pub struct BlogService {
    post_repository: PostRepository,
}

impl View for BlogService {
    type V = PostStoreView;

    closed spec fn view(&self) -> PostStoreView {
        self.post_repository@
    }
}

impl BlogService {
    /// Invariant this service maintains.
    pub open spec fn wf(&self) -> bool {
        crate::store::posts_wf(self@)
    }

    /// Compose the service from the post store.
    pub fn new(post_repository: PostRepository) -> (r: BlogService)
        ensures
            r@ == post_repository@,
    {
        BlogService { post_repository }
    }

    /// Create a post owned by the authenticated author.
    pub fn create_post(&mut self, post: CreatePostRequest, author_id: i64, now: i64) -> (r: Result<
        Post,
        PostError,
    >)
        requires
            old(self).wf(),
        ensures
            final(self).wf(),
            r matches Ok(p) ==> create_post_success(
                old(self)@,
                post.title@,
                post.content@,
                author_id,
                now,
                p@,
                final(self)@,
            ),
            r is Err ==> final(self)@ == old(self)@ && r->Err_0 is Database && old(self)@.next_id
                == i64::MAX,
            old(self)@.next_id < i64::MAX ==> r is Ok,
    {
        self.post_repository.create_post(post, author_id, now)
    }

    /// Read one post; no session is required.
    pub fn get_post(&self, id: i64) -> (r: Result<Post, PostError>)
        requires
            self.wf(),
        ensures
            r matches Ok(p) ==> p@.id == id && self@.posts.contains(p@),
            r is Ok <==> post_id_present(self@.posts, id as int),
            r matches Err(e) ==> e is PostNotFound,
    {
        self.post_repository.get_post(id)
    }

    /// Read one page of posts, newest first; no session is required.
    pub fn get_posts(&self, limit: i64, offset: i64) -> (r: Result<Vec<Post>, PostError>)
        requires
            self.wf(),
        ensures
            r is Ok <==> limit >= 0 && offset >= 0,
            r matches Err(e) ==> e is Database,
            r matches Ok(v) ==> {
                let t = self@.posts.len() as int;
                let s = vstd::math::min(offset as int, t);
                let e = vstd::math::min(offset as int + limit as int, t);
                &&& v@.map_values(|p: Post| p@) == self@.posts.subrange(s, e)
                &&& v@.len() == vstd::math::min(
                    limit as int,
                    vstd::math::max(0, t - offset as int),
                )
            },
    {
        self.post_repository.get_posts(limit, offset)
    }

    /// Update a post behind the ownership guard: confirm the post
    /// exists, confirm the caller owns it, then overwrite exactly the
    /// fields present in the request and refresh `updated_at`. Every
    /// failing path leaves the store unchanged.
    pub fn update_post(&mut self, post: UpdatePostRequest, user_id: i64, now: i64) -> (r: Result<
        Post,
        PostError,
    >)
        requires
            old(self).wf(),
        ensures
            final(self).wf(),
            final(self)@.next_id == old(self)@.next_id,
            r is Err ==> final(self)@ == old(self)@,
            (r is Err && r->Err_0 is PostNotFound) <==> !post_id_present(
                old(self)@.posts,
                post.id as int,
            ),
            (r is Err && r->Err_0 is Forbidden) <==> (post_id_present(
                old(self)@.posts,
                post.id as int,
            ) && !post_owned_by(old(self)@.posts, post.id as int, user_id as int)),
            r is Ok <==> post_owned_by(old(self)@.posts, post.id as int, user_id as int),
            r matches Ok(p) ==> update_post_success(
                old(self)@,
                post.id,
                post.title.deep_view(),
                post.content.deep_view(),
                user_id,
                now,
                p@,
                final(self)@,
            ),
    {
        match self.is_author(post.id, user_id) {
            Err(e) => Err(e),
            Ok(false) => Err(PostError::Forbidden),
            Ok(true) => {
                let ghost prev = self@;
                let r = self.post_repository.update_post(post, now);
                proof {
                    if r is Ok {
                        let p = r->Ok_0;
                        let k = choose|k: int|
                            {
                                &&& 0 <= k < prev.posts.len()
                                &&& (#[trigger] prev.posts[k]).id == post.id
                                &&& p@ == (PostView {
                                    id: prev.posts[k].id,
                                    title: if post.title is Some {
                                        post.title->0@
                                    } else {
                                        prev.posts[k].title
                                    },
                                    content: if post.content is Some {
                                        post.content->0@
                                    } else {
                                        prev.posts[k].content
                                    },
                                    author_id: prev.posts[k].author_id,
                                    created_at: prev.posts[k].created_at,
                                    updated_at: now as int,
                                })
                                &&& self@.posts == prev.posts.update(k, p@)
                            };
                        let j = choose|j: int|
                            0 <= j < prev.posts.len() && (#[trigger] prev.posts[j]).id
                                == post.id && prev.posts[j].author_id == user_id;
                        lemma_post_id_unique(prev, k, j);
                    }
                }
                r
            },
        }
    }

    /// Delete a post behind the ownership guard: confirm the post
    /// exists, confirm the caller owns it, then remove the row. Every
    /// failing path leaves the store unchanged.
    pub fn delete_post(&mut self, id: i64, user_id: i64) -> (r: Result<(), PostError>)
        requires
            old(self).wf(),
        ensures
            final(self).wf(),
            final(self)@.next_id == old(self)@.next_id,
            r is Err ==> final(self)@ == old(self)@,
            (r is Err && r->Err_0 is PostNotFound) <==> !post_id_present(
                old(self)@.posts,
                id as int,
            ),
            (r is Err && r->Err_0 is Forbidden) <==> (post_id_present(old(self)@.posts, id as int)
                && !post_owned_by(old(self)@.posts, id as int, user_id as int)),
            r is Ok <==> post_owned_by(old(self)@.posts, id as int, user_id as int),
            r is Ok ==> delete_post_success(old(self)@, id, user_id, final(self)@),
    {
        match self.is_author(id, user_id) {
            Err(e) => Err(e),
            Ok(false) => Err(PostError::Forbidden),
            Ok(true) => {
                let ghost prev = self@;
                let r = self.post_repository.delete_post(id);
                proof {
                    let k = choose|k: int|
                        0 <= k < prev.posts.len() && (#[trigger] prev.posts[k]).id == id
                            && self@.posts == prev.posts.remove(k);
                    let j = choose|j: int|
                        0 <= j < prev.posts.len() && (#[trigger] prev.posts[j]).id == id
                            && prev.posts[j].author_id == user_id;
                    lemma_post_id_unique(prev, k, j);
                }
                r
            },
        }
    }

    /// Whether `user_id` is the author of the post carrying `post_id`;
    /// fails with `PostNotFound` when no such post exists.
    fn is_author(&self, post_id: i64, user_id: i64) -> (r: Result<bool, PostError>)
        requires
            self.wf(),
        ensures
            r is Ok <==> post_id_present(self@.posts, post_id as int),
            r matches Err(e) ==> e is PostNotFound,
            r matches Ok(b) ==> b == post_owned_by(self@.posts, post_id as int, user_id as int),
    {
        let post = match self.post_repository.get_post(post_id) {
            Ok(p) => p,
            Err(_) => {
                return Err(PostError::PostNotFound);
            },
        };
        let owned = post.author_id == user_id;
        proof {
            let j = choose|j: int|
                0 <= j < self@.posts.len() && #[trigger] self@.posts[j] == post@;
            if owned {
                assert(post_owned_by(self@.posts, post_id as int, user_id as int));
            } else {
                if post_owned_by(self@.posts, post_id as int, user_id as int) {
                    let k = choose|k: int|
                        0 <= k < self@.posts.len() && (#[trigger] self@.posts[k]).id == post_id
                            && self@.posts[k].author_id == user_id;
                    lemma_post_id_unique(self@, j, k);
                }
            }
        }
        Ok(owned)
    }
}

} // verus!
