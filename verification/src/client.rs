//! Transport-agnostic client: one operation surface over two protocol
//! backends, selected once at construction, with a cached session
//! token.
//!
//! The backend is a tagged selector; each operation serializes its
//! request, hands it to the chosen protocol entry point, and classifies
//! that protocol's failure signal through the backend's fixed table.
//! Both backends meet the same contracts below, which is the
//! cross-protocol equivalence stated operation by operation: what an
//! operation returns, and of which taxonomy category its errors are,
//! does not depend on the chosen transport.
//!
//! The wire itself — sockets, serialization — is the embedding
//! program's concern; it stands between a real client and a real
//! server. Here the server state is handed in directly, which is the
//! same observable behaviour with the wire taken out.

use vstd::prelude::*;
use vstd::string::StringExecFns;

use crate::credentials::{token_claims, TOKEN_TTL_SECS};
use crate::domain::{
    AuthResponse, CreatePostRequest, CreateUserRequest, LoginUserRequest, Post, UpdatePostRequest,
    User,
};
use crate::errors::{
    check_post_auth_err, check_post_auth_err_rpc, classify_get_post_http, classify_get_post_rpc,
    classify_login_http, classify_login_rpc, classify_register_http, classify_register_rpc,
    BlogClientError, ErrorKind,
};
use crate::grpc_service;
use crate::http_handlers;
use crate::presentation::AppState;
use crate::services::{
    create_post_success, delete_post_success, login_success, post_owned_by, register_success,
    update_post_success, wrong_password,
};
use crate::store::{post_id_present, username_taken};
use crate::validation::spec_registration_valid;

verus! {

/// Which wire protocol a client speaks, and where; fixed at
/// construction.
pub enum Transport {
    /// The text protocol, at the given address.
    Http(String),
    /// The binary RPC protocol, at the given address.
    Grpc(String),
}

/// A client of the blog server: one uniform operation surface over the
/// selected transport, holding at most one cached session token, which
/// successful register and login overwrite.
pub struct BlogClient {
    /// The protocol this client speaks.
    transport: Transport,
    /// The cached session token, if any.
    token: Option<String>,
}

impl BlogClient {
    /// The cached token, as contracts speak of it.
    pub closed spec fn spec_token(&self) -> Option<String> {
        self.token
    }

    /// The selected transport, as contracts speak of it.
    pub closed spec fn spec_transport(&self) -> Transport {
        self.transport
    }

    /// Build a client for the given transport, with no session cached.
    pub fn new(transport: Transport) -> (r: BlogClient)
        ensures
            r.spec_transport() == transport,
            r.spec_token() is None,
    {
        BlogClient { transport, token: None }
    }

    /// Cache a session token for later protected requests.
    pub fn set_token(&mut self, token: String)
        ensures
            final(self).spec_token() == Some(token),
            final(self).spec_transport() == old(self).spec_transport(),
    {
        self.token = Some(token);
    }

    /// The currently cached session token.
    pub fn get_token(&self) -> (r: Option<String>)
        ensures
            r matches Some(t) ==> self.spec_token() matches Some(c) && c@ == t@,
            r is Some <==> self.spec_token() is Some,
    {
        match &self.token {
            Some(t) => Some(t.clone()),
            None => None,
        }
    }

    /// The authorization value a protected request carries, if a
    /// session is cached.
    fn bearer_header(&self) -> (r: Option<String>)
        ensures
            r is Some <==> self.spec_token() is Some,
            r matches Some(h) ==> self.spec_token() matches Some(t) && h@ == "Bearer "@ + t@,
    {
        match &self.token {
            Some(t) => Some(String::from_str("Bearer ").concat(t.as_str())),
            None => None,
        }
    }

    /// Register a new user and cache the session token that comes
    /// back. Malformed input and a taken name keep their own taxonomy
    /// categories on either transport.
    pub fn register(
        &mut self,
        server: &mut AppState,
        username: &str,
        email: &str,
        password: &str,
        now: i64,
    ) -> (r: Result<User, BlogClientError>)
        requires
            old(server).wf(),
            0 <= now <= i64::MAX - TOKEN_TTL_SECS,
        ensures
            final(server).wf(),
            final(self).spec_transport() == old(self).spec_transport(),
            final(server).blog_service == old(server).blog_service,
            final(server).jwt_service == old(server).jwt_service,
            final(server).auth_service.key() == old(server).auth_service.key(),
            r matches Ok(u) ==> (final(self).spec_token() matches Some(t) && register_success(
                old(server).auth_service@,
                old(server).auth_service.key(),
                username@,
                email@,
                password@,
                t@,
                u@,
                now,
                final(server).auth_service@,
            )),
            r is Err ==> final(self).spec_token() == old(self).spec_token(),
            (r is Err && r->Err_0 is InvalidRegistrationCredentials) <==> !spec_registration_valid(
                email@,
                password@,
            ),
            r is Err && r->Err_0 is UserAlreadyExists ==> username_taken(
                old(server).auth_service@.users,
                username@,
            ),
            spec_registration_valid(email@, password@) && username_taken(
                old(server).auth_service@.users,
                username@,
            ) ==> r is Err && (r->Err_0 is UserAlreadyExists || r->Err_0.kind()
                == ErrorKind::UnexpectedFailure),
            r is Err ==> r->Err_0 is InvalidRegistrationCredentials || r->Err_0 is UserAlreadyExists
                || r->Err_0.kind() == ErrorKind::UnexpectedFailure,
            spec_registration_valid(email@, password@) && !username_taken(
                old(server).auth_service@.users,
                username@,
            ) && old(server).auth_service@.next_id < i64::MAX ==> r is Ok || r->Err_0.kind()
                == ErrorKind::UnexpectedFailure,
    {
        let request = CreateUserRequest {
            username: username.to_owned(),
            email: email.to_owned(),
            password: password.to_owned(),
        };
        let response = match &self.transport {
            Transport::Http(_) => {
                match http_handlers::register(server, request, now) {
                    Ok(resp) => AuthResponse { token: resp.token, user: resp.user },
                    Err(status) => {
                        return Err(classify_register_http(status, String::new()));
                    },
                }
            },
            Transport::Grpc(_) => {
                match grpc_service::register(server, request, now) {
                    Ok(resp) => AuthResponse { token: resp.token, user: resp.user },
                    Err(code) => {
                        return Err(classify_register_rpc(code, String::new()));
                    },
                }
            },
        };
        self.set_token(response.token);
        Ok(response.user)
    }

    /// Log in and cache the session token that comes back. An unknown
    /// name and a wrong password keep their own taxonomy categories on
    /// either transport.
    pub fn login(
        &mut self,
        server: &AppState,
        username: &str,
        password: &str,
        now: i64,
    ) -> (r: Result<User, BlogClientError>)
        requires
            server.wf(),
            0 <= now <= i64::MAX - TOKEN_TTL_SECS,
        ensures
            final(self).spec_transport() == old(self).spec_transport(),
            r matches Ok(u) ==> (final(self).spec_token() matches Some(t) && login_success(
                server.auth_service@,
                server.auth_service.key(),
                username@,
                password@,
                t@,
                u@,
                now,
            )),
            r is Err ==> final(self).spec_token() == old(self).spec_token(),
            (r is Err && r->Err_0 is UserNotFound) <==> !username_taken(
                server.auth_service@.users,
                username@,
            ),
            (r is Err && r->Err_0 is InvalidCredentials) <==> wrong_password(
                server.auth_service@,
                username@,
                password@,
            ),
            r is Err ==> r->Err_0 is UserNotFound || r->Err_0 is InvalidCredentials
                || r->Err_0.kind() == ErrorKind::UnexpectedFailure,
    {
        let request = LoginUserRequest {
            username: username.to_owned(),
            password: password.to_owned(),
        };
        let response = match &self.transport {
            Transport::Http(_) => {
                match http_handlers::login(server, request, now) {
                    Ok(resp) => AuthResponse { token: resp.token, user: resp.user },
                    Err(status) => {
                        return Err(classify_login_http(status, String::new()));
                    },
                }
            },
            Transport::Grpc(_) => {
                match grpc_service::login(server, request, now) {
                    Ok(resp) => AuthResponse { token: resp.token, user: resp.user },
                    Err(code) => {
                        return Err(classify_login_rpc(code, String::new()));
                    },
                }
            },
        };
        self.set_token(response.token);
        Ok(response.user)
    }

    /// Create a post as the cached session's identity. With no session
    /// cached this fails locally — no wire call is made and the server
    /// is untouched.
    pub fn create_post(
        &mut self,
        server: &mut AppState,
        title: &str,
        content: &str,
        now: i64,
    ) -> (r: Result<Post, BlogClientError>)
        requires
            old(server).wf(),
        ensures
            final(server).wf(),
            final(self).spec_token() == old(self).spec_token(),
            final(self).spec_transport() == old(self).spec_transport(),
            final(server).auth_service == old(server).auth_service,
            final(server).jwt_service == old(server).jwt_service,
            old(self).spec_token() is None ==> *final(server) == *old(server),
            (r is Err && r->Err_0 is TokenNotFound) <==> old(self).spec_token() is None,
            r is Err ==> final(server).blog_service@ == old(server).blog_service@,
            r matches Ok(p) ==> (old(self).spec_token() matches Some(t) && token_claims(
                old(server).jwt_service.key(),
                t@,
            ) matches Some(c) && create_post_success(
                old(server).blog_service@,
                title@,
                content@,
                c.0,
                now,
                p@,
                final(server).blog_service@,
            )),
            old(self).spec_token() matches Some(t) && token_claims(
                old(server).jwt_service.key(),
                t@,
            ) is None ==> r is Err && r->Err_0 is UserUnauthorized,
            r is Err ==> r->Err_0 is TokenNotFound || r->Err_0 is UserUnauthorized
                || r->Err_0.kind() == ErrorKind::UnexpectedFailure,
    {
        let header = match self.bearer_header() {
            Some(h) => h,
            None => {
                return Err(BlogClientError::TokenNotFound);
            },
        };
        proof {
            reveal_strlit("Bearer ");
            let t = old(self).spec_token()->0;
            assert(header@.subrange(0, 7) =~= "Bearer "@);
            assert("Bearer "@.is_prefix_of(header@));
            assert(header@.skip(7) =~= t@);
        }
        let request = CreatePostRequest { title: title.to_owned(), content: content.to_owned() };
        match &self.transport {
            Transport::Http(_) => {
                match http_handlers::create_post(server, Some(header.as_str()), request, now) {
                    Ok(p) => Ok(p),
                    Err(status) => Err(check_post_auth_err(status, String::new())),
                }
            },
            Transport::Grpc(_) => {
                match grpc_service::create_post(server, Some(header.as_str()), request, now) {
                    Ok(p) => Ok(p),
                    Err(code) => Err(check_post_auth_err_rpc(code, String::new())),
                }
            },
        }
    }

    /// Read one post; works without a session.
    pub fn get_post(&mut self, server: &AppState, id: i64) -> (r: Result<Post, BlogClientError>)
        requires
            server.wf(),
        ensures
            *final(self) == *old(self),
            r matches Ok(p) ==> p@.id == id && server.blog_service@.posts.contains(p@),
            r is Ok <==> post_id_present(server.blog_service@.posts, id as int),
            r matches Err(e) ==> e is PostNotFound,
    {
        match &self.transport {
            Transport::Http(_) => {
                match http_handlers::get_post(server, id) {
                    Ok(p) => Ok(p),
                    Err(status) => Err(classify_get_post_http(status, String::new())),
                }
            },
            Transport::Grpc(_) => {
                match grpc_service::get_post(server, id) {
                    Ok(p) => Ok(p),
                    Err(code) => Err(classify_get_post_rpc(code, String::new())),
                }
            },
        }
    }

    /// Read one page of posts, newest first; works without a session.
    pub fn get_posts(&mut self, server: &AppState, limit: i64, offset: i64) -> (r: Result<
        Vec<Post>,
        BlogClientError,
    >)
        requires
            server.wf(),
        ensures
            *final(self) == *old(self),
            r is Ok <==> limit >= 0 && offset >= 0,
            r matches Err(e) ==> e.kind() == ErrorKind::UnexpectedFailure,
            r matches Ok(v) ==> {
                let t = server.blog_service@.posts.len() as int;
                let s = vstd::math::min(offset as int, t);
                let e = vstd::math::min(offset as int + limit as int, t);
                &&& v@.map_values(|p: Post| p@) == server.blog_service@.posts.subrange(s, e)
                &&& v@.len() == vstd::math::min(
                    limit as int,
                    vstd::math::max(0, t - offset as int),
                )
            },
    {
        match &self.transport {
            Transport::Http(_) => {
                match http_handlers::get_posts(server, Some(limit), Some(offset)) {
                    Ok(v) => Ok(v),
                    Err(status) => Err(BlogClientError::Http(Some(status), String::new())),
                }
            },
            Transport::Grpc(_) => {
                match grpc_service::get_posts(server, limit, offset) {
                    Ok(v) => Ok(v),
                    Err(code) => Err(BlogClientError::GrpcStatus(code, String::new())),
                }
            },
        }
    }

    /// Update a post as the cached session's identity; absent fields
    /// keep their stored value. With no session cached this fails
    /// locally, and the ownership guard turns someone else's post into
    /// `Forbidden` on either transport.
    pub fn update_post(
        &mut self,
        server: &mut AppState,
        id: i64,
        title: Option<String>,
        content: Option<String>,
        now: i64,
    ) -> (r: Result<Post, BlogClientError>)
        requires
            old(server).wf(),
        ensures
            final(server).wf(),
            final(self).spec_token() == old(self).spec_token(),
            final(self).spec_transport() == old(self).spec_transport(),
            final(server).auth_service == old(server).auth_service,
            final(server).jwt_service == old(server).jwt_service,
            final(server).blog_service@.next_id == old(server).blog_service@.next_id,
            old(self).spec_token() is None ==> *final(server) == *old(server),
            (r is Err && r->Err_0 is TokenNotFound) <==> old(self).spec_token() is None,
            r is Err ==> final(server).blog_service@ == old(server).blog_service@,
            r matches Ok(p) ==> (old(self).spec_token() matches Some(t) && token_claims(
                old(server).jwt_service.key(),
                t@,
            ) matches Some(c) && update_post_success(
                old(server).blog_service@,
                id,
                title.deep_view(),
                content.deep_view(),
                c.0,
                now,
                p@,
                final(server).blog_service@,
            )),
            old(self).spec_token() matches Some(t) && token_claims(
                old(server).jwt_service.key(),
                t@,
            ) is None ==> r is Err && r->Err_0 is UserUnauthorized,
            r is Err && r->Err_0 is PostNotFound ==> !post_id_present(
                old(server).blog_service@.posts,
                id as int,
            ),
            r is Err && r->Err_0 is Forbidden ==> (old(self).spec_token() matches Some(t)
                && token_claims(old(server).jwt_service.key(), t@) matches Some(c)
                && post_id_present(old(server).blog_service@.posts, id as int) && !post_owned_by(
                old(server).blog_service@.posts,
                id as int,
                c.0 as int,
            )),
            (old(self).spec_token() matches Some(t) && token_claims(
                old(server).jwt_service.key(),
                t@,
            ) matches Some(c) && post_id_present(old(server).blog_service@.posts, id as int)
                && !post_owned_by(old(server).blog_service@.posts, id as int, c.0 as int)) ==> r
                is Err && (r->Err_0 is Forbidden || r->Err_0 is UserUnauthorized),
            r is Err ==> r->Err_0 is TokenNotFound || r->Err_0 is UserUnauthorized
                || r->Err_0 is PostNotFound || r->Err_0 is Forbidden,
    {
        let header = match self.bearer_header() {
            Some(h) => h,
            None => {
                return Err(BlogClientError::TokenNotFound);
            },
        };
        proof {
            reveal_strlit("Bearer ");
            let t = old(self).spec_token()->0;
            assert(header@.subrange(0, 7) =~= "Bearer "@);
            assert("Bearer "@.is_prefix_of(header@));
            assert(header@.skip(7) =~= t@);
        }
        let request = UpdatePostRequest { id, title, content };
        match &self.transport {
            Transport::Http(_) => {
                match http_handlers::update_post(server, Some(header.as_str()), id, request, now) {
                    Ok(p) => Ok(p),
                    Err(status) => Err(check_post_auth_err(status, String::new())),
                }
            },
            Transport::Grpc(_) => {
                match grpc_service::update_post(server, Some(header.as_str()), request, now) {
                    Ok(p) => Ok(p),
                    Err(code) => Err(check_post_auth_err_rpc(code, String::new())),
                }
            },
        }
    }

    /// Delete a post as the cached session's identity. With no session
    /// cached this fails locally, and the ownership guard turns someone
    /// else's post into `Forbidden` on either transport.
    pub fn delete_post(&mut self, server: &mut AppState, id: i64) -> (r: Result<
        (),
        BlogClientError,
    >)
        requires
            old(server).wf(),
        ensures
            final(server).wf(),
            final(self).spec_token() == old(self).spec_token(),
            final(self).spec_transport() == old(self).spec_transport(),
            final(server).auth_service == old(server).auth_service,
            final(server).jwt_service == old(server).jwt_service,
            final(server).blog_service@.next_id == old(server).blog_service@.next_id,
            old(self).spec_token() is None ==> *final(server) == *old(server),
            (r is Err && r->Err_0 is TokenNotFound) <==> old(self).spec_token() is None,
            r is Err ==> final(server).blog_service@ == old(server).blog_service@,
            r is Ok ==> (old(self).spec_token() matches Some(t) && token_claims(
                old(server).jwt_service.key(),
                t@,
            ) matches Some(c) && delete_post_success(
                old(server).blog_service@,
                id,
                c.0,
                final(server).blog_service@,
            )),
            old(self).spec_token() matches Some(t) && token_claims(
                old(server).jwt_service.key(),
                t@,
            ) is None ==> r is Err && r->Err_0 is UserUnauthorized,
            r is Err && r->Err_0 is PostNotFound ==> !post_id_present(
                old(server).blog_service@.posts,
                id as int,
            ),
            r is Err && r->Err_0 is Forbidden ==> (old(self).spec_token() matches Some(t)
                && token_claims(old(server).jwt_service.key(), t@) matches Some(c)
                && post_id_present(old(server).blog_service@.posts, id as int) && !post_owned_by(
                old(server).blog_service@.posts,
                id as int,
                c.0 as int,
            )),
            (old(self).spec_token() matches Some(t) && token_claims(
                old(server).jwt_service.key(),
                t@,
            ) matches Some(c) && post_id_present(old(server).blog_service@.posts, id as int)
                && !post_owned_by(old(server).blog_service@.posts, id as int, c.0 as int)) ==> r
                is Err && (r->Err_0 is Forbidden || r->Err_0 is UserUnauthorized),
            r is Err ==> r->Err_0 is TokenNotFound || r->Err_0 is UserUnauthorized
                || r->Err_0 is PostNotFound || r->Err_0 is Forbidden,
    {
        let header = match self.bearer_header() {
            Some(h) => h,
            None => {
                return Err(BlogClientError::TokenNotFound);
            },
        };
        proof {
            reveal_strlit("Bearer ");
            let t = old(self).spec_token()->0;
            assert(header@.subrange(0, 7) =~= "Bearer "@);
            assert("Bearer "@.is_prefix_of(header@));
            assert(header@.skip(7) =~= t@);
        }
        match &self.transport {
            Transport::Http(_) => {
                match http_handlers::delete_post(server, Some(header.as_str()), id) {
                    Ok(()) => Ok(()),
                    Err(status) => Err(check_post_auth_err(status, String::new())),
                }
            },
            Transport::Grpc(_) => {
                match grpc_service::delete_post(server, Some(header.as_str()), id) {
                    Ok(()) => Ok(()),
                    Err(code) => Err(check_post_auth_err_rpc(code, String::new())),
                }
            },
        }
    }
}

} // verus!
