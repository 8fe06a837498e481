//! Text-protocol entry points: one function per route, each running
//! validation, the authorization guard where the operation mutates,
//! and the service call, and signalling failure as the protocol's
//! status code.

use vstd::prelude::*;

use crate::credentials::TOKEN_TTL_SECS;
use crate::domain::{
    CreatePostRequest, CreateUserRequest, CreateUserResponse, LoginUserRequest, LoginUserResponse,
    Post, UpdatePostRequest,
};
use crate::middleware::{authorize, spec_auth_claims};
use crate::presentation::AppState;
use crate::services::{
    create_post_success, delete_post_success, login_success, post_owned_by, register_success,
    update_post_success, wrong_password,
};
use crate::store::{post_id_present, username_taken};
use crate::validation::{spec_registration_valid, validate_registration};

verus! {

/// Default page size when the query names none.
pub fn default_limit() -> (r: i64)
    ensures
        r == 10,
{
    10
}

/// Register a user: reject malformed input at the boundary with status
/// 400, a taken name with 409, and internal failures with 500.
pub fn register(state: &mut AppState, request: CreateUserRequest, now: i64) -> (r: Result<
    CreateUserResponse,
    u16,
>)
    requires
        old(state).wf(),
        0 <= now <= i64::MAX - TOKEN_TTL_SECS,
    ensures
        final(state).wf(),
        final(state).blog_service == old(state).blog_service,
        final(state).jwt_service == old(state).jwt_service,
        final(state).auth_service.key() == old(state).auth_service.key(),
        r matches Ok(resp) ==> spec_registration_valid(request.email@, request.password@)
            && register_success(
            old(state).auth_service@,
            old(state).auth_service.key(),
            request.username@,
            request.email@,
            request.password@,
            resp.token@,
            resp.user@,
            now,
            final(state).auth_service@,
        ),
        (r is Err && r->Err_0 == 400) <==> !spec_registration_valid(
            request.email@,
            request.password@,
        ),
        r is Err && r->Err_0 == 409 ==> username_taken(
            old(state).auth_service@.users,
            request.username@,
        ),
        spec_registration_valid(request.email@, request.password@) && username_taken(
            old(state).auth_service@.users,
            request.username@,
        ) ==> r is Err && (r->Err_0 == 409 || r->Err_0 == 500),
        r is Err ==> r->Err_0 == 400 || r->Err_0 == 409 || r->Err_0 == 500,
        r is Err && (r->Err_0 == 400 || r->Err_0 == 409) ==> final(state).auth_service@ == old(
            state,
        ).auth_service@,
        spec_registration_valid(request.email@, request.password@) && !username_taken(
            old(state).auth_service@.users,
            request.username@,
        ) && old(state).auth_service@.next_id < i64::MAX ==> r is Ok || r->Err_0 == 500,
{
    match validate_registration(&request) {
        Err(e) => Err(e.http_status()),
        Ok(()) => match state.auth_service.register(request, now) {
            Ok(resp) => Ok(resp),
            Err(e) => Err(e.http_status()),
        },
    }
}

/// Log a user in: an unknown name is 404, a wrong password 401, an
/// internal failure 500.
pub fn login(state: &AppState, request: LoginUserRequest, now: i64) -> (r: Result<
    LoginUserResponse,
    u16,
>)
    requires
        state.wf(),
        0 <= now <= i64::MAX - TOKEN_TTL_SECS,
    ensures
        r matches Ok(resp) ==> login_success(
            state.auth_service@,
            state.auth_service.key(),
            request.username@,
            request.password@,
            resp.token@,
            resp.user@,
            now,
        ),
        (r is Err && r->Err_0 == 404) <==> !username_taken(
            state.auth_service@.users,
            request.username@,
        ),
        (r is Err && r->Err_0 == 401) <==> wrong_password(
            state.auth_service@,
            request.username@,
            request.password@,
        ),
        r is Err ==> r->Err_0 == 404 || r->Err_0 == 401 || r->Err_0 == 500,
{
    match state.auth_service.login(request, now) {
        Ok(resp) => Ok(resp),
        Err(e) => Err(e.http_status()),
    }
}

/// Create a post: the guard must accept the bearer token, and the
/// authenticated identity becomes the author.
pub fn create_post(
    state: &mut AppState,
    auth: Option<&str>,
    request: CreatePostRequest,
    now: i64,
) -> (r: Result<Post, u16>)
    requires
        old(state).wf(),
    ensures
        final(state).wf(),
        final(state).auth_service == old(state).auth_service,
        final(state).jwt_service == old(state).jwt_service,
        spec_auth_claims(old(state).jwt_service.key(), auth) is None ==> r is Err && r->Err_0
            == 401,
        r is Err ==> final(state).blog_service@ == old(state).blog_service@,
        r matches Ok(p) ==> (spec_auth_claims(old(state).jwt_service.key(), auth) matches Some(c)
            && create_post_success(
            old(state).blog_service@,
            request.title@,
            request.content@,
            c.0,
            now,
            p@,
            final(state).blog_service@,
        )),
        r is Err ==> r->Err_0 == 401 || r->Err_0 == 500,
        r is Err && r->Err_0 == 500 ==> old(state).blog_service@.next_id == i64::MAX,
{
    let claims = match authorize(&state.jwt_service, auth) {
        Some(c) => c,
        None => {
            return Err(401);
        },
    };
    match state.blog_service.create_post(request, claims.user_id, now) {
        Ok(p) => Ok(p),
        Err(e) => Err(e.http_status()),
    }
}

/// Read one post; no token is required or inspected.
pub fn get_post(state: &AppState, id: i64) -> (r: Result<Post, u16>)
    requires
        state.wf(),
    ensures
        r matches Ok(p) ==> p@.id == id && state.blog_service@.posts.contains(p@),
        r is Ok <==> post_id_present(state.blog_service@.posts, id as int),
        r matches Err(s) ==> s == 404,
{
    match state.blog_service.get_post(id) {
        Ok(p) => Ok(p),
        Err(e) => Err(e.http_status()),
    }
}

/// Read one page of posts, newest first; no token is required or
/// inspected. Absent parameters take the defaults: ten posts from the
/// head.
pub fn get_posts(state: &AppState, limit: Option<i64>, offset: Option<i64>) -> (r: Result<
    Vec<Post>,
    u16,
>)
    requires
        state.wf(),
    ensures
        ({
            let lim = if limit is Some { limit->0 } else { 10i64 };
            let off = if offset is Some { offset->0 } else { 0i64 };
            &&& r is Ok <==> lim >= 0 && off >= 0
            &&& r matches Err(s) ==> s == 500
            &&& r matches Ok(v) ==> {
                let t = state.blog_service@.posts.len() as int;
                let s = vstd::math::min(off as int, t);
                let e = vstd::math::min(off as int + lim as int, t);
                &&& v@.map_values(|p: Post| p@) == state.blog_service@.posts.subrange(s, e)
                &&& v@.len() == vstd::math::min(lim as int, vstd::math::max(0, t - off as int))
            }
        }),
{
    let lim = match limit {
        Some(l) => l,
        None => default_limit(),
    };
    let off = match offset {
        Some(o) => o,
        None => 0,
    };
    match state.blog_service.get_posts(lim, off) {
        Ok(v) => Ok(v),
        Err(e) => Err(e.http_status()),
    }
}

/// Update a post behind the guard and the ownership check: a rejected
/// token is 401, an absent post 404, someone else's post 403.
pub fn update_post(
    state: &mut AppState,
    auth: Option<&str>,
    id: i64,
    request: UpdatePostRequest,
    now: i64,
) -> (r: Result<Post, u16>)
    requires
        old(state).wf(),
    ensures
        final(state).wf(),
        final(state).auth_service == old(state).auth_service,
        final(state).jwt_service == old(state).jwt_service,
        final(state).blog_service@.next_id == old(state).blog_service@.next_id,
        spec_auth_claims(old(state).jwt_service.key(), auth) is None ==> r is Err && r->Err_0
            == 401,
        r is Err ==> final(state).blog_service@ == old(state).blog_service@,
        r matches Ok(p) ==> (spec_auth_claims(old(state).jwt_service.key(), auth) matches Some(c)
            && update_post_success(
            old(state).blog_service@,
            id,
            request.title.deep_view(),
            request.content.deep_view(),
            c.0,
            now,
            p@,
            final(state).blog_service@,
        )),
        r is Err && r->Err_0 == 404 ==> !post_id_present(old(state).blog_service@.posts, id as int),
        r is Err && r->Err_0 == 403 ==> (spec_auth_claims(old(state).jwt_service.key(), auth)
            matches Some(c) && post_id_present(old(state).blog_service@.posts, id as int)
            && !post_owned_by(old(state).blog_service@.posts, id as int, c.0 as int)),
        r is Err ==> r->Err_0 == 401 || r->Err_0 == 404 || r->Err_0 == 403,
{
    let claims = match authorize(&state.jwt_service, auth) {
        Some(c) => c,
        None => {
            return Err(401);
        },
    };
    let request = UpdatePostRequest { id, title: request.title, content: request.content };
    match state.blog_service.update_post(request, claims.user_id, now) {
        Ok(p) => Ok(p),
        Err(e) => Err(e.http_status()),
    }
}

/// Delete a post behind the guard and the ownership check: a rejected
/// token is 401, an absent post 404, someone else's post 403.
pub fn delete_post(state: &mut AppState, auth: Option<&str>, id: i64) -> (r: Result<(), u16>)
    requires
        old(state).wf(),
    ensures
        final(state).wf(),
        final(state).auth_service == old(state).auth_service,
        final(state).jwt_service == old(state).jwt_service,
        final(state).blog_service@.next_id == old(state).blog_service@.next_id,
        spec_auth_claims(old(state).jwt_service.key(), auth) is None ==> r is Err && r->Err_0
            == 401,
        r is Err ==> final(state).blog_service@ == old(state).blog_service@,
        r is Ok ==> (spec_auth_claims(old(state).jwt_service.key(), auth) matches Some(c)
            && delete_post_success(
            old(state).blog_service@,
            id,
            c.0,
            final(state).blog_service@,
        )),
        r is Err && r->Err_0 == 404 ==> !post_id_present(old(state).blog_service@.posts, id as int),
        r is Err && r->Err_0 == 403 ==> (spec_auth_claims(old(state).jwt_service.key(), auth)
            matches Some(c) && post_id_present(old(state).blog_service@.posts, id as int)
            && !post_owned_by(old(state).blog_service@.posts, id as int, c.0 as int)),
        r is Err ==> r->Err_0 == 401 || r->Err_0 == 404 || r->Err_0 == 403,
{
    let claims = match authorize(&state.jwt_service, auth) {
        Some(c) => c,
        None => {
            return Err(401);
        },
    };
    match state.blog_service.delete_post(id, claims.user_id) {
        Ok(()) => Ok(()),
        Err(e) => Err(e.http_status()),
    }
}

} // verus!
