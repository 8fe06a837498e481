//! Binary-RPC entry points: the same seven operations as the text
//! protocol, signalling failure as an RPC status code. Semantically
//! equivalent failures land in the same taxonomy category on both
//! protocols; the lemmas in `errors` state this.

use vstd::prelude::*;

use crate::credentials::TOKEN_TTL_SECS;
use crate::domain::{
    CreatePostRequest, CreateUserRequest, CreateUserResponse, LoginUserRequest, LoginUserResponse,
    Post, UpdatePostRequest,
};
use crate::errors::RpcCode;
use crate::middleware::{authorize, spec_auth_claims};
use crate::presentation::AppState;
use crate::services::{
    create_post_success, delete_post_success, login_success, post_owned_by, register_success,
    update_post_success, wrong_password,
};
use crate::store::{post_id_present, username_taken};
use crate::validation::{spec_registration_valid, validate_registration};

verus! {

/// Register a user: malformed input is `InvalidArgument`, a taken name
/// `AlreadyExists`, an internal failure `Internal`.
pub fn register(state: &mut AppState, request: CreateUserRequest, now: i64) -> (r: Result<
    CreateUserResponse,
    RpcCode,
>)
    requires
        old(state).wf(),
        0 <= now <= i64::MAX - TOKEN_TTL_SECS,
    ensures
        final(state).wf(),
        final(state).blog_service == old(state).blog_service,
        final(state).jwt_service == old(state).jwt_service,
        final(state).auth_service.key() == old(state).auth_service.key(),
        r matches Ok(resp) ==> spec_registration_valid(request.email@, request.password@)
            && register_success(
            old(state).auth_service@,
            old(state).auth_service.key(),
            request.username@,
            request.email@,
            request.password@,
            resp.token@,
            resp.user@,
            now,
            final(state).auth_service@,
        ),
        (r is Err && r->Err_0 == RpcCode::InvalidArgument) <==> !spec_registration_valid(
            request.email@,
            request.password@,
        ),
        r is Err && r->Err_0 == RpcCode::AlreadyExists ==> username_taken(
            old(state).auth_service@.users,
            request.username@,
        ),
        spec_registration_valid(request.email@, request.password@) && username_taken(
            old(state).auth_service@.users,
            request.username@,
        ) ==> r is Err && (r->Err_0 == RpcCode::AlreadyExists || r->Err_0 == RpcCode::Internal),
        r is Err ==> r->Err_0 == RpcCode::InvalidArgument || r->Err_0 == RpcCode::AlreadyExists
            || r->Err_0 == RpcCode::Internal,
        r is Err && (r->Err_0 == RpcCode::InvalidArgument || r->Err_0 == RpcCode::AlreadyExists)
            ==> final(state).auth_service@ == old(state).auth_service@,
        spec_registration_valid(request.email@, request.password@) && !username_taken(
            old(state).auth_service@.users,
            request.username@,
        ) && old(state).auth_service@.next_id < i64::MAX ==> r is Ok || r->Err_0
            == RpcCode::Internal,
{
    match validate_registration(&request) {
        Err(e) => Err(e.rpc_code()),
        Ok(()) => match state.auth_service.register(request, now) {
            Ok(resp) => Ok(resp),
            Err(e) => Err(e.rpc_code()),
        },
    }
}

/// Log a user in: an unknown name is `NotFound`, a wrong password
/// `InvalidArgument`, an internal failure `Internal`.
pub fn login(state: &AppState, request: LoginUserRequest, now: i64) -> (r: Result<
    LoginUserResponse,
    RpcCode,
>)
    requires
        state.wf(),
        0 <= now <= i64::MAX - TOKEN_TTL_SECS,
    ensures
        r matches Ok(resp) ==> login_success(
            state.auth_service@,
            state.auth_service.key(),
            request.username@,
            request.password@,
            resp.token@,
            resp.user@,
            now,
        ),
        (r is Err && r->Err_0 == RpcCode::NotFound) <==> !username_taken(
            state.auth_service@.users,
            request.username@,
        ),
        (r is Err && r->Err_0 == RpcCode::InvalidArgument) <==> wrong_password(
            state.auth_service@,
            request.username@,
            request.password@,
        ),
        r is Err ==> r->Err_0 == RpcCode::NotFound || r->Err_0 == RpcCode::InvalidArgument
            || r->Err_0 == RpcCode::Internal,
{
    match state.auth_service.login(request, now) {
        Ok(resp) => Ok(resp),
        Err(e) => Err(e.rpc_code()),
    }
}

/// Create a post: a bearer token the guard rejects is
/// `Unauthenticated`; the authenticated identity becomes the author.
pub fn create_post(
    state: &mut AppState,
    auth: Option<&str>,
    request: CreatePostRequest,
    now: i64,
) -> (r: Result<Post, RpcCode>)
    requires
        old(state).wf(),
    ensures
        final(state).wf(),
        final(state).auth_service == old(state).auth_service,
        final(state).jwt_service == old(state).jwt_service,
        spec_auth_claims(old(state).jwt_service.key(), auth) is None ==> r is Err && r->Err_0
            == RpcCode::Unauthenticated,
        r is Err ==> final(state).blog_service@ == old(state).blog_service@,
        r matches Ok(p) ==> (spec_auth_claims(old(state).jwt_service.key(), auth) matches Some(c)
            && create_post_success(
            old(state).blog_service@,
            request.title@,
            request.content@,
            c.0,
            now,
            p@,
            final(state).blog_service@,
        )),
        r is Err ==> r->Err_0 == RpcCode::Unauthenticated || r->Err_0 == RpcCode::Internal,
        r is Err && r->Err_0 == RpcCode::Internal ==> old(state).blog_service@.next_id
            == i64::MAX,
{
    let claims = match authorize(&state.jwt_service, auth) {
        Some(c) => c,
        None => {
            return Err(RpcCode::Unauthenticated);
        },
    };
    match state.blog_service.create_post(request, claims.user_id, now) {
        Ok(p) => Ok(p),
        Err(e) => Err(e.rpc_code()),
    }
}

/// Read one post; no token is required or inspected.
pub fn get_post(state: &AppState, id: i64) -> (r: Result<Post, RpcCode>)
    requires
        state.wf(),
    ensures
        r matches Ok(p) ==> p@.id == id && state.blog_service@.posts.contains(p@),
        r is Ok <==> post_id_present(state.blog_service@.posts, id as int),
        r matches Err(c) ==> c == RpcCode::NotFound,
{
    match state.blog_service.get_post(id) {
        Ok(p) => Ok(p),
        Err(e) => Err(e.rpc_code()),
    }
}

/// Read one page of posts, newest first; both paging parameters are
/// caller-specified on this protocol.
pub fn get_posts(state: &AppState, limit: i64, offset: i64) -> (r: Result<Vec<Post>, RpcCode>)
    requires
        state.wf(),
    ensures
        r is Ok <==> limit >= 0 && offset >= 0,
        r matches Err(c) ==> c == RpcCode::Internal,
        r matches Ok(v) ==> {
            let t = state.blog_service@.posts.len() as int;
            let s = vstd::math::min(offset as int, t);
            let e = vstd::math::min(offset as int + limit as int, t);
            &&& v@.map_values(|p: Post| p@) == state.blog_service@.posts.subrange(s, e)
            &&& v@.len() == vstd::math::min(limit as int, vstd::math::max(0, t - offset as int))
        },
{
    match state.blog_service.get_posts(limit, offset) {
        Ok(v) => Ok(v),
        Err(e) => Err(e.rpc_code()),
    }
}

/// Update a post behind the guard and the ownership check: a rejected
/// token is `Unauthenticated`, an absent post `NotFound`, someone
/// else's post `InvalidArgument`.
pub fn update_post(
    state: &mut AppState,
    auth: Option<&str>,
    request: UpdatePostRequest,
    now: i64,
) -> (r: Result<Post, RpcCode>)
    requires
        old(state).wf(),
    ensures
        final(state).wf(),
        final(state).auth_service == old(state).auth_service,
        final(state).jwt_service == old(state).jwt_service,
        final(state).blog_service@.next_id == old(state).blog_service@.next_id,
        spec_auth_claims(old(state).jwt_service.key(), auth) is None ==> r is Err && r->Err_0
            == RpcCode::Unauthenticated,
        r is Err ==> final(state).blog_service@ == old(state).blog_service@,
        r matches Ok(p) ==> (spec_auth_claims(old(state).jwt_service.key(), auth) matches Some(c)
            && update_post_success(
            old(state).blog_service@,
            request.id,
            request.title.deep_view(),
            request.content.deep_view(),
            c.0,
            now,
            p@,
            final(state).blog_service@,
        )),
        r is Err && r->Err_0 == RpcCode::NotFound ==> !post_id_present(
            old(state).blog_service@.posts,
            request.id as int,
        ),
        r is Err && r->Err_0 == RpcCode::InvalidArgument ==> (spec_auth_claims(
            old(state).jwt_service.key(),
            auth,
        ) matches Some(c) && post_id_present(old(state).blog_service@.posts, request.id as int)
            && !post_owned_by(old(state).blog_service@.posts, request.id as int, c.0 as int)),
        r is Err ==> r->Err_0 == RpcCode::Unauthenticated || r->Err_0 == RpcCode::NotFound
            || r->Err_0 == RpcCode::InvalidArgument,
{
    let claims = match authorize(&state.jwt_service, auth) {
        Some(c) => c,
        None => {
            return Err(RpcCode::Unauthenticated);
        },
    };
    match state.blog_service.update_post(request, claims.user_id, now) {
        Ok(p) => Ok(p),
        Err(e) => Err(e.rpc_code()),
    }
}

/// Delete a post behind the guard and the ownership check: a rejected
/// token is `Unauthenticated`, an absent post `NotFound`, someone
/// else's post `InvalidArgument`.
pub fn delete_post(state: &mut AppState, auth: Option<&str>, id: i64) -> (r: Result<(), RpcCode>)
    requires
        old(state).wf(),
    ensures
        final(state).wf(),
        final(state).auth_service == old(state).auth_service,
        final(state).jwt_service == old(state).jwt_service,
        final(state).blog_service@.next_id == old(state).blog_service@.next_id,
        spec_auth_claims(old(state).jwt_service.key(), auth) is None ==> r is Err && r->Err_0
            == RpcCode::Unauthenticated,
        r is Err ==> final(state).blog_service@ == old(state).blog_service@,
        r is Ok ==> (spec_auth_claims(old(state).jwt_service.key(), auth) matches Some(c)
            && delete_post_success(
            old(state).blog_service@,
            id,
            c.0,
            final(state).blog_service@,
        )),
        r is Err && r->Err_0 == RpcCode::NotFound ==> !post_id_present(
            old(state).blog_service@.posts,
            id as int,
        ),
        r is Err && r->Err_0 == RpcCode::InvalidArgument ==> (spec_auth_claims(
            old(state).jwt_service.key(),
            auth,
        ) matches Some(c) && post_id_present(old(state).blog_service@.posts, id as int)
            && !post_owned_by(old(state).blog_service@.posts, id as int, c.0 as int)),
        r is Err ==> r->Err_0 == RpcCode::Unauthenticated || r->Err_0 == RpcCode::NotFound
            || r->Err_0 == RpcCode::InvalidArgument,
{
    let claims = match authorize(&state.jwt_service, auth) {
        Some(c) => c,
        None => {
            return Err(RpcCode::Unauthenticated);
        },
    };
    match state.blog_service.delete_post(id, claims.user_id) {
        Ok(()) => Ok(()),
        Err(e) => Err(e.rpc_code()),
    }
}

} // verus!
