//! Composition of the services behind the two protocol entry points.

use vstd::prelude::*;

use crate::credentials::JwtService;
use crate::services::{AuthService, BlogService};

verus! {

/// Everything a protocol entry point needs: the two application
/// services and the token service the guard verifies against. The
/// signing key is fixed before serving and shared by issue and
/// verification.
pub struct AppState {
    /// Registration and login.
    pub auth_service: AuthService,
    /// Post reads and guarded mutations.
    pub blog_service: BlogService,
    /// Token verification for the authorization guard.
    pub jwt_service: JwtService,
}

impl AppState {
    /// Invariant: both stores are well formed and the guard verifies
    /// against the key the auth service issues under.
    pub open spec fn wf(&self) -> bool {
        &&& self.auth_service.wf()
        &&& self.blog_service.wf()
        &&& self.auth_service.key() == self.jwt_service.key()
    }

    /// Compose the state.
    pub fn new(
        auth_service: AuthService,
        blog_service: BlogService,
        jwt_service: JwtService,
    ) -> (r: AppState)
        ensures
            r.auth_service == auth_service,
            r.blog_service == blog_service,
            r.jwt_service == jwt_service,
    {
        AppState { auth_service, blog_service, jwt_service }
    }
}

} // verus!
