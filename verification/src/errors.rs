//! Shared error taxonomy and the fixed mapping tables between domain
//! errors, wire-level failure signals, and client-side errors.
//!
//! Every failure a backend can see is classified into exactly one
//! [`BlogClientError`]; unclassified signals fall to the transport
//! catch-all variants and are never silently swallowed. The lemmas at the
//! bottom show that both protocols' tables agree at the taxonomy level.

use vstd::prelude::*;

verus! {

/// Failure of a user-facing operation, as the client reports it.
#[derive(Debug)]
pub enum BlogClientError {
    /// The cached token could not be placed on the wire.
    InvalidToken,
    /// No session token is cached; no wire call was made.
    TokenNotFound,
    /// No user with the given name exists.
    UserNotFound,
    /// A user with the given name already exists.
    UserAlreadyExists,
    /// The server rejected the session token.
    UserUnauthorized,
    /// Wrong user name or password.
    InvalidCredentials,
    /// Malformed registration data.
    InvalidRegistrationCredentials,
    /// A user payload could not be read from the wire.
    InvalidUser,
    /// No post with the given id exists.
    PostNotFound,
    /// A post payload could not be read from the wire.
    InvalidPostContent,
    /// The caller is authenticated but does not own the post.
    Forbidden,
    /// A failure that fits no other category.
    Unexpected,
    /// Failure of the text protocol: the status that was not classified,
    /// if any, and a diagnostic.
    Http(Option<u16>, String),
    /// Connection-level failure of the binary protocol, with a diagnostic.
    Grpc(String),
    /// Unclassified status of the binary protocol, with a diagnostic.
    GrpcStatus(RpcCode, String),
}

/// Failure while handling user data on the server.
#[derive(Debug)]
pub enum UserError {
    /// No user with the given name exists.
    UserNotFound,
    /// A user with the given name already exists.
    UserAlreadyExists,
    /// Wrong user name or password.
    InvalidCredentials,
    /// The registration payload failed validation.
    InvalidRegistrationCredentials,
    /// The password hashing primitive failed.
    PasswordHashing,
    /// A session token could not be created, with a diagnostic.
    CreateJwtToken(String),
    /// The storage layer failed, with a diagnostic.
    Database(String),
}

/// Failure while handling post data on the server.
#[derive(Debug)]
pub enum PostError {
    /// No post with the given id exists.
    PostNotFound,
    /// The caller is not the author of the post.
    Forbidden,
    /// The storage layer failed, with a diagnostic.
    Database(String),
}

/// Status code of the binary RPC protocol, as far as the mapping tables
/// distinguish its values.
#[derive(Clone, Copy, Debug, PartialEq, Eq, Structural)]
pub enum RpcCode {
    /// The request failed validation.
    InvalidArgument,
    /// The named resource does not exist.
    NotFound,
    /// The resource to create already exists.
    AlreadyExists,
    /// No valid authentication credentials were supplied.
    Unauthenticated,
    /// An internal server failure.
    Internal,
    /// Any status the tables do not distinguish.
    Unknown,
}

/// One named category of the shared error classification. Both protocol
/// backends must land semantically equivalent failures in the same
/// category.
#[derive(Clone, Copy, Debug, PartialEq, Eq, Structural)]
pub enum ErrorKind {
    /// Wrong user name or password.
    InvalidCredentials,
    /// No such user.
    UserNotFound,
    /// The user already exists.
    UserAlreadyExists,
    /// Malformed registration data.
    InvalidRegistration,
    /// No token cached; no wire call was made.
    SessionMissing,
    /// The token was missing, unreadable, expired or rejected.
    SessionInvalid,
    /// No such resource.
    ResourceNotFound,
    /// Authenticated but not the owner.
    Forbidden,
    /// A malformed payload, a transport failure, or anything else.
    UnexpectedFailure,
}

impl BlogClientError {
    /// The taxonomy category this error belongs to.
    pub open spec fn kind(&self) -> ErrorKind {
        match self {
            BlogClientError::InvalidToken => ErrorKind::SessionInvalid,
            BlogClientError::TokenNotFound => ErrorKind::SessionMissing,
            BlogClientError::UserNotFound => ErrorKind::UserNotFound,
            BlogClientError::UserAlreadyExists => ErrorKind::UserAlreadyExists,
            BlogClientError::UserUnauthorized => ErrorKind::SessionInvalid,
            BlogClientError::InvalidCredentials => ErrorKind::InvalidCredentials,
            BlogClientError::InvalidRegistrationCredentials => ErrorKind::InvalidRegistration,
            BlogClientError::InvalidUser => ErrorKind::UnexpectedFailure,
            BlogClientError::PostNotFound => ErrorKind::ResourceNotFound,
            BlogClientError::InvalidPostContent => ErrorKind::UnexpectedFailure,
            BlogClientError::Forbidden => ErrorKind::Forbidden,
            BlogClientError::Unexpected => ErrorKind::UnexpectedFailure,
            BlogClientError::Http(_, _) => ErrorKind::UnexpectedFailure,
            BlogClientError::Grpc(_) => ErrorKind::UnexpectedFailure,
            BlogClientError::GrpcStatus(_, _) => ErrorKind::UnexpectedFailure,
        }
    }

    /// Executable form of [`Self::kind`].
    pub fn kind_of(&self) -> (k: ErrorKind)
        ensures
            k == self.kind(),
    {
        match self {
            BlogClientError::InvalidToken => ErrorKind::SessionInvalid,
            BlogClientError::TokenNotFound => ErrorKind::SessionMissing,
            BlogClientError::UserNotFound => ErrorKind::UserNotFound,
            BlogClientError::UserAlreadyExists => ErrorKind::UserAlreadyExists,
            BlogClientError::UserUnauthorized => ErrorKind::SessionInvalid,
            BlogClientError::InvalidCredentials => ErrorKind::InvalidCredentials,
            BlogClientError::InvalidRegistrationCredentials => ErrorKind::InvalidRegistration,
            BlogClientError::InvalidUser => ErrorKind::UnexpectedFailure,
            BlogClientError::PostNotFound => ErrorKind::ResourceNotFound,
            BlogClientError::InvalidPostContent => ErrorKind::UnexpectedFailure,
            BlogClientError::Forbidden => ErrorKind::Forbidden,
            BlogClientError::Unexpected => ErrorKind::UnexpectedFailure,
            BlogClientError::Http(_, _) => ErrorKind::UnexpectedFailure,
            BlogClientError::Grpc(_) => ErrorKind::UnexpectedFailure,
            BlogClientError::GrpcStatus(_, _) => ErrorKind::UnexpectedFailure,
        }
    }
}

impl UserError {
    /// The HTTP status the text protocol signals for this error.
    pub open spec fn spec_http_status(&self) -> u16 {
        match self {
            UserError::UserNotFound => 404u16,
            UserError::UserAlreadyExists => 409u16,
            UserError::InvalidCredentials => 401u16,
            UserError::InvalidRegistrationCredentials => 400u16,
            UserError::PasswordHashing => 500u16,
            UserError::CreateJwtToken(_) => 500u16,
            UserError::Database(_) => 500u16,
        }
    }

    /// Signal this error on the text protocol.
    pub fn http_status(&self) -> (s: u16)
        ensures
            s == self.spec_http_status(),
    {
        match self {
            UserError::UserNotFound => 404,
            UserError::UserAlreadyExists => 409,
            UserError::InvalidCredentials => 401,
            UserError::InvalidRegistrationCredentials => 400,
            UserError::PasswordHashing => 500,
            UserError::CreateJwtToken(_) => 500,
            UserError::Database(_) => 500,
        }
    }

    /// The status the binary RPC protocol signals for this error.
    pub open spec fn spec_rpc_code(&self) -> RpcCode {
        match self {
            UserError::UserNotFound => RpcCode::NotFound,
            UserError::UserAlreadyExists => RpcCode::AlreadyExists,
            UserError::InvalidCredentials => RpcCode::InvalidArgument,
            UserError::InvalidRegistrationCredentials => RpcCode::InvalidArgument,
            UserError::PasswordHashing => RpcCode::Internal,
            UserError::CreateJwtToken(_) => RpcCode::Internal,
            UserError::Database(_) => RpcCode::Internal,
        }
    }

    /// Signal this error on the binary RPC protocol.
    pub fn rpc_code(&self) -> (c: RpcCode)
        ensures
            c == self.spec_rpc_code(),
    {
        match self {
            UserError::UserNotFound => RpcCode::NotFound,
            UserError::UserAlreadyExists => RpcCode::AlreadyExists,
            UserError::InvalidCredentials => RpcCode::InvalidArgument,
            UserError::InvalidRegistrationCredentials => RpcCode::InvalidArgument,
            UserError::PasswordHashing => RpcCode::Internal,
            UserError::CreateJwtToken(_) => RpcCode::Internal,
            UserError::Database(_) => RpcCode::Internal,
        }
    }
}

impl PostError {
    /// The HTTP status the text protocol signals for this error.
    pub open spec fn spec_http_status(&self) -> u16 {
        match self {
            PostError::PostNotFound => 404u16,
            PostError::Forbidden => 403u16,
            PostError::Database(_) => 500u16,
        }
    }

    /// Signal this error on the text protocol.
    pub fn http_status(&self) -> (s: u16)
        ensures
            s == self.spec_http_status(),
    {
        match self {
            PostError::PostNotFound => 404,
            PostError::Forbidden => 403,
            PostError::Database(_) => 500,
        }
    }

    /// The status the binary RPC protocol signals for this error.
    pub open spec fn spec_rpc_code(&self) -> RpcCode {
        match self {
            PostError::PostNotFound => RpcCode::NotFound,
            PostError::Forbidden => RpcCode::InvalidArgument,
            PostError::Database(_) => RpcCode::Internal,
        }
    }

    /// Signal this error on the binary RPC protocol.
    pub fn rpc_code(&self) -> (c: RpcCode)
        ensures
            c == self.spec_rpc_code(),
    {
        match self {
            PostError::PostNotFound => RpcCode::NotFound,
            PostError::Forbidden => RpcCode::InvalidArgument,
            PostError::Database(_) => RpcCode::Internal,
        }
    }
}

// ------------------------------------------------------------------
// Client-side classification: the fixed table of each backend, one
// function per operation family, exactly as the backend applies it.
// ------------------------------------------------------------------

/// Classify a failed registration on the text protocol.
pub fn classify_register_http(status: u16, detail: String) -> (e: BlogClientError)
    ensures
        status == 400 ==> e matches BlogClientError::InvalidRegistrationCredentials,
        status == 409 ==> e matches BlogClientError::UserAlreadyExists,
        status != 400 && status != 409 ==> (e matches BlogClientError::Http(s, d)
            && s == Some(status) && d@ == detail@),
        e.kind() == register_http_kind(status),
{
    match status {
        400 => BlogClientError::InvalidRegistrationCredentials,
        409 => BlogClientError::UserAlreadyExists,
        _ => BlogClientError::Http(Some(status), detail),
    }
}

/// Classify a failed login on the text protocol.
pub fn classify_login_http(status: u16, detail: String) -> (e: BlogClientError)
    ensures
        status == 404 ==> e matches BlogClientError::UserNotFound,
        status == 401 ==> e matches BlogClientError::InvalidCredentials,
        status != 404 && status != 401 ==> (e matches BlogClientError::Http(s, d)
            && s == Some(status) && d@ == detail@),
        e.kind() == login_http_kind(status),
{
    match status {
        404 => BlogClientError::UserNotFound,
        401 => BlogClientError::InvalidCredentials,
        _ => BlogClientError::Http(Some(status), detail),
    }
}

/// Classify a failed post read on the text protocol.
pub fn classify_get_post_http(status: u16, detail: String) -> (e: BlogClientError)
    ensures
        status == 404 ==> e matches BlogClientError::PostNotFound,
        status != 404 ==> (e matches BlogClientError::Http(s, d)
            && s == Some(status) && d@ == detail@),
        e.kind() == get_post_http_kind(status),
{
    match status {
        404 => BlogClientError::PostNotFound,
        _ => BlogClientError::Http(Some(status), detail),
    }
}

/// Classify a failed post mutation on the text protocol.
pub fn check_post_auth_err(status: u16, detail: String) -> (e: BlogClientError)
    ensures
        status == 401 ==> e matches BlogClientError::UserUnauthorized,
        status == 404 ==> e matches BlogClientError::PostNotFound,
        status == 403 ==> e matches BlogClientError::Forbidden,
        status != 401 && status != 404 && status != 403 ==> (e matches BlogClientError::Http(s, d)
            && s == Some(status) && d@ == detail@),
        e.kind() == post_mutation_http_kind(status),
{
    match status {
        401 => BlogClientError::UserUnauthorized,
        404 => BlogClientError::PostNotFound,
        403 => BlogClientError::Forbidden,
        _ => BlogClientError::Http(Some(status), detail),
    }
}

/// Classify a failed registration on the binary RPC protocol.
pub fn classify_register_rpc(code: RpcCode, detail: String) -> (e: BlogClientError)
    ensures
        code == RpcCode::AlreadyExists ==> e matches BlogClientError::UserAlreadyExists,
        code == RpcCode::InvalidArgument ==> e matches BlogClientError::InvalidRegistrationCredentials,
        code != RpcCode::AlreadyExists && code != RpcCode::InvalidArgument
            ==> (e matches BlogClientError::GrpcStatus(c, d) && c == code && d@ == detail@),
        e.kind() == register_rpc_kind(code),
{
    match code {
        RpcCode::AlreadyExists => BlogClientError::UserAlreadyExists,
        RpcCode::InvalidArgument => BlogClientError::InvalidRegistrationCredentials,
        _ => BlogClientError::GrpcStatus(code, detail),
    }
}

/// Classify a failed login on the binary RPC protocol.
pub fn classify_login_rpc(code: RpcCode, detail: String) -> (e: BlogClientError)
    ensures
        code == RpcCode::NotFound ==> e matches BlogClientError::UserNotFound,
        code == RpcCode::InvalidArgument ==> e matches BlogClientError::InvalidCredentials,
        code != RpcCode::NotFound && code != RpcCode::InvalidArgument
            ==> (e matches BlogClientError::GrpcStatus(c, d) && c == code && d@ == detail@),
        e.kind() == login_rpc_kind(code),
{
    match code {
        RpcCode::NotFound => BlogClientError::UserNotFound,
        RpcCode::InvalidArgument => BlogClientError::InvalidCredentials,
        _ => BlogClientError::GrpcStatus(code, detail),
    }
}

/// Classify a failed post read on the binary RPC protocol.
pub fn classify_get_post_rpc(code: RpcCode, detail: String) -> (e: BlogClientError)
    ensures
        code == RpcCode::NotFound ==> e matches BlogClientError::PostNotFound,
        code != RpcCode::NotFound ==> (e matches BlogClientError::GrpcStatus(c, d)
            && c == code && d@ == detail@),
        e.kind() == get_post_rpc_kind(code),
{
    match code {
        RpcCode::NotFound => BlogClientError::PostNotFound,
        _ => BlogClientError::GrpcStatus(code, detail),
    }
}

/// Classify a failed post mutation on the binary RPC protocol.
pub fn check_post_auth_err_rpc(code: RpcCode, detail: String) -> (e: BlogClientError)
    ensures
        code == RpcCode::Unauthenticated ==> e matches BlogClientError::UserUnauthorized,
        code == RpcCode::NotFound ==> e matches BlogClientError::PostNotFound,
        code == RpcCode::InvalidArgument ==> e matches BlogClientError::Forbidden,
        code != RpcCode::Unauthenticated && code != RpcCode::NotFound
            && code != RpcCode::InvalidArgument
            ==> (e matches BlogClientError::GrpcStatus(c, d) && c == code && d@ == detail@),
        e.kind() == post_mutation_rpc_kind(code),
{
    match code {
        RpcCode::Unauthenticated => BlogClientError::UserUnauthorized,
        RpcCode::NotFound => BlogClientError::PostNotFound,
        RpcCode::InvalidArgument => BlogClientError::Forbidden,
        _ => BlogClientError::GrpcStatus(code, detail),
    }
}

// ------------------------------------------------------------------
// Taxonomy-level view of the tables, and the cross-protocol agreement
// laws: for failures an operation can actually signal, both backends
// land in the same taxonomy category.
// ------------------------------------------------------------------

/// Category a failed registration lands in on the text protocol.
pub open spec fn register_http_kind(status: u16) -> ErrorKind {
    if status == 400 {
        ErrorKind::InvalidRegistration
    } else if status == 409 {
        ErrorKind::UserAlreadyExists
    } else {
        ErrorKind::UnexpectedFailure
    }
}

/// Category a failed login lands in on the text protocol.
pub open spec fn login_http_kind(status: u16) -> ErrorKind {
    if status == 404 {
        ErrorKind::UserNotFound
    } else if status == 401 {
        ErrorKind::InvalidCredentials
    } else {
        ErrorKind::UnexpectedFailure
    }
}

/// Category a failed post read lands in on the text protocol.
pub open spec fn get_post_http_kind(status: u16) -> ErrorKind {
    if status == 404 {
        ErrorKind::ResourceNotFound
    } else {
        ErrorKind::UnexpectedFailure
    }
}

/// Category a failed post mutation lands in on the text protocol.
pub open spec fn post_mutation_http_kind(status: u16) -> ErrorKind {
    if status == 401 {
        ErrorKind::SessionInvalid
    } else if status == 404 {
        ErrorKind::ResourceNotFound
    } else if status == 403 {
        ErrorKind::Forbidden
    } else {
        ErrorKind::UnexpectedFailure
    }
}

/// Category a failed registration lands in on the binary protocol.
pub open spec fn register_rpc_kind(code: RpcCode) -> ErrorKind {
    match code {
        RpcCode::AlreadyExists => ErrorKind::UserAlreadyExists,
        RpcCode::InvalidArgument => ErrorKind::InvalidRegistration,
        _ => ErrorKind::UnexpectedFailure,
    }
}

/// Category a failed login lands in on the binary protocol.
pub open spec fn login_rpc_kind(code: RpcCode) -> ErrorKind {
    match code {
        RpcCode::NotFound => ErrorKind::UserNotFound,
        RpcCode::InvalidArgument => ErrorKind::InvalidCredentials,
        _ => ErrorKind::UnexpectedFailure,
    }
}

/// Category a failed post read lands in on the binary protocol.
pub open spec fn get_post_rpc_kind(code: RpcCode) -> ErrorKind {
    match code {
        RpcCode::NotFound => ErrorKind::ResourceNotFound,
        _ => ErrorKind::UnexpectedFailure,
    }
}

/// Category a failed post mutation lands in on the binary protocol.
pub open spec fn post_mutation_rpc_kind(code: RpcCode) -> ErrorKind {
    match code {
        RpcCode::Unauthenticated => ErrorKind::SessionInvalid,
        RpcCode::NotFound => ErrorKind::ResourceNotFound,
        RpcCode::InvalidArgument => ErrorKind::Forbidden,
        _ => ErrorKind::UnexpectedFailure,
    }
}

/// One operation of the client capability set, for stating properties
/// that range over the whole surface.
pub ghost enum ClientOperation {
    Register,
    Login,
    GetPost,
    GetPosts,
    CreatePost,
    UpdatePost,
    DeletePost,
}

/// A failure as the server decides it, before either protocol encodes
/// it: a user-domain error, a post-domain error, or a rejection by the
/// authorization guard.
pub ghost enum ServerFailure {
    User(UserError),
    Post(PostError),
    AuthRejected,
}

/// The status the text protocol signals for a server-side failure.
pub open spec fn http_signal(f: ServerFailure) -> u16 {
    match f {
        ServerFailure::User(e) => e.spec_http_status(),
        ServerFailure::Post(e) => e.spec_http_status(),
        ServerFailure::AuthRejected => 401u16,
    }
}

/// The status the binary protocol signals for a server-side failure.
pub open spec fn rpc_signal(f: ServerFailure) -> RpcCode {
    match f {
        ServerFailure::User(e) => e.spec_rpc_code(),
        ServerFailure::Post(e) => e.spec_rpc_code(),
        ServerFailure::AuthRejected => RpcCode::Unauthenticated,
    }
}

/// The category the text backend's table lands a failed operation in.
pub open spec fn http_outcome_kind(op: ClientOperation, status: u16) -> ErrorKind {
    match op {
        ClientOperation::Register => register_http_kind(status),
        ClientOperation::Login => login_http_kind(status),
        ClientOperation::GetPost => get_post_http_kind(status),
        ClientOperation::GetPosts => ErrorKind::UnexpectedFailure,
        ClientOperation::CreatePost => post_mutation_http_kind(status),
        ClientOperation::UpdatePost => post_mutation_http_kind(status),
        ClientOperation::DeletePost => post_mutation_http_kind(status),
    }
}

/// The category the binary backend's table lands a failed operation in.
pub open spec fn rpc_outcome_kind(op: ClientOperation, code: RpcCode) -> ErrorKind {
    match op {
        ClientOperation::Register => register_rpc_kind(code),
        ClientOperation::Login => login_rpc_kind(code),
        ClientOperation::GetPost => get_post_rpc_kind(code),
        ClientOperation::GetPosts => ErrorKind::UnexpectedFailure,
        ClientOperation::CreatePost => post_mutation_rpc_kind(code),
        ClientOperation::UpdatePost => post_mutation_rpc_kind(code),
        ClientOperation::DeletePost => post_mutation_rpc_kind(code),
    }
}

/// Which failures an operation can actually signal, as its entry
/// point's contract states them.
pub open spec fn operation_can_signal(op: ClientOperation, f: ServerFailure) -> bool {
    match op {
        ClientOperation::Register => f matches ServerFailure::User(e)
            && !(e is InvalidCredentials) && !(e is UserNotFound),
        ClientOperation::Login => f matches ServerFailure::User(e) && (e is UserNotFound
            || e is InvalidCredentials || e is CreateJwtToken),
        ClientOperation::GetPost => f matches ServerFailure::Post(e) && e is PostNotFound,
        ClientOperation::GetPosts => f matches ServerFailure::Post(e) && e is Database,
        ClientOperation::CreatePost => (f matches ServerFailure::Post(e) && e is Database)
            || f is AuthRejected,
        ClientOperation::UpdatePost => (f matches ServerFailure::Post(e) && (e is PostNotFound
            || e is Forbidden)) || f is AuthRejected,
        ClientOperation::DeletePost => (f matches ServerFailure::Post(e) && (e is PostNotFound
            || e is Forbidden)) || f is AuthRejected,
    }
}

/// Law — cross-protocol equivalence: for every operation of the
/// capability set and every failure that operation can signal, both
/// backends land the failure in the same taxonomy category; successes
/// coincide because each operation has one contract shared by both
/// transports. So a sequence of operations yields the same
/// taxonomy-level outcome, call by call, whichever backend the client
/// was built with.
pub proof fn law_cross_protocol_equivalence(op: ClientOperation, f: ServerFailure)
    requires
        operation_can_signal(op, f),
    ensures
        http_outcome_kind(op, http_signal(f)) == rpc_outcome_kind(op, rpc_signal(f)),
{
}

/// Law: a failed registration is reported with the same taxonomy
/// category on both protocols. Registration never signals
/// `InvalidCredentials`, which is the one value on which the two
/// tables differ for this operation.
pub proof fn law_register_outcome_agrees(e: UserError)
    requires
        !(e is InvalidCredentials),
    ensures
        register_http_kind(e.spec_http_status()) == register_rpc_kind(e.spec_rpc_code()),
{
}

/// Law: a failed login is reported with the same taxonomy category on
/// both protocols. Login never signals
/// `InvalidRegistrationCredentials`, the one value on which the two
/// tables differ for this operation.
pub proof fn law_login_outcome_agrees(e: UserError)
    requires
        !(e is InvalidRegistrationCredentials),
    ensures
        login_http_kind(e.spec_http_status()) == login_rpc_kind(e.spec_rpc_code()),
{
}

/// Law: a failed post read is reported with the same taxonomy category
/// on both protocols, whatever the server-side error was.
pub proof fn law_get_post_outcome_agrees(e: PostError)
    ensures
        get_post_http_kind(e.spec_http_status()) == get_post_rpc_kind(e.spec_rpc_code()),
{
}

/// Law: a failed post mutation is reported with the same taxonomy
/// category on both protocols, whatever the server-side error was.
pub proof fn law_post_mutation_outcome_agrees(e: PostError)
    ensures
        post_mutation_http_kind(e.spec_http_status()) == post_mutation_rpc_kind(e.spec_rpc_code()),
{
}

/// Law: a request rejected by the authorization guard is reported as an
/// invalid session on both protocols.
pub proof fn law_auth_rejection_agrees()
    ensures
        post_mutation_http_kind(401) == ErrorKind::SessionInvalid,
        post_mutation_rpc_kind(RpcCode::Unauthenticated) == ErrorKind::SessionInvalid,
{
}

} // verus!
