//! Core logic of a small blogging system: domain model, shared error
//! taxonomy with its per-protocol mapping tables, registration validation,
//! credential and session handling, the in-memory storage model with the
//! ownership guard on post mutation, and the transport-agnostic client
//! state.
//!
//! Wire transports, persistence and other I/O live outside this crate;
//! they exchange plain values with the functions here.

pub mod domain;
pub mod errors;
pub mod validation;
pub mod credentials;
pub mod store;
pub mod services;
pub mod middleware;
pub mod presentation;
pub mod http_handlers;
pub mod grpc_service;
pub mod client;
pub mod laws;
