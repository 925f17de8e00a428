//! Request-scoped authentication core: a per-request cache of the current
//! user id and user record, user-id providers, session sign-in and sign-out,
//! and role/permission checks, with their contracts proved by Verus.
//!
//! The asynchronous plumbing (futures, the thread-local scope, the Leptos and
//! Axum adapters) drives these decision functions from outside.

pub mod accessor;
pub mod authenticatable;
pub mod authorizable;
pub mod context;
pub mod contracts;
pub mod engine;
pub mod error;
pub mod facade;
pub mod helpers;
pub mod interfaces;
pub mod outcome;
pub mod provider;
pub mod providers;
pub mod scope;
pub mod session;

pub use contracts::AuthError;
pub use engine::AuthEngine;
pub use facade::require_engine;
pub use providers::{ChainStep, ChainUserIdProvider, FixedUserIdProvider};
