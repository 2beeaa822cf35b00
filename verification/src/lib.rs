//! Authentication and authorization decisions of a podcast server: roles,
//! identities and their store, sessions, Basic credentials, the login
//! decision and the role guards.

pub mod text;
pub mod role;
pub mod environment;
pub mod codec;
pub mod session;
pub mod user;
pub mod store;
pub mod auth;
pub mod device;
