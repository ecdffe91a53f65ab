//! Session and identity layer for a small web application.
//!
//! The library authenticates users by password or by an OAuth2
//! authorization-code + PKCE flow, and issues opaque bearer session tokens
//! that later requests present through a secure cookie.  Collaborating
//! services — the accounts store and the expiring key-value store — are
//! modelled as explicit values so that every rule about them is stated in
//! contracts and proved.

pub mod account;
pub mod auth;
pub mod codec;
pub mod cookies;
pub mod environment;
pub mod oauth;
pub mod password;
pub mod response;
pub mod session;
pub mod store;
pub mod validation;
pub mod validator;
