//! Authentication and session lifecycle for the SSHN housing portal:
//! PKCE material, the authorization URL, token pairs with absolute expiry,
//! the token-exchange protocol, the expiry check before each call and the resume chain.
//!
//! Everything here is a function from plain values to plain values. Network,
//! browser and secret-store traffic is performed by the caller, which feeds
//! the outcomes back into the state machines defined in this crate.

pub mod auth;
pub mod client;
pub mod codec;
pub mod constants;
pub mod error;
pub mod login;
pub mod publication;
pub mod secrets;
pub mod text;
pub mod tokens;
pub mod utils;
pub mod webdriver;

pub use client::{AuthenticatedClient, LoginType, UnAuthenticatedClient};
pub use tokens::{LoginResponse, Token, TokenType, Tokens};
pub use utils::{generate_auth_url, get_code_challenge};
