//! Delegated access to a Google Drive account through the OAuth2
//! authorization-code flow with PKCE, with the decisions of each step
//! stated as contracts.

pub mod store;
pub mod types;
pub mod oauth;
pub mod text;
pub mod callback;
pub mod session;
pub mod drive;
