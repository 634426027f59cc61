//! Sign-in with Microsoft Entra ID: OpenID Connect, what is kept in the session,
//! and the route guards built on top of them.
//!
//! The flow is Authorization Code with PKCE. Everything secret, that is the PKCE
//! verifier, the CSRF state, the nonce and the ID token, stays in the server-side
//! session; the browser only ever holds a signed cookie carrying an opaque session
//! ID.
pub mod claims;
pub mod config;
pub mod error;
pub mod middleware;
pub mod oidc;
pub mod session;

pub use claims::{EntraClaims, EntraIdTokenClaims};
pub use config::OidcConfig;
pub use error::AuthError;
pub use middleware::{require_auth, require_role, RolePolicy};
pub use oidc::OidcProvider;
pub use session::{LoginFlow, SessionUser};
