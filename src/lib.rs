use vstd::prelude::*;

pub mod auth;
pub mod code;
pub mod codec;
pub mod error;

pub use auth::{new, with_defaults, AuthConfig, AuthKey, TOTPAuthenticator};
pub use codec::{decode_secret_key, encode_secret_key, Base};
pub use error::AuthError;

verus! {

} // verus!
