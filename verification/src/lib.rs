//! Verification of WebAuthn assertions signed with ECDSA over P-256.
//!
//! An assertion is accepted when its signature is a valid ECDSA signature,
//! under the presented public key, over the authenticator data followed by
//! the SHA-256 digest of the client data that the relying party expects.

pub mod assertion;
mod bytes;
pub mod client_data;
pub mod error;
pub mod payload;
pub mod primitives;
pub mod verdict;

pub use crate::assertion::{RPConfig, Verification};
pub use crate::client_data::{ClientDataType, CollectedClientData};
pub use crate::error::VerificationError;
pub use crate::verdict::verify;
