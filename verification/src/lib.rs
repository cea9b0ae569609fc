//! A pluggable signing capability for content-provenance claims.
//!
//! A caller that needs a detached signature over a claim goes through the
//! [`Signer`] contract, whatever key material or algorithm stands behind it.
//! The contract fixes how much room a signature may take before it exists,
//! so that a manifest can be laid out first and signed afterwards.

pub mod async_signer;
pub mod configurable;
pub mod error;
pub mod placeholder;
pub mod signer;

pub use async_signer::{AsyncPlaceholder, AsyncSigner};
pub use configurable::ConfigurableSigner;
pub use error::Error;
pub use placeholder::Placeholder;
pub use signer::Signer;
