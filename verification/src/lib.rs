//! A two-party conditional exchange: one party deposits an asset and names
//! what it wants in return; anyone who supplies exactly that receives the
//! deposit, and the depositor later collects the payment, or reclaims the
//! deposit while it is still unclaimed.
//!
//! The assets themselves live on a ledger. This crate decides: it keeps a
//! faithful account of what the custodian's containers hold, and every
//! operation says what moves and what the custodian holds afterwards.

pub mod bucket;
pub mod custodian;
pub mod error;
pub mod laws;
pub mod ledger;
pub mod model;
pub mod specifier;

pub use crate::bucket::Bucket;
pub use crate::bucket::Vault;
pub use crate::custodian::ClaimToken;
pub use crate::custodian::Escrow;
pub use crate::error::EscrowError;
pub use crate::error::MismatchKind;
pub use crate::error::Refused;
pub use crate::model::EscrowState;
pub use crate::specifier::EscrowBadge;
pub use crate::specifier::ResourceSpecifier;
