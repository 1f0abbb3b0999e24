//! Audit verification for a transparency log: canonical encodings of signed
//! epoch statements, signature checks, and the walk from a reported epoch
//! back to a trusted root.

pub mod audit;
pub mod auditor;
pub mod ciphersuite;
pub mod crypto;
pub mod decimal;
pub mod epoch;
pub mod error;
pub mod fields;
pub mod hexcode;
pub mod layout;
pub mod message;
pub mod namespaces;
pub mod record;
pub mod report;
pub mod response;
pub mod root;
pub mod status;
pub mod text;
pub mod wire;

pub use ciphersuite::Ciphersuite;
pub use epoch::{Epoch, FIRST_EPOCH};
pub use error::PlexiError;
pub use message::SignatureMessage;
pub use report::{LastVerifiedEpoch, ReportResponse};
pub use response::{Report, SignatureMetadata, SignatureRequest, SignatureResponse};
pub use uuid::Uuid;
