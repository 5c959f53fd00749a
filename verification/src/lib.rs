//! A registry of audit attestations.
//!
//! An auditor publishes a record attesting that a named program passed a
//! security audit with a given score and issue breakdown, and may later
//! revoke that attestation.  Records live in a keyed store at an address
//! derived deterministically from the pair (auditor, program name), so any
//! party can locate a record from those two values alone.

pub mod derivation;
pub mod laws;
pub mod record;
pub mod registry;

pub use derivation::RecordAddress;
pub use derivation::derive_record_address;
pub use record::AuditError;
pub use record::AuditPublished;
pub use record::AuditRecord;
pub use record::AuditRevoked;
pub use registry::PublishAudit;
pub use registry::Registry;
pub use registry::RevokeAudit;
