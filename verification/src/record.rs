//! The audit record, the two events it gives rise to, and the errors of the
//! two operations on it.

use vstd::prelude::*;

verus! {

/// Capacity, in bytes of UTF-8 content, that the record's fixed on-storage
/// layout reserves for the program name.
pub const MAX_PROGRAM_NAME_LEN: usize = 64;

/// The two ways an operation on a record can fail: publishing at an already
/// occupied address, and revoking a record one did not publish.
#[derive(Clone, Copy, Debug, PartialEq, Eq, Structural)]
pub enum AuditError {
    AllocationConflict,
    Unauthorized,
}

/// An attestation that `program_name` passed a security audit.
///
/// All fields but `verified` are set at creation and never change.
/// `verified` starts `true` and can only be cleared, by the auditor alone.
pub struct AuditRecord {
    /// Identity of the party that performed and published the audit.
    pub auditor: [u8; 32],
    /// Seconds since the epoch at the moment of publication.
    pub audited_at: i64,
    /// Name of the audited program.
    pub program_name: String,
    /// SHA-256 digest of the full audit report content.
    pub audit_hash: [u8; 32],
    /// Security score, read as 0..=100.  Publication accepts the full byte
    /// range and stores the value as given, without a range check.
    pub security_score: u8,
    /// Total number of issues found.
    pub total_issues: u16,
    /// Number of critical issues.
    pub critical_count: u8,
    /// Number of high-severity issues.
    pub high_count: u8,
    /// Number of medium-severity issues.
    pub medium_count: u8,
    /// Whether the attestation currently stands.
    pub verified: bool,
    /// Salt byte from the address derivation.
    pub bump: u8,
}

/// Mathematical image of an [`AuditRecord`].
pub struct AuditRecordView {
    pub auditor: Seq<u8>,
    pub audited_at: i64,
    pub program_name: Seq<char>,
    pub audit_hash: Seq<u8>,
    pub security_score: u8,
    pub total_issues: u16,
    pub critical_count: u8,
    pub high_count: u8,
    pub medium_count: u8,
    pub verified: bool,
    pub bump: u8,
}

impl View for AuditRecord {
    type V = AuditRecordView;

    open spec fn view(&self) -> AuditRecordView {
        AuditRecordView {
            auditor: self.auditor@,
            audited_at: self.audited_at,
            program_name: self.program_name@,
            audit_hash: self.audit_hash@,
            security_score: self.security_score,
            total_issues: self.total_issues,
            critical_count: self.critical_count,
            high_count: self.high_count,
            medium_count: self.medium_count,
            verified: self.verified,
            bump: self.bump,
        }
    }
}

impl AuditRecordView {
    /// The same record with its attestation withdrawn.
    pub open spec fn revoked(self) -> AuditRecordView {
        AuditRecordView { verified: false, ..self }
    }

    /// The record as publication creates it: every field from the inputs,
    /// the attestation standing.
    pub open spec fn published(
        auditor: Seq<u8>,
        audited_at: i64,
        program_name: Seq<char>,
        audit_hash: Seq<u8>,
        security_score: u8,
        total_issues: u16,
        critical_count: u8,
        high_count: u8,
        medium_count: u8,
        bump: u8,
    ) -> AuditRecordView {
        AuditRecordView {
            auditor,
            audited_at,
            program_name,
            audit_hash,
            security_score,
            total_issues,
            critical_count,
            high_count,
            medium_count,
            verified: true,
            bump,
        }
    }
}

/// Copy a string, value for value.
pub fn clone_string(s: &String) -> (r: String)
    ensures
        r@ == s@,
{
    s.as_str().to_owned()
}

impl AuditRecord {
    /// Bytes the store must reserve for one record: an 8-byte store header,
    /// then the fields, the program name length-prefixed and capped.
    pub const SIZE: usize = 8 + 32 + 8 + (4 + 64) + 32 + 1 + 2 + 1 + 1 + 1 + 1 + 1;
}

/// Notification emitted when a record is published.
pub struct AuditPublished {
    pub auditor: [u8; 32],
    pub program_name: String,
    pub security_score: u8,
    pub audit_hash: [u8; 32],
    pub timestamp: i64,
}

/// Mathematical image of an [`AuditPublished`] event.
pub struct AuditPublishedView {
    pub auditor: Seq<u8>,
    pub program_name: Seq<char>,
    pub security_score: u8,
    pub audit_hash: Seq<u8>,
    pub timestamp: i64,
}

impl View for AuditPublished {
    type V = AuditPublishedView;

    open spec fn view(&self) -> AuditPublishedView {
        AuditPublishedView {
            auditor: self.auditor@,
            program_name: self.program_name@,
            security_score: self.security_score,
            audit_hash: self.audit_hash@,
            timestamp: self.timestamp,
        }
    }
}

/// Notification emitted when a record is revoked.
pub struct AuditRevoked {
    pub auditor: [u8; 32],
    pub program_name: String,
    pub timestamp: i64,
}

/// Mathematical image of an [`AuditRevoked`] event.
pub struct AuditRevokedView {
    pub auditor: Seq<u8>,
    pub program_name: Seq<char>,
    pub timestamp: i64,
}

impl View for AuditRevoked {
    type V = AuditRevokedView;

    open spec fn view(&self) -> AuditRevokedView {
        AuditRevokedView {
            auditor: self.auditor@,
            program_name: self.program_name@,
            timestamp: self.timestamp,
        }
    }
}

} // verus!
