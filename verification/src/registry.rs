//! The keyed store of audit records and the two operations on it.
//!
//! A [`Registry`] holds at most one record per storage address and applies
//! each operation atomically.  Publication creates a record at the address
//! derived from `(auditor, program_name)` — refusing an occupied address —
//! and revocation clears the `verified` flag of an existing record, gated on
//! the caller being the record's auditor.  Records are never deleted.

use vstd::prelude::*;
use vstd::utf8::encode_utf8;

use crate::derivation::RecordAddress;
use crate::derivation::derive_record_address;
use crate::derivation::spec_record_address;
use crate::record::AuditError;
use crate::record::AuditPublished;
use crate::record::AuditPublishedView;
use crate::record::AuditRecord;
use crate::record::AuditRecordView;
use crate::record::AuditRevoked;
use crate::record::AuditRevokedView;
use crate::record::MAX_PROGRAM_NAME_LEN;
use crate::record::clone_string;

verus! {

/// What a publication touches: the address where the record will live, and
/// the authenticated auditor who signs it and funds the allocation.
pub struct PublishAudit {
    pub audit_record: RecordAddress,
    pub auditor: [u8; 32],
}

/// What a revocation touches: the address of the record, and the
/// authenticated caller asking for the revocation.
pub struct RevokeAudit {
    pub audit_record: [u8; 32],
    pub auditor: [u8; 32],
}

/// What publishing `rec` at `id` does to the store `m`: when `id` is
/// occupied the store is unchanged and the operation fails with
/// `AllocationConflict`; otherwise the record is created at `id` and the
/// publication notification is emitted.
pub open spec fn spec_publish(
    m: Map<Seq<u8>, AuditRecordView>,
    id: Seq<u8>,
    rec: AuditRecordView,
) -> (Map<Seq<u8>, AuditRecordView>, Result<AuditPublishedView, AuditError>) {
    if m.contains_key(id) {
        (m, Err(AuditError::AllocationConflict))
    } else {
        (
            m.insert(id, rec),
            Ok(
                AuditPublishedView {
                    auditor: rec.auditor,
                    program_name: rec.program_name,
                    security_score: rec.security_score,
                    audit_hash: rec.audit_hash,
                    timestamp: rec.audited_at,
                },
            ),
        )
    }
}

/// What a revocation by `caller` at time `now` does to the store `m`, which
/// holds a record at `id`: when the caller is not the record's auditor the
/// store is unchanged and the operation fails with `Unauthorized`; otherwise
/// the record's `verified` flag is cleared — idempotently — and the
/// revocation notification is emitted, stamped `now`.
pub open spec fn spec_revoke(
    m: Map<Seq<u8>, AuditRecordView>,
    id: Seq<u8>,
    caller: Seq<u8>,
    now: i64,
) -> (Map<Seq<u8>, AuditRecordView>, Result<AuditRevokedView, AuditError>)
    recommends
        m.contains_key(id),
{
    if m[id].auditor != caller {
        (m, Err(AuditError::Unauthorized))
    } else {
        (
            m.insert(id, m[id].revoked()),
            Ok(
                AuditRevokedView {
                    auditor: m[id].auditor,
                    program_name: m[id].program_name,
                    timestamp: now,
                },
            ),
        )
    }
}

/// Whether the executable outcome of a publish carries the same success or
/// failure, field for field, as the specified one.
pub open spec fn publish_outcome_matches(
    r: Result<AuditPublished, AuditError>,
    ev: Result<AuditPublishedView, AuditError>,
) -> bool {
    match (r, ev) {
        (Ok(e), Ok(v)) => e@ == v,
        (Err(a), Err(b)) => a == b,
        _ => false,
    }
}

/// Whether the executable outcome of a revoke carries the same success or
/// failure, field for field, as the specified one.
pub open spec fn revoke_outcome_matches(
    r: Result<AuditRevoked, AuditError>,
    ev: Result<AuditRevokedView, AuditError>,
) -> bool {
    match (r, ev) {
        (Ok(e), Ok(v)) => e@ == v,
        (Err(a), Err(b)) => a == b,
        _ => false,
    }
}

struct Entry {
    id: [u8; 32],
    record: AuditRecord,
}

/// The keyed store of audit records, addressed by derived identifier.
pub struct Registry {
    program_id: [u8; 32],
    entries: Vec<Entry>,
}

spec fn entries_map(s: Seq<Entry>) -> Map<Seq<u8>, AuditRecordView>
    decreases s.len(),
{
    if s.len() == 0 {
        Map::empty()
    } else {
        entries_map(s.drop_last()).insert(s.last().id@, s.last().record@)
    }
}

spec fn unique_ids(s: Seq<Entry>) -> bool {
    forall|i: int, j: int| 0 <= i < j < s.len() ==> s[i].id@ != s[j].id@
}

proof fn lemma_entries_map_domain(s: Seq<Entry>, k: Seq<u8>)
    ensures
        entries_map(s).contains_key(k) <==> (exists|i: int| 0 <= i < s.len() && s[i].id@ == k),
    decreases s.len(),
{
    if s.len() > 0 {
        let n = s.len() - 1;
        lemma_entries_map_domain(s.drop_last(), k);
        if s[n].id@ == k {
            assert(entries_map(s).contains_key(k));
        } else {
            if entries_map(s).contains_key(k) {
                let i = choose|i: int| 0 <= i < s.drop_last().len() && s.drop_last()[i].id@ == k;
                assert(s[i].id@ == k);
            }
            if exists|i: int| 0 <= i < s.len() && s[i].id@ == k {
                let i = choose|i: int| 0 <= i < s.len() && s[i].id@ == k;
                assert(s.drop_last()[i].id@ == k);
            }
        }
    }
}

proof fn lemma_entries_map_index(s: Seq<Entry>, i: int)
    requires
        unique_ids(s),
        0 <= i < s.len(),
    ensures
        entries_map(s).contains_key(s[i].id@),
        entries_map(s)[s[i].id@] == s[i].record@,
    decreases s.len(),
{
    let n = s.len() - 1;
    if i < n {
        assert(unique_ids(s.drop_last()));
        lemma_entries_map_index(s.drop_last(), i);
        assert(s.drop_last()[i] == s[i]);
        assert(s[i].id@ != s[n].id@);
    }
}

proof fn lemma_entries_map_push(s: Seq<Entry>, e: Entry)
    requires
        unique_ids(s),
        !entries_map(s).contains_key(e.id@),
    ensures
        unique_ids(s.push(e)),
        entries_map(s.push(e)) == entries_map(s).insert(e.id@, e.record@),
{
    lemma_entries_map_domain(s, e.id@);
    assert(s.push(e).drop_last() =~= s);
    assert(unique_ids(s.push(e))) by {
        assert(forall|i: int| 0 <= i < s.len() ==> s.push(e)[i] == s[i]);
    }
}

proof fn lemma_entries_map_update(s: Seq<Entry>, i: int, e: Entry)
    requires
        unique_ids(s),
        0 <= i < s.len(),
        e.id@ == s[i].id@,
    ensures
        unique_ids(s.update(i, e)),
        entries_map(s.update(i, e)) == entries_map(s).insert(e.id@, e.record@),
    decreases s.len(),
{
    let n = s.len() - 1;
    assert(forall|j: int| 0 <= j < s.len() && j != i ==> s.update(i, e)[j] == s[j]);
    assert(s.update(i, e)[i] == e);
    if i == n {
        assert(s.update(i, e).drop_last() =~= s.drop_last());
        assert(entries_map(s.update(i, e)) == entries_map(s.drop_last()).insert(
            e.id@,
            e.record@,
        ));
        assert(entries_map(s.drop_last()).insert(s[n].id@, s[n].record@).insert(e.id@, e.record@)
            =~= entries_map(s.drop_last()).insert(e.id@, e.record@));
    } else {
        assert(unique_ids(s.drop_last()));
        assert(s.update(i, e).drop_last() =~= s.drop_last().update(i, e));
        lemma_entries_map_update(s.drop_last(), i, e);
        assert(s[i].id@ != s[n].id@);
        assert(entries_map(s.drop_last()).insert(e.id@, e.record@).insert(s[n].id@, s[n].record@)
            =~= entries_map(s.drop_last()).insert(s[n].id@, s[n].record@).insert(
            e.id@,
            e.record@,
        ));
    }
}

/// Byte-for-byte equality of two 32-byte identities.
fn bytes_eq(a: &[u8; 32], b: &[u8; 32]) -> (r: bool)
    ensures
        r == (a@ == b@),
{
    let mut i: usize = 0;
    while i < 32
        invariant
            0 <= i <= 32,
            forall|j: int| 0 <= j < i ==> a@[j] == b@[j],
        decreases 32 - i,
    {
        if a[i] != b[i] {
            assert(a@[i as int] != b@[i as int]);
            return false;
        }
        i += 1;
    }
    proof {
        assert(a@ =~= b@);
    }
    true
}

impl View for Registry {
    type V = Map<Seq<u8>, AuditRecordView>;

    closed spec fn view(&self) -> Map<Seq<u8>, AuditRecordView> {
        entries_map(self.entries@)
    }
}

impl Registry {
    /// The store holds at most one record per address.
    pub closed spec fn wf(&self) -> bool {
        unique_ids(self.entries@)
    }

    /// The program id under which this store derives its addresses.
    pub closed spec fn spec_program_id(&self) -> Seq<u8> {
        self.program_id@
    }

    /// A fresh, empty store deriving its addresses under `program_id`.
    pub fn new(program_id: [u8; 32]) -> (r: Registry)
        ensures
            r.wf(),
            r@ == Map::<Seq<u8>, AuditRecordView>::empty(),
            r.spec_program_id() == program_id@,
    {
        Registry { program_id, entries: Vec::new() }
    }

    /// The program id under which this store derives its addresses.
    pub fn program_id(&self) -> (r: [u8; 32])
        ensures
            r@ == self.spec_program_id(),
    {
        self.program_id
    }

    fn find_entry(&self, id: &[u8; 32]) -> (r: Option<usize>)
        requires
            self.wf(),
        ensures
            (match r {
                Some(i) => i < self.entries@.len() && self.entries@[i as int].id@ == id@
                    && self@.contains_key(id@),
                None => !self@.contains_key(id@),
            }),
    {
        let mut i: usize = 0;
        while i < self.entries.len()
            invariant
                self.wf(),
                i <= self.entries@.len(),
                forall|j: int| 0 <= j < i ==> self.entries@[j].id@ != id@,
            decreases self.entries@.len() - i,
        {
            if bytes_eq(&self.entries[i].id, id) {
                proof {
                    lemma_entries_map_index(self.entries@, i as int);
                }
                return Some(i);
            }
            i += 1;
        }
        proof {
            lemma_entries_map_domain(self.entries@, id@);
        }
        None
    }

    /// Look up the record stored at `id`: `Some` exactly when the address is
    /// occupied, and then the record held there.
    pub fn lookup(&self, id: &[u8; 32]) -> (r: Option<&AuditRecord>)
        requires
            self.wf(),
        ensures
            (match r {
                Some(rec) => self@.contains_key(id@) && rec@ == self@[id@],
                None => !self@.contains_key(id@),
            }),
    {
        match self.find_entry(id) {
            Some(i) => {
                proof {
                    lemma_entries_map_index(self.entries@, i as int);
                }
                Some(&self.entries[i].record)
            },
            None => None,
        }
    }

    /// Publish a record at `ctx.audit_record`, the derived address for
    /// `(ctx.auditor, program_name)` under this store's program id.  When
    /// the address is free, the record is created there — populated from the
    /// inputs, stamped `now`, `verified` set — and the publication
    /// notification comes back; when it is occupied, the store is left as it
    /// was and the operation fails with `AllocationConflict`.
    pub fn publish_audit(
        &mut self,
        ctx: &PublishAudit,
        program_name: String,
        audit_hash: &[u8; 32],
        security_score: u8,
        total_issues: u16,
        critical_count: u8,
        high_count: u8,
        medium_count: u8,
        now: i64,
    ) -> (r: Result<AuditPublished, AuditError>)
        requires
            old(self).wf(),
            spec_record_address(ctx.auditor@, program_name@, old(self).spec_program_id())
                == Some((ctx.audit_record.id@, ctx.audit_record.bump)),
            encode_utf8(program_name@).len() <= MAX_PROGRAM_NAME_LEN,
        ensures
            final(self).wf(),
            final(self).spec_program_id() == old(self).spec_program_id(),
            ({
                let rec = AuditRecordView::published(
                    ctx.auditor@,
                    now,
                    program_name@,
                    audit_hash@,
                    security_score,
                    total_issues,
                    critical_count,
                    high_count,
                    medium_count,
                    ctx.audit_record.bump,
                );
                let (m, ev) = spec_publish(old(self)@, ctx.audit_record.id@, rec);
                final(self)@ == m && publish_outcome_matches(r, ev)
            }),
    {
        match self.find_entry(&ctx.audit_record.id) {
            Some(_) => Err(AuditError::AllocationConflict),
            None => {
                let record = AuditRecord {
                    auditor: ctx.auditor,
                    audited_at: now,
                    program_name,
                    audit_hash: *audit_hash,
                    security_score,
                    total_issues,
                    critical_count,
                    high_count,
                    medium_count,
                    verified: true,
                    bump: ctx.audit_record.bump,
                };
                let event = AuditPublished {
                    auditor: ctx.auditor,
                    program_name: clone_string(&record.program_name),
                    security_score,
                    audit_hash: *audit_hash,
                    timestamp: now,
                };
                let entry = Entry { id: ctx.audit_record.id, record };
                let ghost s0 = self.entries@;
                let ghost ge = entry;
                self.entries.push(entry);
                proof {
                    lemma_entries_map_push(s0, ge);
                }
                Ok(event)
            },
        }
    }

    /// Publish an attestation for `(auditor, program_name)`: derive the
    /// record's address from the pair, then create the record there.
    /// `None` comes back only when the substrate yields no valid address
    /// for the pair (statistically improbable); otherwise the outcome of
    /// the publish at the derived address.
    pub fn publish(
        &mut self,
        auditor: &[u8; 32],
        program_name: String,
        audit_hash: &[u8; 32],
        security_score: u8,
        total_issues: u16,
        critical_count: u8,
        high_count: u8,
        medium_count: u8,
        now: i64,
    ) -> (r: Option<Result<AuditPublished, AuditError>>)
        requires
            old(self).wf(),
            encode_utf8(program_name@).len() <= MAX_PROGRAM_NAME_LEN,
        ensures
            final(self).wf(),
            final(self).spec_program_id() == old(self).spec_program_id(),
            ({
                match spec_record_address(auditor@, program_name@, old(self).spec_program_id()) {
                    None => r is None && final(self)@ == old(self)@,
                    Some(a) => {
                        let rec = AuditRecordView::published(
                            auditor@,
                            now,
                            program_name@,
                            audit_hash@,
                            security_score,
                            total_issues,
                            critical_count,
                            high_count,
                            medium_count,
                            a.1,
                        );
                        let (m, ev) = spec_publish(old(self)@, a.0, rec);
                        &&& r matches Some(res)
                        &&& final(self)@ == m
                        &&& publish_outcome_matches(res, ev)
                    },
                }
            }),
    {
        match derive_record_address(auditor, program_name.as_str(), &self.program_id) {
            None => None,
            Some(a) => {
                let ctx = PublishAudit { audit_record: a, auditor: *auditor };
                Some(
                    self.publish_audit(
                        &ctx,
                        program_name,
                        audit_hash,
                        security_score,
                        total_issues,
                        critical_count,
                        high_count,
                        medium_count,
                        now,
                    ),
                )
            },
        }
    }

    /// Revoke the record at `ctx.audit_record`, which must be occupied.
    /// Only the record's auditor may revoke: any other caller fails with
    /// `Unauthorized` and the store is unchanged.  The auditor's revocation
    /// clears `verified` — already-revoked records stay revoked, without
    /// error — leaves every other field as it was, and returns the
    /// revocation notification stamped `now`.
    pub fn revoke_audit(&mut self, ctx: &RevokeAudit, now: i64) -> (r: Result<
        AuditRevoked,
        AuditError,
    >)
        requires
            old(self).wf(),
            old(self)@.contains_key(ctx.audit_record@),
        ensures
            final(self).wf(),
            final(self).spec_program_id() == old(self).spec_program_id(),
            ({
                let (m, ev) = spec_revoke(old(self)@, ctx.audit_record@, ctx.auditor@, now);
                final(self)@ == m && revoke_outcome_matches(r, ev)
            }),
    {
        let i = match self.find_entry(&ctx.audit_record) {
            Some(i) => i,
            None => {
                return Err(AuditError::Unauthorized);  // unreachable: the address is occupied
            },
        };
        proof {
            lemma_entries_map_index(self.entries@, i as int);
        }
        if !bytes_eq(&self.entries[i].record.auditor, &ctx.auditor) {
            return Err(AuditError::Unauthorized);
        }
        let ghost s0 = self.entries@;
        let entry = &mut self.entries[i];
        entry.record.verified = false;
        proof {
            lemma_entries_map_update(s0, i as int, *entry);
        }
        let event = AuditRevoked {
            auditor: ctx.auditor,
            program_name: clone_string(&self.entries[i].record.program_name),
            timestamp: now,
        };
        Ok(event)
    }
}

} // verus!
