//! The store-level laws of publication and revocation.
//!
//! Each law is stated over the transition functions that the contracts of
//! [`crate::registry::Registry`] use, so it holds of every sequence of
//! operations on a store.

use vstd::prelude::*;

use crate::record::AuditError;
use crate::record::AuditPublishedView;
use crate::record::AuditRecordView;
use crate::record::AuditRevokedView;
use crate::registry::spec_publish;
use crate::registry::spec_revoke;

verus! {

/// Publishing at a free address succeeds and leaves a verified record
/// there; a second publish at the same address fails with
/// `AllocationConflict` and leaves the store unchanged.
pub proof fn lemma_republish_conflicts(
    m: Map<Seq<u8>, AuditRecordView>,
    id: Seq<u8>,
    first: AuditRecordView,
    second: AuditRecordView,
)
    requires
        !m.contains_key(id),
        first.verified,
    ensures
        ({
            let (m1, r1) = spec_publish(m, id, first);
            let (m2, r2) = spec_publish(m1, id, second);
            &&& r1 is Ok
            &&& m1.contains_key(id)
            &&& m1[id].verified
            &&& r2 == Err::<AuditPublishedView, AuditError>(AuditError::AllocationConflict)
            &&& m2 == m1
        }),
{
}

/// Revocation by anyone but the record's auditor fails with `Unauthorized`
/// and leaves the store — in particular the record's `verified` flag —
/// unchanged.
pub proof fn lemma_revoke_unauthorized(
    m: Map<Seq<u8>, AuditRecordView>,
    id: Seq<u8>,
    caller: Seq<u8>,
    now: i64,
)
    requires
        m.contains_key(id),
        caller != m[id].auditor,
    ensures
        ({
            let (m1, r1) = spec_revoke(m, id, caller, now);
            &&& r1 == Err::<AuditRevokedView, AuditError>(AuditError::Unauthorized)
            &&& m1 == m
            &&& m1[id].verified == m[id].verified
        }),
{
}

/// Revocation by the record's auditor succeeds and clears `verified`,
/// leaving every other field as it was; revoking the already-revoked record
/// succeeds as well, again without changing anything else.
pub proof fn lemma_revoke_idempotent(m: Map<Seq<u8>, AuditRecordView>, id: Seq<u8>, now1: i64, now2: i64)
    requires
        m.contains_key(id),
    ensures
        ({
            let caller = m[id].auditor;
            let (m1, r1) = spec_revoke(m, id, caller, now1);
            let (m2, r2) = spec_revoke(m1, id, caller, now2);
            &&& r1 is Ok
            &&& m1.contains_key(id)
            &&& m1[id] == m[id].revoked()
            &&& !m1[id].verified
            &&& r2 is Ok
            &&& m2[id] == m1[id]
            &&& !m2[id].verified
        }),
{
    let caller = m[id].auditor;
    let (m1, r1) = spec_revoke(m, id, caller, now1);
    assert(m1[id].revoked() == m1[id]);
    assert(m1.insert(id, m1[id].revoked()) =~= m1);
}

/// A revoked record never returns to verified: whatever publication or
/// revocation the store sees next — at any address, by any caller — the
/// record at `id` stays revoked.
pub proof fn lemma_revocation_is_permanent(
    m: Map<Seq<u8>, AuditRecordView>,
    id: Seq<u8>,
    other: Seq<u8>,
    rec: AuditRecordView,
    caller: Seq<u8>,
    now: i64,
)
    requires
        m.contains_key(id),
        !m[id].verified,
    ensures
        ({
            let (m1, _) = spec_publish(m, other, rec);
            m1.contains_key(id) && !m1[id].verified
        }),
        m.contains_key(other) ==> ({
            let (m2, _) = spec_revoke(m, other, caller, now);
            m2.contains_key(id) && !m2[id].verified
        }),
{
}

} // verus!
