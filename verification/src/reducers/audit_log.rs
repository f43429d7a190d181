//! The server audit log, written by other requests.

use vstd::prelude::*;
use crate::db::{ChatDb, ChatDbV};
use crate::tables::{AuditLogEntry, AuditLogEntryV};
use crate::store::{has_key, insert_new};
use crate::text::to_owned_string;

verus! {

/// An audit log row recorded at `now`.
pub open spec fn audit_entry(
    id: Seq<char>,
    server: Seq<char>,
    action: Seq<char>,
    actor: Seq<char>,
    target_type: Seq<char>,
    target: Seq<char>,
    details: Option<Seq<char>>,
    now: u64,
) -> AuditLogEntryV {
    AuditLogEntryV {
        id: id,
        server_id: server,
        action: action,
        actor_id: actor,
        target_type: target_type,
        target_id: target,
        details: details,
        created_at: now,
    }
}

/// Record an audit event under a fresh id.
pub fn log_audit_event(
    db: &mut ChatDb,
    now: u64,
    id: &str,
    server_id: &str,
    action: &str,
    actor_id: &str,
    target_type: &str,
    target_id: &str,
    details: Option<String>,
)
    requires
        old(db)@.wf(),
        !has_key(old(db)@.audit_log, id@),
    ensures
        final(db)@.wf(),
        final(db)@ == (ChatDbV {
            audit_log: old(db)@.audit_log.push(
                audit_entry(id@, server_id@, action@, actor_id@, target_type@, target_id@, crate::tables::opt_view(details), now),
            ),
            ..old(db)@
        }),
{
    let entry = AuditLogEntry {
        id: to_owned_string(id),
        server_id: to_owned_string(server_id),
        action: to_owned_string(action),
        actor_id: to_owned_string(actor_id),
        target_type: to_owned_string(target_type),
        target_id: to_owned_string(target_id),
        details,
        created_at: now,
    };
    insert_new(&mut db.audit_log, entry);
}

} // verus!
