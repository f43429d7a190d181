//! Member timeouts: a timed-out member of a server cannot send messages there.

use vstd::prelude::*;
use crate::context::{Caller, CallerV, ChatError};
use crate::db::{ChatDb, ChatDbV};
use crate::tables::{MemberTimeout, MemberTimeoutV, TimeoutExpiryJob, TimeoutExpiryJobV, ServerMember,
    ServerMemberV, ScheduleAt, opt_view};
use crate::store::{lookup, has_key, without_key, replace_row, find_key, insert_new, remove_key, retain_keyed,
    take_key, lemma_without_key};
use crate::lookups::{is_server_owner, require_server_owner};
use crate::permissions::{has_server_permission, require_server_permission, PERM_MODERATE_MEMBERS};
use crate::reducers::servers::server_member_id;
use crate::reducers::audit_log::{audit_entry, log_audit_event};
use crate::text::{decimal, decimal_string, join2, concat2};

verus! {

/// Shortest timeout, in seconds.
pub const MIN_TIMEOUT_SECS: u64 = 60;

/// Longest timeout (28 days), in seconds.
pub const MAX_TIMEOUT_SECS: u64 = 2419200;

/// Latest time stamp (milliseconds) at which a timeout can still be scheduled:
/// its expiry in microseconds must fit a signed 64-bit integer.
pub const LATEST_TIMEOUT_START: u64 = 9223372036854775 - 2419200000;

/// A requested duration brought into [60 s, 28 days].
pub open spec fn clamp_duration(d: u64) -> u64 {
    if d < MIN_TIMEOUT_SECS {
        MIN_TIMEOUT_SECS
    } else if d > MAX_TIMEOUT_SECS {
        MAX_TIMEOUT_SECS
    } else {
        d
    }
}

/// Timeout rows other than those of `user` in `server`.
pub open spec fn timeout_not_of(server: Seq<char>, user: Seq<char>) -> spec_fn(MemberTimeoutV) -> bool {
    |t: MemberTimeoutV| !(t.server_id == server && t.user_id == user)
}

/// Id of a timeout: "<server>-<user>-<now>".
pub open spec fn timeout_id(server: Seq<char>, user: Seq<char>, now: u64) -> Seq<char> {
    server + "-"@ + user + "-"@ + decimal(now as nat)
}

/// Id of the audit entry of a timeout: "audit-timeout-<server>-<now>".
pub open spec fn timeout_audit_id(server: Seq<char>, now: u64) -> Seq<char> {
    "audit-timeout-"@ + server + "-"@ + decimal(now as nat)
}

/// Outcome of [`timeout_member`].
pub open spec fn timeout_member_verdict(db: ChatDbV, c: CallerV, server: Seq<char>, target: Seq<char>) -> Result<(), ChatError> {
    match c.user_id {
        None => Err(ChatError::NotRegistered),
        Some(uid) => if !has_server_permission(db, server, uid, PERM_MODERATE_MEMBERS) {
            Err(ChatError::NotPermitted)
        } else if is_server_owner(db, server, target) {
            Err(ChatError::NotPermitted)
        } else {
            Ok(())
        },
    }
}

/// Membership rows with their timeout set to `until` (for the member of key `mid`).
pub open spec fn with_timeout_until(members: Seq<ServerMemberV>, mid: Seq<char>, until: Option<u64>) -> Seq<ServerMemberV> {
    match lookup(members, mid) {
        Some(m) => replace_row(members, ServerMemberV { timeout_until: until, ..m }),
        None => members,
    }
}

/// The database after `actor` times out `target` in `server` at `now` for
/// `duration` seconds (clamped), with `reason`.
pub open spec fn timed_out(db: ChatDbV, actor: Seq<char>, server: Seq<char>, target: Seq<char>, duration: u64, reason: Option<Seq<char>>, now: u64) -> ChatDbV {
    let secs = clamp_duration(duration);
    let expires = (now + secs * 1000) as u64;
    let tid = timeout_id(server, target, now);
    ChatDbV {
        member_timeouts: db.member_timeouts.filter(timeout_not_of(server, target)).push(MemberTimeoutV {
            id: tid,
            server_id: server,
            user_id: target,
            reason: reason,
            expires_at: expires,
            issued_by: actor,
            created_at: now,
        }),
        server_members: with_timeout_until(db.server_members, server_member_id(server, target), Some(expires)),
        timeout_expiry_jobs: db.timeout_expiry_jobs.push(TimeoutExpiryJobV {
            scheduled_id: 0,
            scheduled_at: ScheduleAt::Time((expires * 1000) as u64),
            timeout_id: tid,
        }),
        audit_log: db.audit_log.push(audit_entry(
            timeout_audit_id(server, now),
            server,
            "MEMBER_TIMEOUT"@,
            actor,
            "user"@,
            target,
            Some("{\"duration_seconds\":"@ + decimal(secs as nat) + "}"@),
            now,
        )),
        ..db
    }
}

/// Set the timeout of the member of key `mid`, if there is one.
fn set_timeout_until(db: &mut ChatDb, mid: &String, until: Option<u64>)
    requires
        old(db)@.wf(),
    ensures
        final(db)@.wf(),
        final(db)@ == (ChatDbV { server_members: with_timeout_until(old(db)@.server_members, mid@, until), ..old(db)@ }),
{
    match take_key(&mut db.server_members, mid) {
        Some(m) => {
            proof {
                lemma_without_key(old(db)@.server_members, mid@);
            }
            insert_new(&mut db.server_members, ServerMember { timeout_until: until, ..m });
        },
        None => {
            proof {
                crate::store::lemma_filter_all(old(db)@.server_members, crate::store::key_is_not(mid@));
                assert forall|j: int| 0 <= j < old(db)@.server_members.len() implies
                    crate::store::key_is_not::<ServerMemberV>(mid@)(#[trigger] old(db)@.server_members[j]) by {
                    if old(db)@.server_members[j].id == mid@ {
                        assert(has_key(old(db)@.server_members, mid@));
                    }
                }
                crate::store::lemma_filter_all(old(db)@.server_members, crate::store::key_is_not(mid@));
            }
        },
    }
}

/// Time a member of a server out for `duration_seconds`, clamped to 60 s ..
/// 28 days (needs MODERATE_MEMBERS; the owner cannot be timed out). Earlier
/// timeouts of the member are replaced, the membership records the end, an
/// expiry job is scheduled and the audit log records the event.
pub fn timeout_member(
    db: &mut ChatDb,
    caller: &Caller,
    now: u64,
    server_id: String,
    target_user_id: String,
    duration_seconds: u64,
    reason: Option<String>,
) -> (r: Result<(), ChatError>)
    requires
        old(db)@.wf(),
        now <= LATEST_TIMEOUT_START,
        timeout_member_verdict(old(db)@, caller@, server_id@, target_user_id@) is Ok ==> {
            &&& !has_key(old(db)@.member_timeouts.filter(timeout_not_of(server_id@, target_user_id@)), timeout_id(server_id@, target_user_id@, now))
            &&& !has_key(old(db)@.audit_log, timeout_audit_id(server_id@, now))
        },
    ensures
        final(db)@.wf(),
        r == timeout_member_verdict(old(db)@, caller@, server_id@, target_user_id@),
        r is Err ==> final(db)@ == old(db)@,
        r is Ok ==> final(db)@ == timed_out(old(db)@, caller@.user_id.unwrap(), server_id@, target_user_id@, duration_seconds, opt_view(reason), now),
{
    let uid = match &caller.user_id {
        Some(u) => u.clone(),
        None => return Err(ChatError::NotRegistered),
    };
    if !require_server_permission(db, &server_id, &uid, PERM_MODERATE_MEMBERS) {
        return Err(ChatError::NotPermitted);
    }
    if require_server_owner(db, &server_id, &target_user_id) {
        return Err(ChatError::NotPermitted);
    }
    let secs = if duration_seconds < MIN_TIMEOUT_SECS {
        MIN_TIMEOUT_SECS
    } else if duration_seconds > MAX_TIMEOUT_SECS {
        MAX_TIMEOUT_SECS
    } else {
        duration_seconds
    };
    let expires_at = now + secs * 1000;
    let stamp = decimal_string(now);
    let mut tid = join2(server_id.as_str(), "-", target_user_id.as_str());
    tid.append("-");
    tid.append(stamp.as_str());
    let keep = |t: &MemberTimeout| -> (b: bool)
        ensures
            b == timeout_not_of(server_id@, target_user_id@)(t@),
        { !(t.server_id == server_id && t.user_id == target_user_id) };
    retain_keyed(&mut db.member_timeouts, keep, Ghost(timeout_not_of(server_id@, target_user_id@)));
    let t = MemberTimeout {
        id: tid.clone(),
        server_id: server_id.clone(),
        user_id: target_user_id.clone(),
        reason,
        expires_at,
        issued_by: uid.clone(),
        created_at: now,
    };
    insert_new(&mut db.member_timeouts, t);
    let mid = join2(server_id.as_str(), "-", target_user_id.as_str());
    set_timeout_until(db, &mid, Some(expires_at));
    let ghost jobs = db@.timeout_expiry_jobs;
    let job = TimeoutExpiryJob { scheduled_id: 0, scheduled_at: ScheduleAt::Time(expires_at * 1000), timeout_id: tid };
    db.timeout_expiry_jobs.push(job);
    assert(db@.timeout_expiry_jobs =~= jobs.push(job@));
    let mut audit_id = concat2("audit-timeout-", server_id.as_str());
    audit_id.append("-");
    audit_id.append(stamp.as_str());
    let secs_text = decimal_string(secs);
    let mut details = concat2("{\"duration_seconds\":", secs_text.as_str());
    details.append("}");
    log_audit_event(db, now, audit_id.as_str(), server_id.as_str(), "MEMBER_TIMEOUT", uid.as_str(), "user", target_user_id.as_str(), Some(details));
    Ok(())
}

/// Outcome of [`remove_timeout`].
pub open spec fn remove_timeout_verdict(db: ChatDbV, c: CallerV, server: Seq<char>) -> Result<(), ChatError> {
    match c.user_id {
        None => Err(ChatError::NotRegistered),
        Some(uid) => if !has_server_permission(db, server, uid, PERM_MODERATE_MEMBERS) {
            Err(ChatError::NotPermitted)
        } else {
            Ok(())
        },
    }
}

/// Lift a member's timeout (needs MODERATE_MEMBERS): the timeout rows go and
/// the membership no longer records an end.
pub fn remove_timeout(db: &mut ChatDb, caller: &Caller, server_id: String, target_user_id: String) -> (r: Result<(), ChatError>)
    requires
        old(db)@.wf(),
    ensures
        final(db)@.wf(),
        r == remove_timeout_verdict(old(db)@, caller@, server_id@),
        r is Err ==> final(db)@ == old(db)@,
        r is Ok ==> final(db)@ == (ChatDbV {
            member_timeouts: old(db)@.member_timeouts.filter(timeout_not_of(server_id@, target_user_id@)),
            server_members: with_timeout_until(old(db)@.server_members, server_member_id(server_id@, target_user_id@), None),
            ..old(db)@
        }),
{
    let uid = match &caller.user_id {
        Some(u) => u.clone(),
        None => return Err(ChatError::NotRegistered),
    };
    if !require_server_permission(db, &server_id, &uid, PERM_MODERATE_MEMBERS) {
        return Err(ChatError::NotPermitted);
    }
    let keep = |t: &MemberTimeout| -> (b: bool)
        ensures
            b == timeout_not_of(server_id@, target_user_id@)(t@),
        { !(t.server_id == server_id && t.user_id == target_user_id) };
    retain_keyed(&mut db.member_timeouts, keep, Ghost(timeout_not_of(server_id@, target_user_id@)));
    let mid = join2(server_id.as_str(), "-", target_user_id.as_str());
    set_timeout_until(db, &mid, None);
    Ok(())
}

/// Scheduled end of a timeout: if the timeout still exists, the membership no
/// longer records an end and the timeout row goes.
pub fn expire_member_timeout(db: &mut ChatDb, job: &TimeoutExpiryJob)
    requires
        old(db)@.wf(),
    ensures
        final(db)@.wf(),
        final(db)@ == match lookup(old(db)@.member_timeouts, job.timeout_id@) {
            Some(t) => ChatDbV {
                server_members: with_timeout_until(old(db)@.server_members, server_member_id(t.server_id, t.user_id), None),
                member_timeouts: without_key(old(db)@.member_timeouts, job.timeout_id@),
                ..old(db)@
            },
            None => old(db)@,
        },
{
    match find_key(&db.member_timeouts, &job.timeout_id) {
        Some(i) => {
            let mid = join2(db.member_timeouts[i].server_id.as_str(), "-", db.member_timeouts[i].user_id.as_str());
            set_timeout_until(db, &mid, None);
            remove_key(&mut db.member_timeouts, &job.timeout_id);
        },
        None => {},
    }
}

} // verus!
