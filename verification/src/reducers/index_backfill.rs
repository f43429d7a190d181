//! Filling the per-room indexes of reactions and message edits from the
//! rows that predate them. Both requests are idempotent: a row that already
//! has an index entry, or that has no room, is skipped.

use vstd::prelude::*;
use crate::context::{Caller, ChatError};
use crate::db::{ChatDb, ChatDbV};
use crate::tables::{ReactionV, ReactionRoomIndex, ReactionRoomIndexV, MessageEditV, MessageEditRoomIndex,
    MessageEditRoomIndexV};
use crate::store::{has_key, contains_key, insert_new};

verus! {

/// The index entry of a reaction placed in `room`.
pub open spec fn reaction_entry(r: ReactionV, room: Seq<char>) -> ReactionRoomIndexV {
    ReactionRoomIndexV {
        reaction_id: r.id,
        room_id: room,
        message_id: r.message_id,
        user_id: r.user_id,
        emoji: r.emoji,
        created_at: r.created_at,
    }
}

/// The reaction index after the reactions of `rs` are visited in turn: each
/// one with a room and no entry yet gets one.
pub open spec fn reactions_indexed(index: Seq<ReactionRoomIndexV>, rs: Seq<ReactionV>) -> Seq<ReactionRoomIndexV>
    decreases rs.len(),
{
    if rs.len() == 0 {
        index
    } else {
        let idx = reactions_indexed(index, rs.drop_last());
        let r = rs.last();
        match r.room_id {
            Some(room) => if has_key(idx, r.id) { idx } else { idx.push(reaction_entry(r, room)) },
            None => idx,
        }
    }
}

/// Fill the reaction index from the reactions (platform admin only).
pub fn backfill_reaction_room_index(db: &mut ChatDb, caller: &Caller) -> (r: Result<(), ChatError>)
    requires
        old(db)@.wf(),
    ensures
        final(db)@.wf(),
        r is Err <==> !caller.is_platform_admin,
        r is Err ==> r == Err::<(), ChatError>(ChatError::NotPermitted) && final(db)@ == old(db)@,
        r is Ok ==> final(db)@ == (ChatDbV {
            reaction_room_index: reactions_indexed(old(db)@.reaction_room_index, old(db)@.reactions),
            ..old(db)@
        }),
{
    if !caller.is_platform_admin {
        return Err(ChatError::NotPermitted);
    }
    let ghost o = db@;
    let mut i: usize = 0;
    while i < db.reactions.len()
        invariant
            i <= db@.reactions.len(),
            db@.wf(),
            db@ == (ChatDbV { reaction_room_index: reactions_indexed(o.reaction_room_index, o.reactions.take(i as int)), ..o }),
        decreases db.reactions.len() - i,
    {
        proof {
            assert(o.reactions.take(i + 1).drop_last() =~= o.reactions.take(i as int));
            assert(o.reactions.take(i + 1).last() == db@.reactions[i as int]);
        }
        if !contains_key(&db.reaction_room_index, &db.reactions[i].id) {
            match &db.reactions[i].room_id {
                Some(room) => {
                    let x = &db.reactions[i];
                    let e = ReactionRoomIndex {
                        reaction_id: x.id.clone(),
                        room_id: room.clone(),
                        message_id: x.message_id.clone(),
                        user_id: x.user_id.clone(),
                        emoji: x.emoji.clone(),
                        created_at: x.created_at,
                    };
                    insert_new(&mut db.reaction_room_index, e);
                },
                None => {},
            }
        }
        i = i + 1;
    }
    assert(o.reactions.take(o.reactions.len() as int) =~= o.reactions);
    Ok(())
}

/// The index entry of a message edit made in `room`.
pub open spec fn edit_entry(e: MessageEditV, room: Seq<char>) -> MessageEditRoomIndexV {
    MessageEditRoomIndexV {
        edit_id: e.id,
        room_id: room,
        message_id: e.message_id,
        editor_id: e.editor_id,
        edited_at: e.edited_at,
        new_content: e.new_content,
    }
}

/// The edit index after the edits of `es` are visited in turn: each one with
/// a room and no entry yet gets one.
pub open spec fn edits_indexed(index: Seq<MessageEditRoomIndexV>, es: Seq<MessageEditV>) -> Seq<MessageEditRoomIndexV>
    decreases es.len(),
{
    if es.len() == 0 {
        index
    } else {
        let idx = edits_indexed(index, es.drop_last());
        let e = es.last();
        match e.room_id {
            Some(room) => if has_key(idx, e.id) { idx } else { idx.push(edit_entry(e, room)) },
            None => idx,
        }
    }
}

/// Fill the message edit index from the edits (platform admin only).
pub fn backfill_message_edit_room_index(db: &mut ChatDb, caller: &Caller) -> (r: Result<(), ChatError>)
    requires
        old(db)@.wf(),
    ensures
        final(db)@.wf(),
        r is Err <==> !caller.is_platform_admin,
        r is Err ==> r == Err::<(), ChatError>(ChatError::NotPermitted) && final(db)@ == old(db)@,
        r is Ok ==> final(db)@ == (ChatDbV {
            message_edit_room_index: edits_indexed(old(db)@.message_edit_room_index, old(db)@.message_edits),
            ..old(db)@
        }),
{
    if !caller.is_platform_admin {
        return Err(ChatError::NotPermitted);
    }
    let ghost o = db@;
    let mut i: usize = 0;
    while i < db.message_edits.len()
        invariant
            i <= db@.message_edits.len(),
            db@.wf(),
            db@ == (ChatDbV { message_edit_room_index: edits_indexed(o.message_edit_room_index, o.message_edits.take(i as int)), ..o }),
        decreases db.message_edits.len() - i,
    {
        proof {
            assert(o.message_edits.take(i + 1).drop_last() =~= o.message_edits.take(i as int));
            assert(o.message_edits.take(i + 1).last() == db@.message_edits[i as int]);
        }
        if !contains_key(&db.message_edit_room_index, &db.message_edits[i].id) {
            match &db.message_edits[i].room_id {
                Some(room) => {
                    let x = &db.message_edits[i];
                    let e = MessageEditRoomIndex {
                        edit_id: x.id.clone(),
                        room_id: room.clone(),
                        message_id: x.message_id.clone(),
                        editor_id: x.editor_id.clone(),
                        edited_at: x.edited_at,
                        new_content: x.new_content.clone(),
                    };
                    insert_new(&mut db.message_edit_room_index, e);
                },
                None => {},
            }
        }
        i = i + 1;
    }
    assert(o.message_edits.take(o.message_edits.len() as int) =~= o.message_edits);
    Ok(())
}

} // verus!
