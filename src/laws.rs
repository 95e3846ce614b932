use crate::plugin::{
    creation_step, enters_trigger, presence_step, removal_step, request_step, ActionView, Config,
    PresenceEvent,
};
use crate::store::{owned_channel, Slot};
use vstd::prelude::*;

verus! {

/// One input of the lifecycle manager: a presence change, the host's answer
/// to a creation request, or a command asking for a room or for its removal.
pub enum ManagerInput {
    Presence(PresenceEvent),
    Created { user: u64, guild: u64, created: Option<u64> },
    Request { user: u64, guild: u64, name: Seq<char> },
    Removal { user: u64, guild: u64 },
}

/// The records after `inputs`, handled in order from records `m`.
pub open spec fn run(m: Map<u64, Slot>, c: Config, inputs: Seq<ManagerInput>) -> Map<u64, Slot>
    decreases inputs.len(),
{
    if inputs.len() == 0 {
        m
    } else {
        let next = match inputs[0] {
            ManagerInput::Presence(e) => presence_step(m, c, e).0,
            ManagerInput::Created { user, guild, created } => creation_step(m, user, guild, created).0,
            ManagerInput::Request { user, guild, name } => request_step(m, c, user, guild, name).0,
            ManagerInput::Removal { user, guild } => removal_step(m, c, user, guild).0,
        };
        run(next, c, inputs.subrange(1, inputs.len() as int))
    }
}

/// The records that `m` holds for `user`.
pub open spec fn records_of(m: Map<u64, Slot>, user: u64) -> Set<Slot> {
    Set::new(|s: Slot| m.contains_key(user) && m[user] == s)
}

/// After any sequence of inputs, the store holds at most one record for any
/// user.
pub proof fn lemma_at_most_one_record(m: Map<u64, Slot>, c: Config, inputs: Seq<ManagerInput>, user: u64)
    ensures
        records_of(run(m, c, inputs), user).len() <= 1,
{
    let r = run(m, c, inputs);
    if r.contains_key(user) {
        assert(records_of(r, user) =~= set![r[user]]);
    } else {
        assert(records_of(r, user) =~= Set::<Slot>::empty());
    }
}

/// Two entries into the trigger channel by one user, handled one after the
/// other before any creation answer: the second asks for nothing, and the
/// first asks for a room exactly when the user held no record.
pub proof fn lemma_no_duplicate_creation(m: Map<u64, Slot>, c: Config, e1: PresenceEvent, e2: PresenceEvent)
    requires
        e1.user_id == e2.user_id,
        e1.guild_id == c.allowed_guild_id,
        e2.guild_id == c.allowed_guild_id,
        enters_trigger(c, e1),
        enters_trigger(c, e2),
    ensures
        ({
            let (m1, a1) = presence_step(m, c, e1);
            let (m2, a2) = presence_step(m1, c, e2);
            &&& (a1 is CreateChannel <==> !m.contains_key(e1.user_id))
            &&& a2 == ActionView::Nothing
            &&& m2 == m1
        }),
{
}

/// An event of another guild changes no record and asks the host for
/// nothing, whatever its channels.
pub proof fn lemma_guild_scoping(m: Map<u64, Slot>, c: Config, e: PresenceEvent)
    requires
        e.guild_id != c.allowed_guild_id,
    ensures
        presence_step(m, c, e) == (m, ActionView::Nothing),
{
}

/// A user who owns a room and enters the trigger channel again gets no new
/// room and keeps their record.
pub proof fn lemma_idempotent_reentry(m: Map<u64, Slot>, c: Config, e: PresenceEvent, room: u64)
    requires
        owned_channel(m, e.user_id) == Some(room),
        e.guild_id == c.allowed_guild_id,
        enters_trigger(c, e),
    ensures
        presence_step(m, c, e) == (m, ActionView::Nothing),
        presence_step(m, c, e).0[e.user_id] == Some(room),
{
}

/// A user who owns a room and leaves voice altogether loses the record, and
/// the room, and only it, is to be deleted. No later input is needed for the
/// record to go, so a failed deletion does not bring it back.
pub proof fn lemma_cleanup_on_departure(m: Map<u64, Slot>, c: Config, e: PresenceEvent, room: u64)
    requires
        owned_channel(m, e.user_id) == Some(room),
        e.guild_id == c.allowed_guild_id,
        e.current_channel_id is None,
        c.auto_delete_empty,
    ensures
        presence_step(m, c, e) == (m.remove(e.user_id), ActionView::DeleteChannel { channel_id: room }),
{
}

/// A user who owns a room and switches to another channel that is not the
/// trigger loses the record and the room is to be deleted; no room is asked
/// for.
pub proof fn lemma_switch_cleans_up(m: Map<u64, Slot>, c: Config, e: PresenceEvent, room: u64, dest: u64)
    requires
        owned_channel(m, e.user_id) == Some(room),
        e.guild_id == c.allowed_guild_id,
        e.current_channel_id == Some(dest),
        dest != c.master_channel_id,
        dest != room,
        c.auto_delete_empty,
    ensures
        presence_step(m, c, e) == (m.remove(e.user_id), ActionView::DeleteChannel { channel_id: room }),
{
}

} // verus!
