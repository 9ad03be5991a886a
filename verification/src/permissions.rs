//! Command permission and voice-membership checks, as decisions over what the
//! chat platform reports: the caller's computed permissions, the guild's DJ
//! role, the caller's roles, and who is in which voice channel.

use vstd::prelude::*;

verus! {

/// Whether the caller counts as an administrator for music commands:
/// administrator or manage-guild permission.
pub fn check_admin(administrator: bool, manage_guild: bool) -> (r: bool)
    ensures
        r == (administrator || manage_guild),
{
    administrator || manage_guild
}

/// Whether the caller may use DJ-gated commands: administrators always may;
/// a guild without a DJ role lets everyone; otherwise the caller must carry
/// the DJ role.
pub fn check_dj_or_admin(admin: bool, dj_role_id: Option<i64>, member_roles: &Vec<i64>) -> (r:
    bool)
    ensures
        r == (admin || dj_role_id is None || (dj_role_id matches Some(x) && member_roles@.contains(
            x,
        ))),
{
    if admin {
        return true;
    }
    match dj_role_id {
        None => true,
        Some(role) => {
            let n = member_roles.len();
            let mut i: usize = 0;
            while i < n
                invariant
                    dj_role_id == Some(role),
                    n == member_roles@.len(),
                    0 <= i <= n,
                    forall|j: int| 0 <= j < i ==> #[trigger] member_roles@[j] != role,
                decreases n - i,
            {
                if member_roles[i] == role {
                    assert(member_roles@[i as int] == role);
                    return true;
                }
                i = i + 1;
            }
            false
        },
    }
}

/// Whether the caller stands in the right voice channel to steer playback:
/// with the bot not in voice, any voice channel of the caller's will do;
/// with the bot in voice, the caller must share its channel.
pub fn check_in_voice(user_voice: Option<u64>, bot_voice: Option<u64>) -> (r: bool)
    ensures
        bot_voice is None ==> r == (user_voice is Some),
        bot_voice matches Some(b) ==> r == (user_voice == Some(b)),
{
    match bot_voice {
        None => user_voice.is_some(),
        Some(b) => match user_voice {
            Some(u) => u == b,
            None => false,
        },
    }
}

/// Whether the caller is in the same voice channel as the bot (and both are
/// in one at all).
pub fn check_user_in_voice(user_voice: Option<u64>, bot_voice: Option<u64>) -> (r: bool)
    ensures
        r == (user_voice is Some && user_voice == bot_voice),
{
    match user_voice {
        Some(u) => match bot_voice {
            Some(b) => u == b,
            None => false,
        },
        None => false,
    }
}

/// What a join command found, before any connection is attempted.
#[derive(Clone, Copy, PartialEq, Eq, Structural, Debug)]
pub enum JoinGate {
    /// The caller is not in a voice channel: nothing to join.
    CannotJoin,
    /// The bot is already in the caller's channel.
    AlreadyConnected,
    /// The bot is busy in another voice channel.
    Busy,
    /// The bot should connect to this channel of the caller's.
    Proceed(u64),
}

/// The join command's precondition check: the caller must be in a voice
/// channel; a bot already there reports so; a bot in a different channel is
/// busy; otherwise the join proceeds into the caller's channel.
pub fn join_gate(user_voice: Option<u64>, bot_voice: Option<u64>) -> (r: JoinGate)
    ensures
        user_voice is None ==> r is CannotJoin,
        (user_voice matches Some(u) && bot_voice == Some(u)) ==> r is AlreadyConnected,
        (user_voice matches Some(u) && bot_voice is Some && bot_voice != Some(u)) ==> r is Busy,
        user_voice matches Some(u) ==> (bot_voice is None ==> r == JoinGate::Proceed(u)),
{
    match user_voice {
        None => JoinGate::CannotJoin,
        Some(u) => match bot_voice {
            Some(b) => {
                if b == u {
                    JoinGate::AlreadyConnected
                } else {
                    JoinGate::Busy
                }
            },
            None => JoinGate::Proceed(u),
        },
    }
}

} // verus!
