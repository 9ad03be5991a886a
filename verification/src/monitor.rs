//! The idle/auto-disconnect monitor: a polling state machine bound to one
//! playback session.  It detects "nothing playing, empty queue, nobody but
//! bots in the voice channel", waits out the configured debounce, re-checks
//! everything from scratch, and asks for exactly one teardown when the idle
//! condition held — or stops silently when the session or its configuration
//! is gone.
//!
//! The machine is a pure transition over observations; the embedding program
//! runs the loop, sleeps, gathers each observation, and performs the returned
//! action.

use vstd::prelude::*;

verus! {

/// One member of a voice channel, reduced to what idleness reads.
#[derive(Clone, Copy, PartialEq, Eq, Structural, Debug)]
pub struct VoiceMember {
    pub user_id: u64,
    pub is_bot: bool,
}

/// Whether the bot is alone among `members`: everyone else is a bot.
pub open spec fn spec_alone(members: Seq<VoiceMember>, bot_id: u64) -> bool {
    forall|i: int|
        0 <= i < members.len() ==> (#[trigger] members[i]).user_id == bot_id || members[i].is_bot
}

/// Whether the bot with id `bot_id` is alone in a voice channel whose members
/// are `members`: no member other than the bot itself is human.
pub fn is_alone(members: &Vec<VoiceMember>, bot_id: u64) -> (r: bool)
    ensures
        r == spec_alone(members@, bot_id),
{
    let n = members.len();
    let mut i: usize = 0;
    while i < n
        invariant
            n == members@.len(),
            0 <= i <= n,
            forall|j: int|
                0 <= j < i ==> (#[trigger] members@[j]).user_id == bot_id || members@[j].is_bot,
        decreases n - i,
    {
        let m = members[i];
        if m.user_id != bot_id && !m.is_bot {
            return false;
        }
        i = i + 1;
    }
    true
}

/// Everything one monitor tick reads, gathered fresh from the configuration
/// store, the audio node, and the voice presence cache.
#[derive(Clone, Copy, PartialEq, Eq, Structural, Debug)]
pub struct IdleObservation {
    /// The guild's configuration could be read.
    pub config_readable: bool,
    /// The configuration's auto-disconnect switch.
    pub auto_disconnect_enabled: bool,
    /// The configuration's debounce wait, in seconds.
    pub auto_disconnect_seconds: u32,
    /// The session (and the node's player for it) still exists.
    pub session_exists: bool,
    /// The node reports a current track.
    pub track_playing: bool,
    /// The session queue's length.
    pub queue_len: usize,
    /// Nobody but bots is in the session's voice channel.
    pub alone: bool,
}

/// The idle condition: nothing playing, empty queue, no human listeners.
pub open spec fn spec_idle(o: IdleObservation) -> bool {
    !o.track_playing && o.queue_len == 0 && o.alone
}

/// Where the monitor stands between ticks.
#[derive(Clone, Copy, PartialEq, Eq, Structural, Debug)]
pub enum MonitorPhase {
    /// Watching for the idle condition.
    Polling,
    /// Idle was detected; the debounce wait is running and the next tick is
    /// the from-scratch confirmation.
    Waiting,
    /// The monitor is done (it disconnected, or its session is gone) and must
    /// not tick again.
    Finished,
}

/// What the embedding loop must do after a tick.
#[derive(Clone, Copy, PartialEq, Eq, Structural, Debug)]
pub enum MonitorAction {
    /// Sleep one poll interval and tick again.
    Continue,
    /// Idle detected: sleep this many seconds, then tick again to confirm.
    StartWait(u32),
    /// Idle held through the wait: trigger the session teardown, then stop.
    Disconnect,
    /// Session or configuration gone: stop silently.
    Stop,
}

/// One monitor tick: the next phase and the action to perform.
///
/// Whatever the phase: an unreadable configuration or a vanished session
/// finishes the monitor silently, and auto-disconnect switched off skips the
/// tick (dropping back to polling, so a running debounce is abandoned).
/// While polling, the first idle observation starts the debounce wait of the
/// observation's (freshly read) `auto_disconnect_seconds`.  The tick after
/// the wait re-checks everything from scratch: only if the idle condition
/// still holds does the monitor ask for the one disconnect and finish; any
/// change drops it back to polling with zero disconnects.
pub open spec fn spec_monitor_tick(phase: MonitorPhase, o: IdleObservation) -> (
    MonitorPhase,
    MonitorAction,
) {
    if !o.config_readable || !o.session_exists {
        (MonitorPhase::Finished, MonitorAction::Stop)
    } else if !o.auto_disconnect_enabled {
        (MonitorPhase::Polling, MonitorAction::Continue)
    } else if phase is Polling {
        if spec_idle(o) {
            (MonitorPhase::Waiting, MonitorAction::StartWait(o.auto_disconnect_seconds))
        } else {
            (MonitorPhase::Polling, MonitorAction::Continue)
        }
    } else {
        if spec_idle(o) {
            (MonitorPhase::Finished, MonitorAction::Disconnect)
        } else {
            (MonitorPhase::Polling, MonitorAction::Continue)
        }
    }
}

/// Executes one tick of the monitor state machine.
pub fn monitor_tick(phase: MonitorPhase, o: &IdleObservation) -> (r: (
    MonitorPhase,
    MonitorAction,
))
    requires
        !(phase is Finished),
    ensures
        r == spec_monitor_tick(phase, *o),
{
    if !o.config_readable || !o.session_exists {
        (MonitorPhase::Finished, MonitorAction::Stop)
    } else if !o.auto_disconnect_enabled {
        (MonitorPhase::Polling, MonitorAction::Continue)
    } else {
        let idle = !o.track_playing && o.queue_len == 0 && o.alone;
        match phase {
            MonitorPhase::Polling => {
                if idle {
                    (MonitorPhase::Waiting, MonitorAction::StartWait(o.auto_disconnect_seconds))
                } else {
                    (MonitorPhase::Polling, MonitorAction::Continue)
                }
            },
            _ => {
                if idle {
                    (MonitorPhase::Finished, MonitorAction::Disconnect)
                } else {
                    (MonitorPhase::Polling, MonitorAction::Continue)
                }
            },
        }
    }
}

/// The actions a monitor run takes over the observations `obs`, starting in
/// `phase`; the run ends when the observations do or the monitor finishes.
pub open spec fn spec_monitor_run(phase: MonitorPhase, obs: Seq<IdleObservation>) -> Seq<
    MonitorAction,
>
    decreases obs.len(),
{
    if obs.len() == 0 || phase is Finished {
        Seq::empty()
    } else {
        let stepped = spec_monitor_tick(phase, obs[0]);
        seq![stepped.1] + spec_monitor_run(stepped.0, obs.drop_first())
    }
}

/// The phase a monitor run ends in.
pub open spec fn spec_phase_after(phase: MonitorPhase, obs: Seq<IdleObservation>) -> MonitorPhase
    decreases obs.len(),
{
    if obs.len() == 0 || phase is Finished {
        phase
    } else {
        let stepped = spec_monitor_tick(phase, obs[0]);
        spec_phase_after(stepped.0, obs.drop_first())
    }
}

/// How many disconnects a run of actions contains.
pub open spec fn count_disconnects(actions: Seq<MonitorAction>) -> nat
    decreases actions.len(),
{
    if actions.len() == 0 {
        0
    } else {
        count_disconnects(actions.drop_first()) + (if actions[0] is Disconnect {
            1nat
        } else {
            0nat
        })
    }
}

/// An observation in which every teardown condition holds: configuration
/// readable, auto-disconnect enabled, session present, and idle.
pub open spec fn spec_fully_idle(o: IdleObservation) -> bool {
    o.config_readable && o.session_exists && o.auto_disconnect_enabled && spec_idle(o)
}

/// However the observations run, a monitor never disconnects twice: the tick
/// that disconnects finishes the monitor, and a finished monitor never acts
/// again.
pub proof fn lemma_monitor_at_most_one_disconnect(phase: MonitorPhase, obs: Seq<IdleObservation>)
    ensures
        count_disconnects(spec_monitor_run(phase, obs)) <= 1,
    decreases obs.len(),
{
    if obs.len() == 0 || phase is Finished {
    } else {
        let stepped = spec_monitor_tick(phase, obs[0]);
        lemma_monitor_at_most_one_disconnect(stepped.0, obs.drop_first());
        if stepped.1 is Disconnect {
            assert(stepped.0 is Finished);
            assert(spec_monitor_run(stepped.0, obs.drop_first()) =~= Seq::<
                MonitorAction,
            >::empty());
        }
        assert(spec_monitor_run(phase, obs).drop_first() =~= spec_monitor_run(
            stepped.0,
            obs.drop_first(),
        ));
    }
}

/// When the idle condition (with auto-disconnect enabled and the session
/// alive) holds continuously — at detection and still at the confirmation
/// after the debounce wait — a polling monitor disconnects exactly once and
/// finishes.
pub proof fn lemma_monitor_fires_on_sustained_idle(obs: Seq<IdleObservation>)
    requires
        obs.len() >= 2,
        forall|i: int| 0 <= i < obs.len() ==> spec_fully_idle(#[trigger] obs[i]),
    ensures
        count_disconnects(spec_monitor_run(MonitorPhase::Polling, obs)) == 1,
        spec_phase_after(MonitorPhase::Polling, obs) is Finished,
{
    let o0 = obs[0];
    let o1 = obs[1];
    assert(spec_fully_idle(o0));
    assert(spec_fully_idle(o1));
    let rest1 = obs.drop_first();
    assert(rest1[0] == o1);
    let rest2 = rest1.drop_first();
    assert(spec_monitor_tick(MonitorPhase::Polling, o0) == (
        MonitorPhase::Waiting,
        MonitorAction::StartWait(o0.auto_disconnect_seconds),
    ));
    assert(spec_monitor_tick(MonitorPhase::Waiting, o1) == (
        MonitorPhase::Finished,
        MonitorAction::Disconnect,
    ));
    let run = spec_monitor_run(MonitorPhase::Polling, obs);
    assert(run =~= seq![MonitorAction::StartWait(o0.auto_disconnect_seconds)]
        + spec_monitor_run(MonitorPhase::Waiting, rest1));
    assert(spec_monitor_run(MonitorPhase::Waiting, rest1) =~= seq![MonitorAction::Disconnect]
        + spec_monitor_run(MonitorPhase::Finished, rest2));
    assert(spec_monitor_run(MonitorPhase::Finished, rest2) =~= Seq::<MonitorAction>::empty());
    assert(run =~= seq![
        MonitorAction::StartWait(o0.auto_disconnect_seconds),
        MonitorAction::Disconnect,
    ]);
    assert(count_disconnects(run) == 1) by {
        assert(run.drop_first() =~= seq![MonitorAction::Disconnect]);
        assert(run.drop_first().drop_first() =~= Seq::<MonitorAction>::empty());
        assert(count_disconnects(run.drop_first().drop_first()) == 0);
        assert(count_disconnects(run.drop_first()) == 1);
    }
    assert(spec_phase_after(MonitorPhase::Polling, obs) == spec_phase_after(
        MonitorPhase::Waiting,
        rest1,
    ));
    assert(spec_phase_after(MonitorPhase::Waiting, rest1) == spec_phase_after(
        MonitorPhase::Finished,
        rest2,
    ));
}

/// When idle is detected but any condition has flipped by the from-scratch
/// re-check after the wait — playback resumed, the queue filled, someone
/// joined, or auto-disconnect was switched off — the cycle performs zero
/// disconnects and the monitor resumes polling.
pub proof fn lemma_monitor_aborts_on_change(o0: IdleObservation, o1: IdleObservation)
    requires
        spec_fully_idle(o0),
        o1.config_readable,
        o1.session_exists,
        !(o1.auto_disconnect_enabled && spec_idle(o1)),
    ensures
        count_disconnects(spec_monitor_run(MonitorPhase::Polling, seq![o0, o1])) == 0,
        spec_phase_after(MonitorPhase::Polling, seq![o0, o1]) is Polling,
{
    let obs = seq![o0, o1];
    assert(obs[0] == o0);
    let rest1 = obs.drop_first();
    assert(rest1 =~= seq![o1]);
    assert(rest1[0] == o1);
    let rest2 = rest1.drop_first();
    assert(rest2 =~= Seq::<IdleObservation>::empty());
    assert(spec_monitor_tick(MonitorPhase::Polling, o0) == (
        MonitorPhase::Waiting,
        MonitorAction::StartWait(o0.auto_disconnect_seconds),
    ));
    assert(spec_monitor_tick(MonitorPhase::Waiting, o1) == (
        MonitorPhase::Polling,
        MonitorAction::Continue,
    ));
    let run = spec_monitor_run(MonitorPhase::Polling, obs);
    assert(run =~= seq![MonitorAction::StartWait(o0.auto_disconnect_seconds)]
        + spec_monitor_run(MonitorPhase::Waiting, rest1));
    assert(spec_monitor_run(MonitorPhase::Waiting, rest1) =~= seq![MonitorAction::Continue]
        + spec_monitor_run(MonitorPhase::Polling, rest2));
    assert(spec_monitor_run(MonitorPhase::Polling, rest2) =~= Seq::<MonitorAction>::empty());
    assert(run =~= seq![
        MonitorAction::StartWait(o0.auto_disconnect_seconds),
        MonitorAction::Continue,
    ]);
    assert(count_disconnects(run) == 0) by {
        assert(run.drop_first() =~= seq![MonitorAction::Continue]);
        assert(run.drop_first().drop_first() =~= Seq::<MonitorAction>::empty());
        assert(count_disconnects(run.drop_first().drop_first()) == 0);
        assert(count_disconnects(run.drop_first()) == 0);
    }
    assert(spec_phase_after(MonitorPhase::Polling, obs) == spec_phase_after(
        MonitorPhase::Waiting,
        rest1,
    ));
    assert(spec_phase_after(MonitorPhase::Waiting, rest1) == spec_phase_after(
        MonitorPhase::Polling,
        rest2,
    ));
}

} // verus!
