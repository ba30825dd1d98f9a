//! The runtime state machine and the main dispatch loop's decision logic.
//!
//! The asynchronous shell around the library owns the shard connections and
//! the worker pool; every decision it takes — whether to exit, what to do
//! with an event, when to move the state — is a verified function here, from
//! plain values to plain values.

use vstd::prelude::*;
use crate::config::Config;
use crate::modules;
use crate::signal::CancellationSignal;

verus! {

/// Runtime state of the process. Transitions are monotone: once
/// `Terminating`, never `Running` again, and `soft` only ever flips from
/// `true` (graceful, tasks may finish) to `false` (forced), never back.
#[derive(Clone, Copy, Debug, PartialEq, Eq, Structural)]
pub enum BotState {
    Running,
    Terminating { soft: bool },
}

/// Position of a state in the monotone progression.
pub open spec fn state_rank(s: BotState) -> int {
    match s {
        BotState::Running => 0,
        BotState::Terminating { soft: true } => 1,
        BotState::Terminating { soft: false } => 2,
    }
}

/// `a` may be observed no later than `b`: the state only moves forward.
pub open spec fn state_le(a: BotState, b: BotState) -> bool {
    state_rank(a) <= state_rank(b)
}

/// Monotonic state: in any sequence of observations in which each step
/// respects the state order, every earlier observation is at or below every
/// later one — some `Running`s, then soft termination, then optionally
/// forced termination, never a reversion.
pub proof fn lemma_state_monotonic(obs: Seq<BotState>, i: int, j: int)
    requires
        forall|k: int| 0 <= k < obs.len() - 1 ==> state_le(#[trigger] obs[k], obs[k + 1]),
        0 <= i <= j < obs.len(),
    ensures
        state_le(obs[i], obs[j]),
    decreases j - i,
{
    if i < j {
        lemma_state_monotonic(obs, i, j - 1);
        assert(state_le(obs[j - 1], obs[j]));
    }
}

/// The process-wide orchestration context. One of these is constructed at
/// startup and threaded explicitly through every call boundary; the shell
/// shares it under its locks, and hands it here by reference.
pub struct Context {
    pub state: BotState,
    pub config: Config,
    pub c_token: CancellationSignal,
    pub bot_id: Option<u64>,
    pub application_id: Option<u64>,
    pub modules: Option<modules::Context>,
}

/// The parts of the context that dispatching and shutdown never touch.
pub open spec fn same_identity(a: Context, b: Context) -> bool {
    &&& a.config == b.config
    &&& a.bot_id == b.bot_id
    &&& a.application_id == b.application_id
    &&& a.modules == b.modules
}

/// Moves the state to `Terminating` and fires the cancellation signal.
/// Only the shutdown coordination paths call this, and never backwards: the
/// monotone progression of states is demanded, never reversed.
pub fn terminate(context: &mut Context, soft: bool)
    requires
        state_le(old(context).state, BotState::Terminating { soft }),
    ensures
        final (context).state == (BotState::Terminating { soft }),
        final (context).c_token.signalled,
        state_le(old(context).state, final (context).state),
        same_identity(*old(context), *final (context)),
{
    context.state = BotState::Terminating { soft };
    context.c_token.fire();
}

/// An interaction delivered by the event source, reduced to the data the
/// orchestrator reads.
pub struct Interaction {
    pub id: u64,
}

/// A chat message delivered by the event source.
pub struct Message {
    pub author: String,
    pub content: String,
}

/// A typed event from one shard of the event source.
pub enum Event {
    Ready { bot_id: u64, application_id: u64, guild_ids: Vec<u64> },
    MessageCreate(Message),
    InteractionCreate(Interaction),
    Other,
}

/// A receive failure, already classified by the source: after a fatal one no
/// further event will ever arrive on that connection.
#[derive(Clone, Copy, Debug, PartialEq, Eq, Structural)]
pub struct ReceiveError {
    pub fatal: bool,
}

/// What the shell must do with one successfully received event. Anything
/// potentially slow is spawned, never run inline, so that a slow handler
/// never blocks receipt of events from other shards.
#[derive(Clone, Copy, Debug, PartialEq, Eq, Structural)]
pub enum DispatchAction {
    /// Spawn a task running command registration across all present modules;
    /// warn first if the home guild was missing from the ready data.
    SpawnRegisterCommands { home_guild_missing: bool },
    /// Log the message inline; business logic is a module concern.
    LogMessage,
    /// Spawn a task routing the interaction to every present module.
    SpawnInteraction,
    /// Log that the event is unhandled.
    LogUnhandled,
}

/// The action a given event demands, given the configuration.
pub open spec fn dispatch_action_of(c: Context, e: Event) -> DispatchAction {
    match e {
        Event::Ready { bot_id, application_id, guild_ids } => DispatchAction::SpawnRegisterCommands {
            home_guild_missing: !guild_ids@.contains(c.config.home_guild),
        },
        Event::MessageCreate(_) => DispatchAction::LogMessage,
        Event::InteractionCreate(_) => DispatchAction::SpawnInteraction,
        Event::Other => DispatchAction::LogUnhandled,
    }
}

/// How handling one event changes the context: a ready event captures the
/// agent's own identity and its owning application's identity; nothing else
/// changes anything.
pub open spec fn dispatch_post(c: Context, e: Event) -> Context {
    match e {
        Event::Ready { bot_id, application_id, guild_ids } => Context {
            bot_id: Some(bot_id),
            application_id: Some(application_id),
            ..c
        },
        _ => c,
    }
}

fn contains_id(v: &Vec<u64>, x: u64) -> (r: bool)
    ensures
        r == v@.contains(x),
{
    let mut k: usize = 0;
    while k < v.len()
        invariant
            k <= v.len(),
            forall|j: int| 0 <= j < k ==> v@[j] != x,
        decreases v.len() - k,
    {
        if v[k] == x {
            proof {
                assert(v@.contains(x)) by {
                    assert(v@[k as int] == x);
                }
            }
            return true;
        }
        k = k + 1;
    }
    false
}

/// Classifies one received event and applies its inline effects: a ready
/// event stores the two identities and asks for command registration to be
/// spawned, a message is logged inline, an interaction is routed through a
/// spawned task, anything else is only logged.
pub fn handle_discord_event(context: &mut Context, event: &Event) -> (a: DispatchAction)
    ensures
        a == dispatch_action_of(*old(context), *event),
        *final (context) == dispatch_post(*old(context), *event),
        final (context).state == old(context).state,
        final (context).c_token == old(context).c_token,
        final (context).modules == old(context).modules,
{
    match event {
        Event::Ready { bot_id, application_id, guild_ids } => {
            let missing = !contains_id(guild_ids, context.config.home_guild);
            context.bot_id = Some(*bot_id);
            context.application_id = Some(*application_id);
            DispatchAction::SpawnRegisterCommands { home_guild_missing: missing }
        },
        Event::MessageCreate(_) => DispatchAction::LogMessage,
        Event::InteractionCreate(_) => DispatchAction::SpawnInteraction,
        Event::Other => DispatchAction::LogUnhandled,
    }
}

/// Whether the dispatch loop must exit, checked at the top of every
/// iteration: it exits exactly when the state has left `Running`.
pub fn should_exit(context: &Context) -> (r: bool)
    ensures
        r == (context.state != BotState::Running),
{
    match context.state {
        BotState::Running => false,
        BotState::Terminating { .. } => true,
    }
}

/// What the dispatch loop consumed in one iteration: an interrupt
/// notification, or the next receive result from the merged shard stream.
pub enum LoopEvent {
    Interrupt,
    Shard(Result<Event, ReceiveError>),
}

/// The verdict of one dispatch-loop iteration, for the shell to act on.
#[derive(Clone, Copy, Debug, PartialEq, Eq, Structural)]
pub enum LoopOutcome {
    /// An interrupt arrived: termination has begun, gracefully.
    Interrupted,
    /// A fatal receive error: termination has begun, as an interrupt would.
    FatalError,
    /// A recoverable receive error: log it and keep looping.
    Recoverable,
    /// An event was classified; perform the returned action.
    Handled(DispatchAction),
}

/// One iteration of the main dispatch loop, after the top-of-loop running
/// check. An interrupt or a fatal receive error moves the state to graceful
/// termination and fires the cancellation signal; a recoverable error
/// changes nothing; an event is classified and applied.
pub fn dispatch_step(context: &mut Context, input: LoopEvent) -> (r: LoopOutcome)
    requires
        old(context).state == BotState::Running,
    ensures
        state_le(old(context).state, final (context).state),
        match input {
            LoopEvent::Interrupt => r == LoopOutcome::Interrupted && final (context).state == (
            BotState::Terminating { soft: true }) && final (context).c_token.signalled
                && same_identity(*old(context), *final (context)),
            LoopEvent::Shard(res) => match res {
                Ok(e) => r == LoopOutcome::Handled(dispatch_action_of(*old(context), e)) && *final (
                context) == dispatch_post(*old(context), e),
                Err(re) => (re.fatal ==> r == LoopOutcome::FatalError && final (context).state == (
                BotState::Terminating { soft: true }) && final (context).c_token.signalled
                    && same_identity(*old(context), *final (context))) && (!re.fatal ==> r
                    == LoopOutcome::Recoverable && *final (context) == *old(context)),
            },
        },
{
    match input {
        LoopEvent::Interrupt => {
            terminate(context, true);
            LoopOutcome::Interrupted
        },
        LoopEvent::Shard(res) => match res {
            Ok(e) => {
                let a = handle_discord_event(context, &e);
                LoopOutcome::Handled(a)
            },
            Err(re) => {
                if re.fatal {
                    terminate(context, true);
                    LoopOutcome::FatalError
                } else {
                    LoopOutcome::Recoverable
                }
            },
        },
    }
}

} // verus!
