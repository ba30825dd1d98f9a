//! The module lifecycle registry and the background-task supervisor.
//!
//! The registry is `None` before initialization and `Some` after; readers of
//! a module slot tolerate an unset slot by treating the module as disabled.
//! The shell guards the registry with a reader/writer lock; every operation
//! here is the brief decision applied under one such acquisition.

use vstd::prelude::*;
use crate::runtime::{BotState, Context as BotContext, Interaction};

pub mod database;
pub mod ddnet_bans;

verus! {

/// The per-module configuration sections; an absent section disables that
/// module.
pub struct Config {
    pub database: Option<database::Config>,
    pub ddnet_bans: Option<ddnet_bans::Config>,
}

/// The registry: the supervised background tasks (by identifier; the shell
/// holds the live handles) plus one optional context slot per module.
pub struct Context {
    pub task_joinset: Vec<u64>,
    pub database: Option<database::Context>,
    pub ddnet_bans: Option<ddnet_bans::Context>,
}

/// Whether the persistence module is enabled by this configuration.
pub open spec fn database_enabled(c: crate::config::Config) -> bool {
    c.modules matches Some(m) && m.database is Some
}

/// Whether the domain-handler module is enabled by this configuration.
pub open spec fn ddnet_bans_enabled(c: crate::config::Config) -> bool {
    c.modules matches Some(m) && m.ddnet_bans is Some
}

/// The supervised tasks held by a registry; an uninstalled registry holds
/// none.
pub open spec fn registry_tasks(m: Option<Context>) -> Seq<u64> {
    match m {
        Some(r) => r.task_joinset@,
        None => Seq::empty(),
    }
}

/// The persistence module's slot in a registry.
pub open spec fn registry_database(m: Option<Context>) -> Option<database::Context> {
    match m {
        Some(r) => r.database,
        None => None,
    }
}

/// The domain-handler module's slot in a registry.
pub open spec fn registry_bans(m: Option<Context>) -> Option<ddnet_bans::Context> {
    match m {
        Some(r) => r.ddnet_bans,
        None => None,
    }
}

/// The two contexts agree everywhere except possibly in the supervised task
/// collection.
pub open spec fn same_but_tasks(a: BotContext, b: BotContext) -> bool {
    &&& a.state == b.state
    &&& a.config == b.config
    &&& a.c_token == b.c_token
    &&& a.bot_id == b.bot_id
    &&& a.application_id == b.application_id
    &&& registry_database(a.modules) == registry_database(b.modules)
    &&& registry_bans(a.modules) == registry_bans(b.modules)
    &&& (a.modules is Some <==> b.modules is Some)
}

/// The aggregate startup error: exactly the failing module's own error.
#[derive(Clone, Debug, PartialEq, Eq)]
pub enum InitError {
    Database(database::DBError),
    DdnetBans(ddnet_bans::MError),
}

/// Installs the empty registry: all module slots unset, no tasks. This is
/// the first, brief exclusive section of the two-phase startup locking; each
/// module later publishes its own slot under a second brief acquisition.
pub fn install_registry(context: &mut BotContext)
    ensures
        final (context).modules matches Some(m) && m.task_joinset@ == Seq::<u64>::empty()
            && m.database is None && m.ddnet_bans is None,
        final (context).state == old(context).state,
        final (context).config == old(context).config,
        final (context).c_token == old(context).c_token,
        final (context).bot_id == old(context).bot_id,
        final (context).application_id == old(context).application_id,
{
    context.modules = Some(
        Context { task_joinset: Vec::new(), database: None, ddnet_bans: None },
    );
}

/// Initialises the configured modules, in declared order — persistence, then
/// the domain handler — sequentially. The slow outside work of the
/// persistence module arrives as `db_connect`, present exactly when that
/// module is enabled. If a module's `init` fails, the sequence aborts at
/// once with exactly that module's error and modules declared later are
/// never invoked: their slot stays unset.
pub fn init_modules(
    context: &mut BotContext,
    db_connect: Option<Result<database::Context, database::DBError>>,
) -> (r: Result<(), InitError>)
    requires
        database_enabled(old(context).config) <==> db_connect is Some,
    ensures
        final (context).state == old(context).state,
        final (context).config == old(context).config,
        final (context).c_token == old(context).c_token,
        final (context).bot_id == old(context).bot_id,
        final (context).application_id == old(context).application_id,
        final (context).modules is Some,
        registry_tasks(final (context).modules) == Seq::<u64>::empty(),
        match db_connect {
            Some(Err(e)) => {
                &&& r == Err::<(), InitError>(InitError::Database(e))
                &&& registry_database(final (context).modules) is None
                &&& registry_bans(final (context).modules) is None
            },
            Some(Ok(dbc)) => {
                &&& r == Ok::<(), InitError>(())
                &&& registry_database(final (context).modules) == Some(dbc)
                &&& registry_bans(final (context).modules) == (if ddnet_bans_enabled(
                    old(context).config,
                ) {
                    Some(ddnet_bans::Context {  })
                } else {
                    None::<ddnet_bans::Context>
                })
            },
            None => {
                &&& r == Ok::<(), InitError>(())
                &&& registry_database(final (context).modules) is None
                &&& registry_bans(final (context).modules) == (if ddnet_bans_enabled(
                    old(context).config,
                ) {
                    Some(ddnet_bans::Context {  })
                } else {
                    None::<ddnet_bans::Context>
                })
            },
        },
{
    install_registry(context);

    match db_connect {
        Some(outcome) => {
            match database::init(context, outcome) {
                Err(e) => {
                    return Err(InitError::Database(e));
                },
                Ok(_) => {},
            }
        },
        None => {},
    }

    let bans_enabled = match &context.config.modules {
        Some(m) => m.ddnet_bans.is_some(),
        None => false,
    };
    if bans_enabled {
        match ddnet_bans::init(context) {
            Err(e) => {
                return Err(InitError::DdnetBans(e));
            },
            Ok(_) => {},
        }
    }

    Ok(())
}

/// Runs command registration across all present modules; the application's
/// identity must already be known (the first ready event supplied it).
pub fn register_commands(context: &BotContext)
    requires
        context.application_id is Some,
{
    ddnet_bans::register_commands(context);
}

/// Routes one interaction to every present module.
pub fn handle_interaction(context: &BotContext, interaction: Interaction) {
    ddnet_bans::handle_interaction(context, &interaction);
}

/// The state relation of one task-collection detachment.
pub open spec fn detach_post(pre: BotContext, post: BotContext, r: Seq<u64>) -> bool {
    &&& same_but_tasks(pre, post)
    &&& pre.modules is Some
    &&& post.modules is Some
    &&& r == registry_tasks(pre.modules)
    &&& registry_tasks(post.modules) == Seq::<u64>::empty()
}

/// Atomically swaps the live task collection out for an empty one and
/// returns the detached collection, so the caller can await all of it
/// without holding the registry. Detachment is exhaustive and one-shot.
pub fn get_task_joinset(context: &mut BotContext) -> (r: Vec<u64>)
    requires
        old(context).modules is Some,
    ensures
        detach_post(*old(context), *final (context), r@),
{
    let taken = context.modules.take();
    match taken {
        None => {
            proof {
                assert(false);
            }
            Vec::new()
        },
        Some(m) => {
            context.modules = Some(
                Context { task_joinset: Vec::new(), database: m.database, ddnet_bans: m.ddnet_bans },
            );
            m.task_joinset
        },
    }
}

/// Detachment is exhaustive: whatever the first detachment returned, a
/// second one in a row returns the empty collection.
pub proof fn lemma_detach_twice(
    c1: BotContext,
    c2: BotContext,
    c3: BotContext,
    r1: Seq<u64>,
    r2: Seq<u64>,
)
    requires
        detach_post(c1, c2, r1),
        detach_post(c2, c3, r2),
    ensures
        r2 == Seq::<u64>::empty(),
{
}

/// Enqueues a background task under the supervisor — but only while the
/// runtime state is `Running`. Once it is not, the call is rejected,
/// deterministically and whatever the registry holds, so no new background
/// work can start during drain; the rejection is a distinct, expected
/// outcome, not a fault.
pub fn create_task(context: &mut BotContext, task: u64) -> (r: Result<(), ()>)
    requires
        old(context).state == BotState::Running ==> old(context).modules is Some,
    ensures
        old(context).state != BotState::Running ==> r == Err::<(), ()>(()) && *final (context)
            == *old(context),
        old(context).state == BotState::Running ==> {
            &&& r == Ok::<(), ()>(())
            &&& same_but_tasks(*old(context), *final (context))
            &&& final (context).modules is Some
            &&& registry_tasks(final (context).modules) == registry_tasks(
                old(context).modules,
            ).push(task)
        },
{
    let running = match context.state {
        BotState::Running => true,
        BotState::Terminating { .. } => false,
    };
    if !running {
        return Err(());
    }

    let taken = context.modules.take();
    match taken {
        None => {
            proof {
                assert(false);
            }
            Err(())
        },
        Some(mut m) => {
            m.task_joinset.push(task);
            context.modules = Some(m);
            Ok(())
        },
    }
}

} // verus!
