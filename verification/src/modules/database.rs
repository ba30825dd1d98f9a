//! The persistence module: owns the process's connection to its persistent
//! store. Opening the store is slow outside work done by the shell while no
//! lock is held; the decision and publication parts live here.

use vstd::prelude::*;
use crate::runtime::Context as BotContext;

verus! {

/// The module's configuration section; its absence disables the module.
pub struct Config {
    pub database_url: String,
}

/// The module's published context: the identifier under which the shell
/// holds the live connection pool it opened.
pub struct Context {
    pub pool: u64,
}

/// The persistence module's startup errors: a failure from the store itself
/// (carried as its rendered description), or `init` running before the
/// registry was installed.
#[derive(Clone, Debug, PartialEq, Eq)]
pub enum DBError {
    Sqlx { source: String },
    InitializationError,
}

/// The decision-and-publication part of the persistence module's startup.
/// The slow work — opening the store and running migrations — happens in the
/// shell with no lock held; its outcome arrives as `connected`. On success
/// the constructed context is published into the module's slot; an unset
/// registry means `init` ran before the registry was installed.
pub fn init(context: &mut BotContext, connected: Result<Context, DBError>) -> (r: Result<
    (),
    DBError,
>)
    ensures
        match connected {
            Err(e) => r == Err::<(), DBError>(e) && *final (context) == *old(context),
            Ok(dbc) => {
                if old(context).modules is Some {
                    &&& r == Ok::<(), DBError>(())
                    &&& final (context).modules matches Some(m) && old(context).modules matches Some(
                        om,
                    ) && m == (crate::modules::Context { database: Some(dbc), ..om })
                    &&& final (context).state == old(context).state
                    &&& final (context).config == old(context).config
                    &&& final (context).c_token == old(context).c_token
                    &&& final (context).bot_id == old(context).bot_id
                    &&& final (context).application_id == old(context).application_id
                } else {
                    r == Err::<(), DBError>(DBError::InitializationError) && *final (context)
                        == *old(context)
                }
            },
        },
{
    match connected {
        Err(e) => Err(e),
        Ok(dbc) => {
            let taken = context.modules.take();
            match taken {
                None => Err(DBError::InitializationError),
                Some(m) => {
                    context.modules = Some(
                        crate::modules::Context {
                            task_joinset: m.task_joinset,
                            database: Some(dbc),
                            ddnet_bans: m.ddnet_bans,
                        },
                    );
                    Ok(())
                },
            }
        },
    }
}

} // verus!
