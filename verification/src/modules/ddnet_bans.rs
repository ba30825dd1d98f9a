//! The domain-handler module: watches game-server ban lists and answers
//! interactions about them. Its business logic is out of scope for the
//! orchestration core; lifecycle and routing entry points live here.

use vstd::prelude::*;
use crate::runtime::Context as BotContext;
use crate::runtime::{Interaction, Message};

verus! {

/// The module's configuration section; its absence disables the module.
pub struct Config {
    pub channel_id: String,
    pub endpoint: String,
    pub token: String,
}

/// The module's published context.
pub struct Context {}

/// The module's startup errors. No operation produces one yet; the variant
/// exists so the interface can report failures once the module grows them.
#[derive(Clone, Debug, PartialEq, Eq)]
pub enum MError {
    Failed { reason: String },
}

/// The module's startup: publishes its context into its slot. Its periodic
/// expiry sweep is background work the shell spawns alongside this call.
pub fn init(context: &mut BotContext) -> (r: Result<(), MError>)
    requires
        old(context).modules is Some,
    ensures
        r == Ok::<(), MError>(()),
        final (context).modules matches Some(m) && old(context).modules matches Some(om) && m == (
        crate::modules::Context { ddnet_bans: Some(Context {  }), ..om }),
        final (context).state == old(context).state,
        final (context).config == old(context).config,
        final (context).c_token == old(context).c_token,
        final (context).bot_id == old(context).bot_id,
        final (context).application_id == old(context).application_id,
{
    let taken = context.modules.take();
    match taken {
        None => {
            proof {
                assert(false);
            }
            Ok(())
        },
        Some(m) => {
            context.modules = Some(
                crate::modules::Context {
                    task_joinset: m.task_joinset,
                    database: m.database,
                    ddnet_bans: Some(Context {  }),
                },
            );
            Ok(())
        },
    }
}

/// Registers the module's commands with the event source.
pub fn register_commands(context: &BotContext) {
}

/// Routes one interaction to the module.
pub fn handle_interaction(context: &BotContext, interaction: &Interaction) {
}

/// Routes one message to the module.
pub fn handle_message(context: &BotContext, message: &Message) {
}

} // verus!
