use botcore::config::Config;
use botcore::modules;
use botcore::modules::database::{self, DBError};
use botcore::modules::ddnet_bans;
use botcore::modules::InitError;
use botcore::runtime::{
    dispatch_step, handle_discord_event, should_exit, terminate, BotState, Context, DispatchAction,
    Event, Interaction, LoopEvent, LoopOutcome, Message, ReceiveError,
};
use botcore::shutdown::{drain_step, DrainDecision, DrainEvent, EscalationAction, ShutdownCoordinator};
use botcore::signal::CancellationSignal;

fn full_config() -> Config {
    Config {
        token: "SECRET-REDACTED".to_string(),
        db_url: "sqlite::memory:".to_string(),
        home_guild: 42,
        modules: Some(modules::Config {
            database: Some(database::Config { database_url: "sqlite::memory:".to_string() }),
            ddnet_bans: Some(ddnet_bans::Config {
                channel_id: "123".to_string(),
                endpoint: "https://example.invalid".to_string(),
                token: "SECRET-REDACTED".to_string(),
            }),
        }),
    }
}

fn running_context(config: Config) -> Context {
    Context {
        state: BotState::Running,
        config,
        c_token: CancellationSignal::new(),
        bot_id: None,
        application_id: None,
        modules: None,
    }
}

fn initialised_context() -> Context {
    let mut ctx = running_context(full_config());
    let r = modules::init_modules(&mut ctx, Some(Ok(database::Context { pool: 7 })));
    assert!(r.is_ok());
    ctx
}

#[test]
fn signal_is_idempotent() {
    let mut s = CancellationSignal::new();
    assert!(!s.is_fired());
    s.fire();
    assert!(s.is_fired());
    s.fire();
    s.fire();
    assert!(s.is_fired());
}

#[test]
fn state_never_reverts() {
    let mut ctx = running_context(full_config());
    let mut observed = vec![ctx.state];
    terminate(&mut ctx, true);
    observed.push(ctx.state);
    terminate(&mut ctx, false);
    observed.push(ctx.state);
    assert_eq!(
        observed,
        vec![
            BotState::Running,
            BotState::Terminating { soft: true },
            BotState::Terminating { soft: false },
        ]
    );
}

#[test]
fn create_task_rejected_once_terminating() {
    // Rejection is deterministic and independent of registry contents:
    // with no registry installed...
    let mut ctx = running_context(full_config());
    ctx.state = BotState::Terminating { soft: true };
    assert_eq!(modules::create_task(&mut ctx, 1), Err(()));

    // ...with an installed, populated registry...
    let mut ctx = initialised_context();
    assert_eq!(modules::create_task(&mut ctx, 1), Ok(()));
    terminate(&mut ctx, true);
    assert_eq!(modules::create_task(&mut ctx, 2), Err(()));

    // ...and under forced termination too.
    terminate(&mut ctx, false);
    assert_eq!(modules::create_task(&mut ctx, 3), Err(()));

    // Only the accepted task is supervised.
    assert_eq!(modules::get_task_joinset(&mut ctx), vec![1]);
}

#[test]
fn detach_twice_yields_empty() {
    let mut ctx = initialised_context();
    assert_eq!(modules::create_task(&mut ctx, 10), Ok(()));
    assert_eq!(modules::create_task(&mut ctx, 11), Ok(()));
    let first = modules::get_task_joinset(&mut ctx);
    assert_eq!(first, vec![10, 11]);
    let second = modules::get_task_joinset(&mut ctx);
    assert_eq!(second, Vec::<u64>::new());
}

#[test]
fn init_failure_aborts_later_modules() {
    // Configuration declares both modules; the persistence module's init
    // fails with a connectivity error.
    let mut ctx = running_context(full_config());
    let err = DBError::Sqlx { source: "connection refused".to_string() };
    let r = modules::init_modules(&mut ctx, Some(Err(err.clone())));
    // The aggregate startup error is exactly the persistence module's error...
    assert_eq!(r, Err(InitError::Database(err)));
    // ...and the module declared later was never invoked: its slot is unset.
    let registry = ctx.modules.as_ref().unwrap();
    assert!(registry.database.is_none());
    assert!(registry.ddnet_bans.is_none());
    assert!(registry.task_joinset.is_empty());
}

#[test]
fn init_success_publishes_in_order() {
    let ctx = initialised_context();
    let registry = ctx.modules.as_ref().unwrap();
    assert_eq!(registry.database.as_ref().unwrap().pool, 7);
    assert!(registry.ddnet_bans.is_some());
    assert!(registry.task_joinset.is_empty());
}

#[test]
fn init_with_modules_disabled() {
    let mut config = full_config();
    config.modules = None;
    let mut ctx = running_context(config);
    let r = modules::init_modules(&mut ctx, None);
    assert!(r.is_ok());
    let registry = ctx.modules.as_ref().unwrap();
    assert!(registry.database.is_none());
    assert!(registry.ddnet_bans.is_none());
}

#[test]
fn database_init_before_registry_install() {
    let mut ctx = running_context(full_config());
    // No registry installed: publication must fail distinctly.
    let r = database::init(&mut ctx, Ok(database::Context { pool: 1 }));
    assert_eq!(r, Err(DBError::InitializationError));
}

#[test]
fn escalation_ladder_is_deterministic() {
    let mut coord = ShutdownCoordinator::new();
    assert_eq!(coord.on_interrupt(), EscalationAction::Notice);
    assert_eq!(coord.on_interrupt(), EscalationAction::FinalWarning);
    assert_eq!(coord.on_interrupt(), EscalationAction::Force);
    assert_eq!(coord.offset, 3);
}

#[test]
fn third_interrupt_forces_termination() {
    let mut ctx = initialised_context();
    terminate(&mut ctx, true);
    // Leave spawned work unfinished: the supervisor still holds a task.
    ctx.modules.as_mut().unwrap().task_joinset.push(99);

    let mut coord = ShutdownCoordinator::new();
    let (d1, a1) = drain_step(&mut ctx, &mut coord, DrainEvent::Interrupt);
    assert_eq!((d1, a1), (DrainDecision::Continue, Some(EscalationAction::Notice)));
    assert_eq!(ctx.state, BotState::Terminating { soft: true });

    let (d2, a2) = drain_step(&mut ctx, &mut coord, DrainEvent::Interrupt);
    assert_eq!((d2, a2), (DrainDecision::Continue, Some(EscalationAction::FinalWarning)));
    assert_eq!(ctx.state, BotState::Terminating { soft: true });

    // The third notification forces soft = false and unblocks the drain
    // loop even though a task is still outstanding.
    let (d3, a3) = drain_step(&mut ctx, &mut coord, DrainEvent::Interrupt);
    assert_eq!((d3, a3), (DrainDecision::Exit, Some(EscalationAction::Force)));
    assert_eq!(ctx.state, BotState::Terminating { soft: false });
    assert!(ctx.c_token.is_fired());
    assert!(!ctx.modules.as_ref().unwrap().task_joinset.is_empty());
}

#[test]
fn drain_exits_when_tasks_finish() {
    let mut ctx = initialised_context();
    terminate(&mut ctx, true);
    let mut coord = ShutdownCoordinator::new();
    let (d, a) = drain_step(&mut ctx, &mut coord, DrainEvent::TasksFinished);
    assert_eq!((d, a), (DrainDecision::Exit, None));
    assert_eq!(coord.offset, 0);
}

#[test]
fn single_interrupt_exits_dispatch_loop() {
    let mut ctx = initialised_context();
    assert!(!should_exit(&ctx));
    let outcome = dispatch_step(&mut ctx, LoopEvent::Interrupt);
    assert_eq!(outcome, LoopOutcome::Interrupted);
    assert_eq!(ctx.state, BotState::Terminating { soft: true });
    assert!(ctx.c_token.is_fired());
    // The loop observes the state at the top of its next iteration and exits:
    // no further event is consumed.
    assert!(should_exit(&ctx));
}

#[test]
fn recoverable_error_and_message_spawn_nothing() {
    let mut ctx = initialised_context();
    let before = ctx.modules.as_ref().unwrap().task_joinset.clone();

    // One shard delivers a recoverable receive error: logged, loop continues.
    let outcome = dispatch_step(&mut ctx, LoopEvent::Shard(Err(ReceiveError { fatal: false })));
    assert_eq!(outcome, LoopOutcome::Recoverable);
    assert_eq!(ctx.state, BotState::Running);
    assert!(!should_exit(&ctx));

    // The other shard delivers a normal message: handled inline, log only.
    let message = Message { author: "someone".to_string(), content: "hi".to_string() };
    let outcome = dispatch_step(&mut ctx, LoopEvent::Shard(Ok(Event::MessageCreate(message))));
    assert_eq!(outcome, LoopOutcome::Handled(DispatchAction::LogMessage));
    assert_eq!(ctx.state, BotState::Running);

    // No task was spawned for either.
    assert_eq!(ctx.modules.as_ref().unwrap().task_joinset, before);
}

#[test]
fn fatal_error_terminates_like_an_interrupt() {
    let mut ctx = initialised_context();
    let outcome = dispatch_step(&mut ctx, LoopEvent::Shard(Err(ReceiveError { fatal: true })));
    assert_eq!(outcome, LoopOutcome::FatalError);
    assert_eq!(ctx.state, BotState::Terminating { soft: true });
    assert!(ctx.c_token.is_fired());
    assert!(should_exit(&ctx));
}

#[test]
fn ready_event_stores_identities() {
    let mut ctx = initialised_context();
    let event = Event::Ready { bot_id: 5, application_id: 6, guild_ids: vec![41, 42] };
    let action = handle_discord_event(&mut ctx, &event);
    assert_eq!(action, DispatchAction::SpawnRegisterCommands { home_guild_missing: false });
    assert_eq!(ctx.bot_id, Some(5));
    assert_eq!(ctx.application_id, Some(6));
    // With the application's identity known, command registration may run.
    modules::register_commands(&ctx);

    // A ready event whose guilds miss the home guild asks for a warning.
    let event = Event::Ready { bot_id: 5, application_id: 6, guild_ids: vec![41, 43] };
    let action = handle_discord_event(&mut ctx, &event);
    assert_eq!(action, DispatchAction::SpawnRegisterCommands { home_guild_missing: true });
}

#[test]
fn interaction_event_spawns_routing() {
    let mut ctx = initialised_context();
    let event = Event::InteractionCreate(Interaction { id: 77 });
    let outcome = dispatch_step(&mut ctx, LoopEvent::Shard(Ok(event)));
    assert_eq!(outcome, LoopOutcome::Handled(DispatchAction::SpawnInteraction));
    // Routing itself accepts the interaction once spawned.
    modules::handle_interaction(&ctx, Interaction { id: 77 });
}

#[test]
fn unhandled_event_is_only_logged() {
    let mut ctx = initialised_context();
    let outcome = dispatch_step(&mut ctx, LoopEvent::Shard(Ok(Event::Other)));
    assert_eq!(outcome, LoopOutcome::Handled(DispatchAction::LogUnhandled));
    assert_eq!(ctx.state, BotState::Running);
}
