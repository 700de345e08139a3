use wiremock_tui::contract::{ApplicationCommands, Command, CommandTrigger, CommandTriggerPayload,
    DispatchError, Task};
use wiremock_tui::event_manager::{CommandManagerTask, DriverAction, DriverInput, SendStatus,
    absorb_send_status, completed_task_command};
use wiremock_tui::server::server_module::{LoadServerTask, ServerCommands};

fn trigger(name: &'static str) -> CommandTrigger {
    CommandTrigger::new(name, vec![name.to_string()], Command::Application(
        ApplicationCommands::Tick,
    ))
}

#[test]
fn bootstrap_command_is_delivered_before_any_input() {
    let driver = CommandManagerTask::new();
    assert_eq!(driver.command_triggers.len(), 0);
    let bootstrap = driver.startup_command();
    assert!(matches!(bootstrap, Command::ServerModule(ServerCommands::ShowServerSelection)));
}

#[test]
fn trigger_registration_is_additive() {
    let mut driver = CommandManagerTask::new();
    let first = CommandTriggerPayload::new("server", vec![trigger("a")]);
    let second = CommandTriggerPayload::new("stub", vec![trigger("b")]);

    let action = driver.step(DriverInput::TriggerRegistration(first));
    assert!(matches!(action, DriverAction::Continue));
    let action = driver.step(DriverInput::TriggerRegistration(second));
    assert!(matches!(action, DriverAction::Continue));

    assert_eq!(driver.command_triggers.len(), 2);
    assert_eq!(driver.command_triggers[0].get_command_name(), "a");
    assert_eq!(driver.command_triggers[1].get_command_name(), "b");
    assert_eq!(driver.command_triggers[0].triggers, vec!["a".to_string()]);
    assert!(matches!(
        *driver.command_triggers[0].command,
        Command::Application(ApplicationCommands::Tick)
    ));
}

#[test]
fn task_failure_is_non_fatal_to_the_driver() {
    let mut driver = CommandManagerTask::new();

    let action = driver.step(DriverInput::TaskSubmission(Task::LoadServer(LoadServerTask::new())));
    assert!(matches!(action, DriverAction::RunTask(_)));

    // The execution failed: no command is fed back, and nothing else.
    let fed_back = completed_task_command(Err(DispatchError::TaskFailed));
    assert!(fed_back.is_none());

    // The driver keeps running and later commands keep flowing.
    let action = driver.step(DriverInput::TickElapsed);
    match action {
        DriverAction::Emit(command) => {
            assert!(matches!(command, Command::Application(ApplicationCommands::Tick)));
        }
        _ => panic!("the tick must still be emitted after a task failure"),
    }
}

#[test]
fn successful_task_completion_feeds_its_command_back() {
    let task = Task::LoadServer(LoadServerTask::new());
    let command = completed_task_command(task.execute());
    match command {
        Some(Command::ServerModule(ServerCommands::ImportLoadedServerList { server_list })) => {
            assert_eq!(server_list, vec!["http://localhost:8080".to_string()]);
        }
        _ => panic!("a successful task must feed its command back"),
    }
}

#[test]
fn closed_command_channel_stops_the_driver() {
    let mut driver = CommandManagerTask::new();
    let action = driver.step(DriverInput::CommandChannelClosed);
    assert!(matches!(action, DriverAction::Stop));
}

#[test]
fn send_failures_during_shutdown_are_swallowed() {
    assert!(matches!(absorb_send_status(SendStatus::Delivered), DriverAction::Continue));
    assert!(matches!(absorb_send_status(SendStatus::ChannelClosed), DriverAction::Continue));
}
