use wiremock_tui::app::{App, ErrorPolicy};
use wiremock_tui::contract::{ApplicationCommands, Command, CommandTrigger, CommandTriggerPayload,
    DispatchError, Event, Module, ProcessingResultPayload, Task};
use wiremock_tui::server::server_module::{LoadServerTask, ServerCommands, ServerEvents,
    ServerModule};

fn show_server_selection() -> Command {
    Command::ServerModule(ServerCommands::ShowServerSelection)
}

#[test]
fn merge_preserves_order_and_completeness() {
    let first = ProcessingResultPayload::new()
        .with_event(Event::ServerModule(ServerEvents::ServerSelected {
            server: "alpha".to_string(),
        }))
        .with_command(Command::Application(ApplicationCommands::Tick))
        .with_tasks(Task::LoadServer(LoadServerTask::new()));
    let second = ProcessingResultPayload::new()
        .with_event(Event::ServerModule(ServerEvents::ServerSelected {
            server: "beta".to_string(),
        }))
        .with_command(Command::StubModule)
        .with_tasks(Task::LoadServer(LoadServerTask::new()));

    let mut merged = first;
    merged.add_result(second);

    let events = merged.get_events();
    assert_eq!(events.len(), 2);
    match &events[0] {
        Event::ServerModule(ServerEvents::ServerSelected { server }) => assert_eq!(server, "alpha"),
        _ => panic!("first event lost or reordered"),
    }
    match &events[1] {
        Event::ServerModule(ServerEvents::ServerSelected { server }) => assert_eq!(server, "beta"),
        _ => panic!("second event lost or reordered"),
    }

    let commands = merged.get_commands();
    assert_eq!(commands.len(), 2);
    assert!(matches!(commands[0], Command::Application(ApplicationCommands::Tick)));
    assert!(matches!(commands[1], Command::StubModule));

    let tasks = merged.get_tasks();
    assert_eq!(tasks.len(), 2);
}

#[test]
fn server_module_claims_only_its_commands() {
    let module = Module::Server(ServerModule::new());
    assert!(module.can_process_command(&show_server_selection()));
    assert!(module.can_process_command(&Command::ServerModule(
        ServerCommands::ImportLoadedServerList { server_list: vec!["x".to_string()] },
    )));
    assert!(!module.can_process_command(&Command::ServerModule(ServerCommands::SelectServer)));
    assert!(!module.can_process_command(&Command::StubModule));
    assert!(!module.can_process_command(&Command::Application(ApplicationCommands::Tick)));
    assert_eq!(module.name(), "server");
}

#[test]
fn show_server_selection_defers_loading_to_a_task() {
    let mut app = App::new();
    let outcome = app.process_command(show_server_selection()).unwrap();
    assert_eq!(outcome.tasks.len(), 1);
    assert_eq!(outcome.trigger_registrations.len(), 0);

    // Completing the task loads the default server list; feeding the
    // resulting command back imports it into the server module.
    let command = outcome.tasks[0].execute().unwrap();
    match &command {
        Command::ServerModule(ServerCommands::ImportLoadedServerList { server_list }) => {
            assert_eq!(server_list, &vec!["http://localhost:8080".to_string()]);
        }
        _ => panic!("the load-server task must yield an import command"),
    }
    let follow_up = app.process_command(command).unwrap();
    assert_eq!(follow_up.tasks.len(), 0);
    let Module::Server(server_module) = &app.modules[0];
    assert_eq!(server_module.server_list, vec!["http://localhost:8080".to_string()]);
}

#[test]
fn quit_path_stops_the_loop() {
    let mut app = App::new();
    assert!(app.should_keep_running());
    let outcome = app.process_command(Command::Application(ApplicationCommands::Quit)).unwrap();
    assert_eq!(outcome.tasks.len(), 0);
    assert_eq!(outcome.trigger_registrations.len(), 0);
    assert!(!app.should_keep_running());
}

#[test]
fn tick_is_handled_locally_and_changes_nothing() {
    let mut app = App::new();
    let outcome = app.process_command(Command::Application(ApplicationCommands::Tick)).unwrap();
    assert_eq!(outcome.tasks.len(), 0);
    assert_eq!(outcome.trigger_registrations.len(), 0);
    assert!(app.should_keep_running());
}

#[test]
fn unclaimed_command_is_silently_discarded() {
    let mut app = App::new();
    let outcome = app.process_command(Command::StubModule).unwrap();
    assert_eq!(outcome.tasks.len(), 0);
    assert_eq!(outcome.trigger_registrations.len(), 0);
    assert!(app.should_keep_running());
    let Module::Server(server_module) = &app.modules[0];
    assert_eq!(server_module.server_list.len(), 0);
}

#[test]
fn set_command_triggers_is_forwarded_to_the_manager() {
    let mut app = App::new();
    let payload = CommandTriggerPayload::new(
        "server",
        vec![CommandTrigger::new("show", vec!["s".to_string()], show_server_selection())],
    );
    let outcome = app
        .process_command(Command::Application(ApplicationCommands::SetCommandTriggers {
            command_trigger_payload: payload,
        }))
        .unwrap();
    assert_eq!(outcome.tasks.len(), 0);
    assert_eq!(outcome.trigger_registrations.len(), 1);
    assert_eq!(outcome.trigger_registrations[0].get_module_name(), "server");
    let triggers = outcome.trigger_registrations[0].get_command_triggers();
    assert_eq!(triggers.len(), 1);
    assert_eq!(triggers[0].get_command_name(), "show");
}

#[test]
fn resolution_limit_is_enforced() {
    let mut app = App::with_modules(vec![Module::Server(ServerModule::new())], 0,
        ErrorPolicy::FailFast);
    let result = app.process_command(show_server_selection());
    assert!(matches!(result, Err(DispatchError::ResolutionLimitReached)));
}

#[test]
fn error_policy_decides_what_the_loop_does_after_a_failure() {
    let fail_fast = App::with_modules(vec![], 4, ErrorPolicy::FailFast);
    assert!(!fail_fast.keeps_running_after_error());
    let tolerant = App::with_modules(vec![], 4, ErrorPolicy::ContinueRunning);
    assert!(tolerant.keeps_running_after_error());
}
