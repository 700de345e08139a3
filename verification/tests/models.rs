use wiremock_tui::configuration::model::{ConfigurationCommand, ConfigurationEffect,
    ConfigurationEvent, ConfigurationModel, RootConfiguration};
use wiremock_tui::connection_edit_screen::ConnectionEditScreen;
use wiremock_tui::connection_screen::ConnectionScreen;
use wiremock_tui::main_screen::MainScreen;
use wiremock_tui::model::{ActiveScreen, AppError, ApplicationModel, Command, Effect, GlobalMsg,
    ModelTrait};
use wiremock_tui::server::model::{ServerCommand, ServerConfiguration, ServerModel, ServerMsg};
use wiremock_tui::stub::model::{StubCommand, StubError, StubModel, StubMsg};
use wiremock_tui::wire_mock::{RequestPattern, ResponseDefinition, StubMapping};

fn stub(id: &str) -> StubMapping {
    StubMapping {
        id: id.to_string(),
        request: RequestPattern {
            method: "GET".to_string(),
            url: Some(format!("/{}", id)),
            url_pattern: None,
            url_path: None,
            url_path_pattern: None,
        },
        response: ResponseDefinition { status: 200, body: None, headers: None },
        priority: None,
        scenario_name: None,
    }
}

fn loaded_server_model(servers: Vec<&str>, selected: Option<usize>) -> ServerModel {
    let mut model = ServerModel::new();
    let outcome = model.apply_event(ServerMsg::ConfigurationLoaded(ServerConfiguration {
        server_list: servers.into_iter().map(|s| s.to_string()).collect(),
        selected_server_index: selected,
    }));
    assert!(outcome.is_ok());
    model
}

#[test]
fn server_configuration_default_selects_the_local_server() {
    let config = ServerConfiguration::default();
    assert_eq!(config.server_list, vec!["http://localhost:8080".to_string()]);
    assert_eq!(config.selected_server_index, Some(0));
}

#[test]
fn root_configuration_default_selects_the_local_server() {
    let config = RootConfiguration::default();
    assert_eq!(config.server_list, vec!["http://localhost:9393".to_string()]);
    assert_eq!(config.selected_server_index, Some(0));
}

#[test]
fn server_selection_moves_and_clamps() {
    let mut model = loaded_server_model(vec!["a", "b"], Some(0));

    assert!(model.apply_event(ServerMsg::ChangeSelectionDown).is_ok());
    assert_eq!(model.current_selected_server_index, Some(1));
    assert!(model.apply_event(ServerMsg::ChangeSelectionDown).is_ok());
    assert_eq!(model.current_selected_server_index, Some(1));

    assert!(model.apply_event(ServerMsg::ChangeSelectionUp).is_ok());
    assert_eq!(model.current_selected_server_index, Some(0));
    assert!(model.apply_event(ServerMsg::ChangeSelectionUp).is_ok());
    assert_eq!(model.current_selected_server_index, Some(0));
}

#[test]
fn selection_does_not_move_without_a_selection() {
    let mut model = ServerModel::new();
    assert!(model.apply_event(ServerMsg::ChangeSelectionDown).is_ok());
    assert_eq!(model.current_selected_server_index, None);
    assert!(model.apply_event(ServerMsg::ChangeSelectionUp).is_ok());
    assert_eq!(model.current_selected_server_index, None);
}

#[test]
fn current_selected_server_guards_the_index() {
    let model = loaded_server_model(vec!["a", "b"], Some(1));
    assert_eq!(model.current_selected_server(), Some(&"b".to_string()));

    let out_of_range = loaded_server_model(vec!["a"], Some(5));
    assert_eq!(out_of_range.current_selected_server(), None);

    let unselected = loaded_server_model(vec!["a"], None);
    assert_eq!(unselected.current_selected_server(), None);
}

#[test]
fn load_configuration_request_raises_the_load_command() {
    let mut model = ServerModel::new();
    let commands = model.apply_event(ServerMsg::LoadConfigurationRequested).unwrap();
    assert_eq!(commands.len(), 1);
    assert!(matches!(commands[0], Command::Server(ServerCommand::LoadConfiguration)));

    let effects = model.handle_command(ServerCommand::LoadConfiguration).unwrap();
    assert_eq!(effects.len(), 1);
    assert!(matches!(effects[0], Effect::LoadServerConfiguration));
}

#[test]
fn configuration_model_roundtrip() {
    let mut model = ConfigurationModel::new();

    let effects = model.apply_event(ConfigurationEvent::LoadConfigurationRequested).unwrap();
    assert_eq!(effects.len(), 1);
    assert!(matches!(
        effects[0],
        ConfigurationEffect::RaiseCommand(ConfigurationCommand::LoadConfiguration)
    ));

    let effects = model.handle_command(ConfigurationCommand::LoadConfiguration).unwrap();
    assert_eq!(effects.len(), 1);
    assert!(matches!(effects[0], ConfigurationEffect::LoadFromStore));

    let loaded = RootConfiguration {
        server_list: vec!["http://one".to_string(), "http://two".to_string()],
        selected_server_index: Some(1),
    };
    let effects = model.apply_event(ConfigurationEvent::ConfigurationLoaded(loaded)).unwrap();
    assert_eq!(effects.len(), 1);
    match &effects[0] {
        ConfigurationEffect::PublishServerList(servers) => {
            assert_eq!(servers, &vec!["http://one".to_string(), "http://two".to_string()]);
        }
        _ => panic!("the loaded server list must be published"),
    }
    assert!(model.app_config.is_some());

    let effects = model.handle_command(ConfigurationCommand::SaveConfiguration).unwrap();
    assert_eq!(effects.len(), 0);
}

#[test]
fn stub_selection_moves_and_resets_scrolling() {
    let mut model = StubModel::new();
    model.import_stubs(vec![stub("one"), stub("two")]);

    assert!(model.apply_event(StubMsg::ScrollDetailsDown).is_ok());
    assert_eq!(model.scroll_offset, 1);

    assert!(model.apply_event(StubMsg::SelectNext).is_ok());
    assert_eq!(model.selected_stub_index, 1);
    assert_eq!(model.scroll_offset, 0);
    assert!(model.apply_event(StubMsg::SelectNext).is_ok());
    assert_eq!(model.selected_stub_index, 1);

    assert!(model.apply_event(StubMsg::SelectPrevious).is_ok());
    assert_eq!(model.selected_stub_index, 0);
    assert!(model.apply_event(StubMsg::SelectPrevious).is_ok());
    assert_eq!(model.selected_stub_index, 0);

    assert!(model.apply_event(StubMsg::ScrollDetailsDown).is_ok());
    assert!(model.apply_event(StubMsg::ScrollDetailsUp).is_ok());
    assert_eq!(model.scroll_offset, 0);
    assert!(model.apply_event(StubMsg::ScrollDetailsUp).is_ok());
    assert_eq!(model.scroll_offset, 0);
}

#[test]
fn selecting_next_in_an_empty_list_does_nothing() {
    let mut model = StubModel::new();
    assert!(model.apply_event(StubMsg::SelectNext).is_ok());
    assert_eq!(model.selected_stub_index, 0);
}

#[test]
fn reading_stubs_needs_a_selected_server() {
    let mut model = StubModel::new();
    let outcome = model.handle_command(StubCommand::ReadAllStubs);
    assert!(matches!(outcome, Err(AppError::Stub(StubError::NoServerSelected))));

    model.selected_server_url = Some("http://localhost:8080".to_string());
    let effects = model.handle_command(StubCommand::ReadAllStubs).unwrap();
    assert_eq!(effects.len(), 1);
    match &effects[0] {
        Effect::FetchStubs { base_url } => assert_eq!(base_url, "http://localhost:8080"),
        _ => panic!("reading stubs must ask for a fetch"),
    }
}

#[test]
fn stub_requests_raise_their_commands() {
    let mut model = StubModel::new();
    let commands = model.apply_event(StubMsg::ReadAllStubsRequested).unwrap();
    assert_eq!(commands.len(), 1);
    assert!(matches!(commands[0], Command::Stub(StubCommand::ReadAllStubs)));

    let commands = model.apply_event(StubMsg::DeleteSelectedRequested).unwrap();
    assert_eq!(commands.len(), 1);
    assert!(matches!(commands[0], Command::Stub(StubCommand::DeleteSelectedStub)));
}

#[test]
fn deleting_names_the_selected_stub() {
    let mut model = StubModel::new();
    model.selected_server_url = Some("http://s".to_string());
    model.import_stubs(vec![stub("one"), stub("two"), stub("three")]);
    model.selected_stub_index = 1;

    let effects = model.handle_command(StubCommand::DeleteSelectedStub).unwrap();
    assert_eq!(effects.len(), 1);
    match &effects[0] {
        Effect::DeleteStub { base_url, stub_id } => {
            assert_eq!(base_url, "http://s");
            assert_eq!(stub_id, "two");
        }
        _ => panic!("deleting must ask for a server-side delete"),
    }

    // A selection past the end targets the last stub.
    model.selected_stub_index = 9;
    let effects = model.handle_command(StubCommand::DeleteSelectedStub).unwrap();
    match &effects[0] {
        Effect::DeleteStub { stub_id, .. } => assert_eq!(stub_id, "three"),
        _ => panic!("deleting must ask for a server-side delete"),
    }
}

#[test]
fn deleting_without_stubs_or_server_is_a_no_op() {
    let mut model = StubModel::new();
    let effects = model.handle_command(StubCommand::DeleteSelectedStub).unwrap();
    assert_eq!(effects.len(), 0);

    model.import_stubs(vec![stub("one")]);
    let effects = model.handle_command(StubCommand::DeleteSelectedStub).unwrap();
    assert_eq!(effects.len(), 0);
}

#[test]
fn confirming_a_delete_removes_and_adjusts() {
    let mut model = StubModel::new();
    model.selected_server_url = Some("http://s".to_string());
    model.import_stubs(vec![stub("one"), stub("two"), stub("three")]);

    // Deleting a middle entry keeps the selection where it was.
    model.selected_stub_index = 1;
    model.confirm_selected_stub_deleted();
    assert_eq!(model.stubs.len(), 2);
    assert_eq!(model.stubs[0].id, "one");
    assert_eq!(model.stubs[1].id, "three");
    assert_eq!(model.selected_stub_index, 1);
    assert_eq!(model.scroll_offset, 0);

    // Deleting the last entry clamps the selection to the new last one.
    model.confirm_selected_stub_deleted();
    assert_eq!(model.stubs.len(), 1);
    assert_eq!(model.stubs[0].id, "one");
    assert_eq!(model.selected_stub_index, 0);

    // Deleting the only entry clears the selection.
    model.confirm_selected_stub_deleted();
    assert_eq!(model.stubs.len(), 0);
    assert_eq!(model.selected_stub_index, 0);

    // Nothing left: confirming is a no-op.
    model.confirm_selected_stub_deleted();
    assert_eq!(model.stubs.len(), 0);
}

#[test]
fn toggling_auto_refresh_twice_returns_to_off() {
    let mut model = StubModel::new();
    assert!(model.apply_event(StubMsg::ToggleAutoRefreshStubsRequested).is_ok());
    assert!(model.auto_refresh);
    assert!(model.apply_event(StubMsg::ToggleAutoRefreshStubsRequested).is_ok());
    assert!(!model.auto_refresh);
}

#[test]
fn switching_screens_routes_the_selected_server() {
    let mut model = ApplicationModel::new().unwrap();
    assert!(model.screen.is_none());
    model.server_model = loaded_server_model(vec!["http://a", "http://b"], Some(1));

    assert!(model.apply_event(GlobalMsg::SwitchToStubScreen).is_ok());
    assert!(matches!(model.screen, Some(ActiveScreen::Stub)));
    assert_eq!(model.stub_model.selected_server_url, Some("http://b".to_string()));

    assert!(model.apply_event(GlobalMsg::SwitchToConnectionEditScreen).is_ok());
    assert!(matches!(model.screen, Some(ActiveScreen::ServerEdit)));

    assert!(model.apply_event(GlobalMsg::SwitchToServerSelectionScreen).is_ok());
    assert!(matches!(model.screen, Some(ActiveScreen::ServerSelection)));
}

#[test]
fn switching_to_stubs_without_a_selection_clears_the_url() {
    let mut model = ApplicationModel::new().unwrap();
    model.stub_model.selected_server_url = Some("http://stale".to_string());
    assert!(model.apply_event(GlobalMsg::SwitchToStubScreen).is_ok());
    assert_eq!(model.stub_model.selected_server_url, None);
}

#[test]
fn screens_start_unscrolled() {
    let main_screen = MainScreen::new();
    assert_eq!(main_screen.selected_stub_index, 0);
    assert_eq!(main_screen.scroll_offset, 0);
    let _connection = ConnectionScreen::new();
    let _edit = ConnectionEditScreen::new();
}
