//! The application's functional models and their shared vocabulary: the
//! messages and commands the models exchange, the side effects they ask the
//! surrounding runtime to perform, and the model interface itself. The
//! runtime owns the channels, the terminal and the store; the models own the
//! state and the rules.

use crate::server::model::{ServerCommand, ServerModel, ServerMsg, selected_server_of};
use crate::stub::model::{StubError, StubModel};
use crate::stub::model::{StubCommand, StubMsg};
use vstd::prelude::*;

verus! {

/// A command: a request for one of the models to do something.
pub enum Command {
    Server(ServerCommand),
    Stub(StubCommand),
    Global(GlobalCommand),
}

/// A message: a notification that something happened, routed to the model it
/// concerns.
pub enum Message {
    QuitRequested,
    Global(GlobalMsg),
    Server(ServerMsg),
    Stub(StubMsg),
}

/// Application-wide notifications: switching between screens.
pub enum GlobalMsg {
    SwitchToStubScreen,
    SwitchToServerSelectionScreen,
    SwitchToConnectionEditScreen,
}

/// Application-wide commands. There are none; the single placeholder variant
/// only keeps the type inhabited, since Verus refuses a datatype without
/// variants. No code constructs it.
pub enum GlobalCommand {
    Reserved,
}

/// Application-wide errors.
#[derive(Debug)]
pub enum GlobalError {
    UserRequestedExit,
}

/// The application's error type.
#[derive(Debug)]
pub enum AppError {
    Global(GlobalError),
    Stub(StubError),
}

impl From<GlobalError> for AppError {
    fn from(v: GlobalError) -> (r: AppError) {
        AppError::Global(v)
    }
}

impl vstd::std_specs::convert::FromSpecImpl<GlobalError> for AppError {
    open spec fn obeys_from_spec() -> bool {
        true
    }

    open spec fn from_spec(v: GlobalError) -> AppError {
        AppError::Global(v)
    }
}

impl From<StubError> for AppError {
    fn from(v: StubError) -> (r: AppError) {
        AppError::Stub(v)
    }
}

impl vstd::std_specs::convert::FromSpecImpl<StubError> for AppError {
    open spec fn obeys_from_spec() -> bool {
        true
    }

    open spec fn from_spec(v: StubError) -> AppError {
        AppError::Stub(v)
    }
}

/// A side effect a model asks the surrounding runtime to perform. The models
/// never read the configuration store or talk to the remote server
/// themselves; they hand out these values and take the results back as
/// messages or imports.
pub enum Effect {
    /// Load the stored server configuration and feed it back as
    /// [`ServerMsg::ConfigurationLoaded`].
    LoadServerConfiguration,
    /// Fetch all stub mappings from the server at `base_url` and feed them
    /// back through [`StubModel::import_stubs`].
    FetchStubs { base_url: String },
    /// Delete the stub `stub_id` on the server at `base_url`; on success,
    /// confirm through [`StubModel::confirm_selected_stub_deleted`].
    DeleteStub { base_url: String, stub_id: String },
}

/// The interface of a functional model: it consumes events (producing
/// commands to route) and commands (producing side effects for the runtime to
/// perform). Each implementation states what it demands and guarantees
/// through the spec functions, which the method contracts below are stated
/// over.
pub trait ModelTrait<E, C>: Sized {
    /// What `apply_event` demands of its caller.
    spec fn apply_event_req(pre: Self, event: E) -> bool;

    /// How the state after `apply_event` and its outcome relate to the state
    /// before.
    spec fn apply_event_spec(
        pre: Self,
        post: Self,
        event: E,
        outcome: Result<Vec<Command>, AppError>,
    ) -> bool;

    /// What `handle_command` demands of its caller.
    spec fn handle_command_req(pre: Self, command: C) -> bool;

    /// How the state after `handle_command` and its outcome relate to the
    /// state before.
    spec fn handle_command_spec(
        pre: Self,
        post: Self,
        command: C,
        outcome: Result<Vec<Effect>, AppError>,
    ) -> bool;

    /// Applies an event to the model and returns the commands to route.
    fn apply_event(&mut self, event: E) -> (outcome: Result<Vec<Command>, AppError>)
        requires
            Self::apply_event_req(*old(self), event),
        ensures
            Self::apply_event_spec(*old(self), *final(self), event, outcome),
    ;

    /// Handles a command and returns the side effects to perform.
    fn handle_command(&mut self, command: C) -> (outcome: Result<Vec<Effect>, AppError>)
        requires
            Self::handle_command_req(*old(self), command),
        ensures
            Self::handle_command_spec(*old(self), *final(self), command, outcome),
    ;
}

/// Which screen is on the terminal.
pub enum ActiveScreen {
    ServerSelection,
    ServerEdit,
    Stub,
}

/// The application model: the active screen and the functional models the
/// screens render.
pub struct ApplicationModel {
    pub screen: Option<ActiveScreen>,
    pub server_model: ServerModel,
    pub stub_model: StubModel,
}

impl ApplicationModel {
    /// A fresh application model: no screen yet, empty server and stub
    /// models.
    pub fn new() -> (r: Result<Self, AppError>)
        ensures
            r matches Ok(model) && model.screen is None && model.server_model.server_list@.len()
                == 0 && model.server_model.current_selected_server_index is None
                && model.stub_model.selected_server_url is None && model.stub_model.stubs@.len()
                == 0 && model.stub_model.selected_stub_index == 0 && model.stub_model.scroll_offset
                == 0 && model.stub_model.auto_refresh == false,
    {
        Ok(
            ApplicationModel {
                screen: None,
                server_model: ServerModel::new(),
                stub_model: StubModel::new(),
            },
        )
    }

    fn switch_to_main_screen(&mut self)
        ensures
            *final(self) == (ApplicationModel { screen: Some(ActiveScreen::Stub), ..*old(self) }),
    {
        self.screen = Some(ActiveScreen::Stub);
    }

    fn switch_to_server_selection_screen(&mut self)
        ensures
            *final(self) == (ApplicationModel {
                screen: Some(ActiveScreen::ServerSelection),
                ..*old(self)
            }),
    {
        self.screen = Some(ActiveScreen::ServerSelection);
    }

    fn switch_to_server_edit_screen(&mut self)
        ensures
            *final(self) == (ApplicationModel {
                screen: Some(ActiveScreen::ServerEdit),
                ..*old(self)
            }),
    {
        self.screen = Some(ActiveScreen::ServerEdit);
    }
}

impl ModelTrait<GlobalMsg, GlobalCommand> for ApplicationModel {
    open spec fn apply_event_req(pre: Self, event: GlobalMsg) -> bool {
        true
    }

    open spec fn apply_event_spec(
        pre: Self,
        post: Self,
        event: GlobalMsg,
        outcome: Result<Vec<Command>, AppError>,
    ) -> bool {
        &&& match event {
            GlobalMsg::SwitchToStubScreen => post == (ApplicationModel {
                screen: Some(ActiveScreen::Stub),
                stub_model: crate::stub::model::StubModel {
                    selected_server_url: selected_server_of(pre.server_model),
                    ..pre.stub_model
                },
                ..pre
            }),
            GlobalMsg::SwitchToServerSelectionScreen => post == (ApplicationModel {
                screen: Some(ActiveScreen::ServerSelection),
                ..pre
            }),
            GlobalMsg::SwitchToConnectionEditScreen => post == (ApplicationModel {
                screen: Some(ActiveScreen::ServerEdit),
                ..pre
            }),
        }
        &&& outcome matches Ok(commands) && commands@.len() == 0
    }

    open spec fn handle_command_req(pre: Self, command: GlobalCommand) -> bool {
        true
    }

    open spec fn handle_command_spec(
        pre: Self,
        post: Self,
        command: GlobalCommand,
        outcome: Result<Vec<Effect>, AppError>,
    ) -> bool {
        post == pre && (outcome matches Ok(effects) && effects@.len() == 0)
    }

    /// Switches the screen the event asks for; entering the stub screen hands
    /// the currently selected server over to the stub model.
    fn apply_event(&mut self, event: GlobalMsg) -> (outcome: Result<Vec<Command>, AppError>) {
        match event {
            GlobalMsg::SwitchToStubScreen => {
                let selected_server = match self.server_model.current_selected_server() {
                    Some(server) => Some(server.clone()),
                    None => None,
                };
                self.stub_model.selected_server_url = selected_server;
                self.switch_to_main_screen();
            },
            GlobalMsg::SwitchToServerSelectionScreen => {
                self.switch_to_server_selection_screen();
            },
            GlobalMsg::SwitchToConnectionEditScreen => {
                self.switch_to_server_edit_screen();
            },
        }
        Ok(Vec::new())
    }

    /// There are no global commands to handle.
    fn handle_command(&mut self, command: GlobalCommand) -> (outcome: Result<
        Vec<Effect>,
        AppError,
    >) {
        Ok(Vec::new())
    }
}

} // verus!
