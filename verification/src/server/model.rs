//! The server model: the list of known servers and which of them is
//! selected. Loading the stored configuration is a side effect the
//! surrounding runtime performs; the model asks for it and takes the loaded
//! configuration back as a message.

use crate::model::{AppError, Command, Effect, ModelTrait};
use vstd::prelude::*;

verus! {

broadcast use vstd::string::group_string_axioms;

/// The stored server configuration.
pub struct ServerConfiguration {
    pub server_list: Vec<String>,
    pub selected_server_index: Option<usize>,
}

/// The address the server configuration falls back to when nothing is stored
/// yet.
pub open spec fn fallback_server_url() -> Seq<char> {
    "http://localhost:8080"@
}

impl Default for ServerConfiguration {
    /// The configuration used when nothing is stored yet: one well-known
    /// local server, selected.
    fn default() -> (r: Self)
        ensures
            r.server_list.deep_view() == seq![fallback_server_url()],
            r.selected_server_index == Some(0usize),
    {
        let mut server_list: Vec<String> = Vec::new();
        server_list.push("http://localhost:8080".to_string());
        proof {
            assert(server_list.deep_view() =~= seq![fallback_server_url()]);
        }
        ServerConfiguration { server_list, selected_server_index: Some(0) }
    }
}

/// Commands owned by the server model.
pub enum ServerCommand {
    LoadConfiguration,
}

/// Messages the server model consumes.
pub enum ServerMsg {
    LoadConfigurationRequested,
    ConfigurationLoaded(ServerConfiguration),
    ChangeSelectionUp,
    ChangeSelectionDown,
    StartNewServerRegistration,
    DeleteSelectedServer,
}

/// The server model's state.
pub struct ServerModel {
    pub server_list: Vec<String>,
    pub current_selected_server_index: Option<usize>,
}

/// The server the model currently has selected: the entry at the selected
/// index, when there is one and it is in range.
pub open spec fn selected_server_of(model: ServerModel) -> Option<String> {
    match model.current_selected_server_index {
        None => None,
        Some(i) => if i < model.server_list@.len() {
            Some(model.server_list@[i as int])
        } else {
            None
        },
    }
}

/// Where moving the selection up lands: one step towards the first entry,
/// stopping there.
pub open spec fn selection_moved_up(index: Option<usize>) -> Option<usize> {
    match index {
        None => None,
        Some(i) => Some(if i == 0 { 0usize } else { (i - 1) as usize }),
    }
}

/// Where moving the selection down lands: one step towards the last entry,
/// stopping at it. An empty list leaves the selection untouched.
pub open spec fn selection_moved_down(model: ServerModel) -> Option<usize> {
    match model.current_selected_server_index {
        None => None,
        Some(i) => if model.server_list@.len() == 0 {
            Some(i)
        } else {
            let last = (model.server_list@.len() - 1) as usize;
            Some(if i >= last { last } else { (i + 1) as usize })
        },
    }
}

impl ServerModel {
    /// A fresh server model: no servers known, nothing selected.
    pub fn new() -> (r: Self)
        ensures
            r.server_list@.len() == 0,
            r.current_selected_server_index is None,
    {
        ServerModel { server_list: Vec::new(), current_selected_server_index: None }
    }

    /// The currently selected server, when the selection points at one.
    pub fn current_selected_server(&self) -> (r: Option<&String>)
        ensures
            match r {
                None => selected_server_of(*self) is None,
                Some(server) => selected_server_of(*self) == Some(*server),
            },
    {
        match self.current_selected_server_index {
            None => None,
            Some(i) => if i < self.server_list.len() {
                Some(&self.server_list[i])
            } else {
                None
            },
        }
    }

    /// Replaces the server list; a non-empty list selects its first entry,
    /// an empty one leaves the selection untouched.
    pub fn update_server_list(&mut self, server_list: Vec<String>)
        ensures
            final(self).server_list == server_list,
            server_list@.len() > 0 ==> final(self).current_selected_server_index == Some(0usize),
            server_list@.len() == 0 ==> final(self).current_selected_server_index == old(
                self,
            ).current_selected_server_index,
    {
        self.server_list = server_list;
        if self.server_list.len() > 0 {
            self.current_selected_server_index = Some(0);
        }
    }

    fn change_server_selection_up(&mut self)
        ensures
            final(self).server_list == old(self).server_list,
            final(self).current_selected_server_index == selection_moved_up(
                old(self).current_selected_server_index,
            ),
    {
        match self.current_selected_server_index {
            None => {},
            Some(i) => {
                let next_index = if i == 0 {
                    0
                } else {
                    i - 1
                };
                self.current_selected_server_index = Some(next_index);
            },
        }
    }

    fn change_server_selection_down(&mut self)
        ensures
            final(self).server_list == old(self).server_list,
            final(self).current_selected_server_index == selection_moved_down(*old(self)),
    {
        match self.current_selected_server_index {
            None => {},
            Some(i) => {
                if self.server_list.len() > 0 {
                    let last = self.server_list.len() - 1;
                    let next_index = if i >= last {
                        last
                    } else {
                        i + 1
                    };
                    self.current_selected_server_index = Some(next_index);
                }
            },
        }
    }
}

impl ModelTrait<ServerMsg, ServerCommand> for ServerModel {
    open spec fn apply_event_req(pre: Self, event: ServerMsg) -> bool {
        true
    }

    open spec fn apply_event_spec(
        pre: Self,
        post: Self,
        event: ServerMsg,
        outcome: Result<Vec<Command>, AppError>,
    ) -> bool {
        match event {
            ServerMsg::LoadConfigurationRequested => (post == pre && (outcome matches Ok(commands)
                && commands@.len() == 1 && commands@[0] matches Command::Server(
                ServerCommand::LoadConfiguration,
            ))),
            ServerMsg::ConfigurationLoaded(configuration) => (post == (ServerModel {
                server_list: configuration.server_list,
                current_selected_server_index: configuration.selected_server_index,
            }) && (outcome matches Ok(commands) && commands@.len() == 0)),
            ServerMsg::ChangeSelectionUp => (post.server_list == pre.server_list
                && post.current_selected_server_index == selection_moved_up(
                pre.current_selected_server_index,
            ) && (outcome matches Ok(commands) && commands@.len() == 0)),
            ServerMsg::ChangeSelectionDown => (post.server_list == pre.server_list
                && post.current_selected_server_index == selection_moved_down(pre) && (outcome
                matches Ok(commands) && commands@.len() == 0)),
            ServerMsg::StartNewServerRegistration => (post == pre && (outcome matches Ok(commands)
                && commands@.len() == 0)),
            ServerMsg::DeleteSelectedServer => (post == pre && (outcome matches Ok(commands)
                && commands@.len() == 0)),
        }
    }

    open spec fn handle_command_req(pre: Self, command: ServerCommand) -> bool {
        true
    }

    open spec fn handle_command_spec(
        pre: Self,
        post: Self,
        command: ServerCommand,
        outcome: Result<Vec<Effect>, AppError>,
    ) -> bool {
        match command {
            ServerCommand::LoadConfiguration => (post == pre && (outcome matches Ok(effects)
                && effects@.len() == 1 && effects@[0] matches Effect::LoadServerConfiguration)),
        }
    }

    /// Applies a server message: selection movement is pure state; a load
    /// request raises the load command; a loaded configuration replaces list
    /// and selection. Registering and deleting servers is not performed yet,
    /// so those messages leave the model untouched.
    fn apply_event(&mut self, event: ServerMsg) -> (outcome: Result<Vec<Command>, AppError>) {
        match event {
            ServerMsg::LoadConfigurationRequested => {
                let mut commands: Vec<Command> = Vec::new();
                commands.push(Command::Server(ServerCommand::LoadConfiguration));
                Ok(commands)
            },
            ServerMsg::ConfigurationLoaded(configuration) => {
                self.server_list = configuration.server_list;
                self.current_selected_server_index = configuration.selected_server_index;
                Ok(Vec::new())
            },
            ServerMsg::ChangeSelectionUp => {
                self.change_server_selection_up();
                Ok(Vec::new())
            },
            ServerMsg::ChangeSelectionDown => {
                self.change_server_selection_down();
                Ok(Vec::new())
            },
            ServerMsg::StartNewServerRegistration => Ok(Vec::new()),
            ServerMsg::DeleteSelectedServer => Ok(Vec::new()),
        }
    }

    /// Handles a server command: loading the configuration is delegated to
    /// the runtime as an effect.
    fn handle_command(&mut self, command: ServerCommand) -> (outcome: Result<Vec<Effect>, AppError>) {
        match command {
            ServerCommand::LoadConfiguration => {
                let mut effects: Vec<Effect> = Vec::new();
                effects.push(Effect::LoadServerConfiguration);
                Ok(effects)
            },
        }
    }
}

} // verus!
