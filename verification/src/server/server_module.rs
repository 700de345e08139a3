//! The server module: the unit of domain logic that owns the server-list
//! commands. It claims the commands that concern server discovery and
//! selection bootstrap, and answers them with events, follow-up commands and
//! deferred tasks.

use crate::contract::{Command, CommandView, DispatchError, ProcessingResult,
    ProcessingResultPayload, ProcessingResultPayloadView, ProcessingResultView, Task, TaskView,
    empty_payload_view};
use vstd::prelude::*;

verus! {

broadcast use vstd::string::group_string_axioms;

/// Events the server module can raise after processing a command.
pub enum ServerEvents {
    ServerSelected { server: String },
}

/// Commands owned by the server module.
pub enum ServerCommands {
    ShowServerSelection,
    ImportLoadedServerList { server_list: Vec<String> },
    ServerSelectionUp,
    ServerSelectionDown,
    SelectServer,
}

/// Mathematical abstraction of a [`ServerEvents`] value.
pub enum ServerEventsView {
    ServerSelected { server: Seq<char> },
}

/// Mathematical abstraction of a [`ServerCommands`] value.
pub enum ServerCommandsView {
    ShowServerSelection,
    ImportLoadedServerList { server_list: Seq<Seq<char>> },
    ServerSelectionUp,
    ServerSelectionDown,
    SelectServer,
}

impl View for ServerEvents {
    type V = ServerEventsView;

    open spec fn view(&self) -> ServerEventsView {
        match self {
            ServerEvents::ServerSelected { server } => ServerEventsView::ServerSelected {
                server: server@,
            },
        }
    }
}

impl DeepView for ServerEvents {
    type V = ServerEventsView;

    open spec fn deep_view(&self) -> ServerEventsView {
        self.view()
    }
}

impl View for ServerCommands {
    type V = ServerCommandsView;

    open spec fn view(&self) -> ServerCommandsView {
        match self {
            ServerCommands::ShowServerSelection => ServerCommandsView::ShowServerSelection,
            ServerCommands::ImportLoadedServerList { server_list } => (
                ServerCommandsView::ImportLoadedServerList { server_list: server_list.deep_view() }
            ),
            ServerCommands::ServerSelectionUp => ServerCommandsView::ServerSelectionUp,
            ServerCommands::ServerSelectionDown => ServerCommandsView::ServerSelectionDown,
            ServerCommands::SelectServer => ServerCommandsView::SelectServer,
        }
    }
}

impl DeepView for ServerCommands {
    type V = ServerCommandsView;

    open spec fn deep_view(&self) -> ServerCommandsView {
        self.view()
    }
}

impl Clone for ServerEvents {
    fn clone(&self) -> (r: Self)
        ensures
            r@ == self@,
    {
        match self {
            ServerEvents::ServerSelected { server } => ServerEvents::ServerSelected {
                server: server.clone(),
            },
        }
    }
}

impl Clone for ServerCommands {
    fn clone(&self) -> (r: Self)
        ensures
            r@ == self@,
    {
        match self {
            ServerCommands::ShowServerSelection => ServerCommands::ShowServerSelection,
            ServerCommands::ImportLoadedServerList { server_list } => {
                let copied = clone_string_vec(server_list);
                ServerCommands::ImportLoadedServerList { server_list: copied }
            },
            ServerCommands::ServerSelectionUp => ServerCommands::ServerSelectionUp,
            ServerCommands::ServerSelectionDown => ServerCommands::ServerSelectionDown,
            ServerCommands::SelectServer => ServerCommands::SelectServer,
        }
    }
}

/// The server module's state: the list of servers it has imported so far.
pub struct ServerModule {
    pub server_list: Vec<String>,
}

/// Mathematical abstraction of a [`ServerModule`] value.
pub struct ServerModuleView {
    pub server_list: Seq<Seq<char>>,
}

impl View for ServerModule {
    type V = ServerModuleView;

    open spec fn view(&self) -> ServerModuleView {
        ServerModuleView { server_list: self.server_list.deep_view() }
    }
}

impl DeepView for ServerModule {
    type V = ServerModuleView;

    open spec fn deep_view(&self) -> ServerModuleView {
        self.view()
    }
}

/// Whether the server module claims ownership of the command. It owns exactly
/// the server-scoped commands it answers: showing the server selection and
/// importing a loaded server list. The remaining server-scoped commands are
/// left unclaimed, as is every command scoped to another component.
pub open spec fn server_module_claims(command: CommandView) -> bool {
    match command {
        CommandView::ServerModule(server_command) => match server_command {
            ServerCommandsView::ShowServerSelection => true,
            ServerCommandsView::ImportLoadedServerList { .. } => true,
            _ => false,
        },
        _ => false,
    }
}

/// How the server module answers a command it claims: `ShowServerSelection`
/// defers the loading of the server list to a task; `ImportLoadedServerList`
/// appends the loaded servers to the module's list.
pub open spec fn server_module_apply(module: ServerModuleView, command: CommandView) -> (
    ServerModuleView,
    ProcessingResultPayloadView,
) {
    match command {
        CommandView::ServerModule(server_command) => match server_command {
            ServerCommandsView::ShowServerSelection => (
                (
                    module,
                    ProcessingResultPayloadView {
                        tasks: seq![TaskView::LoadServer],
                        ..empty_payload_view()
                    },
                )
            ),
            ServerCommandsView::ImportLoadedServerList { server_list } => (
                (
                    ServerModuleView { server_list: module.server_list + server_list },
                    empty_payload_view(),
                )
            ),
            _ => (module, empty_payload_view()),
        },
        _ => (module, empty_payload_view()),
    }
}

impl ServerModule {
    /// A fresh server module with no servers imported yet.
    pub fn new() -> (r: Self)
        ensures
            r@.server_list == Seq::<Seq<char>>::empty(),
    {
        let r = ServerModule { server_list: Vec::new() };
        proof {
            assert(r@.server_list =~= Seq::<Seq<char>>::empty());
        }
        r
    }

    /// The ownership predicate for the server module.
    pub fn can_process_command(&self, command: &Command) -> (r: bool)
        ensures
            r == server_module_claims(command@),
    {
        match command {
            Command::ServerModule(server_command) => match server_command {
                ServerCommands::ShowServerSelection => true,
                ServerCommands::ImportLoadedServerList { .. } => true,
                _ => false,
            },
            _ => false,
        }
    }

    /// Offers a command to the server module; see [`server_module_apply`] for
    /// what a claimed command does.
    pub fn process_command(&mut self, command: Command) -> (r: Result<
        ProcessingResult,
        DispatchError,
    >)
        ensures
            !server_module_claims(command@) ==> (r matches Ok(pr)
                && pr@ == ProcessingResultView::NothingDone && final(self)@ == old(self)@),
            server_module_claims(command@) ==> (r matches Ok(pr) && pr@
                == ProcessingResultView::Processed(
                server_module_apply(old(self)@, command@).1,
            ) && final(self)@ == server_module_apply(old(self)@, command@).0),
    {
        let ghost pre = self@;
        let ghost command_view = command@;
        match command {
            Command::ServerModule(server_command) => match server_command {
                ServerCommands::ShowServerSelection => {
                    let task = Task::LoadServer(LoadServerTask::new());
                    let payload = ProcessingResultPayload::new().with_tasks(task);
                    proof {
                        assert(payload@.tasks =~= server_module_apply(pre, command_view).1.tasks);
                    }
                    Ok(ProcessingResult::Processed(payload))
                },
                ServerCommands::ImportLoadedServerList { server_list } => {
                    let mut server_list = server_list;
                    self.server_list.append(&mut server_list);
                    proof {
                        assert(self@.server_list =~= server_module_apply(
                            pre,
                            command_view,
                        ).0.server_list);
                    }
                    Ok(ProcessingResult::Processed(ProcessingResultPayload::new()))
                },
                _ => Ok(ProcessingResult::NothingDone),
            },
            _ => Ok(ProcessingResult::NothingDone),
        }
    }
}

/// The deferred work that loads the list of known servers. The current list
/// is a single well-known local server.
pub struct LoadServerTask {}

/// The command a successful run of [`LoadServerTask`] yields: an import of
/// the one default server address.
pub open spec fn load_server_task_result() -> CommandView {
    CommandView::ServerModule(
        ServerCommandsView::ImportLoadedServerList { server_list: seq![default_server_url()] },
    )
}

/// The address of the default local server.
pub open spec fn default_server_url() -> Seq<char> {
    "http://localhost:8080"@
}

impl LoadServerTask {
    /// A fresh load-server task.
    pub fn new() -> (r: Self)
    {
        LoadServerTask {}
    }

    /// Produces the loaded server list as an import command.
    pub fn execute(&self) -> (r: Result<Command, DispatchError>)
        ensures
            r is Ok,
            r matches Ok(command) ==> command@ == load_server_task_result(),
    {
        let mut server_list: Vec<String> = Vec::new();
        server_list.push("http://localhost:8080".to_string());
        let command = Command::ServerModule(
            ServerCommands::ImportLoadedServerList { server_list },
        );
        proof {
            assert(command@ matches CommandView::ServerModule(
                ServerCommandsView::ImportLoadedServerList { server_list: sl },
            ) ==> sl =~= seq![default_server_url()]);
            assert(command@ == load_server_task_result());
        }
        Ok(command)
    }
}

/// Copies a list of strings, preserving its abstract value.
pub fn clone_string_vec(strings: &Vec<String>) -> (r: Vec<String>)
    ensures
        r.deep_view() == strings.deep_view(),
{
    let mut copied: Vec<String> = Vec::new();
    let mut i: usize = 0;
    while i < strings.len()
        invariant
            i <= strings.len(),
            copied.len() == i,
            forall|j: int| 0 <= j < i ==> copied@[j]@ == strings@[j]@,
        decreases strings.len() - i,
    {
        copied.push(strings[i].clone());
        i = i + 1;
    }
    proof {
        assert(copied.deep_view() =~= strings.deep_view());
    }
    copied
}

} // verus!
