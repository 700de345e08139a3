//! Shared vocabulary of the dispatch engine: commands, events, command
//! triggers, tasks and processing results. These are pure value types; the
//! behaviour that consumes them lives in the dispatcher and in the command
//! manager.

use crate::server::server_module::{LoadServerTask, ServerCommands, ServerCommandsView,
    ServerEvents, ServerEventsView, ServerModule, ServerModuleView};
use vstd::prelude::*;

verus! {

/// Errors raised inside the dispatch core.
#[derive(Clone, Copy, Debug, PartialEq, Eq, Structural)]
pub enum DispatchError {
    /// Recursive command resolution did not settle within the dispatcher's
    /// iteration cap; a runaway command/event feedback loop is reported
    /// instead of being allowed to recurse without bound.
    ResolutionLimitReached,
    /// A task's deferred work failed; the task yields no follow-up command.
    TaskFailed,
}

/// A request for something to happen, owned by exactly one handler.
pub enum Command {
    Application(ApplicationCommands),
    ServerModule(ServerCommands),
    StubModule,
}

/// Commands owned by the application dispatcher itself.
pub enum ApplicationCommands {
    Tick,
    Quit,
    SetCommandTriggers { command_trigger_payload: CommandTriggerPayload },
}

/// A batch of command triggers registered by one module.
pub struct CommandTriggerPayload {
    pub module_name: &'static str,
    pub command_triggers: Vec<CommandTrigger>,
}

/// A named binding associating textual trigger conditions with a command to
/// raise when matched.
pub struct CommandTrigger {
    pub command_name: &'static str,
    pub triggers: Vec<String>,
    pub command: Box<Command>,
}

/// A notification that something happened, consumed only for deriving further
/// commands.
pub enum Event {
    Application(ApplicationEvents),
    ServerModule(ServerEvents),
    StubModule,
}

/// Events owned by the application dispatcher itself. The dispatcher raises
/// no events of its own; the single placeholder variant only keeps the type
/// inhabited, since Verus refuses a datatype without variants. No code
/// constructs it, and event translation derives no commands from it.
pub enum ApplicationEvents {
    Reserved,
}

/// Mathematical abstraction of a [`Command`] value.
pub enum CommandView {
    Application(ApplicationCommandsView),
    ServerModule(ServerCommandsView),
    StubModule,
}

/// Mathematical abstraction of an [`ApplicationCommands`] value.
pub enum ApplicationCommandsView {
    Tick,
    Quit,
    SetCommandTriggers { command_trigger_payload: CommandTriggerPayloadView },
}

/// Mathematical abstraction of a [`CommandTriggerPayload`] value.
pub struct CommandTriggerPayloadView {
    pub module_name: Seq<char>,
    pub command_triggers: Seq<CommandTriggerView>,
}

/// Mathematical abstraction of a [`CommandTrigger`] value.
pub struct CommandTriggerView {
    pub command_name: Seq<char>,
    pub triggers: Seq<Seq<char>>,
    pub command: CommandView,
}

/// Mathematical abstraction of an [`Event`] value. Application events are
/// uninhabited, so their abstraction carries no payload.
pub enum EventView {
    Application,
    ServerModule(ServerEventsView),
    StubModule,
}

/// Mathematical abstraction of a [`Command`] value. The command, trigger and
/// payload abstractions are mutually recursive (a registered trigger carries
/// the command it raises), so they are written as free functions with an
/// explicit termination measure; the `View` impls below delegate to them.
pub open spec fn command_view(command: Command) -> CommandView
    decreases command,
{
    match command {
        Command::Application(application_commands) => (
            CommandView::Application(application_commands_view(application_commands))
        ),
        Command::ServerModule(server_commands) => CommandView::ServerModule(server_commands@),
        Command::StubModule => CommandView::StubModule,
    }
}

/// Mathematical abstraction of an [`ApplicationCommands`] value.
pub open spec fn application_commands_view(application_commands: ApplicationCommands)
    -> ApplicationCommandsView
    decreases application_commands,
{
    match application_commands {
        ApplicationCommands::Tick => ApplicationCommandsView::Tick,
        ApplicationCommands::Quit => ApplicationCommandsView::Quit,
        ApplicationCommands::SetCommandTriggers { command_trigger_payload } => (
            ApplicationCommandsView::SetCommandTriggers {
                command_trigger_payload: trigger_payload_view(command_trigger_payload),
            }
        ),
    }
}

/// Mathematical abstraction of a [`CommandTriggerPayload`] value.
pub open spec fn trigger_payload_view(payload: CommandTriggerPayload) -> CommandTriggerPayloadView
    decreases payload,
{
    CommandTriggerPayloadView {
        module_name: payload.module_name@,
        command_triggers: trigger_views(payload.command_triggers),
    }
}

/// The abstractions of the triggers held in a vector, in order.
pub open spec fn trigger_views(triggers: Vec<CommandTrigger>) -> Seq<CommandTriggerView>
    decreases triggers,
{
    Seq::new(
        triggers@.len(),
        |i: int|
            if 0 <= i < triggers@.len() {
                trigger_view(triggers@[i])
            } else {
                arbitrary()
            },
    )
}

/// Mathematical abstraction of a [`CommandTrigger`] value.
pub open spec fn trigger_view(trigger: CommandTrigger) -> CommandTriggerView
    decreases trigger,
{
    CommandTriggerView {
        command_name: trigger.command_name@,
        triggers: trigger.triggers.deep_view(),
        command: command_view(*trigger.command),
    }
}

impl View for Command {
    type V = CommandView;

    open spec fn view(&self) -> CommandView {
        command_view(*self)
    }
}

impl DeepView for Command {
    type V = CommandView;

    open spec fn deep_view(&self) -> CommandView {
        self.view()
    }
}

impl View for ApplicationCommands {
    type V = ApplicationCommandsView;

    open spec fn view(&self) -> ApplicationCommandsView {
        application_commands_view(*self)
    }
}

impl DeepView for ApplicationCommands {
    type V = ApplicationCommandsView;

    open spec fn deep_view(&self) -> ApplicationCommandsView {
        self.view()
    }
}

impl View for CommandTriggerPayload {
    type V = CommandTriggerPayloadView;

    open spec fn view(&self) -> CommandTriggerPayloadView {
        trigger_payload_view(*self)
    }
}

impl DeepView for CommandTriggerPayload {
    type V = CommandTriggerPayloadView;

    open spec fn deep_view(&self) -> CommandTriggerPayloadView {
        self.view()
    }
}

impl View for CommandTrigger {
    type V = CommandTriggerView;

    open spec fn view(&self) -> CommandTriggerView {
        trigger_view(*self)
    }
}

impl DeepView for CommandTrigger {
    type V = CommandTriggerView;

    open spec fn deep_view(&self) -> CommandTriggerView {
        self.view()
    }
}

impl View for Event {
    type V = EventView;

    open spec fn view(&self) -> EventView {
        match self {
            Event::Application(_) => EventView::Application,
            Event::ServerModule(server_events) => EventView::ServerModule(server_events@),
            Event::StubModule => EventView::StubModule,
        }
    }
}

impl DeepView for Event {
    type V = EventView;

    open spec fn deep_view(&self) -> EventView {
        self.view()
    }
}

impl CommandTriggerPayload {
    /// Builds a trigger batch for the module with the given name.
    pub fn new(module_name: &'static str, command_triggers: Vec<CommandTrigger>) -> (r: Self)
        ensures
            r@.module_name == module_name@,
            r@.command_triggers == trigger_views(command_triggers),
    {
        CommandTriggerPayload { module_name, command_triggers }
    }

    /// The name of the module that registered this batch.
    pub fn get_module_name(&self) -> (r: &'static str)
        ensures
            r@ == self@.module_name,
    {
        self.module_name
    }

    /// A copy of the triggers in this batch.
    pub fn get_command_triggers(&self) -> (r: Vec<CommandTrigger>)
        ensures
            trigger_views(r) == self@.command_triggers,
    {
        clone_trigger_vec(&self.command_triggers)
    }
}

impl CommandTrigger {
    /// Builds a trigger that raises `command` when one of the textual
    /// `triggers` matches.
    pub fn new(command_name: &'static str, triggers: Vec<String>, command: Command) -> (r: Self)
        ensures
            r@.command_name == command_name@,
            r@.triggers == triggers.deep_view(),
            r@.command == command@,
    {
        CommandTrigger { command_name, triggers, command: Box::new(command) }
    }

    /// The name this trigger was registered under.
    pub fn get_command_name(&self) -> (r: &'static str)
        ensures
            r@ == self@.command_name,
    {
        self.command_name
    }
}

/// Copies a list of command triggers, preserving its abstract value. Part of
/// the mutually recursive clone of the command family, so it carries the
/// termination measure explicitly.
pub fn clone_trigger_vec(triggers: &Vec<CommandTrigger>) -> (r: Vec<CommandTrigger>)
    ensures
        trigger_views(r) == trigger_views(*triggers),
    decreases *triggers,
{
    let mut copied: Vec<CommandTrigger> = Vec::new();
    let mut i: usize = 0;
    while i < triggers.len()
        invariant
            i <= triggers.len(),
            copied.len() == i,
            forall|j: int| 0 <= j < i ==> trigger_view(copied@[j]) == trigger_view(triggers@[j]),
        decreases triggers.len() - i,
    {
        proof {
            assert(decreases_to!(*triggers => triggers@[i as int]));
        }
        copied.push(triggers[i].clone());
        i = i + 1;
    }
    proof {
        assert(trigger_views(copied) =~= trigger_views(*triggers));
    }
    copied
}

impl Clone for Command {
    fn clone(&self) -> (r: Self)
        ensures
            r@ == self@,
        decreases *self,
    {
        match self {
            Command::Application(application_commands) => (
                Command::Application(application_commands.clone())
            ),
            Command::ServerModule(server_commands) => (
                Command::ServerModule(server_commands.clone())
            ),
            Command::StubModule => Command::StubModule,
        }
    }
}

impl Clone for ApplicationCommands {
    fn clone(&self) -> (r: Self)
        ensures
            r@ == self@,
        decreases *self,
    {
        match self {
            ApplicationCommands::Tick => ApplicationCommands::Tick,
            ApplicationCommands::Quit => ApplicationCommands::Quit,
            ApplicationCommands::SetCommandTriggers { command_trigger_payload } => (
                ApplicationCommands::SetCommandTriggers {
                    command_trigger_payload: command_trigger_payload.clone(),
                }
            ),
        }
    }
}

impl Clone for CommandTriggerPayload {
    fn clone(&self) -> (r: Self)
        ensures
            r@ == self@,
        decreases *self,
    {
        CommandTriggerPayload {
            module_name: self.module_name,
            command_triggers: clone_trigger_vec(&self.command_triggers),
        }
    }
}

impl Clone for CommandTrigger {
    fn clone(&self) -> (r: Self)
        ensures
            r@ == self@,
        decreases *self,
    {
        let r = CommandTrigger {
            command_name: self.command_name,
            triggers: crate::server::server_module::clone_string_vec(&self.triggers),
            command: Box::new((*self.command).clone()),
        };
        r
    }
}

impl Clone for Event {
    fn clone(&self) -> (r: Self)
        ensures
            r@ == self@,
    {
        match self {
            Event::Application(_) => Event::Application(ApplicationEvents::Reserved),
            Event::ServerModule(server_events) => Event::ServerModule(server_events.clone()),
            Event::StubModule => Event::StubModule,
        }
    }
}

/// A unit of deferred, possibly blocking work. Executing a task always
/// terminates with either exactly one new command to feed back into the loop,
/// or a propagated failure. Tasks carry only owned data, so they can be moved
/// to a different execution context than the one that created them.
pub enum Task {
    LoadServer(LoadServerTask),
}

/// Mathematical abstraction of a [`Task`] value.
pub enum TaskView {
    LoadServer,
}

impl View for Task {
    type V = TaskView;

    open spec fn view(&self) -> TaskView {
        match self {
            Task::LoadServer(_) => TaskView::LoadServer,
        }
    }
}

impl DeepView for Task {
    type V = TaskView;

    open spec fn deep_view(&self) -> TaskView {
        self.view()
    }
}

/// The command a successful execution of a task yields.
pub open spec fn task_result(task: TaskView) -> CommandView {
    match task {
        TaskView::LoadServer => crate::server::server_module::load_server_task_result(),
    }
}

impl Task {
    /// Runs the deferred work. Every task of the current closed set succeeds
    /// and yields the command its kind dictates.
    pub fn execute(&self) -> (r: Result<Command, DispatchError>)
        ensures
            r is Ok,
            r matches Ok(command) ==> command@ == task_result(self@),
    {
        match self {
            Task::LoadServer(load_server_task) => load_server_task.execute(),
        }
    }
}

/// The outcome of offering a command to a handler: either the command was not
/// claimed, or it was processed into a payload of events, follow-up commands
/// and tasks.
pub enum ProcessingResult {
    NothingDone,
    Processed(ProcessingResultPayload),
}

/// An accumulator with three ordered, insertion-preserving containers for the
/// events, follow-up commands and tasks produced while a command is resolved.
pub struct ProcessingResultPayload {
    pub events: Vec<Event>,
    pub commands: Vec<Command>,
    pub tasks: Vec<Task>,
}

/// Mathematical abstraction of a [`ProcessingResult`] value.
pub enum ProcessingResultView {
    NothingDone,
    Processed(ProcessingResultPayloadView),
}

/// Mathematical abstraction of a [`ProcessingResultPayload`] value.
pub struct ProcessingResultPayloadView {
    pub events: Seq<EventView>,
    pub commands: Seq<CommandView>,
    pub tasks: Seq<TaskView>,
}

/// The payload that carries no events, commands or tasks.
pub open spec fn empty_payload_view() -> ProcessingResultPayloadView {
    ProcessingResultPayloadView {
        events: Seq::<EventView>::empty(),
        commands: Seq::<CommandView>::empty(),
        tasks: Seq::<TaskView>::empty(),
    }
}

impl View for ProcessingResult {
    type V = ProcessingResultView;

    open spec fn view(&self) -> ProcessingResultView {
        match self {
            ProcessingResult::NothingDone => ProcessingResultView::NothingDone,
            ProcessingResult::Processed(payload) => ProcessingResultView::Processed(payload@),
        }
    }
}

impl View for ProcessingResultPayload {
    type V = ProcessingResultPayloadView;

    open spec fn view(&self) -> ProcessingResultPayloadView {
        ProcessingResultPayloadView {
            events: self.events.deep_view(),
            commands: self.commands.deep_view(),
            tasks: self.tasks.deep_view(),
        }
    }
}

impl ProcessingResultPayload {
    /// An empty accumulator.
    pub fn new() -> (r: Self)
        ensures
            r@ == empty_payload_view(),
    {
        let r = ProcessingResultPayload {
            events: Vec::new(),
            commands: Vec::new(),
            tasks: Vec::new(),
        };
        proof {
            assert(r@.events =~= empty_payload_view().events);
            assert(r@.commands =~= empty_payload_view().commands);
            assert(r@.tasks =~= empty_payload_view().tasks);
        }
        r
    }

    /// Appends one event; commands and tasks are untouched.
    pub fn with_event(self, event: Event) -> (r: Self)
        ensures
            r@.events == self@.events.push(event@),
            r@.commands == self@.commands,
            r@.tasks == self@.tasks,
    {
        let ghost pre = self@;
        let ghost event_view = event@;
        let mut r = self;
        r.events.push(event);
        proof {
            assert(r@.events =~= pre.events.push(event_view));
        }
        r
    }

    /// Appends one follow-up command; events and tasks are untouched.
    pub fn with_command(self, command: Command) -> (r: Self)
        ensures
            r@.events == self@.events,
            r@.commands == self@.commands.push(command@),
            r@.tasks == self@.tasks,
    {
        let ghost pre = self@;
        let ghost command_view = command@;
        let mut r = self;
        r.commands.push(command);
        proof {
            assert(r@.commands =~= pre.commands.push(command_view));
        }
        r
    }

    /// Appends one task; events and commands are untouched.
    pub fn with_tasks(self, tasks: Task) -> (r: Self)
        ensures
            r@.events == self@.events,
            r@.commands == self@.commands,
            r@.tasks == self@.tasks.push(tasks@),
    {
        let ghost pre = self@;
        let ghost task_view = tasks@;
        let mut r = self;
        r.tasks.push(tasks);
        proof {
            assert(r@.tasks =~= pre.tasks.push(task_view));
        }
        r
    }

    /// Merges another payload into this one in place. Nothing is dropped and
    /// nothing is reordered: each container of the result is this payload's
    /// container followed by the other payload's container.
    pub fn add_result(&mut self, result: ProcessingResultPayload)
        ensures
            final(self)@.events == old(self)@.events + result@.events,
            final(self)@.commands == old(self)@.commands + result@.commands,
            final(self)@.tasks == old(self)@.tasks + result@.tasks,
    {
        let ghost pre = old(self)@;
        let ghost arg = result@;
        let mut result = result;
        self.events.append(&mut result.events);
        self.commands.append(&mut result.commands);
        self.tasks.append(&mut result.tasks);
        proof {
            assert(self@.events =~= pre.events + arg.events);
            assert(self@.commands =~= pre.commands + arg.commands);
            assert(self@.tasks =~= pre.tasks + arg.tasks);
        }
    }

    /// A copy of the accumulated events.
    pub fn get_events(&self) -> (r: Vec<Event>)
        ensures
            r.deep_view() == self@.events,
    {
        let r = clone_event_vec(&self.events);
        r
    }

    /// A copy of the accumulated follow-up commands.
    pub fn get_commands(&self) -> (r: Vec<Command>)
        ensures
            r.deep_view() == self@.commands,
    {
        let r = clone_command_vec(&self.commands);
        r
    }

    /// The accumulated tasks, handed out by ownership.
    pub fn get_tasks(self) -> (r: Vec<Task>)
        ensures
            r.deep_view() == self@.tasks,
    {
        self.tasks
    }
}

/// Copies a list of events, preserving its abstract value.
fn clone_event_vec(events: &Vec<Event>) -> (r: Vec<Event>)
    ensures
        r.deep_view() == events.deep_view(),
{
    let mut copied: Vec<Event> = Vec::new();
    let mut i: usize = 0;
    while i < events.len()
        invariant
            i <= events.len(),
            copied.len() == i,
            forall|j: int| 0 <= j < i ==> copied@[j]@ == events@[j]@,
        decreases events.len() - i,
    {
        copied.push(events[i].clone());
        i = i + 1;
    }
    proof {
        assert(copied.deep_view() =~= events.deep_view());
    }
    copied
}

/// Copies a list of commands, preserving its abstract value.
fn clone_command_vec(commands: &Vec<Command>) -> (r: Vec<Command>)
    ensures
        r.deep_view() == commands.deep_view(),
{
    let mut copied: Vec<Command> = Vec::new();
    let mut i: usize = 0;
    while i < commands.len()
        invariant
            i <= commands.len(),
            copied.len() == i,
            forall|j: int| 0 <= j < i ==> copied@[j]@ == commands@[j]@,
        decreases commands.len() - i,
    {
        copied.push(commands[i].clone());
        i = i + 1;
    }
    proof {
        assert(copied.deep_view() =~= commands.deep_view());
    }
    copied
}

/// An independently owned unit of domain logic that claims and processes a
/// subset of commands. The closed set of module kinds is fixed at compile
/// time; arbitration among them is first-claimant-wins.
pub enum Module {
    Server(ServerModule),
}

/// Mathematical abstraction of a [`Module`] value.
pub enum ModuleView {
    Server(ServerModuleView),
}

impl View for Module {
    type V = ModuleView;

    open spec fn view(&self) -> ModuleView {
        match self {
            Module::Server(server_module) => ModuleView::Server(server_module@),
        }
    }
}

impl DeepView for Module {
    type V = ModuleView;

    open spec fn deep_view(&self) -> ModuleView {
        self.view()
    }
}

/// Whether the module claims ownership of the command.
pub open spec fn module_claims(module: ModuleView, command: CommandView) -> bool {
    match module {
        ModuleView::Server(_) => crate::server::server_module::server_module_claims(command),
    }
}

/// How the module answers a command it claims: its successor state and the
/// payload of events, follow-up commands and tasks it produces.
pub open spec fn module_apply(module: ModuleView, command: CommandView) -> (
    ModuleView,
    ProcessingResultPayloadView,
) {
    match module {
        ModuleView::Server(server_module) => {
            let (successor, payload) = crate::server::server_module::server_module_apply(
                server_module,
                command,
            );
            (ModuleView::Server(successor), payload)
        },
    }
}

impl Module {
    /// The module's identifier.
    pub fn name(&self) -> (r: &'static str)
        ensures
            r@ == module_name(self@),
    {
        match self {
            Module::Server(_) => "server",
        }
    }

    /// The ownership predicate: whether this module would process the command.
    pub fn can_process_command(&self, command: &Command) -> (r: bool)
        ensures
            r == module_claims(self@, command@),
    {
        match self {
            Module::Server(server_module) => server_module.can_process_command(command),
        }
    }

    /// Offers the command to the module. A command the module does not claim
    /// is answered with `NothingDone` and leaves the module untouched; a
    /// claimed command is processed as the module's transition dictates.
    pub fn process_command(&mut self, command: Command) -> (r: Result<
        ProcessingResult,
        DispatchError,
    >)
        ensures
            !module_claims(old(self)@, command@) ==> (r matches Ok(pr)
                && pr@ == ProcessingResultView::NothingDone && final(self)@ == old(self)@),
            module_claims(old(self)@, command@) ==> (r matches Ok(pr) && pr@
                == ProcessingResultView::Processed(module_apply(old(self)@, command@).1)
                && final(self)@ == module_apply(old(self)@, command@).0),
    {
        match self {
            Module::Server(server_module) => server_module.process_command(command),
        }
    }
}

/// The module's identifier at the abstract level.
pub open spec fn module_name(module: ModuleView) -> Seq<char> {
    match module {
        ModuleView::Server(_) => "server"@,
    }
}

} // verus!
