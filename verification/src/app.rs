//! The application dispatcher: a single-threaded control loop state machine
//! that resolves one command at a time against the application itself or
//! against the registered modules, re-resolves every command the resolution
//! produced, and collects the tasks and trigger registrations encountered
//! across the whole resolution for the caller to hand to the command manager.
//!
//! Recursive resolution is implemented as an explicit work queue with a
//! configurable iteration cap, so a runaway command/event feedback loop is
//! reported as [`DispatchError::ResolutionLimitReached`] instead of
//! overflowing the stack.

use crate::contract::{ApplicationCommands, ApplicationCommandsView, Command, CommandTriggerPayload,
    CommandTriggerPayloadView, CommandView, DispatchError, Event, EventView, Module, ModuleView,
    ProcessingResult, ProcessingResultView, Task, TaskView, module_apply, module_claims};
use crate::server::server_module::ServerModule;
use vstd::prelude::*;

verus! {

/// How the surrounding run loop should treat a failed resolution pass:
/// abort the application, or keep consuming commands. The dispatch core
/// reports every failure either way; this only decides what the loop does
/// next.
#[derive(Clone, Copy, PartialEq, Eq, Structural)]
pub enum ErrorPolicy {
    FailFast,
    ContinueRunning,
}

/// The default cap on how many commands one resolution pass may process.
pub const DEFAULT_RESOLUTION_LIMIT: usize = 64;

/// The application dispatcher's state.
pub struct App {
    pub keep_running: bool,
    pub modules: Vec<Module>,
    pub resolution_limit: usize,
    pub error_policy: ErrorPolicy,
}

/// Mathematical abstraction of an [`App`] value.
pub struct AppView {
    pub keep_running: bool,
    pub modules: Seq<ModuleView>,
    pub resolution_limit: nat,
    pub error_policy: ErrorPolicy,
}

impl View for App {
    type V = AppView;

    open spec fn view(&self) -> AppView {
        AppView {
            keep_running: self.keep_running,
            modules: self.modules.deep_view(),
            resolution_limit: self.resolution_limit as nat,
            error_policy: self.error_policy,
        }
    }
}

/// Whether the application itself claims the command: exactly the
/// application-scoped commands.
pub open spec fn app_claims_command(command: CommandView) -> bool {
    command is Application
}

/// How the application answers a command it claims: its successor state and
/// the trigger registrations to forward to the command manager. `Tick` does
/// nothing, `Quit` clears the running flag, and `SetCommandTriggers` forwards
/// its payload.
pub open spec fn apply_application_command(
    app: AppView,
    application_command: ApplicationCommandsView,
) -> (AppView, Seq<CommandTriggerPayloadView>) {
    match application_command {
        ApplicationCommandsView::Tick => (app, Seq::<CommandTriggerPayloadView>::empty()),
        ApplicationCommandsView::Quit => (
            (
                AppView { keep_running: false, ..app },
                Seq::<CommandTriggerPayloadView>::empty(),
            )
        ),
        ApplicationCommandsView::SetCommandTriggers { command_trigger_payload } => (
            (app, seq![command_trigger_payload])
        ),
    }
}

/// The index of the first module that claims the command, if any.
pub open spec fn first_claimant(modules: Seq<ModuleView>, command: CommandView) -> Option<int>
    decreases modules.len(),
{
    if modules.len() == 0 {
        None
    } else if module_claims(modules[0], command) {
        Some(0int)
    } else {
        match first_claimant(modules.skip(1), command) {
            None => None,
            Some(i) => Some(i + 1),
        }
    }
}

/// The commands derived from one event by the per-component event handler
/// switch. No component currently derives commands from events.
pub open spec fn translate_event(event: EventView) -> Seq<CommandView> {
    Seq::<CommandView>::empty()
}

/// The commands derived from a list of events, in order.
pub open spec fn translate_events(events: Seq<EventView>) -> Seq<CommandView>
    decreases events.len(),
{
    if events.len() == 0 {
        Seq::<CommandView>::empty()
    } else {
        translate_event(events[0]) + translate_events(events.skip(1))
    }
}

/// What one full resolution pass produces: the dispatcher's successor state
/// and the tasks and trigger registrations collected along the way.
pub struct ResolutionView {
    pub state: AppView,
    pub tasks: Seq<TaskView>,
    pub triggers: Seq<CommandTriggerPayloadView>,
}

/// Resolves a queue of pending commands, depth first: the commands produced
/// by a handled command are resolved before the rest of the queue, which
/// mirrors resolving them recursively within the same call stack. Each
/// processed command consumes one unit of fuel; `None` means the queue did
/// not settle within the given fuel.
pub open spec fn resolve_commands(app: AppView, queue: Seq<CommandView>, fuel: nat) -> Option<
    ResolutionView,
>
    decreases fuel,
{
    if queue.len() == 0 {
        Some(
            ResolutionView {
                state: app,
                tasks: Seq::<TaskView>::empty(),
                triggers: Seq::<CommandTriggerPayloadView>::empty(),
            },
        )
    } else if fuel == 0 {
        None
    } else {
        let command = queue[0];
        let rest = queue.skip(1);
        match command {
            CommandView::Application(application_command) => {
                let (state, triggers) = apply_application_command(app, application_command);
                match resolve_commands(state, rest, (fuel - 1) as nat) {
                    None => None,
                    Some(resolution) => Some(
                        ResolutionView {
                            state: resolution.state,
                            tasks: resolution.tasks,
                            triggers: triggers + resolution.triggers,
                        },
                    ),
                }
            },
            _ => {
                match first_claimant(app.modules, command) {
                    None => resolve_commands(app, rest, (fuel - 1) as nat),
                    Some(i) => {
                        let (module_state, payload) = module_apply(app.modules[i], command);
                        let state = AppView { modules: app.modules.update(i, module_state), ..app };
                        let produced = payload.commands + translate_events(payload.events);
                        match resolve_commands(state, produced + rest, (fuel - 1) as nat) {
                            None => None,
                            Some(resolution) => Some(
                                ResolutionView {
                                    state: resolution.state,
                                    tasks: payload.tasks + resolution.tasks,
                                    triggers: resolution.triggers,
                                },
                            ),
                        }
                    },
                }
            },
        }
    }
}

/// Prefixes already-collected tasks and trigger registrations onto the
/// outcome of resolving the remaining queue.
pub open spec fn resolution_prepend(
    tasks: Seq<TaskView>,
    triggers: Seq<CommandTriggerPayloadView>,
    resolution: Option<ResolutionView>,
) -> Option<ResolutionView> {
    match resolution {
        None => None,
        Some(r) => Some(
            ResolutionView {
                state: r.state,
                tasks: tasks + r.tasks,
                triggers: triggers + r.triggers,
            },
        ),
    }
}

/// What one call of [`App::process_command`] hands back to the caller: the
/// tasks to submit for asynchronous execution and the trigger registrations
/// to forward to the command manager.
pub struct ResolutionOutcome {
    pub tasks: Vec<Task>,
    pub trigger_registrations: Vec<CommandTriggerPayload>,
}

impl App {
    /// The dispatcher as the application wires it up: running, with the
    /// server module registered, the default resolution cap, and failures
    /// treated as fatal by the surrounding loop.
    pub fn new() -> (r: Self)
        ensures
            r@.keep_running == true,
            r@.modules.len() == 1,
            r@.modules[0] == module_view_of_fresh_server(),
            r@.resolution_limit == DEFAULT_RESOLUTION_LIMIT as nat,
            r@.error_policy == ErrorPolicy::FailFast,
    {
        let mut modules: Vec<Module> = Vec::new();
        modules.push(Module::Server(ServerModule::new()));
        let r = App {
            keep_running: true,
            modules,
            resolution_limit: DEFAULT_RESOLUTION_LIMIT,
            error_policy: ErrorPolicy::FailFast,
        };
        proof {
            assert(r@.modules =~= seq![module_view_of_fresh_server()]);
        }
        r
    }

    /// A dispatcher over a chosen module list, resolution cap and error
    /// policy.
    pub fn with_modules(
        modules: Vec<Module>,
        resolution_limit: usize,
        error_policy: ErrorPolicy,
    ) -> (r: Self)
        ensures
            r@.keep_running == true,
            r@.modules == modules.deep_view(),
            r@.resolution_limit == resolution_limit as nat,
            r@.error_policy == error_policy,
    {
        App { keep_running: true, modules, resolution_limit, error_policy }
    }

    /// Whether the run loop should draw another command.
    pub fn should_keep_running(&self) -> (r: bool)
        ensures
            r == self@.keep_running,
    {
        self.keep_running
    }

    /// Whether the run loop keeps consuming commands after a resolution pass
    /// failed. This is the deliberate policy choice between aborting the
    /// application and only aborting the failed pass.
    pub fn keeps_running_after_error(&self) -> (r: bool)
        ensures
            r == (self@.error_policy is ContinueRunning),
    {
        match self.error_policy {
            ErrorPolicy::FailFast => false,
            ErrorPolicy::ContinueRunning => true,
        }
    }

    /// Resolves one command drawn from the command manager, together with
    /// everything the resolution produces, and returns the tasks and trigger
    /// registrations collected across the whole pass. A pass that does not
    /// settle within the resolution cap is reported as
    /// [`DispatchError::ResolutionLimitReached`].
    #[verifier::loop_isolation(false)]
    pub fn process_command(&mut self, command: Command) -> (r: Result<
        ResolutionOutcome,
        DispatchError,
    >)
        ensures
            match r {
                Ok(outcome) => resolve_commands(
                    old(self)@,
                    seq![command@],
                    old(self)@.resolution_limit,
                ) == Some(
                    ResolutionView {
                        state: final(self)@,
                        tasks: outcome.tasks.deep_view(),
                        triggers: outcome.trigger_registrations.deep_view(),
                    },
                ),
                Err(e) => e == DispatchError::ResolutionLimitReached && resolve_commands(
                    old(self)@,
                    seq![command@],
                    old(self)@.resolution_limit,
                ) is None,
            },
    {
        let ghost target = resolve_commands(old(self)@, seq![command@], old(self)@.resolution_limit);
        let mut queue: Vec<Command> = Vec::new();
        queue.push(command);
        let mut tasks: Vec<Task> = Vec::new();
        let mut triggers: Vec<CommandTriggerPayload> = Vec::new();
        let mut fuel: usize = self.resolution_limit;
        proof {
            assert(queue.deep_view() =~= seq![command@]);
            assert(tasks.deep_view() =~= Seq::<TaskView>::empty());
            assert(triggers.deep_view() =~= Seq::<CommandTriggerPayloadView>::empty());
            if let Some(r) = target {
                assert(Seq::<TaskView>::empty() + r.tasks =~= r.tasks);
                assert(Seq::<CommandTriggerPayloadView>::empty() + r.triggers =~= r.triggers);
            }
        }
        while queue.len() != 0
            invariant
                resolution_prepend(
                    tasks.deep_view(),
                    triggers.deep_view(),
                    resolve_commands(self@, queue.deep_view(), fuel as nat),
                ) == target,
            decreases fuel,
        {
            if fuel == 0 {
                return Err(DispatchError::ResolutionLimitReached);
            }
            fuel = fuel - 1;
            let ghost pre = self@;
            let ghost pre_queue = queue.deep_view();
            let ghost pre_tasks = tasks.deep_view();
            let ghost pre_triggers = triggers.deep_view();
            let next = queue.remove(0);
            proof {
                assert(queue.deep_view() =~= pre_queue.skip(1));
            }
            let ghost rest = queue.deep_view();
            match next {
                Command::Application(application_command) => {
                    let registration = self.process_application_command(application_command);
                    match registration {
                        Some(payload) => {
                            triggers.push(payload);
                        },
                        None => {},
                    }
                    proof {
                        let (state, produced_triggers) = apply_application_command(
                            pre,
                            pre_queue[0]->Application_0,
                        );
                        assert(self@ == state);
                        assert(triggers.deep_view() =~= pre_triggers + produced_triggers);
                        lemma_prepend_shift_triggers(
                            pre_tasks,
                            pre_triggers,
                            produced_triggers,
                            resolve_commands(state, rest, fuel as nat),
                        );
                    }
                },
                _ => {
                    let ghost claimant = first_claimant(pre.modules, pre_queue[0]);
                    let processing_result = match self.dispatch_to_modules(next) {
                        Ok(processing_result) => processing_result,
                        Err(e) => {
                            return Err(e);
                        },
                    };
                    proof {
                        lemma_at_most_one_handler(pre.modules, pre_queue[0]);
                    }
                    match processing_result {
                        ProcessingResult::Processed(payload) => {
                            let ghost payload_view = payload@;
                            let produced_commands = payload.get_commands();
                            let events = payload.get_events();
                            let mut event_commands = self.process_events(events);
                            let mut payload_tasks = payload.get_tasks();
                            tasks.append(&mut payload_tasks);
                            let mut new_queue = produced_commands;
                            new_queue.append(&mut event_commands);
                            new_queue.append(&mut queue);
                            queue = new_queue;
                            proof {
                                let i = claimant->Some_0;
                                let (module_state, spec_payload) = module_apply(
                                    pre.modules[i],
                                    pre_queue[0],
                                );
                                assert(payload_view == spec_payload);
                                assert(queue.deep_view() =~= (spec_payload.commands
                                    + translate_events(spec_payload.events)) + rest);
                                assert(tasks.deep_view() =~= pre_tasks + spec_payload.tasks);
                                lemma_prepend_shift_tasks(
                                    pre_tasks,
                                    pre_triggers,
                                    spec_payload.tasks,
                                    resolve_commands(self@, queue.deep_view(), fuel as nat),
                                );
                            }
                        },
                        ProcessingResult::NothingDone => {},
                    }
                },
            }
        }
        proof {
            assert(tasks.deep_view() + Seq::<TaskView>::empty() =~= tasks.deep_view());
            assert(triggers.deep_view() + Seq::<CommandTriggerPayloadView>::empty()
                =~= triggers.deep_view());
        }
        Ok(ResolutionOutcome { tasks, trigger_registrations: triggers })
    }

    /// Handles one application-scoped command locally and returns the
    /// trigger registration it forwards, if any.
    fn process_application_command(&mut self, application_command: ApplicationCommands) -> (r:
        Option<CommandTriggerPayload>)
        ensures
            final(self)@ == apply_application_command(old(self)@, application_command@).0,
            match r {
                None => apply_application_command(old(self)@, application_command@).1
                    == Seq::<CommandTriggerPayloadView>::empty(),
                Some(payload) => apply_application_command(old(self)@, application_command@).1
                    == seq![payload@],
            },
    {
        match application_command {
            ApplicationCommands::Tick => None,
            ApplicationCommands::Quit => {
                self.keep_running = false;
                None
            },
            ApplicationCommands::SetCommandTriggers { command_trigger_payload } => {
                Some(command_trigger_payload)
            },
        }
    }

    /// Offers the command to the modules in order; the first module that
    /// claims it processes it, and no later module is consulted.
    #[verifier::loop_isolation(false)]
    fn dispatch_to_modules(&mut self, command: Command) -> (r: Result<
        ProcessingResult,
        DispatchError,
    >)
        ensures
            match first_claimant(old(self)@.modules, command@) {
                None => (r matches Ok(pr) && pr@ == ProcessingResultView::NothingDone
                    && final(self)@ == old(self)@),
                Some(i) => (r matches Ok(pr) && pr@ == ProcessingResultView::Processed(
                    module_apply(old(self)@.modules[i], command@).1,
                ) && final(self)@.modules == old(self)@.modules.update(
                    i,
                    module_apply(old(self)@.modules[i], command@).0,
                ) && final(self)@.keep_running == old(self)@.keep_running
                    && final(self)@.resolution_limit == old(self)@.resolution_limit
                    && final(self)@.error_policy == old(self)@.error_policy),
            },
    {
        let ghost pre = self@;
        let ghost command_view = command@;
        let mut i: usize = 0;
        while i < self.modules.len()
            invariant
                i <= self.modules.len(),
                self@ == pre,
                forall|j: int| 0 <= j < i ==> !module_claims(pre.modules[j], command_view),
            decreases self.modules.len() - i,
        {
            let claims = self.modules[i].can_process_command(&command);
            proof {
                assert(pre.modules[i as int] == self.modules@[i as int]@);
            }
            if claims {
                proof {
                    lemma_first_claimant_found(pre.modules, command_view, i as int);
                }
                let ghost pre_vec = self.modules@;
                let mut module = self.modules.remove(i);
                let result = module.process_command(command);
                let ghost module_snap = module@;
                self.modules.insert(i, module);
                proof {
                    let updated = pre.modules.update(i as int, module_snap);
                    assert(module_snap == module_apply(pre.modules[i as int], command_view).0);
                    assert(self.modules@.len() == pre_vec.len());
                    assert forall|j: int| 0 <= j < self.modules@.len() implies (
                    #[trigger] self@.modules[j]) == updated[j] by {
                        if j < i as int {
                            assert(self.modules@[j] == pre_vec[j]);
                        } else if j == i as int {
                        } else {
                            assert(self.modules@[j] == pre_vec.remove(i as int)[j - 1]);
                            assert(pre_vec.remove(i as int)[j - 1] == pre_vec[j]);
                        }
                    }
                    assert(self@.modules =~= updated);
                }
                return result;
            }
            i = i + 1;
        }
        proof {
            lemma_first_claimant_none(pre.modules, command_view);
        }
        Ok(ProcessingResult::NothingDone)
    }

    /// Translates a batch of events into the commands they derive, in order.
    /// The dispatcher's state is not touched during event translation.
    #[verifier::loop_isolation(false)]
    fn process_events(&mut self, events: Vec<Event>) -> (r: Vec<Command>)
        ensures
            final(self)@ == old(self)@,
            r.deep_view() == translate_events(events.deep_view()),
    {
        let mut commands: Vec<Command> = Vec::new();
        let mut i: usize = 0;
        proof {
            lemma_translate_events_all_empty(events.deep_view());
        }
        while i < events.len()
            invariant
                i <= events.len(),
                self@ == old(self)@,
                commands.len() == 0,
                translate_events(events.deep_view()) == Seq::<CommandView>::empty(),
            decreases events.len() - i,
        {
            let mut derived = self.process_event(&events[i]);
            commands.append(&mut derived);
            i = i + 1;
        }
        proof {
            assert(commands.deep_view() =~= Seq::<CommandView>::empty());
        }
        commands
    }

    /// Translates one event into the commands it derives. No component
    /// currently derives commands from events.
    fn process_event(&mut self, event: &Event) -> (r: Vec<Command>)
        ensures
            final(self)@ == old(self)@,
            r.deep_view() == translate_event(event@),
            r.len() == 0,
    {
        let commands: Vec<Command> = Vec::new();
        proof {
            assert(commands.deep_view() =~= translate_event(event@));
        }
        commands
    }
}

/// The abstraction of a freshly constructed server module.
pub open spec fn module_view_of_fresh_server() -> ModuleView {
    ModuleView::Server(
        crate::server::server_module::ServerModuleView {
            server_list: Seq::<Seq<char>>::empty(),
        },
    )
}

/// The at-most-one-handler law: for any command and any fixed ordered list of
/// modules, at most one module is picked to process the command - the first
/// one whose ownership predicate claims it - and every module before it has
/// declined. When no module claims the command, none is picked. Commands the
/// application itself claims never reach module arbitration at all:
/// [`resolve_commands`] consults [`first_claimant`] only for commands outside
/// [`app_claims_command`].
pub proof fn lemma_at_most_one_handler(modules: Seq<ModuleView>, command: CommandView)
    ensures
        match first_claimant(modules, command) {
            None => forall|j: int| 0 <= j < modules.len() ==> !module_claims(modules[j], command),
            Some(i) => 0 <= i < modules.len() && module_claims(modules[i], command) && forall|
                j: int,
            | 0 <= j < i ==> !module_claims(modules[j], command),
        },
    decreases modules.len(),
{
    if modules.len() > 0 && !module_claims(modules[0], command) {
        lemma_at_most_one_handler(modules.skip(1), command);
        match first_claimant(modules.skip(1), command) {
            None => {
                assert forall|j: int| 0 <= j < modules.len() implies !module_claims(
                    modules[j],
                    command,
                ) by {
                    if j > 0 {
                        assert(modules.skip(1)[j - 1] == modules[j]);
                    }
                }
            },
            Some(i) => {
                assert(modules.skip(1)[i] == modules[i + 1]);
                assert forall|j: int| 0 <= j < i + 1 implies !module_claims(
                    modules[j],
                    command,
                ) by {
                    if j > 0 {
                        assert(modules.skip(1)[j - 1] == modules[j]);
                    }
                }
            },
        }
    }
}

/// Resolution termination for well-behaved modules: every module of the
/// closed set answers a command without producing follow-up commands, and
/// event translation currently derives no commands, so resolving any single
/// command settles after consuming at most one unit of fuel. Together with
/// [`App::process_command`]'s contract - which reports
/// [`DispatchError::ResolutionLimitReached`] exactly when
/// [`resolve_commands`] runs out of fuel - the iteration cap turns a
/// hypothetical runaway command/event feedback loop into a detectable error
/// instead of unbounded recursion.
pub proof fn lemma_resolution_terminates(app: AppView, command: CommandView, fuel: nat)
    requires
        fuel >= 1,
    ensures
        resolve_commands(app, seq![command], fuel) is Some,
{
    reveal_with_fuel(resolve_commands, 3);
    let queue = seq![command];
    let rest = queue.skip(1);
    assert(rest =~= Seq::<CommandView>::empty());
    match command {
        CommandView::Application(_) => {},
        _ => {
            match first_claimant(app.modules, command) {
                None => {},
                Some(i) => {
                    lemma_at_most_one_handler(app.modules, command);
                    let payload = module_apply(app.modules[i], command).1;
                    lemma_translate_events_all_empty(payload.events);
                    assert(payload.commands =~= Seq::<CommandView>::empty());
                    assert((payload.commands + translate_events(payload.events)) + rest
                        =~= Seq::<CommandView>::empty());
                },
            }
        },
    }
}

/// An unclaimed command is silently discarded: when neither the application
/// nor any module claims the command, resolving it leaves the dispatcher
/// untouched and produces no tasks and no trigger registrations.
pub proof fn lemma_unclaimed_command_is_discarded(app: AppView, command: CommandView, fuel: nat)
    requires
        fuel >= 1,
        !app_claims_command(command),
        first_claimant(app.modules, command) is None,
    ensures
        resolve_commands(app, seq![command], fuel) == Some(
            ResolutionView {
                state: app,
                tasks: Seq::<TaskView>::empty(),
                triggers: Seq::<CommandTriggerPayloadView>::empty(),
            },
        ),
{
    reveal_with_fuel(resolve_commands, 3);
    let queue = seq![command];
    let rest = queue.skip(1);
    assert(rest =~= Seq::<CommandView>::empty());
}

/// When module `i` claims the command and no earlier module does, `i` is the
/// first claimant.
proof fn lemma_first_claimant_found(modules: Seq<ModuleView>, command: CommandView, i: int)
    requires
        0 <= i < modules.len(),
        module_claims(modules[i], command),
        forall|j: int| 0 <= j < i ==> !module_claims(modules[j], command),
    ensures
        first_claimant(modules, command) == Some(i),
    decreases modules.len(),
{
    if i == 0 {
    } else {
        lemma_first_claimant_found(modules.skip(1), command, i - 1);
    }
}

/// When no module claims the command, there is no first claimant.
proof fn lemma_first_claimant_none(modules: Seq<ModuleView>, command: CommandView)
    requires
        forall|j: int| 0 <= j < modules.len() ==> !module_claims(modules[j], command),
    ensures
        first_claimant(modules, command) is None,
    decreases modules.len(),
{
    if modules.len() > 0 {
        lemma_first_claimant_none(modules.skip(1), command);
    }
}

/// Event translation currently derives no commands from any event list.
proof fn lemma_translate_events_all_empty(events: Seq<EventView>)
    ensures
        translate_events(events) == Seq::<CommandView>::empty(),
    decreases events.len(),
{
    if events.len() > 0 {
        lemma_translate_events_all_empty(events.skip(1));
        assert(translate_event(events[0]) + translate_events(events.skip(1))
            =~= Seq::<CommandView>::empty());
    }
}

/// Prefixing collected tasks commutes with the task contribution of one
/// resolution step.
proof fn lemma_prepend_shift_tasks(
    tasks: Seq<TaskView>,
    triggers: Seq<CommandTriggerPayloadView>,
    step_tasks: Seq<TaskView>,
    resolution: Option<ResolutionView>,
)
    ensures
        resolution_prepend(tasks + step_tasks, triggers, resolution) == resolution_prepend(
            tasks,
            triggers,
            match resolution {
                None => None,
                Some(r) => Some(
                    ResolutionView {
                        state: r.state,
                        tasks: step_tasks + r.tasks,
                        triggers: r.triggers,
                    },
                ),
            },
        ),
{
    match resolution {
        None => {},
        Some(r) => {
            assert((tasks + step_tasks) + r.tasks =~= tasks + (step_tasks + r.tasks));
        },
    }
}

/// Prefixing collected trigger registrations commutes with the trigger
/// contribution of one resolution step.
proof fn lemma_prepend_shift_triggers(
    tasks: Seq<TaskView>,
    triggers: Seq<CommandTriggerPayloadView>,
    step_triggers: Seq<CommandTriggerPayloadView>,
    resolution: Option<ResolutionView>,
)
    ensures
        resolution_prepend(tasks, triggers + step_triggers, resolution) == resolution_prepend(
            tasks,
            triggers,
            match resolution {
                None => None,
                Some(r) => Some(
                    ResolutionView {
                        state: r.state,
                        tasks: r.tasks,
                        triggers: step_triggers + r.triggers,
                    },
                ),
            },
        ),
{
    match resolution {
        None => {},
        Some(r) => {
            assert((triggers + step_triggers) + r.triggers =~= triggers + (step_triggers
                + r.triggers));
        },
    }
}

} // verus!
