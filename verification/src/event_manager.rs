//! The command manager: the background driver that merges timer ticks, task
//! completions and trigger registrations into the single ordered stream of
//! commands the application loop consumes.
//!
//! The driver races four input sources - the command channel being closed, a
//! trigger registration arriving, a task being submitted, and the fixed-rate
//! timer firing. The race itself and the channels live with the surrounding
//! runtime; what is here is the driver's decision logic: a state machine from
//! the driver's state and the input that won the race to the next state and
//! the action to perform.

use crate::contract::{ApplicationCommands, ApplicationCommandsView, Command, CommandTrigger,
    CommandTriggerPayload, CommandTriggerView, CommandView, DispatchError, Task, trigger_views};
use crate::server::server_module::{ServerCommands, ServerCommandsView};
use vstd::prelude::*;

verus! {

/// The input that won one iteration of the driver's race.
pub enum DriverInput {
    /// The outbound command channel was closed: the application loop exited.
    CommandChannelClosed,
    /// A module registered a batch of command triggers.
    TriggerRegistration(CommandTriggerPayload),
    /// A task was submitted for asynchronous execution.
    TaskSubmission(Task),
    /// The fixed-rate timer fired.
    TickElapsed,
}

/// What the driver asks the surrounding runtime to do after one step.
pub enum DriverAction {
    /// Shut the driver down.
    Stop,
    /// Nothing to perform; race the input sources again.
    Continue,
    /// Spawn the task's execution on an independent concurrency unit; feed
    /// the command of a successful completion through
    /// [`completed_task_command`] back onto the command channel.
    RunTask(Task),
    /// Push this command onto the outbound command channel.
    Emit(Command),
}

/// The outcome of pushing a command onto the outbound command channel.
pub enum SendStatus {
    Delivered,
    /// The receiving side is gone. This happens when the application shuts
    /// down while the driver is still running; it is an expected shutdown
    /// artifact, not an error.
    ChannelClosed,
}

/// The driver's state: the live, append-only table of registered command
/// triggers. The table is owned exclusively by the driver; it is mutated only
/// through trigger registrations arriving as [`DriverInput`].
pub struct CommandManagerTask {
    pub command_triggers: Vec<CommandTrigger>,
}

impl View for CommandManagerTask {
    type V = Seq<CommandTriggerView>;

    open spec fn view(&self) -> Seq<CommandTriggerView> {
        trigger_views(self.command_triggers)
    }
}

/// The command the driver emits once at startup, before any other input: the
/// bootstrap that kicks off initial module work.
pub open spec fn bootstrap_command_view() -> CommandView {
    CommandView::ServerModule(ServerCommandsView::ShowServerSelection)
}

/// The command the driver emits whenever the fixed-rate timer fires.
pub open spec fn tick_command_view() -> CommandView {
    CommandView::Application(ApplicationCommandsView::Tick)
}

impl CommandManagerTask {
    /// A fresh driver with an empty trigger table.
    pub fn new() -> (r: Self)
        ensures
            r@ == Seq::<CommandTriggerView>::empty(),
    {
        let r = CommandManagerTask { command_triggers: Vec::new() };
        proof {
            assert(r@ =~= Seq::<CommandTriggerView>::empty());
        }
        r
    }

    /// The bootstrap command, emitted unconditionally at startup. This
    /// guarantees the application receives at least one command before any
    /// user input arrives.
    pub fn startup_command(&self) -> (r: Command)
        ensures
            r@ == bootstrap_command_view(),
    {
        Command::ServerModule(ServerCommands::ShowServerSelection)
    }

    /// One step of the driver loop: reacts to the input that won the race.
    /// A closed command channel stops the driver. A trigger registration
    /// appends the batch to the trigger table - existing entries are never
    /// replaced or removed - and emits nothing. A submitted task is handed
    /// back for spawning. A timer tick emits the application tick command.
    pub fn step(&mut self, input: DriverInput) -> (r: DriverAction)
        ensures
            match input {
                DriverInput::CommandChannelClosed => (r is Stop && final(self)@ == old(self)@),
                DriverInput::TriggerRegistration(payload) => (r is Continue && final(self)@
                    == old(self)@ + payload@.command_triggers),
                DriverInput::TaskSubmission(task) => (r matches DriverAction::RunTask(t) && t
                    == task && final(self)@ == old(self)@),
                DriverInput::TickElapsed => (r matches DriverAction::Emit(command) && command@
                    == tick_command_view() && final(self)@ == old(self)@),
            },
    {
        match input {
            DriverInput::CommandChannelClosed => DriverAction::Stop,
            DriverInput::TriggerRegistration(payload) => {
                let ghost pre = self@;
                let ghost payload_view = payload@;
                let mut registered = payload.get_command_triggers();
                self.command_triggers.append(&mut registered);
                proof {
                    assert(self@ =~= pre + payload_view.command_triggers);
                }
                DriverAction::Continue
            },
            DriverInput::TaskSubmission(task) => DriverAction::RunTask(task),
            DriverInput::TickElapsed => DriverAction::Emit(
                Command::Application(ApplicationCommands::Tick),
            ),
        }
    }
}

/// What a finished task feeds back onto the command channel: the command of
/// a successful execution, and nothing for a failed one. A task failure is
/// local to the task - the driver keeps running and later commands keep
/// flowing; the only consequence is the absence of this follow-up command.
pub fn completed_task_command(result: Result<Command, DispatchError>) -> (r: Option<Command>)
    ensures
        match result {
            Ok(command) => r == Some(command),
            Err(_) => r is None,
        },
{
    match result {
        Ok(command) => Some(command),
        Err(_) => None,
    }
}

/// The driver's policy for a completed send: a failed send means the
/// receiver was dropped during shutdown, which is expected and deliberately
/// swallowed - the driver continues either way and the failure is never
/// surfaced as an error.
pub fn absorb_send_status(status: SendStatus) -> (r: DriverAction)
    ensures
        r is Continue,
{
    match status {
        SendStatus::Delivered => DriverAction::Continue,
        SendStatus::ChannelClosed => DriverAction::Continue,
    }
}

} // verus!
