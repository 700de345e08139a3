//! The stub model: the stub mappings fetched from the selected server, which
//! of them is selected, how far the details are scrolled, and whether the
//! list refreshes itself. Fetching and deleting stubs over HTTP are side
//! effects the surrounding runtime performs; the model asks for them and
//! takes the results back through [`StubModel::import_stubs`] and
//! [`StubModel::confirm_selected_stub_deleted`].

use crate::model::{AppError, Command, Effect, ModelTrait};
use crate::wire_mock::StubMapping;
use vstd::prelude::*;

verus! {

/// Commands owned by the stub model.
pub enum StubCommand {
    ReadAllStubs,
    DeleteSelectedStub,
}

/// Messages the stub model consumes.
pub enum StubMsg {
    SelectNext,
    SelectPrevious,
    ScrollDetailsUp,
    ScrollDetailsDown,
    ToggleAutoRefreshStubsRequested,
    DeleteSelectedRequested,
    ReadAllStubsRequested,
}

/// Errors of the stub model.
#[derive(Debug)]
pub enum StubError {
    NoServerSelected,
}

/// The stub model's state. `auto_refresh` says whether the runtime should
/// keep a periodic refresh running; toggling it is the model's decision, the
/// timer itself belongs to the runtime.
pub struct StubModel {
    pub selected_server_url: Option<String>,
    pub stubs: Vec<StubMapping>,
    pub selected_stub_index: usize,
    pub scroll_offset: usize,
    pub auto_refresh: bool,
}

/// The index the stub deletion targets: the selected one, clamped to the
/// last entry. Only meaningful when the list is not empty.
pub open spec fn delete_target_index(model: StubModel) -> int {
    if model.selected_stub_index < model.stubs@.len() - 1 {
        model.selected_stub_index as int
    } else {
        model.stubs@.len() - 1
    }
}

/// Where the selection lands after the entry at `delete_target_index` was
/// removed: cleared for an emptied list, clamped to the new last entry when
/// it pointed at or past the removed end, otherwise unchanged.
pub open spec fn selection_after_delete(model: StubModel) -> int {
    if model.stubs@.len() == 1 {
        0
    } else if delete_target_index(model) >= model.stubs@.len() - 1 {
        model.stubs@.len() - 2
    } else {
        model.selected_stub_index as int
    }
}

impl StubModel {
    /// A fresh stub model: no server selected, no stubs, no auto-refresh.
    pub fn new() -> (r: Self)
        ensures
            r.selected_server_url is None,
            r.stubs@.len() == 0,
            r.selected_stub_index == 0,
            r.scroll_offset == 0,
            r.auto_refresh == false,
    {
        StubModel {
            selected_server_url: None,
            stubs: Vec::new(),
            selected_stub_index: 0,
            scroll_offset: 0,
            auto_refresh: false,
        }
    }

    /// Takes the stub mappings the runtime fetched for this model. Selection
    /// and scrolling are kept as they are, as when the list refreshes in
    /// place.
    pub fn import_stubs(&mut self, stubs: Vec<StubMapping>)
        ensures
            *final(self) == (StubModel { stubs, ..*old(self) }),
    {
        self.stubs = stubs;
    }

    fn select_next_stub(&mut self)
        ensures
            old(self).stubs@.len() == 0 ==> *final(self) == *old(self),
            old(self).stubs@.len() > 0 ==> *final(self) == (StubModel {
                selected_stub_index: (if old(self).selected_stub_index + 1 < old(self).stubs@.len()
                    as int {
                    old(self).selected_stub_index + 1
                } else {
                    old(self).stubs@.len() - 1
                }) as usize,
                scroll_offset: 0,
                ..*old(self)
            }),
    {
        if self.stubs.len() == 0 {
            return ;
        }
        let last = self.stubs.len() - 1;
        if self.selected_stub_index < last {
            self.selected_stub_index = self.selected_stub_index + 1;
        } else {
            self.selected_stub_index = last;
        }
        self.scroll_offset = 0;
    }

    fn select_previous_stub(&mut self)
        ensures
            *final(self) == (StubModel {
                selected_stub_index: (if old(self).selected_stub_index > 0 {
                    old(self).selected_stub_index - 1
                } else {
                    0
                }) as usize,
                scroll_offset: 0,
                ..*old(self)
            }),
    {
        if self.selected_stub_index > 0 {
            self.selected_stub_index = self.selected_stub_index - 1;
        }
        self.scroll_offset = 0;
    }

    fn scroll_details_up(&mut self)
        ensures
            *final(self) == (StubModel {
                scroll_offset: (if old(self).scroll_offset > 0 {
                    old(self).scroll_offset - 1
                } else {
                    0
                }) as usize,
                ..*old(self)
            }),
    {
        if self.scroll_offset > 0 {
            self.scroll_offset = self.scroll_offset - 1;
        }
    }

    fn scroll_details_down(&mut self)
        requires
            old(self).scroll_offset < usize::MAX,
        ensures
            *final(self) == (StubModel {
                scroll_offset: (old(self).scroll_offset + 1) as usize,
                ..*old(self)
            }),
    {
        self.scroll_offset = self.scroll_offset + 1;
    }

    fn toggle_auto_refresh_stubs(&mut self)
        ensures
            *final(self) == (StubModel { auto_refresh: !old(self).auto_refresh, ..*old(self) }),
    {
        self.auto_refresh = !self.auto_refresh;
    }

    /// Removes the stub the deletion targeted, after the runtime deleted it
    /// on the server, and adjusts selection and scrolling. Without stubs or
    /// without a selected server there is nothing to confirm.
    pub fn confirm_selected_stub_deleted(&mut self)
        ensures
            (old(self).stubs@.len() == 0 || old(self).selected_server_url is None) ==> *final(self)
                == *old(self),
            (old(self).stubs@.len() > 0 && old(self).selected_server_url is Some) ==> *final(self)
                == (StubModel {
                stubs: final(self).stubs,
                selected_stub_index: selection_after_delete(*old(self)) as usize,
                scroll_offset: 0,
                ..*old(self)
            }) && final(self).stubs@ == old(self).stubs@.remove(delete_target_index(*old(self))),
    {
        if self.stubs.len() == 0 {
            return ;
        }
        if self.selected_server_url.is_none() {
            return ;
        }
        let idx = if self.selected_stub_index < self.stubs.len() - 1 {
            self.selected_stub_index
        } else {
            self.stubs.len() - 1
        };
        let _removed = self.stubs.remove(idx);
        if self.stubs.len() == 0 {
            self.selected_stub_index = 0;
            self.scroll_offset = 0;
        } else {
            if idx >= self.stubs.len() {
                self.selected_stub_index = self.stubs.len() - 1;
            }
            self.scroll_offset = 0;
        }
    }
}

impl ModelTrait<StubMsg, StubCommand> for StubModel {
    open spec fn apply_event_req(pre: Self, event: StubMsg) -> bool {
        event is ScrollDetailsDown ==> pre.scroll_offset < usize::MAX
    }

    open spec fn apply_event_spec(
        pre: Self,
        post: Self,
        event: StubMsg,
        outcome: Result<Vec<Command>, AppError>,
    ) -> bool {
        match event {
            StubMsg::SelectNext => ((if pre.stubs@.len() == 0 {
                post == pre
            } else {
                post == (StubModel {
                    selected_stub_index: (if pre.selected_stub_index + 1 < pre.stubs@.len() as int {
                        pre.selected_stub_index + 1
                    } else {
                        pre.stubs@.len() - 1
                    }) as usize,
                    scroll_offset: 0,
                    ..pre
                })
            }) && (outcome matches Ok(commands) && commands@.len() == 0)),
            StubMsg::SelectPrevious => (post == (StubModel {
                selected_stub_index: (if pre.selected_stub_index > 0 {
                    pre.selected_stub_index - 1
                } else {
                    0
                }) as usize,
                scroll_offset: 0,
                ..pre
            }) && (outcome matches Ok(commands) && commands@.len() == 0)),
            StubMsg::ScrollDetailsUp => (post == (StubModel {
                scroll_offset: (if pre.scroll_offset > 0 {
                    pre.scroll_offset - 1
                } else {
                    0
                }) as usize,
                ..pre
            }) && (outcome matches Ok(commands) && commands@.len() == 0)),
            StubMsg::ScrollDetailsDown => (post == (StubModel {
                scroll_offset: (pre.scroll_offset + 1) as usize,
                ..pre
            }) && (outcome matches Ok(commands) && commands@.len() == 0)),
            StubMsg::ToggleAutoRefreshStubsRequested => (post == (StubModel {
                auto_refresh: !pre.auto_refresh,
                ..pre
            }) && (outcome matches Ok(commands) && commands@.len() == 0)),
            StubMsg::DeleteSelectedRequested => (post == pre && (outcome matches Ok(commands)
                && commands@.len() == 1 && commands@[0] matches Command::Stub(
                StubCommand::DeleteSelectedStub,
            ))),
            StubMsg::ReadAllStubsRequested => (post == pre && (outcome matches Ok(commands)
                && commands@.len() == 1 && commands@[0] matches Command::Stub(
                StubCommand::ReadAllStubs,
            ))),
        }
    }

    open spec fn handle_command_req(pre: Self, command: StubCommand) -> bool {
        true
    }

    open spec fn handle_command_spec(
        pre: Self,
        post: Self,
        command: StubCommand,
        outcome: Result<Vec<Effect>, AppError>,
    ) -> bool {
        &&& post == pre
        &&& match command {
            StubCommand::ReadAllStubs => match pre.selected_server_url {
                None => outcome matches Err(AppError::Stub(StubError::NoServerSelected)),
                Some(url) => (outcome matches Ok(effects) && effects@.len() == 1 && (effects@[0]
                    matches Effect::FetchStubs { base_url } && base_url == url)),
            },
            StubCommand::DeleteSelectedStub => {
                if pre.stubs@.len() == 0 || pre.selected_server_url is None {
                    outcome matches Ok(effects) && effects@.len() == 0
                } else {
                    outcome matches Ok(effects) && effects@.len() == 1 && (effects@[0]
                        matches Effect::DeleteStub { base_url, stub_id } && Some(base_url)
                        == pre.selected_server_url && stub_id == pre.stubs@[delete_target_index(
                        pre,
                    )].id)
                }
            },
        }
    }

    /// Applies a stub message: selection and scrolling are pure state;
    /// deletion and refresh requests raise the corresponding commands;
    /// toggling auto-refresh flips the flag the runtime's timer follows.
    fn apply_event(&mut self, event: StubMsg) -> (outcome: Result<Vec<Command>, AppError>) {
        match event {
            StubMsg::SelectNext => {
                self.select_next_stub();
                Ok(Vec::new())
            },
            StubMsg::SelectPrevious => {
                self.select_previous_stub();
                Ok(Vec::new())
            },
            StubMsg::ScrollDetailsUp => {
                self.scroll_details_up();
                Ok(Vec::new())
            },
            StubMsg::ScrollDetailsDown => {
                self.scroll_details_down();
                Ok(Vec::new())
            },
            StubMsg::ToggleAutoRefreshStubsRequested => {
                self.toggle_auto_refresh_stubs();
                Ok(Vec::new())
            },
            StubMsg::DeleteSelectedRequested => {
                let mut commands: Vec<Command> = Vec::new();
                commands.push(Command::Stub(StubCommand::DeleteSelectedStub));
                Ok(commands)
            },
            StubMsg::ReadAllStubsRequested => {
                let mut commands: Vec<Command> = Vec::new();
                commands.push(Command::Stub(StubCommand::ReadAllStubs));
                Ok(commands)
            },
        }
    }

    /// Handles a stub command: reading the stubs needs a selected server and
    /// is delegated to the runtime as a fetch effect; deleting the selected
    /// stub is delegated as a delete effect naming the stub's id.
    fn handle_command(&mut self, command: StubCommand) -> (outcome: Result<Vec<Effect>, AppError>) {
        match command {
            StubCommand::ReadAllStubs => {
                match &self.selected_server_url {
                    None => Err(AppError::Stub(StubError::NoServerSelected)),
                    Some(url) => {
                        let mut effects: Vec<Effect> = Vec::new();
                        effects.push(Effect::FetchStubs { base_url: url.clone() });
                        Ok(effects)
                    },
                }
            },
            StubCommand::DeleteSelectedStub => {
                if self.stubs.len() == 0 {
                    return Ok(Vec::new());
                }
                match &self.selected_server_url {
                    None => Ok(Vec::new()),
                    Some(url) => {
                        let idx = if self.selected_stub_index < self.stubs.len() - 1 {
                            self.selected_stub_index
                        } else {
                            self.stubs.len() - 1
                        };
                        let mut effects: Vec<Effect> = Vec::new();
                        effects.push(
                            Effect::DeleteStub {
                                base_url: url.clone(),
                                stub_id: self.stubs[idx].id.clone(),
                            },
                        );
                        Ok(effects)
                    },
                }
            },
        }
    }
}

} // verus!
