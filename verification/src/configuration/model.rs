//! The configuration model: holds the application's stored configuration and
//! decides how configuration events and commands are answered. Reading and
//! writing the configuration store is a side effect the surrounding runtime
//! performs; the model only hands out the corresponding directives.

use crate::server::server_module::clone_string_vec;
use vstd::prelude::*;

verus! {

broadcast use vstd::string::group_string_axioms;

/// The application's stored configuration: the known servers and which of
/// them was selected.
pub struct RootConfiguration {
    pub server_list: Vec<String>,
    pub selected_server_index: Option<usize>,
}

/// The address the configuration falls back to when nothing is stored yet.
pub open spec fn fallback_server_url() -> Seq<char> {
    "http://localhost:9393"@
}

impl Default for RootConfiguration {
    /// The configuration used when nothing is stored yet: one well-known
    /// local server, selected.
    fn default() -> (r: Self)
        ensures
            r.server_list.deep_view() == seq![fallback_server_url()],
            r.selected_server_index == Some(0usize),
    {
        let mut server_list: Vec<String> = Vec::new();
        server_list.push("http://localhost:9393".to_string());
        proof {
            assert(server_list.deep_view() =~= seq![fallback_server_url()]);
        }
        RootConfiguration { server_list, selected_server_index: Some(0) }
    }
}

/// Commands owned by the configuration model.
pub enum ConfigurationCommand {
    LoadConfiguration,
    SaveConfiguration,
}

/// Events the configuration model consumes.
pub enum ConfigurationEvent {
    LoadConfigurationRequested,
    ConfigurationLoaded(RootConfiguration),
}

/// Errors of the configuration model. The store failure carries no payload
/// here; the runtime that talks to the store keeps the underlying error.
#[derive(Debug)]
pub enum ConfigurationError {
    StoreConfigurationError,
}

/// What the configuration model asks its caller to do: raise a configuration
/// command, publish the loaded server list to the interested models, or read
/// the configuration from the store and feed it back as
/// [`ConfigurationEvent::ConfigurationLoaded`].
pub enum ConfigurationEffect {
    RaiseCommand(ConfigurationCommand),
    PublishServerList(Vec<String>),
    LoadFromStore,
}

/// The configuration model's state: the configuration it has seen, if any.
pub struct ConfigurationModel {
    pub app_config: Option<RootConfiguration>,
}

impl ConfigurationModel {
    /// A fresh model that has not loaded a configuration yet.
    pub fn new() -> (r: Self)
        ensures
            r.app_config is None,
    {
        ConfigurationModel { app_config: None }
    }

    /// Answers a configuration event: a load request raises the load command;
    /// a loaded configuration is stored and its server list published.
    pub fn apply_event(&mut self, event: ConfigurationEvent) -> (r: Result<
        Vec<ConfigurationEffect>,
        ConfigurationError,
    >)
        ensures
            match event {
                ConfigurationEvent::LoadConfigurationRequested => (*final(self) == *old(self) && (
                r matches Ok(effects) && effects@.len() == 1 && effects@[0]
                    matches ConfigurationEffect::RaiseCommand(
                    ConfigurationCommand::LoadConfiguration,
                ))),
                ConfigurationEvent::ConfigurationLoaded(configuration) => (final(self).app_config
                    == Some(configuration) && (r matches Ok(effects) && effects@.len() == 1
                    && (effects@[0] matches ConfigurationEffect::PublishServerList(servers)
                    && servers.deep_view() == configuration.server_list.deep_view()))),
            },
    {
        match event {
            ConfigurationEvent::LoadConfigurationRequested => {
                let mut effects: Vec<ConfigurationEffect> = Vec::new();
                effects.push(
                    ConfigurationEffect::RaiseCommand(ConfigurationCommand::LoadConfiguration),
                );
                Ok(effects)
            },
            ConfigurationEvent::ConfigurationLoaded(configuration) => {
                let servers = clone_string_vec(&configuration.server_list);
                self.app_config = Some(configuration);
                let mut effects: Vec<ConfigurationEffect> = Vec::new();
                effects.push(ConfigurationEffect::PublishServerList(servers));
                Ok(effects)
            },
        }
    }

    /// Answers a configuration command: loading is delegated to the store;
    /// saving is not wired up yet and does nothing.
    pub fn handle_command(&mut self, command: ConfigurationCommand) -> (r: Result<
        Vec<ConfigurationEffect>,
        ConfigurationError,
    >)
        ensures
            *final(self) == *old(self),
            match command {
                ConfigurationCommand::LoadConfiguration => (r matches Ok(effects)
                    && effects@.len() == 1 && effects@[0]
                    matches ConfigurationEffect::LoadFromStore),
                ConfigurationCommand::SaveConfiguration => (r matches Ok(effects)
                    && effects@.len() == 0),
            },
    {
        match command {
            ConfigurationCommand::LoadConfiguration => {
                let mut effects: Vec<ConfigurationEffect> = Vec::new();
                effects.push(ConfigurationEffect::LoadFromStore);
                Ok(effects)
            },
            ConfigurationCommand::SaveConfiguration => {
                let effects: Vec<ConfigurationEffect> = Vec::new();
                Ok(effects)
            },
        }
    }
}

} // verus!
