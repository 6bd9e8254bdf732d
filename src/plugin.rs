//! Plugin configuration records as they are created and stored.
use vstd::prelude::*;
use crate::error::LoadError;
use crate::loader::{path_extension, validate_path};

verus! {

/// Whether a plugin ships with the gateway or was added by a user.
#[derive(Clone, Copy, Debug, PartialEq, Eq, Structural)]
pub enum PluginType {
    System,
    Custom,
}

/// A south-bound protocol plugin as stored.
#[derive(Clone, Debug)]
pub struct ProtocolConfig {
    pub id: i64,
    /// The protocol name the driver is registered under.
    pub name: String,
    /// The path of the native module.
    pub path: String,
    pub description: Option<String>,
    pub plugin_config_id: i64,
}

/// A south-bound protocol plugin as submitted for creation.
#[derive(Clone, Debug)]
pub struct CreateProtocolConfig {
    pub name: String,
    pub path: String,
    pub description: Option<String>,
}

/// Settings of a north-bound data output plugin.
#[derive(Clone, Debug)]
pub struct DataOutputConfig {}

/// Settings of a rule engine plugin.
#[derive(Clone, Debug)]
pub struct RuleEngineConfig {}

/// A stored plugin, by category.
#[derive(Clone, Debug)]
pub enum Plugin {
    Protocol(ProtocolConfig),
    DataOutput(DataOutputConfig),
    RuleEngine(RuleEngineConfig),
}

/// A plugin submitted for creation, by category.
#[derive(Clone, Debug)]
pub enum CreatePlugin {
    Protocol(CreateProtocolConfig),
    DataOutput(DataOutputConfig),
    RuleEngine(RuleEngineConfig),
}

/// The common record of a plugin submitted for creation.
#[derive(Clone, Debug)]
pub struct CreatePluginConfig {
    pub description: Option<String>,
    pub form_customization: Option<String>,
    pub plugin: CreatePlugin,
    pub plugin_type: PluginType,
}

/// The common record of a stored plugin.
#[derive(Clone, Debug)]
pub struct PluginConfig {
    pub id: i64,
    pub description: Option<String>,
    pub form_customization: Option<String>,
    pub plugin: Plugin,
    pub plugin_type: PluginType,
}

impl CreateProtocolConfig {
    /// Checks the module path: `exists` tells whether a file is there and
    /// `dll_extension` is the platform's native-module suffix.
    pub fn validate(&self, exists: bool, dll_extension: &str) -> (r: Result<(), LoadError>)
        ensures
            r is Ok <==> exists && path_extension(self.path@) == Some(dll_extension@),
            !exists ==> (r matches Err(LoadError::MissingFile(s)) && s@ == self.path@),
            exists && path_extension(self.path@) != Some(dll_extension@) ==> (r matches Err(
                LoadError::WrongExtension(s),
            ) && s@ == self.path@),
    {
        validate_path(self.path.as_str(), exists, dll_extension)
    }
}

impl CreatePluginConfig {
    /// Checks the submitted plugin; only a protocol plugin carries a module
    /// path to check.
    pub fn validate(&self, exists: bool, dll_extension: &str) -> (r: Result<(), LoadError>)
        ensures
            match self.plugin {
                CreatePlugin::Protocol(c) => r is Ok <==> exists && path_extension(c.path@) == Some(
                    dll_extension@,
                ),
                _ => r is Ok,
            },
    {
        match &self.plugin {
            CreatePlugin::Protocol(c) => c.validate(exists, dll_extension),
            _ => Ok(()),
        }
    }
}

} // verus!
