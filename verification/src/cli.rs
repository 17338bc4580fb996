//! The command line, as far as the tool acts on it.  Reading the arguments is
//! the caller's part.

use vstd::prelude::*;

verus! {

/// Path of the registry file when the command line names none.
pub const CONFIG_DEFAULT_PATH: &'static str = "./config.toml";

/// Arguments of the `update` command.
#[derive(Debug, PartialEq, Eq)]
pub struct UpdateArguments {
    /// Path of the firmware image to upload.
    pub firmware: String,
}

/// Arguments of the `status` command.
#[derive(Debug, PartialEq, Eq)]
pub struct StatusArguments {
    /// The one member to query; every member when absent.
    pub hostname: Option<String>,
}

/// What the operator asks for.
#[derive(Debug, PartialEq, Eq)]
pub enum Commands {
    /// Scan the network for candidates and adopt the chosen ones.
    Adopt,
    /// Drop chosen members from the registry.
    Forget,
    /// List the members of the registry.
    List,
    /// Query the status of members.
    Status(StatusArguments),
    /// Upload a firmware image to a chosen member.
    Update(UpdateArguments),
}

/// A parsed command line.
#[derive(Debug, PartialEq, Eq)]
pub struct Cli {
    /// Path of the registry file, if the operator gave one.
    pub config: Option<String>,
    pub command: Commands,
}

impl Commands {
    /// Tells whether the command can change the registry, so that the
    /// registry has to be written out when it is done.
    pub fn changes_registry(&self) -> (changes: bool)
        ensures
            changes == (*self is Adopt || *self is Forget || *self is Update),
    {
        match self {
            Commands::Adopt => true,
            Commands::Forget => true,
            Commands::Update(_) => true,
            Commands::List => false,
            Commands::Status(_) => false,
        }
    }
}

impl Cli {
    /// Path of the registry file: the one given, or the default.
    pub fn config_path(&self) -> (path: String)
        ensures
            path@ == match self.config {
                Some(given) => given@,
                None => CONFIG_DEFAULT_PATH@,
            },
    {
        match &self.config {
            Some(given) => given.clone(),
            None => String::from_str(CONFIG_DEFAULT_PATH),
        }
    }
}

} // verus!
