//! The Confluent addon configuration command.
//!
//! The command itself is a thin one-shot remote call: look the project up
//! by name, send it the bootstrap server address, await completion. All of
//! that is the caller's outside work. What is decided here is the local
//! part: both arguments must be non-empty, and the request handed to the
//! caller carries them through unchanged.

use vstd::prelude::*;

verus! {

/// Why the command arguments were rejected.
pub enum ConfigureError {
    EmptyProjectName,
    EmptyBootstrapServer,
}

/// The validated request a caller performs against the remote controller:
/// which project to configure, and with which Confluent bootstrap server.
pub struct ConfigureConfluentRequest {
    pub project_name: String,
    pub bootstrap_server: String,
}

/// Configure the Confluent Cloud addon for a project.
pub struct AddonConfigureConfluentSubcommand {
    /// Project name; the caller resolves it to a project id.
    pub project_name: String,
    /// Confluent Cloud bootstrap server address.
    pub bootstrap_server: String,
}

impl AddonConfigureConfluentSubcommand {
    /// Validates the arguments and hands back the request to perform.
    /// Fails exactly when an argument is empty, the project name being
    /// checked first.
    pub fn run(self) -> (r: Result<ConfigureConfluentRequest, ConfigureError>)
        ensures
            self.project_name@.len() == 0 ==> r == Result::<
                ConfigureConfluentRequest,
                ConfigureError,
            >::Err(ConfigureError::EmptyProjectName),
            self.project_name@.len() > 0 && self.bootstrap_server@.len() == 0 ==> r == Result::<
                ConfigureConfluentRequest,
                ConfigureError,
            >::Err(ConfigureError::EmptyBootstrapServer),
            self.project_name@.len() > 0 && self.bootstrap_server@.len() > 0 ==> (r matches Ok(q)
                && q.project_name@ == self.project_name@ && q.bootstrap_server@
                == self.bootstrap_server@),
    {
        let AddonConfigureConfluentSubcommand { project_name, bootstrap_server } = self;
        if project_name.as_str().is_empty() {
            Err(ConfigureError::EmptyProjectName)
        } else if bootstrap_server.as_str().is_empty() {
            Err(ConfigureError::EmptyBootstrapServer)
        } else {
            Ok(ConfigureConfluentRequest { project_name, bootstrap_server })
        }
    }
}

} // verus!
