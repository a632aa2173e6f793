//! The configuration wished for the managed server.

use vstd::prelude::*;

verus! {

/// The server's port where none is chosen.
pub const DEFAULT_PORT: u16 = 8888;

/// Milliseconds between two checks of the server where none are chosen.
pub const DEFAULT_CHECK_INTERVAL: u32 = 2000;

/// Restarts allowed where no number is chosen.
pub const DEFAULT_MAX_RESTARTS: u32 = 3;

/// Configuration of the managed Jupyter server. The fields do not depend on
/// each other; whether a value is usable is for the service to say.
#[derive(Debug, PartialEq, Eq)]
pub struct AppConfig {
    pub jupyter_port: u16,
    pub python_executable: Option<String>,
    pub project_dir: Option<String>,
    pub use_notebook: bool,
    pub auto_start: bool,
    pub auto_restart: bool,
    /// In milliseconds.
    pub check_interval: u32,
    pub max_restarts: u32,
}

impl AppConfig {
    /// Whether every field has the value it has where nothing is chosen.
    pub open spec fn is_default(&self) -> bool {
        &&& self.jupyter_port == DEFAULT_PORT
        &&& self.python_executable is None
        &&& self.project_dir is None
        &&& !self.use_notebook
        &&& !self.auto_start
        &&& self.auto_restart
        &&& self.check_interval == DEFAULT_CHECK_INTERVAL
        &&& self.max_restarts == DEFAULT_MAX_RESTARTS
    }
}

impl Default for AppConfig {
    fn default() -> (config: AppConfig)
        ensures
            config.is_default(),
    {
        AppConfig {
            jupyter_port: DEFAULT_PORT,
            python_executable: None,
            project_dir: None,
            use_notebook: false,
            auto_start: false,
            auto_restart: true,
            check_interval: DEFAULT_CHECK_INTERVAL,
            max_restarts: DEFAULT_MAX_RESTARTS,
        }
    }
}

} // verus!
