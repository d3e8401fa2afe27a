//! Where the operating system keeps application configuration.

use vstd::prelude::*;

verus! {

/// The error given where no configuration folder can be found.
pub const CONFIG_FOLDER_NOT_FOUND: &'static str = "A config folder path cannot be found.";

/// Finds the folder in which applications keep their configuration.
pub trait PathFinder {
    fn config_folder_path(&self) -> Result<String, String>;
}

/// Finds the configuration folder of the current user on this system.
pub struct SystemPathFinder {}

impl SystemPathFinder {
    pub fn new() -> Self {
        SystemPathFinder {}
    }
}

impl PathFinder for SystemPathFinder {
    /// The user's configuration folder, or the error `CONFIG_FOLDER_NOT_FOUND` where the system
    /// gives none (which folder it gives depends on the system and the environment).
    fn config_folder_path(&self) -> (r: Result<String, String>)
        ensures
            r matches Err(e) ==> e@ == CONFIG_FOLDER_NOT_FOUND@,
    {
        match base_dirs() {
            Some(dirs) => Ok(config_dir(&dirs)),
            None => Err(String::from_str(CONFIG_FOLDER_NOT_FOUND)),
        }
    }
}

/// The base directories of `directories`, carried through opaque.
#[verifier::external_type_specification]
#[verifier::external_body]
pub struct ExBaseDirs(directories::BaseDirs);

/// Calls `directories::BaseDirs::new`. Nothing is claimed of the result: whether the system gives
/// base directories depends on the system and the environment (the home directory and, on Linux,
/// `XDG_CONFIG_HOME`).
#[verifier::external_body]
fn base_dirs() -> Option<directories::BaseDirs> {
    directories::BaseDirs::new()
}

/// Calls `directories::BaseDirs::config_dir` and returns the path as text (with any part that is
/// not Unicode replaced). Nothing is claimed of which folder it is.
#[verifier::external_body]
fn config_dir(dirs: &directories::BaseDirs) -> String {
    dirs.config_dir().to_string_lossy().into_owned()
}

} // verus!
