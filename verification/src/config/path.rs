//! Where the configuration is.
use vstd::prelude::*;

verus! {

/// Where the configuration is.
#[derive(Clone, Debug)]
pub enum ConfigPath {
    /// Explicitly set config path.
    ///
    /// Load the config only from this path, never create it.
    Explicit(String),
    /// Default config path.
    ///
    /// Prioritize the user path, fallback to the system path, fallback to creating the user path at
    /// compositor startup.
    Regular {
        /// User config path, usually `$XDG_CONFIG_HOME/niri/config.kdl`.
        user_path: String,
        /// System config path, usually `/etc/niri/config.kdl`.
        system_path: String,
    },
}

/// A file to be loaded.
#[derive(Debug)]
pub enum PathChoice {
    Load(String),
    /// There is no file at either path.
    Missing { user_path: String, system_path: String },
}

/// What became of creating the configuration.
#[derive(Clone, Copy, Debug, PartialEq, Eq, Structural)]
pub enum CreateOutcome {
    /// The directory could not be created.
    NoDirectory,
    /// Somebody else has created the file meanwhile.
    AlreadyThere,
    /// The file could not be opened.
    NotOpened,
    /// The file was created but could not be written.
    NotWritten,
    Written,
}

/// What is done after trying to create the configuration.
#[derive(Clone, Copy, Debug, PartialEq, Eq, Structural)]
pub struct Created {
    /// Whether the file was created just now, which the user is told.
    pub created: bool,
    /// Whether the file is to be loaded.
    pub load: bool,
}

/// The path of the configuration for all users.
pub fn system_config_path() -> (r: String)
    ensures
        r@ == "/etc/niri/config.kdl"@,
{
    "/etc/niri/config.kdl".to_owned()
}

/// Where the configuration is: where the command line says, or else where the environment says, or
/// else where the user and the system keep theirs. The environment says nothing if it gives an empty
/// path.
pub fn config_path(cli_path: Option<String>, env_path: Option<String>, user_path: Option<String>) -> (r:
    ConfigPath)
    ensures
        match (cli_path, env_path, user_path) {
            (Some(path), _, _) => r == ConfigPath::Explicit(path),
            (None, Some(path), _) if path@.len() > 0 => r == ConfigPath::Explicit(path),
            (None, _, Some(path)) => r matches ConfigPath::Regular { user_path, system_path }
                && user_path == path && system_path@ == "/etc/niri/config.kdl"@,
            (None, _, None) => r matches ConfigPath::Explicit(path) && path@
                == "/etc/niri/config.kdl"@,
        },
{
    if let Some(explicit) = cli_path {
        return ConfigPath::Explicit(explicit);
    }
    if let Some(explicit) = env_path {
        if explicit.as_str().unicode_len() > 0 {
            return ConfigPath::Explicit(explicit);
        }
    }
    let system_path = system_config_path();
    if let Some(user_path) = user_path {
        ConfigPath::Regular { user_path, system_path }
    } else {
        ConfigPath::Explicit(system_path)
    }
}

impl ConfigPath {
    /// The file to be loaded, given at which paths there is one. An explicit path is loaded in any
    /// case.
    pub fn load_inner(&self, user_exists: bool, system_exists: bool) -> (r: PathChoice)
        ensures
            match *self {
                ConfigPath::Explicit(path) => r == PathChoice::Load(path),
                ConfigPath::Regular { user_path, system_path } => if user_exists {
                    r == PathChoice::Load(user_path)
                } else if system_exists {
                    r == PathChoice::Load(system_path)
                } else {
                    r == (PathChoice::Missing { user_path, system_path })
                },
            },
    {
        match self {
            ConfigPath::Explicit(path) => PathChoice::Load(path.clone()),
            ConfigPath::Regular { user_path, system_path } => {
                if user_exists {
                    PathChoice::Load(user_path.clone())
                } else if system_exists {
                    PathChoice::Load(system_path.clone())
                } else {
                    PathChoice::Missing {
                        user_path: user_path.clone(),
                        system_path: system_path.clone(),
                    }
                }
            },
        }
    }

    /// What is done after trying to create the configuration. It can be that the file was created and
    /// is not loaded after all.
    pub fn create(outcome: CreateOutcome) -> (r: Created)
        ensures
            r.created == (outcome is Written || outcome is NotWritten),
            r.load == (outcome is Written || outcome is AlreadyThere),
    {
        match outcome {
            CreateOutcome::NoDirectory => Created { created: false, load: false },
            CreateOutcome::AlreadyThere => Created { created: false, load: true },
            CreateOutcome::NotOpened => Created { created: false, load: false },
            CreateOutcome::NotWritten => Created { created: true, load: false },
            CreateOutcome::Written => Created { created: true, load: true },
        }
    }
}

} // verus!
