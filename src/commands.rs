//! The `server` command line: the address to listen on and the cache
//! configuration inherited from the common options.

use vstd::prelude::*;

verus! {

/// Options shared by every command.
#[derive(Clone, Debug)]
pub struct CommonOptions {
    /// A cache configuration file given on the command line.
    pub config: Option<String>,
    /// Whether the artifact cache is switched off.
    pub disable_cache: bool,
}

/// Arguments of the `server` command.
#[derive(Clone, Debug)]
pub struct ServerCommand {
    pub host: String,
    pub common: CommonOptions,
}

/// Where the cache configuration comes from.
#[derive(Clone, Debug)]
pub enum CacheSetting {
    Disabled,
    /// The default configuration file of the user.
    DefaultConfig,
    ConfigFile(String),
}

/// What the server process is to do: listen on `host`, with this cache.
#[derive(Clone, Debug)]
pub struct ServerLaunch {
    pub host: String,
    pub cache: CacheSetting,
}

impl ServerCommand {
    /// Decides how the server is started.
    pub fn execute(&self) -> (r: ServerLaunch)
        ensures
            r.host@ == self.host@,
            self.common.disable_cache ==> r.cache is Disabled,
            !self.common.disable_cache && self.common.config is None ==> r.cache is DefaultConfig,
            !self.common.disable_cache && self.common.config is Some ==> (r.cache matches CacheSetting::ConfigFile(p)
                && p@ == self.common.config.unwrap()@),
    {
        let cache = if self.common.disable_cache {
            CacheSetting::Disabled
        } else {
            match &self.common.config {
                Some(path) => CacheSetting::ConfigFile(path.clone()),
                None => CacheSetting::DefaultConfig,
            }
        };
        ServerLaunch { host: self.host.clone(), cache }
    }
}

} // verus!
