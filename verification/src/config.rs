//! Server configuration: where backups land and where static assets are
//! served from, with the fallback used when the configuration file is
//! absent or unparsable.

use vstd::prelude::*;

verus! {

/// Paths the server runs with.
#[derive(Clone, Debug, PartialEq, Eq)]
pub struct Config {
    pub backup_dir: String,
    pub assets_dir: String,
}

impl Default for Config {
    /// The fallback configuration: backups into the working directory,
    /// assets from the bundled directory.
    fn default() -> (r: Config)
        ensures
            r.backup_dir@ == "./"@,
            r.assets_dir@ == "./appserver/assets"@,
    {
        Config { backup_dir: "./".to_owned(), assets_dir: "./appserver/assets".to_owned() }
    }
}

} // verus!
