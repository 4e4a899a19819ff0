//! What the parts of the program hand to one another: the directories they
//! work in and the messages between the interface and the session.

use std::sync::Arc;
use vstd::prelude::*;

use crate::text::{join_path, joined};

verus! {

/// The name of the program in environment variables and file names.
pub const PROJECT_NAME: &'static str = "TIVE";

/// The directories of the program: configuration, data and cache.
#[derive(Debug, Clone)]
pub struct Dirs {
    pub config: String,
    pub data: String,
    pub cache: String,
}

pub struct DirsView {
    pub config: Seq<char>,
    pub data: Seq<char>,
    pub cache: Seq<char>,
}

impl View for Dirs {
    type V = DirsView;

    open spec fn view(&self) -> DirsView {
        DirsView { config: self.config@, data: self.data@, cache: self.cache@ }
    }
}

/// The directories under a home directory, by the usual convention.
pub open spec fn spec_home_dirs(home: Seq<char>) -> DirsView {
    DirsView {
        config: joined(joined(home, ".config"@), "tive"@),
        data: joined(joined(joined(home, ".local"@), "share"@), "tive"@),
        cache: joined(joined(home, ".cache"@), "tive"@),
    }
}

/// The directories under the working directory, the last resort.
pub open spec fn spec_local_dirs() -> DirsView {
    DirsView { config: "./.tive/config"@, data: "./.tive/data"@, cache: "./.tive/cache"@ }
}

/// The directories to use: those of the platform where it names them, else
/// those under the home directory where there is one, else those under the
/// working directory.
pub open spec fn spec_locate(platform: Option<DirsView>, home: Option<Seq<char>>) -> DirsView {
    match platform {
        Some(dirs) => dirs,
        None => match home {
            Some(home) => spec_home_dirs(home),
            None => spec_local_dirs(),
        },
    }
}

impl Dirs {
    /// Chooses the directories of the program from what the platform offers.
    pub fn locate(platform: Option<Dirs>, home: Option<String>) -> (dirs: Dirs)
        ensures
            dirs@ == spec_locate(
                match platform {
                    Some(dirs) => Some(dirs@),
                    None => None,
                },
                match home {
                    Some(home) => Some(home@),
                    None => None,
                },
            ),
    {
        match platform {
            Some(dirs) => dirs,
            None => match home {
                Some(home) => {
                    let config = join_path(join_path(home.as_str(), ".config").as_str(), "tive");
                    let local = join_path(home.as_str(), ".local");
                    let data = join_path(join_path(local.as_str(), "share").as_str(), "tive");
                    let cache = join_path(join_path(home.as_str(), ".cache").as_str(), "tive");
                    Dirs { config, data, cache }
                },
                None => Dirs {
                    config: "./.tive/config".to_owned(),
                    data: "./.tive/data".to_owned(),
                    cache: "./.tive/cache".to_owned(),
                },
            },
        }
    }

    /// Where the host keeps its configuration.
    pub fn host_config_dir(&self) -> (dir: String)
        ensures
            dir@ == joined(self.config@, "host"@),
    {
        join_path(self.config.as_str(), "host")
    }

    /// Where the host keeps its data.
    pub fn host_data_dir(&self) -> (dir: String)
        ensures
            dir@ == joined(self.data@, "host"@),
    {
        join_path(self.data.as_str(), "host")
    }

    /// Where the host keeps its cache.
    pub fn host_cache_dir(&self) -> (dir: String)
        ensures
            dir@ == joined(self.cache@, "host"@),
    {
        join_path(self.cache.as_str(), "host")
    }
}

/// Calls `Arc::clone` of std. Trusted: the new pointer leads to the same
/// allocation, so both hold the same value.
#[verifier::external_body]
pub(crate) fn share<T>(value: &Arc<T>) -> (shared: Arc<T>)
    ensures
        shared == *value,
{
    Arc::clone(value)
}

/// What the interface asks of the session.
#[derive(Debug)]
pub enum UIAction {
    Quit,
    Chat { id: Option<Arc<String>>, message: String },
}

/// What the session reports to the interface.
#[derive(Debug)]
pub enum UIActionResult {
    End,
    Chat { id: Arc<String>, content: String },
}

} // verus!
