//! Where the log goes and what it lets through.

use vstd::prelude::*;
use vstd::string::StringExecFns;

use crate::text::{join_path, joined};

verus! {

/// The environment variable that names the data directory.
pub const DATA_ENV: &'static str = "TIVE_DATA";

/// The environment variable that sets the log filter of the program.
pub const LOG_ENV: &'static str = "TIVE_LOGLEVEL";

/// The name of the log file.
pub const LOG_FILE: &'static str = "TIVE.log";

/// The data directory: the one that the environment names, else the one of the
/// platform, else `.data` under the working directory.
pub open spec fn spec_data_dir(named: Option<Seq<char>>, platform: Option<Seq<char>>) -> Seq<char> {
    match named {
        Some(dir) => dir,
        None => match platform {
            Some(dir) => dir,
            None => joined("."@, ".data"@),
        },
    }
}

/// Chooses the data directory. `named` is what the environment variable
/// [`DATA_ENV`] holds, `platform` the local data directory that the platform
/// offers.
pub fn get_data_dir(named: Option<String>, platform: Option<String>) -> (dir: String)
    ensures
        dir@ == spec_data_dir(
            match named {
                Some(dir) => Some(dir@),
                None => None,
            },
            match platform {
                Some(dir) => Some(dir@),
                None => None,
            },
        ),
{
    if let Some(dir) = named {
        dir
    } else if let Some(dir) = platform {
        dir
    } else {
        join_path(".", ".data")
    }
}

/// The log file inside the data directory.
pub fn log_path(data_dir: &str) -> (path: String)
    ensures
        path@ == joined(data_dir@, LOG_FILE@),
{
    join_path(data_dir, LOG_FILE)
}

/// The log filter: the general one where it is set, else the program's own,
/// else informational messages of the program.
pub open spec fn spec_log_filter(general: Option<Seq<char>>, own: Option<Seq<char>>) -> Seq<char> {
    match general {
        Some(filter) => filter,
        None => match own {
            Some(filter) => filter,
            None => "tive=info"@,
        },
    }
}

/// Chooses the log filter. `general` is what `RUST_LOG` holds, `own` what
/// [`LOG_ENV`] holds.
pub fn log_filter(general: Option<String>, own: Option<String>) -> (filter: String)
    ensures
        filter@ == spec_log_filter(
            match general {
                Some(filter) => Some(filter@),
                None => None,
            },
            match own {
                Some(filter) => Some(filter@),
                None => None,
            },
        ),
{
    match general {
        Some(filter) => filter,
        None => match own {
            Some(filter) => filter,
            None => String::from_str("tive=info"),
        },
    }
}

} // verus!
