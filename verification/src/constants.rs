//! Names and defaults shared by the modules.
use vstd::prelude::*;

verus! {

/// The program's directory below the user's data and configuration directories.
pub const RTK_DATA_DIR: &'static str = "rtk";

/// The directory of saved outputs below [`RTK_DATA_DIR`].
pub const TEE_DIR: &'static str = "tee";

/// The name of the configuration file.
pub const CONFIG_TOML: &'static str = "config.toml";

/// How many days of tracking history are kept by default.
pub const DEFAULT_HISTORY_DAYS: u32 = 90;

} // verus!
