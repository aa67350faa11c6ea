//! Where the system finds the configuration of the core and of itself.

use vstd::prelude::*;
use vstd::string::*;
use crate::config::{adjoined, is_plain_directory, is_plain_file_name, join_path};

verus! {

/// Knows the paths of `core.toml` and `sys.toml` in the configuration
/// directory.
pub struct ConfigManager {
    core_path: String,
    sys_path: String,
}

impl View for ConfigManager {
    type V = (Seq<char>, Seq<char>);

    /// The paths of the core's and of the system's configuration.
    closed spec fn view(&self) -> (Seq<char>, Seq<char>) {
        (self.core_path@, self.sys_path@)
    }
}

impl ConfigManager {
    /// Finds `core.toml` and `sys.toml` in the configuration directory
    /// `path`.
    pub fn new(path: &str) -> (r: Self)
        ensures
            is_plain_directory(path@) ==> adjoined(path@, "core.toml"@, r@.0),
            is_plain_directory(path@) ==> adjoined(path@, "sys.toml"@, r@.1),
    {
        proof {
            assert(is_plain_file_name("core.toml"@)) by {
                reveal_strlit("core.toml");
                assert("core.toml"@.len() == 9);
                assert(forall|i: int| 0 <= i < 9 ==> "core.toml"@[i] != '/' && "core.toml"@[i] != '\\' && "core.toml"@[i] != ':');
            }
            assert(is_plain_file_name("sys.toml"@)) by {
                reveal_strlit("sys.toml");
                assert("sys.toml"@.len() == 8);
                assert(forall|i: int| 0 <= i < 8 ==> "sys.toml"@[i] != '/' && "sys.toml"@[i] != '\\' && "sys.toml"@[i] != ':');
            }
        }
        ConfigManager { core_path: join_path(path, "core.toml"), sys_path: join_path(path, "sys.toml") }
    }

    /// The path of the core's configuration.
    pub fn core_path(&self) -> (r: &str)
        ensures
            r@ == self@.0,
    {
        self.core_path.as_str()
    }

    /// The path of the system's configuration.
    pub fn sys_path(&self) -> (r: &str)
        ensures
            r@ == self@.1,
    {
        self.sys_path.as_str()
    }
}

} // verus!
