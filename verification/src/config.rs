//! Where the system finds its configuration files.

use vstd::prelude::*;
use vstd::string::*;

verus! {

/// `r` is the file name `name` adjoined to the directory `base`:
/// - right after an empty `base` or one that ends with `/`;
/// - after one separator, `/` or `\`, when `base` ends with anything but
///   `/`, `\` or `:`;
/// - when `base` ends with `\` or `:`, right after it or after one such
///   separator.
pub open spec fn adjoined(base: Seq<char>, name: Seq<char>, r: Seq<char>) -> bool {
    if base.len() == 0 || base.last() == '/' {
        r == base + name
    } else if base.last() == '\\' || base.last() == ':' {
        ||| r == base + name
        ||| r == base + seq!['/'] + name
        ||| r == base + seq!['\\'] + name
    } else {
        ||| r == base + seq!['/'] + name
        ||| r == base + seq!['\\'] + name
    }
}

/// A relative file name of one component: not empty, not `.` or `..`, and
/// without a separator or a drive colon.
pub open spec fn is_plain_file_name(name: Seq<char>) -> bool {
    &&& name.len() > 0
    &&& name != seq!['.']
    &&& name != seq!['.', '.']
    &&& forall|i: int| 0 <= i < name.len() ==> name[i] != '/' && name[i] != '\\' && name[i] != ':'
}

/// A directory that does not start with the verbatim prefix `\\?\`.
pub open spec fn is_plain_directory(base: Seq<char>) -> bool {
    !(base.len() >= 4 && base.subrange(0, 4) == seq!['\\', '\\', '?', '\\'])
}

/// std's `Path::join` of a plain file name onto a directory, as text.
/// Claimed (see `adjoined`): `name` comes right after an empty `base` or
/// one ending with `/`, and after one separator, `/` or `\`, after a `base`
/// ending with anything but a separator or `:`. Which separator is used
/// depends on the system the crate is built for and is left unsaid; so is
/// whether one is added after a `base` ending with `\` or `:` (a separator
/// or a bare drive on Windows, plain text elsewhere), and the result for a
/// directory with a verbatim prefix, whose components may be rewritten.
#[verifier::external_body]
pub(crate) fn join_path(base: &str, name: &str) -> (r: String)
    requires
        is_plain_file_name(name@),
    ensures
        is_plain_directory(base@) ==> adjoined(base@, name@, r@),
{
    std::path::Path::new(base).join(name).to_string_lossy().into_owned()
}

/// Knows where the initial configuration of the core is kept:
/// `core_init.toml` in the configuration directory.
pub struct ConfigManager {
    core_init_path: String,
}

impl View for ConfigManager {
    type V = Seq<char>;

    /// The path of the core's initial configuration.
    closed spec fn view(&self) -> Seq<char> {
        self.core_init_path@
    }
}

impl ConfigManager {
    /// Finds `core_init.toml` in the configuration directory `path`.
    pub fn new(path: &str) -> (r: Self)
        ensures
            is_plain_directory(path@) ==> adjoined(path@, "core_init.toml"@, r@),
    {
        proof {
            reveal_strlit("core_init.toml");
        }
        ConfigManager { core_init_path: join_path(path, "core_init.toml") }
    }

    /// The path of the core's initial configuration.
    pub fn core_init_path(&self) -> (r: &str)
        ensures
            r@ == self@,
    {
        self.core_init_path.as_str()
    }
}

} // verus!
