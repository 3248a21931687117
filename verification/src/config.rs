//! Configuration: read once at startup by the host, immutable afterwards.

use vstd::prelude::*;
use vstd::string::StrSliceExecFns;
use vstd::string::StringExecFns;

verus! {

/// Configuration owned by the manager for its whole lifetime.
pub struct Config {
    /// Number of instances started eagerly at launch.
    pub instance_count: u32,
    /// Absolute path of the application binary; non-empty.
    pub executable_path: String,
    /// When set, instance storage is this prefix followed by the ordinal;
    /// when unset, storage is derived from the user's home directory.
    pub directory_prefix: Option<String>,
}

/// The hard-coded install path used when no configuration names one.
pub open spec fn default_executable_path() -> Seq<char> {
    "C:/Program Files/Tencent/WeChat/WeChat.exe"@
}

/// The eager instance count used when no configuration names one.
pub open spec fn default_instance_count() -> u32 {
    2
}

/// A configuration is well formed when its executable path is non-empty.
pub open spec fn config_wf(c: &Config) -> bool {
    c.executable_path@.len() > 0
}

/// The built-in fallback configuration: two eager instances, the hard-coded
/// executable path, no directory prefix.
pub fn default_config() -> (c: Config)
    ensures
        c.instance_count == default_instance_count(),
        c.executable_path@ == default_executable_path(),
        c.directory_prefix is None,
        config_wf(&c),
{
    proof {
        reveal_strlit("C:/Program Files/Tencent/WeChat/WeChat.exe");
    }
    Config {
        instance_count: 2,
        executable_path: String::from_str("C:/Program Files/Tencent/WeChat/WeChat.exe"),
        directory_prefix: None,
    }
}

/// Fills the gaps of a partially given configuration: each key the file left
/// out takes its own default — instance count 2, the hard-coded executable
/// path, no directory prefix.
pub fn merge_config(
    instance_count: Option<u32>,
    executable_path: Option<String>,
    directory_prefix: Option<String>,
) -> (c: Config)
    ensures
        c.instance_count == match instance_count {
            Some(n) => n,
            None => default_instance_count(),
        },
        c.executable_path@ == match executable_path {
            Some(p) => p@,
            None => default_executable_path(),
        },
        c.directory_prefix == directory_prefix,
{
    let d = default_config();
    Config {
        instance_count: match instance_count {
            Some(n) => n,
            None => d.instance_count,
        },
        executable_path: match executable_path {
            Some(p) => p,
            None => d.executable_path,
        },
        directory_prefix,
    }
}

/// Settles what the manager runs with: a parsed configuration is kept when it
/// is well formed (non-empty executable path); a missing or unparseable file
/// (`None`) or an empty executable path falls back to the defaults.
pub fn resolve_config(parsed: Option<Config>) -> (c: Config)
    ensures
        config_wf(&c),
        match parsed {
            Some(p) => {
                if p.executable_path@.len() > 0 {
                    c == p
                } else {
                    is_default_config(&c)
                }
            },
            None => is_default_config(&c),
        },
{
    match parsed {
        Some(p) => {
            if p.executable_path.as_str().unicode_len() > 0 {
                p
            } else {
                default_config()
            }
        },
        None => default_config(),
    }
}

/// Whether `c` is exactly the built-in fallback configuration.
pub open spec fn is_default_config(c: &Config) -> bool {
    &&& c.instance_count == default_instance_count()
    &&& c.executable_path@ == default_executable_path()
    &&& c.directory_prefix is None
}

} // verus!
