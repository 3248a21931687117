//! The Directory Provisioner's pure half: computing the per-instance storage
//! path. Creating the directory on disk is the host's side of the boundary.

use vstd::prelude::*;
use vstd::string::StrSliceExecFns;
use vstd::string::StringExecFns;

use crate::config::Config;
use crate::digits::decimal_digits;
use crate::digits::u32_to_decimal;

verus! {

/// The home directory used when none can be resolved from the environment.
pub open spec fn default_home() -> Seq<char> {
    "C:/Users/Default"@
}

/// The instance-scoped subpath appended to the home directory.
pub open spec fn home_subpath() -> Seq<char> {
    "/AppData/Roaming/WeChatInstance"@
}

/// The view of an optional owned string.
pub open spec fn opt_view(o: Option<String>) -> Option<Seq<char>> {
    match o {
        Some(s) => Some(s@),
        None => None,
    }
}

/// The storage path for one ordinal: when a prefix is configured, the prefix
/// followed by the decimal ordinal; otherwise the resolved home directory
/// (or its fixed fallback) followed by the instance-scoped subpath and the
/// decimal ordinal.
pub open spec fn storage_path_spec(
    prefix: Option<Seq<char>>,
    home: Option<Seq<char>>,
    ordinal: u32,
) -> Seq<char> {
    match prefix {
        Some(p) => p + decimal_digits(ordinal as nat),
        None => {
            let h = match home {
                Some(h) => h,
                None => default_home(),
            };
            h + home_subpath() + decimal_digits(ordinal as nat)
        },
    }
}

/// Computes the storage path for `ordinal` under `config`, with `home` the
/// home directory the host resolved from the environment (or `None` when it
/// could not).
pub fn storage_path(config: &Config, home: &Option<String>, ordinal: u32) -> (r: String)
    ensures
        r@ == storage_path_spec(
            opt_view(config.directory_prefix),
            opt_view(*home),
            ordinal,
        ),
{
    let digits = u32_to_decimal(ordinal);
    match &config.directory_prefix {
        Some(prefix) => {
            let mut s = prefix.clone();
            s.append(digits.as_str());
            s
        },
        None => {
            let mut s = match home {
                Some(h) => h.clone(),
                None => {
                    proof {
                        reveal_strlit("C:/Users/Default");
                    }
                    String::from_str("C:/Users/Default")
                },
            };
            s.append("/AppData/Roaming/WeChatInstance");
            s.append(digits.as_str());
            s
        },
    }
}

} // verus!
