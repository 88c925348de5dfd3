//! Configuration path priority: `--config` flag, then the environment
//! variable, then the platform default.

use vstd::prelude::*;

use crate::text::string_of;

use super::validator::ConfigError;

verus! {

/// Name of the environment variable that names the configuration file.
pub const CONFIG_PATH_ENV: &'static str = "OKC_WATCHER_CONFIG";

/// The platform default path: under a non-empty `PROGRAMDATA` on Windows,
/// the fixed Windows fallback otherwise on Windows, `/etc/...` elsewhere.
pub open spec fn spec_platform_default_path(windows: bool, program_data: Option<Seq<char>>) -> Seq<char> {
    if windows {
        match program_data {
            Some(pd) => if pd.len() > 0 {
                pd + "\\okc-watcher\\config.json"@
            } else {
                "C:\\ProgramData\\okc-watcher\\config.json"@
            },
            None => "C:\\ProgramData\\okc-watcher\\config.json"@,
        }
    } else {
        "/etc/okc-watcher/config.json"@
    }
}

/// The configuration path: the flag when given, else a non-empty
/// environment value, else the platform default.
pub open spec fn spec_config_path(
    cli_path: Option<Seq<char>>,
    env_path: Option<Seq<char>>,
    windows: bool,
    program_data: Option<Seq<char>>,
) -> Seq<char> {
    match cli_path {
        Some(p) => p,
        None => match env_path {
            Some(e) => if e.len() > 0 {
                e
            } else {
                spec_platform_default_path(windows, program_data)
            },
            None => spec_platform_default_path(windows, program_data),
        },
    }
}

/// The platform default configuration path.
pub fn platform_default_path(windows: bool, program_data: Option<&str>) -> (p: String)
    ensures
        p@ == spec_platform_default_path(
            windows,
            match program_data {
                Some(s) => Some(s@),
                None => None,
            },
        ),
{
    if windows {
        match program_data {
            Some(pd) => {
                if !pd.is_empty() {
                    let mut out = string_of(pd);
                    crate::text::push_str(&mut out, "\\okc-watcher\\config.json");
                    return out;
                }
                string_of("C:\\ProgramData\\okc-watcher\\config.json")
            },
            None => string_of("C:\\ProgramData\\okc-watcher\\config.json"),
        }
    } else {
        string_of("/etc/okc-watcher/config.json")
    }
}

/// Resolves the configuration path by priority; the caller reads the flag,
/// the environment and the platform.
pub fn resolve_config_path(
    cli_path: Option<&str>,
    env_path: Option<&str>,
    windows: bool,
    program_data: Option<&str>,
) -> (p: String)
    ensures
        p@ == spec_config_path(
            match cli_path {
                Some(s) => Some(s@),
                None => None,
            },
            match env_path {
                Some(s) => Some(s@),
                None => None,
            },
            windows,
            match program_data {
                Some(s) => Some(s@),
                None => None,
            },
        ),
{
    if let Some(path) = cli_path {
        return string_of(path);
    }
    if let Some(env) = env_path {
        if !env.is_empty() {
            return string_of(env);
        }
    }
    platform_default_path(windows, program_data)
}

/// The keep-last-good rule of a reload: a configuration that loaded and
/// validated replaces the active one and the reload succeeds (observers are
/// then notified); a refused one leaves the active one in place and its
/// error is the reload's result.
pub fn keep_last_good<T>(active: T, loaded: Result<T, ConfigError>) -> (r: (T, Result<(), ConfigError>))
    ensures
        match loaded {
            Ok(c) => r.0 == c && r.1 is Ok,
            Err(e) => r.0 == active && r.1 == Err::<(), ConfigError>(e),
        },
{
    match loaded {
        Ok(c) => (c, Ok(())),
        Err(e) => (active, Err(e)),
    }
}

} // verus!
