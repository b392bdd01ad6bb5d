//! Opening an existing project: checking its path and telling which tool owns it.
use vstd::prelude::*;
use vstd::string::StringExecFns;
use crate::error::AppError;
use crate::models::EngineType;
use crate::text::{contains, contains_spec};

verus! {

/// Checks a path the host has canonicalized: `canonical` is `None` when that
/// failed, and `exists` says whether the canonical path exists.
pub fn validate_path(path: &str, canonical: Option<String>, exists: bool) -> (r: Result<String, AppError>)
    ensures
        canonical is None ==> (r matches Err(AppError::InvalidPath(m)) && m@ == path@),
        canonical matches Some(c) ==> (!exists ==> (r matches Err(AppError::PathNotFound(m)) && m@ == c@)),
        canonical matches Some(c) ==> (exists ==> (r matches Ok(p) && p@ == c@)),
{
    match canonical {
        None => Err(AppError::InvalidPath(String::from_str(path))),
        Some(c) => {
            if exists {
                Ok(c)
            } else {
                Err(AppError::PathNotFound(c))
            }
        },
    }
}

/// Which tool owns a site directory. `hugo.toml` and `config.yaml` are
/// Hugo's alone. Both tools may use `config.toml`: Zola's names its base URL
/// `base_url`, Hugo's `baseURL`, so one that mentions `base_url` is Zola's.
pub open spec fn detect_engine_spec(has_hugo_toml: bool, has_config_yaml: bool, config_toml: Option<Seq<char>>) -> Option<EngineType> {
    if has_hugo_toml || has_config_yaml {
        Some(EngineType::Hugo)
    } else {
        match config_toml {
            Some(text) => if contains_spec(text, "base_url"@) {
                Some(EngineType::Zola)
            } else {
                Some(EngineType::Hugo)
            },
            None => None,
        }
    }
}

/// Tells which tool owns a site from its configuration files: whether
/// `hugo.toml` and `config.yaml` exist, and the text of `config.toml` if it does.
pub fn detect_engine(has_hugo_toml: bool, has_config_yaml: bool, config_toml: Option<&str>) -> (r: Result<EngineType, AppError>)
    ensures
        match detect_engine_spec(has_hugo_toml, has_config_yaml, match config_toml { Some(t) => Some(t@), None => None }) {
            Some(e) => r == Ok::<EngineType, AppError>(e),
            None => r matches Err(AppError::EngineError(m)) && m@ == "Unable to detect project type"@,
        },
{
    if has_hugo_toml || has_config_yaml {
        return Ok(EngineType::Hugo);
    }
    match config_toml {
        Some(text) => {
            if contains(text, "base_url") {
                Ok(EngineType::Zola)
            } else {
                Ok(EngineType::Hugo)
            }
        },
        None => Err(AppError::EngineError(String::from_str("Unable to detect project type"))),
    }
}

} // verus!
