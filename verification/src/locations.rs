//! The user's standard directories, as the environment gives them.
use vstd::prelude::*;

verus! {

/// The user's configuration directory (`dirs::config_dir`). Nothing is
/// stated of it: it depends on the environment.
#[verifier::external_body]
pub(crate) fn config_dir() -> Option<String> {
    dirs::config_dir().map(|p| p.to_string_lossy().into_owned())
}

/// The user's home directory (`dirs::home_dir`). Nothing is stated of it.
#[verifier::external_body]
pub(crate) fn home_dir() -> Option<String> {
    dirs::home_dir().map(|p| p.to_string_lossy().into_owned())
}

/// The user's data directory (`dirs::data_dir`). Nothing is stated of it.
#[verifier::external_body]
pub(crate) fn data_dir() -> Option<String> {
    dirs::data_dir().map(|p| p.to_string_lossy().into_owned())
}

/// The user's cache directory (`dirs::cache_dir`). Nothing is stated of it.
#[verifier::external_body]
pub(crate) fn cache_dir() -> Option<String> {
    dirs::cache_dir().map(|p| p.to_string_lossy().into_owned())
}

/// The user's executables directory (`dirs::executable_dir`). Nothing is
/// stated of it.
#[verifier::external_body]
pub(crate) fn executable_dir() -> Option<String> {
    dirs::executable_dir().map(|p| p.to_string_lossy().into_owned())
}

/// The user's local data directory (`dirs::data_local_dir`). Nothing is
/// stated of it.
#[verifier::external_body]
pub(crate) fn data_local_dir() -> Option<String> {
    dirs::data_local_dir().map(|p| p.to_string_lossy().into_owned())
}

} // verus!
