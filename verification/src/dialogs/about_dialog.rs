//! Application identity shown in the About dialog.
use vstd::prelude::*;

verus! {

/// Application version (should match Cargo.toml)
pub const APP_VERSION: &'static str = "0.1.0";

/// Application name
pub const APP_NAME: &'static str = "Testruct Studio";

/// Get the application version string
pub fn get_version() -> (res: &'static str)
    ensures
        res@ == APP_VERSION@,
{
    APP_VERSION
}

/// Get the application name
pub fn get_app_name() -> (res: &'static str)
    ensures
        res@ == APP_NAME@,
{
    APP_NAME
}

} // verus!
