//! Configuration: where it lives, and what each file holds by default.

pub mod log;
pub mod login;
pub mod plugin;
pub mod service;

use vstd::prelude::*;

verus! {

/// The directory of the services' configuration files.
pub fn service_config_dir_path() -> (r: &'static str)
    ensures
        r@ == "service"@,
{
    "service"
}

/// The directory under which each client keeps its files.
pub fn clients_dir_path() -> (r: &'static str)
    ensures
        r@ == "clients"@,
{
    "clients"
}

} // verus!
