//! The configuration file of one service.

use std::marker::PhantomData;

use vstd::prelude::*;

use crate::config::service_config_dir_path;
use crate::path::{join_path, path_join};
use crate::text::push_text;

verus! {

/// Where a service's configuration of type `T` lives, and the file to write
/// when there is none.
pub struct ServiceConfig<T> {
    path: String,
    service_name: &'static str,
    default_config: &'static [u8],
    _mark: PhantomData<T>,
}

/// The path of a service's configuration file: `<name>.toml` in the
/// services' directory.
pub open spec fn service_config_path(name: Seq<char>) -> Seq<char> {
    path_join("service"@, name + ".toml"@)
}

impl<T> ServiceConfig<T> {
    pub closed spec fn spec_path(&self) -> Seq<char> {
        self.path@
    }

    pub closed spec fn spec_service_name(&self) -> Seq<char> {
        self.service_name@
    }

    pub closed spec fn spec_default_config(&self) -> Seq<u8> {
        self.default_config@
    }

    /// The configuration of the service `name`, whose file holds `default`
    /// when first written.
    pub fn new(name: &'static str, default: &'static [u8]) -> (r: Self)
        ensures
            r.spec_path() == service_config_path(name@),
            r.spec_service_name() == name@,
            r.spec_default_config() == default@,
    {
        let mut file = String::new();
        push_text(&mut file, name);
        push_text(&mut file, ".toml");
        let path = join_path(service_config_dir_path(), file.as_str());
        ServiceConfig { path, service_name: name, default_config: default, _mark: PhantomData }
    }

    /// The path of the configuration file.
    pub fn path(&self) -> (r: &str)
        ensures
            r@ == self.spec_path(),
    {
        self.path.as_str()
    }

    /// The service's name.
    pub fn service_name(&self) -> (r: &'static str)
        ensures
            r@ == self.spec_service_name(),
    {
        self.service_name
    }

    /// The file written when there is none.
    pub fn default_config(&self) -> (r: &'static [u8])
        ensures
            r@ == self.spec_default_config(),
    {
        self.default_config
    }
}

} // verus!
