//! Renderer configuration, consumed only at construction time.

use vstd::prelude::*;

use crate::version::Version;

verus! {

/// Construction-time configuration: application identity, engine identity
/// and whether the validation layer should be requested.
pub struct Config {
    app_name: &'static str,
    app_version: Version,
    engine_name: &'static str,
    engine_version: Version,
    enable_validation: bool,
}

impl Config {
    pub closed spec fn spec_app_name(&self) -> Seq<char> {
        self.app_name@
    }

    pub closed spec fn spec_app_version(&self) -> Version {
        self.app_version
    }

    pub closed spec fn spec_engine_name(&self) -> Seq<char> {
        self.engine_name@
    }

    pub closed spec fn spec_engine_version(&self) -> Version {
        self.engine_version
    }

    pub closed spec fn spec_enable_validation(&self) -> bool {
        self.enable_validation
    }

    /// Builds a configuration for the given application; the engine
    /// identity is fixed by the library.
    pub fn new(app_name: &'static str, app_version: Version, enable_validation: bool) -> (c:
        Config)
        ensures
            c.spec_app_name() == app_name@,
            c.spec_app_version() == app_version,
            c.spec_engine_name() == "titan"@,
            c.spec_engine_version() == (Version { major: 0u32, minor: 0u32, patch: 0u32 }),
            c.spec_enable_validation() == enable_validation,
    {
        let engine_name = "titan";
        Config {
            app_name,
            app_version,
            engine_name,
            engine_version: Version::default(),
            enable_validation,
        }
    }

    pub fn app_name(&self) -> (r: &'static str)
        ensures
            r@ == self.spec_app_name(),
    {
        self.app_name
    }

    pub fn app_version(&self) -> (r: &Version)
        ensures
            r == self.spec_app_version(),
    {
        &self.app_version
    }

    pub fn engine_name(&self) -> (r: &'static str)
        ensures
            r@ == self.spec_engine_name(),
    {
        self.engine_name
    }

    pub fn engine_version(&self) -> (r: &Version)
        ensures
            r == self.spec_engine_version(),
    {
        &self.engine_version
    }

    pub fn enable_validation(&self) -> (r: bool)
        ensures
            r == self.spec_enable_validation(),
    {
        self.enable_validation
    }
}

} // verus!
