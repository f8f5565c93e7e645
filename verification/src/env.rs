//! The read-only environment a generation run shares across all emitters:
//! global configuration, the namespace registry, and the name of the primary
//! underlying-runtime crate.

use vstd::prelude::*;

use crate::version::Version;

verus! {

/// The namespace id of the type currently being generated; ancestors from
/// this namespace are rendered unqualified.
pub const MAIN_NAMESPACE: usize = 0;

/// Global configuration, constructed once per generation run.
pub struct Config {
    /// Revision stamp of the generator itself, embedded in header comments.
    pub gir_version: String,
    /// Revision stamp of the introspection data the run consumes.
    pub girs_version: String,
    /// The minimum supported runtime version: only constraints strictly
    /// above it produce conditional-compilation guards.
    pub min_cfg_version: Version,
    /// When set, header comments carry no revision stamps; the stamps go to
    /// a single shared file of this name instead.
    pub single_version_file: Option<String>,
}

/// The read-only environment: configuration plus the namespace registry.
pub struct Env {
    pub config: Config,
    /// Registered crate names, indexed by namespace id; index
    /// [`MAIN_NAMESPACE`] is the namespace being generated.
    pub namespaces: Vec<String>,
    /// The crate name of the primary underlying-runtime bindings.
    pub sys_crate_name: String,
}

impl Env {
    /// A version already at or below the configured minimum is "too low":
    /// code gated on it is unconditionally present.
    pub open spec fn spec_is_too_low_version(&self, version: Option<Version>) -> bool {
        match version {
            Some(v) => v.spec_le(self.config.min_cfg_version),
            None => false,
        }
    }

    /// Whether the given constraint is already at or below the configured
    /// minimum supported version.
    pub fn is_too_low_version(&self, version: Option<Version>) -> (r: bool)
        ensures
            r == self.spec_is_too_low_version(version),
    {
        match version {
            Some(v) => v.le(&self.config.min_cfg_version),
            None => false,
        }
    }

    /// The crate name of the primary underlying-runtime bindings.
    pub fn main_sys_crate_name(&self) -> (r: &String)
        ensures
            r@ == self.sys_crate_name@,
    {
        &self.sys_crate_name
    }
}

} // verus!
