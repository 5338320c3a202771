//! The gateway configuration file as the source of the gateway's state.
use vstd::prelude::*;

verus! {

/// A gateway configuration kept in a TOML file at `path`.
#[derive(Debug, Clone)]
pub struct GatewayConfigFileSource {
    path: String,
}

impl GatewayConfigFileSource {
    /// The file's path.
    pub closed spec fn spec_path(&self) -> Seq<char> {
        self.path@
    }

    /// A source reading the configuration file at `path`.
    pub fn new(path: String) -> (r: Self)
        ensures
            r.spec_path() == path@,
    {
        GatewayConfigFileSource { path }
    }

    /// The path of the configuration file.
    pub fn path(&self) -> (r: &str)
        ensures
            r@ == self.spec_path(),
    {
        self.path.as_str()
    }
}

} // verus!
