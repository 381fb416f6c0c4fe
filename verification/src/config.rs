use vstd::prelude::*;

verus! {

/// The configuration the client runs with: the opaque bearer token read
/// from the on-disk configuration file at process start.
#[derive(Debug, Clone)]
pub struct Config {
    pub api_key: String,
}

impl Config {
    pub fn new(api_key: String) -> (r: Config)
        ensures
            r.api_key == api_key,
    {
        Config { api_key }
    }
}

} // verus!
