//! The settings of the Gitpod companion.

use vstd::prelude::*;

verus! {

/// Which Gitpod workspace the companion connects to, and on which host.
#[derive(Debug)]
pub struct Config {
    pub instance_id: String,
    pub hostname: String,
}

impl Clone for Config {
    fn clone(&self) -> (r: Self)
        ensures
            r.instance_id@ == self.instance_id@,
            r.hostname@ == self.hostname@,
    {
        Config { instance_id: self.instance_id.clone(), hostname: self.hostname.clone() }
    }
}

impl Default for Config {
    /// No workspace chosen: both texts empty.
    fn default() -> (r: Self)
        ensures
            r.instance_id@.len() == 0,
            r.hostname@.len() == 0,
    {
        Config { instance_id: String::new(), hostname: String::new() }
    }
}

} // verus!
