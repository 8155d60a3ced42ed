//! Settings of the mock exchange service.
use vstd::prelude::*;

verus! {

/// Where the mock exchange listens.
#[derive(Debug, Clone)]
pub struct MockexConfig {
    pub addr: String,
}

impl Default for MockexConfig {
    fn default() -> (r: Self)
        ensures
            r.addr@ == "0.0.0.0:2023"@,
    {
        Self { addr: "0.0.0.0:2023".to_owned() }
    }
}

} // verus!
