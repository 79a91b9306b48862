//! How many entries each of the agent's caches keeps.

use vstd::prelude::*;

verus! {

#[derive(Debug, Clone, Copy, PartialEq, Eq, Structural)]
pub struct CacheSizes {
    pub cfg_sch_digest: usize,
    pub cfg_inst_metadata: usize,
    pub cfg_inst_data: usize,
    pub cfg_schema: usize,
}

impl Default for CacheSizes {
    fn default() -> (r: Self)
        ensures
            r.cfg_sch_digest == 100,
            r.cfg_inst_metadata == 100,
            r.cfg_inst_data == 100,
            r.cfg_schema == 100,
    {
        Self { cfg_sch_digest: 100, cfg_inst_metadata: 100, cfg_inst_data: 100, cfg_schema: 100 }
    }
}

} // verus!
