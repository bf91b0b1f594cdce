//! What the service reports of the machine it runs on.

use vstd::prelude::*;

verus! {

/// The memory that the process uses, in bytes.
#[derive(Clone, Copy, Debug, PartialEq, Eq)]
pub struct MemoryUsage {
    pub physical_used: usize,
    pub virtual_used: usize,
}

impl MemoryUsage {
    /// The usage from what the operating system reports of the process: its
    /// physical and its virtual memory in bytes, if it reports them.
    pub fn new(stats: Option<(usize, usize)>) -> (usage: Option<Self>)
        ensures
            usage == match stats {
                Some((physical_mem, virtual_mem)) => Some(
                    MemoryUsage { physical_used: physical_mem, virtual_used: virtual_mem },
                ),
                None => None,
            },
    {
        match stats {
            Some((physical_mem, virtual_mem)) => Some(
                MemoryUsage { physical_used: physical_mem, virtual_used: virtual_mem },
            ),
            None => None,
        }
    }
}

} // verus!
