//! Named load-balancing strategies.
use vstd::prelude::*;

verus! {

/// A selection strategy known by name.
pub trait LoadBalancingStrategy {
    fn name(&self) -> &'static str;
}

/// Hands out indices in turn.
#[derive(Debug, Clone, Copy)]
pub struct RoundRobinStrategy {
    pub counter: usize,
}

impl RoundRobinStrategy {
    pub fn new() -> (r: Self)
        ensures
            r.counter == 0,
    {
        RoundRobinStrategy { counter: 0 }
    }

    /// The next index below `pool_size`, in turn; zero for an empty pool,
    /// which leaves the counter alone.
    pub fn next_index(&mut self, pool_size: usize) -> (r: usize)
        ensures
            pool_size == 0 ==> r == 0 && final(self).counter == old(self).counter,
            pool_size > 0 ==> r == old(self).counter % pool_size
                && final(self).counter == old(self).counter.wrapping_add(1),
    {
        if pool_size == 0 {
            return 0;
        }
        let selected = self.counter % pool_size;
        self.counter = self.counter.wrapping_add(1);
        selected
    }
}

impl Default for RoundRobinStrategy {
    fn default() -> (r: Self)
        ensures
            r.counter == 0,
    {
        RoundRobinStrategy::new()
    }
}

impl LoadBalancingStrategy for RoundRobinStrategy {
    fn name(&self) -> &'static str {
        "round-robin"
    }
}

/// Picks the replica with the fewest requests in flight.
#[derive(Debug, Clone, Copy)]
pub struct LeastConnectedStrategy;

impl LeastConnectedStrategy {
    pub fn new() -> (r: Self) {
        LeastConnectedStrategy
    }
}

impl Default for LeastConnectedStrategy {
    fn default() -> (r: Self) {
        LeastConnectedStrategy
    }
}

impl LoadBalancingStrategy for LeastConnectedStrategy {
    fn name(&self) -> &'static str {
        "least-connected"
    }
}

} // verus!
