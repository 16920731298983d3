//! The immutable topology snapshot: the named control and worker nodes of the
//! cluster and the optional virtual IP, loaded once before the dashboard
//! starts and never mutated afterwards.

use vstd::prelude::*;

verus! {

/// The cluster node lists of the topology document.
#[derive(Clone, Debug)]
pub struct Servers {
    /// Control-plane node names, in declared order.
    pub control: Vec<String>,
    /// Worker node names, in declared order.
    pub worker: Vec<String>,
    /// The virtual IP of the cluster, when one is configured.
    pub vip: Option<String>,
}

/// The topology configuration as the dashboard consumes it.
#[derive(Clone, Debug)]
pub struct Config {
    pub servers: Servers,
}

} // verus!
