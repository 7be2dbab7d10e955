//! Command-line arguments of the node plugin.

use vstd::prelude::*;

verus! {

/// The node id that the plugin reports, and the endpoint (a Unix socket path)
/// that it serves on. Both must be passed.
#[derive(Debug, Clone)]
pub struct DriverArgs {
    pub node_id: String,
    pub endpoint: String,
}

} // verus!
