//! Chain-sync request bookkeeping, the network handler's routing of replies,
//! sector sizes and the value-level parts of the node's state API, verified.
use vstd::prelude::*;

pub mod network_context;
pub mod network_handler;
pub mod protocol;
pub mod request_table;
pub mod sector;
pub mod state_api;

verus! {

} // verus!
