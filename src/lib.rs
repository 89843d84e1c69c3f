//! Terminal browser for a virtualization cluster: the inventory of hosts and
//! virtual machines, the search filter, bulk selection by name list, the
//! input-mode state machine and the bulk power-action bookkeeping.

pub mod inventory;
pub mod filter;
pub mod text;
pub mod session;
pub mod dispatch;
pub mod import;
pub mod api;
pub mod laws;
