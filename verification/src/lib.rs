//! A small JSON-RPC client for a bitcoin node and a mempool kept up to date
//! through it: the requests it sends, how it reads the node's answers, the
//! credentials it presents, and the rules by which the mempool is refreshed.

pub mod encoding;
pub mod mempool;
pub mod rpc;
pub mod transaction;
