//! The decision logic of the SaxoTrader receiver: how pushed captures are
//! stored, and how the MCP server answers JSON-RPC requests.
use vstd::prelude::*;

pub mod json;
pub mod names;
pub mod sql;
pub mod ingest;
pub mod rpc;
pub mod lookup;
pub mod mcp;
pub mod placeholders;
pub mod answer;

verus! {
} // verus!
