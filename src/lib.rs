//! Byte-exact codec for the fixed headers of routing-configuration messages
//! (interfaces, addresses, routes, neighbours) and their attribute envelopes.

pub mod buffer;
pub mod flags;
pub mod consts;
pub mod nl;
pub mod rtnl;
