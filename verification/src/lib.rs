//! Monitoring logic for the share of Lightning nodes that announce support
//! for forwarding onion messages: counting over a snapshot of the network
//! graph, the share as a one-decimal percentage, and the status page.

pub mod decimal;
pub mod graph;
pub mod page;
pub mod peers;
pub mod sampler;
pub mod share;
