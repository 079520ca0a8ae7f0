//! A verified message-relay core for a bridge between a chat channel and a
//! mesh radio channel: packet translation, loop prevention, per-channel
//! isolation, node-name resolution, acknowledgement policy, device-discovery
//! heuristics, and the per-event decisions of both transports.
pub mod broker;
pub mod config;
pub mod detect;
pub mod irc_logic;
pub mod nodes;
pub mod packet;
pub mod text;
pub mod translate;

use config::Config;
use vstd::prelude::*;

verus! {

/// A chat-side message: who said it and what was said.
pub struct IrcMessage {
    pub sender: String,
    pub content: String,
}

/// The orchestrator's handle: it owns the resolved configuration. The run
/// loop around it, which wires the two transports together, lives outside the
/// verified core.
pub struct Bridge {
    pub config: Config,
}

impl Bridge {
    /// Wraps a resolved configuration.
    pub fn new(config: Config) -> (b: Bridge)
        ensures
            b.config == config,
    {
        Bridge { config }
    }
}

} // verus!
