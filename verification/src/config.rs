//! Settings of the flow that a queue subscription is read through.
use vstd::prelude::*;

verus! {

/// Flow configuration for queue subscriptions.  What is not set is left to the C client.
#[derive(Clone, Copy, Debug, PartialEq, Eq)]
pub struct FlowConfig {
    /// Flow window size (default 255). Higher values allow more throughput.
    pub window_size: Option<u32>,
    /// ACK timer in ms (default 1000).
    pub ack_timer_ms: Option<u32>,
    /// ACK threshold (default 60).
    pub ack_threshold: Option<u32>,
}

impl Default for FlowConfig {
    /// Nothing is set.
    fn default() -> (config: FlowConfig)
        ensures
            config == (FlowConfig { window_size: None, ack_timer_ms: None, ack_threshold: None }),
    {
        FlowConfig { window_size: None, ack_timer_ms: None, ack_threshold: None }
    }
}

} // verus!
