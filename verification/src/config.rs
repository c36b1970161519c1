//! Startup configuration for either loop: every knob is an explicit value
//! handed to the components at construction, never read from ambient or
//! global state.

use vstd::prelude::*;
use vstd::string::StringExecFns;

verus! {

/// The startup configuration of one client process.
pub struct ClientConfig {
    pub server_address: String,
    pub stream_name: String,
    pub topic_name: String,
    pub partition_id: u32,
    pub poll_interval_ms: u64,
    pub batch_size: u32,
    pub send_interval_secs: u64,
}

impl ClientConfig {
    /// A configuration that can drive the loops: polls are bounded by at
    /// least one message, and a backoff sleeps for some positive time.
    pub open spec fn wf(&self) -> bool {
        self.batch_size >= 1 && self.poll_interval_ms >= 1
    }

    /// The demonstration defaults: the local broker, one demo stream and
    /// topic, partition 0, a 500 ms poll interval, batches of 10, one send
    /// per second.
    pub fn demo_defaults() -> (r: ClientConfig)
        ensures
            r.server_address@ == "http://localhost:3000"@,
            r.stream_name@ == "demo-stream"@,
            r.topic_name@ == "demo-topic"@,
            r.partition_id == 0,
            r.poll_interval_ms == 500,
            r.batch_size == 10,
            r.send_interval_secs == 1,
            r.wf(),
    {
        ClientConfig {
            server_address: String::from_str("http://localhost:3000"),
            stream_name: String::from_str("demo-stream"),
            topic_name: String::from_str("demo-topic"),
            partition_id: 0,
            poll_interval_ms: 500,
            batch_size: 10,
            send_interval_secs: 1,
        }
    }
}

} // verus!
