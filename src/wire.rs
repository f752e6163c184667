//! Records as the remote service sends them, before any validation.
use vstd::prelude::*;

verus! {

/// A workflow as sent by the workflow service.
#[derive(Clone, Debug)]
pub struct WireWorkflow {
    pub id: String,
    /// JSON text naming the device and the image.
    pub hardware: String,
    pub state: i32,
}

/// A point in time as seconds since the Unix epoch and a nanosecond part.
#[derive(Clone, Copy, Debug)]
pub struct WireTimestamp {
    pub seconds: i64,
    pub nanos: i32,
}

/// One event of a workflow's action, as sent by the workflow service.
#[derive(Clone, Debug)]
pub struct WireActionStatus {
    pub workflow_id: String,
    pub task_name: String,
    pub action_name: String,
    pub action_status: i32,
    pub seconds: i64,
    pub message: String,
    pub created_at: Option<WireTimestamp>,
    pub worker_id: String,
}

#[derive(Clone, Debug)]
pub struct WireDhcp {
    pub hostname: String,
}

#[derive(Clone, Debug)]
pub struct WireInterface {
    pub dhcp: Option<WireDhcp>,
}

#[derive(Clone, Debug)]
pub struct WireNetwork {
    pub interfaces: Vec<WireInterface>,
}

/// A machine as sent by the hardware service.
#[derive(Clone, Debug)]
pub struct WireHardware {
    pub id: String,
    pub network: Option<WireNetwork>,
}

} // verus!
