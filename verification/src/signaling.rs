use vstd::prelude::*;

verus! {

/// What a visiting device asks to reach on the remote one.
#[derive(Clone, Copy, Debug, PartialEq, Eq, Structural)]
pub enum ResourceType {
    Desktop,
    Files,
}

/// A request to visit `remote_device_id` from `local_device_id`.
pub struct VisitRequest {
    pub local_device_id: String,
    pub remote_device_id: String,
    pub resource_type: ResourceType,
}

/// The signaling service's answer to a visit request.
#[derive(Clone, Copy, Debug, PartialEq, Eq, Structural)]
pub struct VisitResponse {
    pub allow: bool,
}

} // verus!
