use vstd::prelude::*;

verus! {

/// Failures of the packet layer.
#[derive(Debug, Clone, Copy, PartialEq, Eq, Structural)]
pub enum MqttError {
    InvalidPacketType,
    InvalidQOSLevel,
    InvalidRetries,
}

} // verus!
