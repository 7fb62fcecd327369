use vstd::prelude::*;

verus! {

/// Every way in which a bridge run or a codec call can fail.
#[derive(Debug, Clone, Copy, PartialEq, Eq, Structural)]
pub enum BridgeError {
    AdapterUnavailable,
    PeripheralNotFound,
    ConnectionFailed,
    CharacteristicNotFound,
    ServiceRegistrationFailed,
    AdvertisingFailed,
    AdapterPoweredOff,
    WriteFailure,
    EmptyPayload,
    MalformedPacket,
    SourceClosed,
}

impl BridgeError {
    /// Closure of the local source ends a run gracefully; every other kind
    /// is a fault worth reporting.
    pub fn is_graceful(&self) -> (r: bool)
        ensures
            r == (*self == BridgeError::SourceClosed),
    {
        matches!(self, BridgeError::SourceClosed)
    }
}

} // verus!
