use vstd::prelude::*;

verus! {

/// A control message understood by the bridge. The set of variants is closed:
/// the variant tag and the payload layout are part of the wire contract, and
/// adding a variant is a breaking wire-format change.
#[derive(Clone, Copy, Debug, PartialEq, Eq, Structural)]
pub enum Command {
    /// An absolute thrust setting. The payload holds the IEEE 754 bit pattern
    /// of the 32-bit thrust value; callers working in floating point convert
    /// at the boundary with `f32::to_bits` and `f32::from_bits`. No range
    /// constraint is imposed: semantic validation is the caller's business.
    SetThrust { thrust_bits: u32 },
    /// A liveness signal with no payload.
    Heartbeat,
}

/// The outbound notification envelope: an ephemeral message with no identity
/// beyond its content, pushed to the presentation layer's event system.
#[derive(Clone, Debug)]
pub struct Payload {
    pub message: String,
}

impl Payload {
    /// Wraps a message for emission to the presentation layer.
    pub fn new(message: String) -> (r: Payload)
        ensures
            r.message == message,
    {
        Payload { message }
    }
}

} // verus!
