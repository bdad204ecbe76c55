use vstd::prelude::*;

verus! {

/// A sensor device. `uuid` is the external identifier, held as the 128-bit
/// value of a UUID; `id` is the identifier assigned by the store.
#[derive(Debug)]
pub struct Device {
    pub id: i64,
    pub uuid: u128,
    pub description: String,
    pub area: String,
}

/// A detection as the store records it: the device it came from, what
/// triggered it, and when it was recorded (microseconds since the Unix epoch).
#[derive(Debug)]
pub struct Detection {
    pub id: i64,
    pub device: Device,
    pub source: String,
    pub timestamp: i64,
}

/// A detection as a sensor sends it: the device that saw something and what
/// it saw.
#[derive(Debug)]
pub struct DetectionMessage {
    pub device: Device,
    pub source: String,
}

/// The signal broadcast to a topic group when a detection arrives.
#[derive(Clone, Copy, Debug, PartialEq, Eq, Structural)]
pub struct Alert {
    pub led: bool,
    pub speaker: bool,
}

impl Alert {
    /// The alert a detection triggers: light and sound both on.
    pub open spec fn spec_raised() -> Alert {
        Alert { led: true, speaker: true }
    }
}

impl Default for Alert {
    fn default() -> (r: Alert)
        ensures
            r == Alert::spec_raised(),
    {
        Alert { led: true, speaker: true }
    }
}

} // verus!
