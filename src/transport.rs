use vstd::prelude::*;

use crate::packet::PACKET_LEN;

verus! {

/// What a single write of a packet achieved. The protocol has no
/// acknowledgement and nothing is retried, so a short write is reported, not
/// treated as fatal.
#[derive(Debug, Clone, Copy, PartialEq, Eq, Structural)]
pub enum Delivery {
    /// The channel accepted the whole packet.
    Complete,
    /// The channel accepted only this many bytes.
    Short { written: usize },
}

impl Delivery {
    /// Classifies the byte count that the channel reported for one write of a
    /// whole packet.
    pub fn from_written(written: usize) -> (r: Delivery)
        ensures
            written >= PACKET_LEN ==> r == Delivery::Complete,
            written < PACKET_LEN ==> r == (Delivery::Short { written }),
    {
        if written >= PACKET_LEN {
            Delivery::Complete
        } else {
            Delivery::Short { written }
        }
    }
}

} // verus!
