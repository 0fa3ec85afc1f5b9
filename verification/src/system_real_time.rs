use vstd::prelude::*;

use crate::parse_error::ParseError;

verus! {

/// A fairly limited set of messages used for device synchronization.
/// Used in [`MidiMsg`](crate::MidiMsg).
#[derive(Debug, Clone, Copy, PartialEq)]
pub enum SystemRealTimeMsg {
    /// Used to synchronize clocks. Sent at a rate of 24 per quarter note.
    TimingClock,
    /// Start at the beginning of the song or sequence.
    Start,
    /// Continue from the current location in the song or sequence.
    Continue,
    /// Stop playback.
    Stop,
    /// Sent every 300ms or less whenever other MIDI data is not sent.
    /// Used to indicate that the given device is still connected.
    ActiveSensing,
    /// Request that all devices are reset to their power-up state.
    SystemReset,
}

impl SystemRealTimeMsg {
    /// The status byte of this message.
    pub open spec fn spec_byte(self) -> u8 {
        match self {
            SystemRealTimeMsg::TimingClock => 0xF8,
            SystemRealTimeMsg::Start => 0xFA,
            SystemRealTimeMsg::Continue => 0xFB,
            SystemRealTimeMsg::Stop => 0xFC,
            SystemRealTimeMsg::ActiveSensing => 0xFE,
            SystemRealTimeMsg::SystemReset => 0xFF,
        }
    }

    /// The single byte of this message.
    pub open spec fn spec_midi(self) -> Seq<u8> {
        seq![self.spec_byte()]
    }

    /// Parsing from a first byte `b`.
    pub open spec fn spec_from_byte(b: u8) -> Result<(SystemRealTimeMsg, usize), ParseError> {
        if b == 0xF8 {
            Ok((SystemRealTimeMsg::TimingClock, 1usize))
        } else if b == 0xFA {
            Ok((SystemRealTimeMsg::Start, 1usize))
        } else if b == 0xFB {
            Ok((SystemRealTimeMsg::Continue, 1usize))
        } else if b == 0xFC {
            Ok((SystemRealTimeMsg::Stop, 1usize))
        } else if b == 0xFE {
            Ok((SystemRealTimeMsg::ActiveSensing, 1usize))
        } else if b == 0xFF {
            Ok((SystemRealTimeMsg::SystemReset, 1usize))
        } else {
            Err(ParseError::UndefinedSystemRealTimeMessage(b))
        }
    }

    /// Append the byte of this message.
    pub fn extend_midi(&self, v: &mut Vec<u8>)
        ensures
            final(v)@ == old(v)@ + self.spec_midi(),
    {
        match self {
            SystemRealTimeMsg::TimingClock => v.push(0xF8),
            SystemRealTimeMsg::Start => v.push(0xFA),
            SystemRealTimeMsg::Continue => v.push(0xFB),
            SystemRealTimeMsg::Stop => v.push(0xFC),
            SystemRealTimeMsg::ActiveSensing => v.push(0xFE),
            SystemRealTimeMsg::SystemReset => v.push(0xFF),
        }
    }

    /// Parse a message from its first byte.
    pub fn from_midi(m: &[u8]) -> (r: Result<(SystemRealTimeMsg, usize), ParseError>)
        requires
            m@.len() >= 1,
        ensures
            r == SystemRealTimeMsg::spec_from_byte(m@[0]),
    {
        let b = m[0];
        if b == 0xF8 {
            Ok((SystemRealTimeMsg::TimingClock, 1))
        } else if b == 0xFA {
            Ok((SystemRealTimeMsg::Start, 1))
        } else if b == 0xFB {
            Ok((SystemRealTimeMsg::Continue, 1))
        } else if b == 0xFC {
            Ok((SystemRealTimeMsg::Stop, 1))
        } else if b == 0xFE {
            Ok((SystemRealTimeMsg::ActiveSensing, 1))
        } else if b == 0xFF {
            Ok((SystemRealTimeMsg::SystemReset, 1))
        } else {
            Err(ParseError::UndefinedSystemRealTimeMessage(b))
        }
    }
}

} // verus!
