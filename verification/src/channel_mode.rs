use vstd::prelude::*;

use crate::parse_error::ParseError;

verus! {

/// Channel-level messages that should alter the mode of the receiver. Used in [`MidiMsg`](crate::MidiMsg).
#[derive(Debug, Clone, Copy, PartialEq)]
pub enum ChannelModeMsg {
    /// Sound playing on the channel should be stopped as soon as possible, per GM2.
    AllSoundOff,
    /// Stop sounding all notes on the channel.
    AllNotesOff,
    /// All controllers should be reset to their default values. GM specifies some of these defaults.
    ResetAllControllers,
    /// An instrument set to `OmniMode(true)` should respond to MIDI messages sent over all channels.
    OmniMode(bool),
    /// Request that the receiver set itself to be monophonic/polyphonic.
    PolyMode(PolyMode),
    /// Used to turn on or off "local control" of a MIDI synthesizer instrument. When the instrument
    /// does not have local control, its controller should only send out MIDI signals while the synthesizer should only respond to remote MIDI messages.
    LocalControl(bool),
}

/// Used by [`ChannelModeMsg::PolyMode`].
#[derive(Debug, Clone, Copy, PartialEq)]
pub enum PolyMode {
    /// Request that the receiver be monophonic, with the given number M representing the
    /// number of channels that should be dedicated. Since this is sent with a `ChannelModeMsg`
    /// there is already a "base" channel associated with it, and the number of requested channels
    /// should be from this base channel N to N+M. `0` is a special case that directing the receiver
    /// to assign the voices to as many channels as it can receive.
    Mono(u8),
    /// Request the receiver to be polyphonic
    Poly,
}

impl ChannelModeMsg {
    /// The two bytes that follow the status byte.
    pub open spec fn spec_midi_running(self) -> Seq<u8> {
        match self {
            ChannelModeMsg::AllSoundOff => seq![120u8, 0u8],
            ChannelModeMsg::ResetAllControllers => seq![121u8, 0u8],
            ChannelModeMsg::LocalControl(on) => seq![122u8, if on { 127u8 } else { 0u8 }],
            ChannelModeMsg::AllNotesOff => seq![123u8, 0u8],
            ChannelModeMsg::OmniMode(on) => seq![if on { 125u8 } else { 124u8 }, 0u8],
            ChannelModeMsg::PolyMode(m) => match m {
                PolyMode::Poly => seq![127u8, 0u8],
                PolyMode::Mono(n) => seq![126u8, if n < 16 { n } else { 16u8 }],
            },
        }
    }

    /// The bytes of this message on channel 1.
    pub open spec fn spec_midi(self) -> Seq<u8> {
        seq![0xB0u8] + self.spec_midi_running()
    }

    /// Append this message, as sent on channel 1.
    pub fn extend_midi(&self, v: &mut Vec<u8>)
        ensures
            final(v)@ == old(v)@ + self.spec_midi(),
    {
        v.push(0xB0);
        self.extend_midi_running(v);
    }

    /// Append the two bytes that follow the status byte.
    pub fn extend_midi_running(&self, v: &mut Vec<u8>)
        ensures
            final(v)@ == old(v)@ + self.spec_midi_running(),
    {
        match *self {
            ChannelModeMsg::AllSoundOff => {
                v.push(120);
                v.push(0);
            },
            ChannelModeMsg::ResetAllControllers => {
                v.push(121);
                v.push(0);
            },
            ChannelModeMsg::LocalControl(on) => {
                v.push(122);
                v.push(
                    if on {
                        127
                    } else {
                        0
                    },
                );
            },
            ChannelModeMsg::AllNotesOff => {
                v.push(123);
                v.push(0);
            },
            ChannelModeMsg::OmniMode(on) => {
                v.push(
                    if on {
                        125
                    } else {
                        124
                    },
                );
                v.push(0);
            },
            ChannelModeMsg::PolyMode(m) => match m {
                PolyMode::Poly => {
                    v.push(127);
                    v.push(0);
                },
                PolyMode::Mono(n) => {
                    v.push(126);
                    v.push(
                        if n < 16 {
                            n
                        } else {
                            16
                        },
                    );
                },
            },
        }
    }

    /// Parsing of channel mode messages is not implemented: always an error.
    pub fn from_midi(_m: &[u8]) -> (r: Result<(ChannelModeMsg, usize), ParseError>)
        ensures
            r == Err::<(ChannelModeMsg, usize), ParseError>(
                ParseError::NotImplemented("ChannelModeMsg"),
            ),
    {
        Err(ParseError::NotImplemented("ChannelModeMsg"))
    }

    /// Parsing of running status channel mode messages is not implemented: always an error.
    pub fn from_midi_running(_m: &[u8]) -> (r: Result<(ChannelModeMsg, usize), ParseError>)
        ensures
            r == Err::<(ChannelModeMsg, usize), ParseError>(
                ParseError::NotImplemented("ChannelModeMsg"),
            ),
    {
        Err(ParseError::NotImplemented("ChannelModeMsg"))
    }
}

} // verus!
