use vstd::prelude::*;
use vstd::slice::slice_subrange;

use crate::parse_error::ParseError;
use crate::time_code::TimeCode;
use crate::util::{
    push_u14, spec_u14_bytes, spec_u14_from_midi, spec_u7, spec_u7_from_midi, to_u7,
    u14_from_midi, u7_from_midi,
};

verus! {

/// A fairly limited set of messages, generally for device synchronization.
/// Used in [`MidiMsg`](crate::MidiMsg).
#[derive(Debug, Clone, Copy, PartialEq)]
pub enum SystemCommonMsg {
    /// The first of 8 "quarter frame" messages, which are meant to be sent 4 per "frame".
    /// These messages function similarly to [`SystemRealTimeMsg::TimingClock`](crate::SystemRealTimeMsg::TimingClock)
    /// but additionally indicate the specific point in the playback that they refer to, as well
    /// as the frame rate. This means that a full `TimeCode` is send over the course of two frames.
    ///
    /// They are sent in reverse order if time is playing in reverse.
    TimeCodeQuarterFrame1(TimeCode),
    TimeCodeQuarterFrame2(TimeCode),
    TimeCodeQuarterFrame3(TimeCode),
    TimeCodeQuarterFrame4(TimeCode),
    TimeCodeQuarterFrame5(TimeCode),
    TimeCodeQuarterFrame6(TimeCode),
    TimeCodeQuarterFrame7(TimeCode),
    TimeCodeQuarterFrame8(TimeCode),
    /// Indicate the song position, in MIDI beats, where 1 MIDI beat = 6 MIDI clocks. 0-16383
    SongPosition(u16),
    /// Select a song numbered 0-127.
    SongSelect(u8),
    /// Request that the oscillators of an analog synth be tuned.
    TuneRequest,
}

impl SystemCommonMsg {
    /// The quarter frame message with piece number `n` (0-7) carrying `tc`.
    pub open spec fn spec_quarter_frame(n: u8, tc: TimeCode) -> SystemCommonMsg {
        if n == 0 {
            SystemCommonMsg::TimeCodeQuarterFrame1(tc)
        } else if n == 1 {
            SystemCommonMsg::TimeCodeQuarterFrame2(tc)
        } else if n == 2 {
            SystemCommonMsg::TimeCodeQuarterFrame3(tc)
        } else if n == 3 {
            SystemCommonMsg::TimeCodeQuarterFrame4(tc)
        } else if n == 4 {
            SystemCommonMsg::TimeCodeQuarterFrame5(tc)
        } else if n == 5 {
            SystemCommonMsg::TimeCodeQuarterFrame6(tc)
        } else if n == 6 {
            SystemCommonMsg::TimeCodeQuarterFrame7(tc)
        } else {
            SystemCommonMsg::TimeCodeQuarterFrame8(tc)
        }
    }

    /// The bytes of this message.
    pub open spec fn spec_midi(self) -> Seq<u8> {
        match self {
            SystemCommonMsg::TimeCodeQuarterFrame1(qf) => seq![0xF1u8, qf.spec_to_nibbles()[0]],
            SystemCommonMsg::TimeCodeQuarterFrame2(qf) => seq![0xF1u8, qf.spec_to_nibbles()[1]],
            SystemCommonMsg::TimeCodeQuarterFrame3(qf) => seq![0xF1u8, qf.spec_to_nibbles()[2]],
            SystemCommonMsg::TimeCodeQuarterFrame4(qf) => seq![0xF1u8, qf.spec_to_nibbles()[3]],
            SystemCommonMsg::TimeCodeQuarterFrame5(qf) => seq![0xF1u8, qf.spec_to_nibbles()[4]],
            SystemCommonMsg::TimeCodeQuarterFrame6(qf) => seq![0xF1u8, qf.spec_to_nibbles()[5]],
            SystemCommonMsg::TimeCodeQuarterFrame7(qf) => seq![0xF1u8, qf.spec_to_nibbles()[6]],
            SystemCommonMsg::TimeCodeQuarterFrame8(qf) => seq![0xF1u8, qf.spec_to_nibbles()[7]],
            SystemCommonMsg::SongPosition(pos) => seq![0xF2u8] + spec_u14_bytes(pos),
            SystemCommonMsg::SongSelect(song) => seq![0xF3u8, spec_u7(song as int)],
            SystemCommonMsg::TuneRequest => seq![0xF6u8],
        }
    }

    /// Parsing from `m`, given the time code received so far: the message, its length, and the
    /// time code afterwards.
    pub open spec fn spec_from_midi(m: Seq<u8>, tc: TimeCode) -> Result<
        (SystemCommonMsg, usize, TimeCode),
        ParseError,
    > {
        let b = m[0];
        let rest = m.subrange(1, m.len() as int);
        if b == 0xF1 {
            if m.len() < 2 {
                Err(ParseError::UnexpectedEnd)
            } else if m[1] > 127 {
                Err(ParseError::ByteOverflow)
            } else {
                let (tc2, n) = tc.spec_extend(m[1]);
                Ok((SystemCommonMsg::spec_quarter_frame(n, tc2), 2usize, tc2))
            }
        } else if b == 0xF2 {
            match spec_u14_from_midi(rest) {
                Ok(x) => Ok((SystemCommonMsg::SongPosition(x), 3usize, tc)),
                Err(e) => Err(e),
            }
        } else if b == 0xF3 {
            match spec_u7_from_midi(rest) {
                Ok(x) => Ok((SystemCommonMsg::SongSelect(x), 2usize, tc)),
                Err(e) => Err(e),
            }
        } else if b == 0xF6 {
            Ok((SystemCommonMsg::TuneRequest, 1usize, tc))
        } else if b == 0xF7 {
            Err(ParseError::UnexpectedEndOfSystemExclusiveFlag)
        } else {
            Err(ParseError::UndefinedSystemCommonMessage(b))
        }
    }

    /// Append the bytes of this message.
    pub fn extend_midi(&self, v: &mut Vec<u8>)
        ensures
            final(v)@ == old(v)@ + self.spec_midi(),
    {
        match *self {
            SystemCommonMsg::TimeCodeQuarterFrame1(qf) => {
                v.push(0xF1);
                v.push(qf.to_nibbles()[0]);
            },
            SystemCommonMsg::TimeCodeQuarterFrame2(qf) => {
                v.push(0xF1);
                v.push(qf.to_nibbles()[1]);
            },
            SystemCommonMsg::TimeCodeQuarterFrame3(qf) => {
                v.push(0xF1);
                v.push(qf.to_nibbles()[2]);
            },
            SystemCommonMsg::TimeCodeQuarterFrame4(qf) => {
                v.push(0xF1);
                v.push(qf.to_nibbles()[3]);
            },
            SystemCommonMsg::TimeCodeQuarterFrame5(qf) => {
                v.push(0xF1);
                v.push(qf.to_nibbles()[4]);
            },
            SystemCommonMsg::TimeCodeQuarterFrame6(qf) => {
                v.push(0xF1);
                v.push(qf.to_nibbles()[5]);
            },
            SystemCommonMsg::TimeCodeQuarterFrame7(qf) => {
                v.push(0xF1);
                v.push(qf.to_nibbles()[6]);
            },
            SystemCommonMsg::TimeCodeQuarterFrame8(qf) => {
                v.push(0xF1);
                v.push(qf.to_nibbles()[7]);
            },
            SystemCommonMsg::SongPosition(pos) => {
                v.push(0xF2);
                push_u14(pos, v);
            },
            SystemCommonMsg::SongSelect(song) => {
                v.push(0xF3);
                v.push(to_u7(song));
            },
            SystemCommonMsg::TuneRequest => v.push(0xF6),
        }
    }

    /// Parse a message from `m`, updating the time code from quarter frame messages.
    pub fn from_midi(m: &[u8], tc: &mut TimeCode) -> (r: Result<(SystemCommonMsg, usize), ParseError>)
        requires
            m@.len() >= 1,
        ensures
            match SystemCommonMsg::spec_from_midi(m@, *old(tc)) {
                Ok((msg, len, tc2)) => r == Ok::<(SystemCommonMsg, usize), ParseError>((msg, len))
                    && *final(tc) == tc2,
                Err(e) => r == Err::<(SystemCommonMsg, usize), ParseError>(e) && *final(tc) == *old(tc),
            },
    {
        let b = m[0];
        let rest = slice_subrange(m, 1, m.len());
        if b == 0xF1 {
            if m.len() < 2 {
                Err(ParseError::UnexpectedEnd)
            } else if m[1] > 127 {
                Err(ParseError::ByteOverflow)
            } else {
                let n = tc.extend(m[1]);
                let t = *tc;
                let msg = if n == 0 {
                    SystemCommonMsg::TimeCodeQuarterFrame1(t)
                } else if n == 1 {
                    SystemCommonMsg::TimeCodeQuarterFrame2(t)
                } else if n == 2 {
                    SystemCommonMsg::TimeCodeQuarterFrame3(t)
                } else if n == 3 {
                    SystemCommonMsg::TimeCodeQuarterFrame4(t)
                } else if n == 4 {
                    SystemCommonMsg::TimeCodeQuarterFrame5(t)
                } else if n == 5 {
                    SystemCommonMsg::TimeCodeQuarterFrame6(t)
                } else if n == 6 {
                    SystemCommonMsg::TimeCodeQuarterFrame7(t)
                } else {
                    SystemCommonMsg::TimeCodeQuarterFrame8(t)
                };
                Ok((msg, 2))
            }
        } else if b == 0xF2 {
            match u14_from_midi(rest) {
                Ok(x) => Ok((SystemCommonMsg::SongPosition(x), 3)),
                Err(e) => Err(e),
            }
        } else if b == 0xF3 {
            match u7_from_midi(rest) {
                Ok(x) => Ok((SystemCommonMsg::SongSelect(x), 2)),
                Err(e) => Err(e),
            }
        } else if b == 0xF6 {
            Ok((SystemCommonMsg::TuneRequest, 1))
        } else if b == 0xF7 {
            Err(ParseError::UnexpectedEndOfSystemExclusiveFlag)
        } else {
            Err(ParseError::UndefinedSystemCommonMessage(b))
        }
    }
}

} // verus!
