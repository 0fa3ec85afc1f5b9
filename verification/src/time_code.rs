use vstd::prelude::*;

use ascii::AsciiString;

use crate::message::{clone_messages, spec_all_serializable, spec_nibblized_midi, MidiMsg};
use crate::parse_error::ParseError;
use crate::text::{ascii_as_bytes, ascii_bytes};
use crate::util::{push_u14, spec_u14_bytes, to_nibble};

verus! {

/// Used to synchronize device positions, by [`SystemCommonMsg::TimeCodeQuarterFrameX`](crate::SystemCommonMsg::TimeCodeQuarterFrame1)
/// as well as [`UniversalRealTimeMsg::TimeCodeFull`](crate::UniversalRealTimeMsg::TimeCodeFull).
///
/// Based on [the SMTPE time code standard](https://en.wikipedia.org/wiki/SMPTE_timecode).
///
/// As defined in the MIDI Time Code spec (MMA0001 / RP004 / RP008)
#[derive(Debug, Clone, Copy, PartialEq)]
pub struct TimeCode {
    /// The position in frames, 0-29
    pub frames: u8,
    /// The position in seconds, 0-59
    pub seconds: u8,
    /// The position in minutes, 0-59
    pub minutes: u8,
    /// The position in hours, 0-23
    pub hours: u8,
    pub code_type: TimeCodeType,
}

/// Indicates the frame rate of the given [`TimeCode`].
///
/// See [the SMTPE time code standard](https://en.wikipedia.org/wiki/SMPTE_timecode).
#[derive(Debug, Clone, Copy, PartialEq, Eq, Structural)]
pub enum TimeCodeType {
    /// 24 Frames per second
    FPS24,
    /// 25 Frames per second
    FPS25,
    /// 30 Frames per second, Drop Frame
    DF30,
    /// 30 Frames per second, Non-Drop Frame
    NDF30,
}

/// Like [`TimeCode`] but includes `fractional_frames`. Used in `TimeCodeCueingSetupMsg`.
///
/// As defined in the MIDI Time Code spec (MMA0001 / RP004 / RP008)
#[derive(Debug, Clone, Copy, PartialEq)]
pub struct HighResTimeCode {
    /// 0-99
    pub fractional_frames: u8,
    /// 0-29
    pub frames: u8,
    /// 0-59
    pub seconds: u8,
    /// 0-59
    pub minutes: u8,
    /// 0-23
    pub hours: u8,
    pub code_type: TimeCodeType,
}

/// Like [`TimeCode`] but uses `subframes` to optionally include status flags, and fractional frames.
/// Also may be negative. Used in [`MachineControlCommandMsg`](crate::MachineControlCommandMsg).
///
/// As defined in MIDI Machine Control 1.0 (MMA0016 / RP013) and
/// MIDI Show Control 1.1.1 (RP002/RP014)
#[derive(Debug, Clone, Copy, PartialEq)]
pub struct StandardTimeCode {
    pub subframes: SubFrames,
    /// The position in frames, where a negative value indicates a negative TimeCode, -29-29
    pub frames: i8,
    /// The position in seconds, 0-59
    pub seconds: u8,
    /// The position in minutes, 0-59
    pub minutes: u8,
    /// The position in hours, 0-23
    pub hours: u8,
    pub code_type: TimeCodeType,
}

/// Used by [`StandardTimeCode`].
#[derive(Debug, Clone, Copy, PartialEq)]
pub enum SubFrames {
    /// The position in fractional frames, 0-99
    FractionalFrames(u8),
    /// Additional flags describing the status of this timecode.
    Status(TimeCodeStatus),
}

/// Used by [`StandardTimeCode`].
#[derive(Debug, Clone, Copy, PartialEq)]
pub struct TimeCodeStatus {
    pub estimated_code: bool,
    pub invalid_code: bool,
    pub video_field1: bool,
    pub no_time_code: bool,
}

/// 32 bits defined by SMPTE for "special functions". Used in [`UniversalRealTimeMsg::TimeCodeUserBits`](crate::UniversalRealTimeMsg::TimeCodeUserBits).
/// See [the SMTPE time code standard](https://en.wikipedia.org/wiki/SMPTE_timecode).
///
/// As defined in the MIDI Time Code spec (MMA0001 / RP004 / RP008)
#[derive(Debug, Copy, Clone, PartialEq)]
pub struct UserBits {
    /// Full bytes can be used here. Sent such that the first is considered
    /// the "most significant" value
    pub bytes: (u8, u8, u8, u8),
    /// SMPTE time code bit 43 (EBU bit 27)
    pub flag1: bool,
    /// SMPTE time code bit 59 (EBU bit 43)
    pub flag2: bool,
}

/// Like [`UserBits`] but allows for the embedding of a "secondary time code".
///
/// As defined in MIDI Machine Control 1.0 (MMA0016 / RP013)
#[derive(Debug, Copy, Clone, PartialEq)]
pub struct StandardUserBits {
    /// Full bytes can be used here. Sent such that the first is considered
    /// the "most significant" value
    pub bytes: (u8, u8, u8, u8),
    /// SMPTE time code bit 43 (EBU bit 27)
    pub flag1: bool,
    /// SMPTE time code bit 59 (EBU bit 43)
    pub flag2: bool,
    /// Contains a secondary time code
    pub secondary_time_code: bool,
}

pub open spec fn spec_min(x: u8, m: u8) -> u8 {
    if x < m { x } else { m }
}

fn min_u8(x: u8, m: u8) -> (r: u8)
    ensures
        r == spec_min(x, m),
{
    if x < m {
        x
    } else {
        m
    }
}

impl TimeCodeType {
    /// The two-bit number of this frame rate.
    pub open spec fn spec_to_u8(self) -> u8 {
        match self {
            TimeCodeType::FPS24 => 0,
            TimeCodeType::FPS25 => 1,
            TimeCodeType::DF30 => 2,
            TimeCodeType::NDF30 => 3,
        }
    }

    /// The frame rate with the given two-bit number.
    pub open spec fn spec_from_u2(x: u8) -> TimeCodeType {
        if x % 4 == 0 {
            TimeCodeType::FPS24
        } else if x % 4 == 1 {
            TimeCodeType::FPS25
        } else if x % 4 == 2 {
            TimeCodeType::DF30
        } else {
            TimeCodeType::NDF30
        }
    }

    /// The two-bit number of this frame rate.
    pub fn to_u8(&self) -> (r: u8)
        ensures
            r == self.spec_to_u8(),
            r < 4,
    {
        match self {
            TimeCodeType::FPS24 => 0,
            TimeCodeType::FPS25 => 1,
            TimeCodeType::DF30 => 2,
            TimeCodeType::NDF30 => 3,
        }
    }

    /// The frame rate with the given number (taken modulo 4).
    pub fn from_u2(x: u8) -> (r: TimeCodeType)
        ensures
            r == TimeCodeType::spec_from_u2(x),
    {
        if x % 4 == 0 {
            TimeCodeType::FPS24
        } else if x % 4 == 1 {
            TimeCodeType::FPS25
        } else if x % 4 == 2 {
            TimeCodeType::DF30
        } else {
            TimeCodeType::NDF30
        }
    }
}

impl Default for TimeCodeType {
    fn default() -> (r: Self)
        ensures
            r == TimeCodeType::NDF30,
    {
        TimeCodeType::NDF30
    }
}

impl Default for TimeCode {
    fn default() -> (r: Self)
        ensures
            r == (TimeCode {
                frames: 0,
                seconds: 0,
                minutes: 0,
                hours: 0,
                code_type: TimeCodeType::NDF30,
            }),
    {
        TimeCode { frames: 0, seconds: 0, minutes: 0, hours: 0, code_type: TimeCodeType::NDF30 }
    }
}

impl TimeCode {
    /// The four byte representation: [frames, seconds, minutes, code type + hours], with each
    /// field clamped to its range.
    pub open spec fn spec_to_bytes(self) -> Seq<u8> {
        seq![
            spec_min(self.frames, 29),
            spec_min(self.seconds, 59),
            spec_min(self.minutes, 59),
            (spec_min(self.hours, 23) + self.code_type.spec_to_u8() * 32) as u8,
        ]
    }

    /// The bytes of a full time code message: the four byte representation, most
    /// significant first.
    pub open spec fn spec_midi(self) -> Seq<u8> {
        self.spec_to_bytes().reverse()
    }

    /// The eight quarter frame bytes: piece number in the high nibble, and the low and then
    /// high nibble of each byte of the representation.
    pub open spec fn spec_to_nibbles(self) -> Seq<u8> {
        let b = self.spec_to_bytes();
        seq![
            (b[0] % 16) as u8,
            (16 + b[0] / 16) as u8,
            (32 + b[1] % 16) as u8,
            (48 + b[1] / 16) as u8,
            (64 + b[2] % 16) as u8,
            (80 + b[2] / 16) as u8,
            (96 + b[3] % 16) as u8,
            (112 + b[3] / 16) as u8,
        ]
    }

    /// The time code after receiving the quarter frame byte `nibble`, and the piece number.
    pub open spec fn spec_extend(self, nibble: u8) -> (TimeCode, u8) {
        let n = nibble / 16;
        let x = nibble % 16;
        (
            if n == 0 {
                TimeCode { frames: ((self.frames / 16) * 16 + x) as u8, ..self }
            } else if n == 1 {
                TimeCode { frames: ((self.frames % 16) + x * 16) as u8, ..self }
            } else if n == 2 {
                TimeCode { seconds: ((self.seconds / 16) * 16 + x) as u8, ..self }
            } else if n == 3 {
                TimeCode { seconds: ((self.seconds % 16) + x * 16) as u8, ..self }
            } else if n == 4 {
                TimeCode { minutes: ((self.minutes / 16) * 16 + x) as u8, ..self }
            } else if n == 5 {
                TimeCode { minutes: ((self.minutes % 16) + x * 16) as u8, ..self }
            } else if n == 6 {
                TimeCode { hours: ((self.hours / 16) * 16 + x) as u8, ..self }
            } else {
                TimeCode {
                    hours: ((self.hours % 16) + (x % 2) * 16) as u8,
                    code_type: TimeCodeType::spec_from_u2(x / 2),
                    ..self
                }
            },
            n,
        )
    }

    /// Return the four byte representation of the frame: [frame, seconds, minutes, timecode + hours]
    pub fn to_bytes(self) -> (r: [u8; 4])
        ensures
            r@ == self.spec_to_bytes(),
    {
        let r = [
            min_u8(self.frames, 29),
            min_u8(self.seconds, 59),
            min_u8(self.minutes, 59),
            min_u8(self.hours, 23) + self.code_type.to_u8() * 32,
        ];
        assert(r@ == self.spec_to_bytes());
        r
    }

    /// Append the bytes of a full time code: [timecode + hours, minutes, seconds, frame].
    pub fn extend_midi(&self, v: &mut Vec<u8>)
        ensures
            final(v)@ == old(v)@ + self.spec_midi(),
    {
        let b = self.to_bytes();
        v.push(b[3]);
        v.push(b[2]);
        v.push(b[1]);
        v.push(b[0]);
        assert(self.spec_midi() == seq![b[3], b[2], b[1], b[0]]);
    }

    /// Return an 8 byte, Quarter Frame representation of the Frame
    pub fn to_nibbles(self) -> (r: [u8; 8])
        ensures
            r@ == self.spec_to_nibbles(),
    {
        let b = self.to_bytes();
        let f = to_nibble(b[0]);
        let s = to_nibble(b[1]);
        let m = to_nibble(b[2]);
        let h = to_nibble(b[3]);
        let r = [
            f[1],
            16 + f[0],
            32 + s[1],
            48 + s[0],
            64 + m[1],
            80 + m[0],
            96 + h[1],
            112 + h[0],
        ];
        assert(r@ == self.spec_to_nibbles());
        r
    }

    /// Update the time code from a quarter frame byte, returning the quarter frame number.
    pub fn extend(&mut self, nibble: u8) -> (r: u8)
        requires
            nibble <= 127,
        ensures
            (*final(self), r) == old(self).spec_extend(nibble),
            r <= 7,
    {
        let frame_number = nibble / 16;
        let x = nibble % 16;
        if frame_number == 0 {
            self.frames = (self.frames / 16) * 16 + x;
        } else if frame_number == 1 {
            self.frames = (self.frames % 16) + x * 16;
        } else if frame_number == 2 {
            self.seconds = (self.seconds / 16) * 16 + x;
        } else if frame_number == 3 {
            self.seconds = (self.seconds % 16) + x * 16;
        } else if frame_number == 4 {
            self.minutes = (self.minutes / 16) * 16 + x;
        } else if frame_number == 5 {
            self.minutes = (self.minutes % 16) + x * 16;
        } else if frame_number == 6 {
            self.hours = (self.hours / 16) * 16 + x;
        } else {
            self.hours = (self.hours % 16) + (x % 2) * 16;
            self.code_type = TimeCodeType::from_u2(x / 2);
        }
        frame_number
    }
}

impl Default for HighResTimeCode {
    fn default() -> (r: Self)
        ensures
            r == HighResTimeCode::spec_default(),
    {
        HighResTimeCode {
            fractional_frames: 0,
            frames: 0,
            seconds: 0,
            minutes: 0,
            hours: 0,
            code_type: TimeCodeType::NDF30,
        }
    }
}

impl HighResTimeCode {
    /// The zero time code at 30 frames per second, non-drop.
    pub open spec fn spec_default() -> HighResTimeCode {
        HighResTimeCode {
            fractional_frames: 0,
            frames: 0,
            seconds: 0,
            minutes: 0,
            hours: 0,
            code_type: TimeCodeType::NDF30,
        }
    }

    /// [fractional frames, frames, seconds, minutes, code type + hours], each clamped.
    pub open spec fn spec_to_bytes(self) -> Seq<u8> {
        seq![
            spec_min(self.fractional_frames, 99),
            spec_min(self.frames, 29),
            spec_min(self.seconds, 59),
            spec_min(self.minutes, 59),
            (spec_min(self.hours, 23) + self.code_type.spec_to_u8() * 32) as u8,
        ]
    }

    /// The five byte representation, most significant first.
    pub open spec fn spec_midi(self) -> Seq<u8> {
        self.spec_to_bytes().reverse()
    }

    /// Return the five byte representation of the frame:
    /// [fractional_frames, frames, seconds, minutes, timecode + hours]
    pub fn to_bytes(self) -> (r: [u8; 5])
        ensures
            r@ == self.spec_to_bytes(),
    {
        let r = [
            min_u8(self.fractional_frames, 99),
            min_u8(self.frames, 29),
            min_u8(self.seconds, 59),
            min_u8(self.minutes, 59),
            min_u8(self.hours, 23) + self.code_type.to_u8() * 32,
        ];
        assert(r@ == self.spec_to_bytes());
        r
    }

    /// Append the five byte representation, most significant first.
    pub fn extend_midi(&self, v: &mut Vec<u8>)
        ensures
            final(v)@ == old(v)@ + self.spec_midi(),
    {
        let b = self.to_bytes();
        v.push(b[4]);
        v.push(b[3]);
        v.push(b[2]);
        v.push(b[1]);
        v.push(b[0]);
        assert(self.spec_midi() == seq![b[4], b[3], b[2], b[1], b[0]]);
    }
}

impl Default for SubFrames {
    fn default() -> (r: Self)
        ensures
            r == SubFrames::FractionalFrames(0),
    {
        SubFrames::FractionalFrames(0)
    }
}

impl Default for TimeCodeStatus {
    fn default() -> (r: Self)
        ensures
            r == (TimeCodeStatus {
                estimated_code: false,
                invalid_code: false,
                video_field1: false,
                no_time_code: false,
            }),
    {
        TimeCodeStatus {
            estimated_code: false,
            invalid_code: false,
            video_field1: false,
            no_time_code: false,
        }
    }
}

impl TimeCodeStatus {
    /// The status flags as bits 6 (estimated), 5 (invalid), 4 (video field 1), 3 (no time code).
    pub open spec fn spec_to_byte(self) -> u8 {
        ((if self.estimated_code { 64int } else { 0 }) + (if self.invalid_code { 32int } else { 0 })
            + (if self.video_field1 { 16int } else { 0 }) + (if self.no_time_code { 8int } else { 0 }))
            as u8
    }

    /// The status flags as one byte.
    pub fn to_byte(&self) -> (r: u8)
        ensures
            r == self.spec_to_byte(),
    {
        let mut b: u8 = 0;
        if self.estimated_code {
            b = b + 64;
        }
        if self.invalid_code {
            b = b + 32;
        }
        if self.video_field1 {
            b = b + 16;
        }
        if self.no_time_code {
            b = b + 8;
        }
        b
    }
}

impl SubFrames {
    /// The fractional frames (clamped to 99), or the status flags.
    pub open spec fn spec_to_byte(self) -> u8 {
        match self {
            SubFrames::FractionalFrames(ff) => spec_min(ff, 99),
            SubFrames::Status(s) => s.spec_to_byte(),
        }
    }

    /// The subframes byte.
    pub fn to_byte(&self) -> (r: u8)
        ensures
            r == self.spec_to_byte(),
    {
        match *self {
            SubFrames::FractionalFrames(ff) => min_u8(ff, 99),
            SubFrames::Status(s) => s.to_byte(),
        }
    }
}

impl Default for StandardTimeCode {
    fn default() -> (r: Self)
        ensures
            r == (StandardTimeCode {
                subframes: SubFrames::FractionalFrames(0),
                frames: 0,
                seconds: 0,
                minutes: 0,
                hours: 0,
                code_type: TimeCodeType::NDF30,
            }),
    {
        StandardTimeCode {
            subframes: SubFrames::FractionalFrames(0),
            frames: 0,
            seconds: 0,
            minutes: 0,
            hours: 0,
            code_type: TimeCodeType::NDF30,
        }
    }
}

impl StandardTimeCode {
    /// [subframes, frames]: the frame count clamped to 29, with bit 5 set for status subframes
    /// and bit 6 set for a negative time code.
    pub open spec fn spec_to_bytes_short(self) -> Seq<u8> {
        let abs: int = if self.frames < 0 { -self.frames } else { self.frames as int };
        let f: int = if abs > 29 { 29 } else { abs };
        let status: int = match self.subframes {
            SubFrames::Status(_) => 32,
            _ => 0,
        };
        let neg: int = if self.frames < 0 { 64 } else { 0 };
        seq![self.subframes.spec_to_byte(), (f + status + neg) as u8]
    }

    /// [subframes, frames, seconds, minutes, code type + hours].
    pub open spec fn spec_to_bytes(self) -> Seq<u8> {
        self.spec_to_bytes_short() + seq![
            spec_min(self.seconds, 59),
            spec_min(self.minutes, 59),
            (spec_min(self.hours, 23) + self.code_type.spec_to_u8() * 32) as u8,
        ]
    }

    /// The five byte representation, most significant first.
    pub open spec fn spec_midi(self) -> Seq<u8> {
        self.spec_to_bytes().reverse()
    }

    /// The two byte representation, [frames, subframes].
    pub open spec fn spec_midi_short(self) -> Seq<u8> {
        self.spec_to_bytes_short().reverse()
    }

    /// Return the five byte representation of the frame:
    /// [fractional_frames, frames, seconds, minutes, timecode + hours]
    pub fn to_bytes(self) -> (r: [u8; 5])
        ensures
            r@ == self.spec_to_bytes(),
    {
        let s = self.to_bytes_short();
        let r = [
            s[0],
            s[1],
            min_u8(self.seconds, 59),
            min_u8(self.minutes, 59),
            min_u8(self.hours, 23) + self.code_type.to_u8() * 32,
        ];
        assert(r@ == self.spec_to_bytes());
        r
    }

    /// The two byte representation of the frame:
    /// [fractional_frames, frames]
    pub fn to_bytes_short(self) -> (r: [u8; 2])
        ensures
            r@ == self.spec_to_bytes_short(),
    {
        let a: i16 = if self.frames < 0 {
            -(self.frames as i16)
        } else {
            self.frames as i16
        };
        let mut frames: u8 = if a > 29 {
            29
        } else {
            a as u8
        };
        if let SubFrames::Status(_) = self.subframes {
            frames = frames + 32;
        }
        if self.frames < 0 {
            frames = frames + 64;
        }
        let r = [self.subframes.to_byte(), frames];
        assert(r@ == self.spec_to_bytes_short());
        r
    }

    /// Append the five byte representation, most significant first.
    pub fn extend_midi(&self, v: &mut Vec<u8>)
        ensures
            final(v)@ == old(v)@ + self.spec_midi(),
    {
        let b = self.to_bytes();
        v.push(b[4]);
        v.push(b[3]);
        v.push(b[2]);
        v.push(b[1]);
        v.push(b[0]);
        assert(self.spec_midi() == seq![b[4], b[3], b[2], b[1], b[0]]);
    }

    /// Append the two byte representation, [frames, subframes].
    pub fn extend_midi_short(&self, v: &mut Vec<u8>)
        ensures
            final(v)@ == old(v)@ + self.spec_midi_short(),
    {
        let b = self.to_bytes_short();
        v.push(b[1]);
        v.push(b[0]);
        assert(self.spec_midi_short() == seq![b[1], b[0]]);
    }

    /// The same time code, with zero fractional frames.
    pub fn from_time_code(t: TimeCode) -> (r: StandardTimeCode)
        ensures
            r == (StandardTimeCode {
                subframes: SubFrames::FractionalFrames(0),
                frames: t.frames as i8,
                seconds: t.seconds,
                minutes: t.minutes,
                hours: t.hours,
                code_type: t.code_type,
            }),
    {
        StandardTimeCode {
            subframes: SubFrames::FractionalFrames(0),
            frames: t.frames as i8,
            seconds: t.seconds,
            minutes: t.minutes,
            hours: t.hours,
            code_type: t.code_type,
        }
    }
}

/// The nine nibbles of user bits: the bytes from least to most significant, low nibble first,
/// followed by the flags.
pub open spec fn spec_user_bit_nibbles(bytes: (u8, u8, u8, u8), flags: u8) -> Seq<u8> {
    seq![
        bytes.3 % 16,
        bytes.3 / 16,
        bytes.2 % 16,
        bytes.2 / 16,
        bytes.1 % 16,
        bytes.1 / 16,
        bytes.0 % 16,
        bytes.0 / 16,
        flags,
    ]
}

fn user_bit_nibbles(bytes: (u8, u8, u8, u8), flags: u8) -> (r: [u8; 9])
    ensures
        r@ == spec_user_bit_nibbles(bytes, flags),
{
    let a = to_nibble(bytes.0);
    let b = to_nibble(bytes.1);
    let c = to_nibble(bytes.2);
    let d = to_nibble(bytes.3);
    let r = [d[1], d[0], c[1], c[0], b[1], b[0], a[1], a[0], flags];
    assert(r@ == spec_user_bit_nibbles(bytes, flags));
    r
}

impl UserBits {
    /// The nine nibble representation; the flags nibble holds flag1 in bit 0 and flag2 in bit 1.
    pub open spec fn spec_to_nibbles(self) -> Seq<u8> {
        spec_user_bit_nibbles(
            self.bytes,
            ((if self.flag1 { 1int } else { 0 }) + (if self.flag2 { 2int } else { 0 })) as u8,
        )
    }

    /// Turn the `UserBits` into its 9 nibble representation:
    /// [nibble_1, nibble_2, nibble_3, nibble_4, nibble_5, nibble_6, nibble_7, nibble_8, nibble_9, nibble_flags]
    pub fn to_nibbles(&self) -> (r: [u8; 9])
        ensures
            r@ == self.spec_to_nibbles(),
    {
        let mut flags: u8 = 0;
        if self.flag1 {
            flags = flags + 1;
        }
        if self.flag2 {
            flags = flags + 2;
        }
        user_bit_nibbles(self.bytes, flags)
    }
}

impl StandardUserBits {
    /// The nine nibble representation; the flags nibble holds flag1 in bit 0, flag2 in bit 1
    /// and the secondary time code flag in bit 2.
    pub open spec fn spec_to_nibbles(self) -> Seq<u8> {
        spec_user_bit_nibbles(
            self.bytes,
            ((if self.flag1 { 1int } else { 0 }) + (if self.flag2 { 2int } else { 0 }) + (
            if self.secondary_time_code { 4int } else { 0 })) as u8,
        )
    }

    /// Turn the `UserBits` into its 9 nibble representation:
    /// [nibble_1, nibble_2, nibble_3, nibble_4, nibble_5, nibble_6, nibble_7, nibble_8, nibble_9, nibble_flags]
    pub fn to_nibbles(&self) -> (r: [u8; 9])
        ensures
            r@ == self.spec_to_nibbles(),
    {
        let mut flags: u8 = 0;
        if self.flag1 {
            flags = flags + 1;
        }
        if self.flag2 {
            flags = flags + 2;
        }
        if self.secondary_time_code {
            flags = flags + 4;
        }
        user_bit_nibbles(self.bytes, flags)
    }

    /// User bits that carry a time code: its four byte representation, with the secondary time
    /// code flag set.
    pub fn from_time_code(t: TimeCode) -> (r: StandardUserBits)
        ensures
            r.bytes == (t.spec_to_bytes()[3], t.spec_to_bytes()[2], t.spec_to_bytes()[1], t.spec_to_bytes()[0]),
            !r.flag1,
            !r.flag2,
            r.secondary_time_code,
    {
        let b = t.to_bytes();
        StandardUserBits {
            bytes: (b[3], b[2], b[1], b[0]),
            flag1: false,
            flag2: false,
            secondary_time_code: true,
        }
    }

    /// The same user bits, with no secondary time code.
    pub fn from_user_bits(t: UserBits) -> (r: StandardUserBits)
        ensures
            r == (StandardUserBits {
                bytes: t.bytes,
                flag1: t.flag1,
                flag2: t.flag2,
                secondary_time_code: false,
            }),
    {
        StandardUserBits {
            bytes: t.bytes,
            flag1: t.flag1,
            flag2: t.flag2,
            secondary_time_code: false,
        }
    }

    /// The time code that the user bits carry: frames, seconds and minutes from the three least
    /// significant bytes, hours and frame rate from the most significant one.
    pub open spec fn spec_time_code(self) -> TimeCode {
        TimeCode {
            frames: self.bytes.3,
            seconds: self.bytes.2,
            minutes: self.bytes.1,
            hours: ((self.bytes.0 / 16 % 2) * 16 + self.bytes.0 % 16) as u8,
            code_type: TimeCodeType::spec_from_u2((self.bytes.0 / 16 % 8) / 2),
        }
    }

    /// The time code that the user bits carry.
    pub fn to_time_code(&self) -> (r: TimeCode)
        ensures
            r == self.spec_time_code(),
    {
        let n = self.to_nibbles();
        let frames = n[1] * 16 + n[0];
        let seconds = n[3] * 16 + n[2];
        let minutes = n[5] * 16 + n[4];
        let hours = (n[7] % 2) * 16 + n[6];
        let code_type = TimeCodeType::from_u2((n[7] % 8) / 2);
        TimeCode { frames, seconds, minutes, hours, code_type }
    }
}

/// Whether all of the first `n` bytes are 7-bit values.
pub open spec fn spec_all_7bit(m: Seq<u8>, n: int) -> bool {
    forall|i: int| 0 <= i < n ==> m[i] < 128
}

fn all_7bit(m: &[u8], n: usize) -> (r: bool)
    requires
        n <= m@.len(),
    ensures
        r == spec_all_7bit(m@, n as int),
{
    let mut i: usize = 0;
    while i < n
        invariant
            i <= n <= m@.len(),
            spec_all_7bit(m@, i as int),
        decreases n - i,
    {
        if m[i] > 127 {
            return false;
        }
        i = i + 1;
    }
    true
}

impl TimeCode {
    /// Parsing the four bytes of a full time code: code type + hours, minutes, seconds, frames.
    pub open spec fn spec_from_midi(m: Seq<u8>) -> Result<TimeCode, ParseError> {
        if m.len() < 4 {
            Err(ParseError::UnexpectedEnd)
        } else if !spec_all_7bit(m, 4) {
            Err(ParseError::ByteOverflow)
        } else {
            Ok(
                TimeCode {
                    frames: m[3],
                    seconds: m[2],
                    minutes: m[1],
                    hours: m[0] % 32,
                    code_type: TimeCodeType::spec_from_u2(m[0] / 32),
                },
            )
        }
    }

    /// The time code with each field clamped to its range, as it is sent.
    pub open spec fn spec_clamped(self) -> TimeCode {
        TimeCode {
            frames: spec_min(self.frames, 29),
            seconds: spec_min(self.seconds, 59),
            minutes: spec_min(self.minutes, 59),
            hours: spec_min(self.hours, 23),
            code_type: self.code_type,
        }
    }

    /// Whether each field is within its range, so that the time code is sent as it is.
    pub open spec fn spec_in_range(self) -> bool {
        self.frames <= 29 && self.seconds <= 59 && self.minutes <= 59 && self.hours <= 23
    }

    /// Parse the four bytes of a full time code.
    pub fn from_midi(m: &[u8]) -> (r: Result<TimeCode, ParseError>)
        ensures
            r == TimeCode::spec_from_midi(m@),
    {
        if m.len() < 4 {
            return Err(ParseError::UnexpectedEnd);
        }
        if !all_7bit(m, 4) {
            return Err(ParseError::ByteOverflow);
        }
        Ok(
            TimeCode {
                frames: m[3],
                seconds: m[2],
                minutes: m[1],
                hours: m[0] % 32,
                code_type: TimeCodeType::from_u2(m[0] / 32),
            },
        )
    }
}

/// A time code within range is read back as written.
pub proof fn lemma_time_code_round_trip(tc: TimeCode)
    requires
        tc.spec_in_range(),
    ensures
        TimeCode::spec_from_midi(tc.spec_midi()) == Ok::<TimeCode, ParseError>(tc),
{
    let m = tc.spec_midi();
    assert(m[0] == tc.hours + tc.code_type.spec_to_u8() * 32);
    assert(TimeCodeType::spec_from_u2(tc.code_type.spec_to_u8()) == tc.code_type);
}

impl HighResTimeCode {
    /// Parsing the five bytes of a time code: code type + hours, minutes, seconds, frames,
    /// fractional frames.
    pub open spec fn spec_from_midi(m: Seq<u8>) -> Result<(HighResTimeCode, usize), ParseError> {
        if m.len() < 5 {
            Err(ParseError::UnexpectedEnd)
        } else if !spec_all_7bit(m, 5) {
            Err(ParseError::ByteOverflow)
        } else {
            Ok(
                (
                    HighResTimeCode {
                        fractional_frames: m[4],
                        frames: m[3],
                        seconds: m[2],
                        minutes: m[1],
                        hours: m[0] % 32,
                        code_type: TimeCodeType::spec_from_u2(m[0] / 32),
                    },
                    5usize,
                ),
            )
        }
    }

    /// Parse the five bytes of a time code, returning it and the number of bytes it took.
    pub fn from_midi(m: &[u8]) -> (r: Result<(HighResTimeCode, usize), ParseError>)
        ensures
            r == HighResTimeCode::spec_from_midi(m@),
    {
        if m.len() < 5 {
            return Err(ParseError::UnexpectedEnd);
        }
        if !all_7bit(m, 5) {
            return Err(ParseError::ByteOverflow);
        }
        Ok(
            (
                HighResTimeCode {
                    fractional_frames: m[4],
                    frames: m[3],
                    seconds: m[2],
                    minutes: m[1],
                    hours: m[0] % 32,
                    code_type: TimeCodeType::from_u2(m[0] / 32),
                },
                5,
            ),
        )
    }
}

/// Non-realtime Time Code Cueing. Used by [`UniversalNonRealTimeMsg::TimeCodeCueingSetup`](crate::UniversalNonRealTimeMsg::TimeCodeCueingSetup).
///
/// As defined in the MIDI Time Code spec (MMA0001 / RP004 / RP008)
#[derive(Debug, PartialEq)]
pub enum TimeCodeCueingSetupMsg {
    TimeCodeOffset { time_code: HighResTimeCode },
    EnableEventList,
    DisableEventList,
    ClearEventList,
    SystemStop,
    EventListRequest { time_code: HighResTimeCode },
    PunchIn { time_code: HighResTimeCode, event_number: u16 },
    PunchOut { time_code: HighResTimeCode, event_number: u16 },
    DeletePunchIn { time_code: HighResTimeCode, event_number: u16 },
    DeletePunchOut { time_code: HighResTimeCode, event_number: u16 },
    EventStart {
        time_code: HighResTimeCode,
        event_number: u16,
        additional_information: Vec<MidiMsg>,
    },
    EventStop {
        time_code: HighResTimeCode,
        event_number: u16,
        additional_information: Vec<MidiMsg>,
    },
    DeleteEventStart { time_code: HighResTimeCode, event_number: u16 },
    DeleteEventStop { time_code: HighResTimeCode, event_number: u16 },
    Cue { time_code: HighResTimeCode, event_number: u16, additional_information: Vec<MidiMsg> },
    DeleteCue { time_code: HighResTimeCode, event_number: u16 },
    EventName { time_code: HighResTimeCode, event_number: u16, name: AsciiString },
}

/// Realtime Time Code Cueing. Used by [`UniversalRealTimeMsg::TimeCodeCueing`](crate::UniversalRealTimeMsg::TimeCodeCueing).
///
/// As defined in the MIDI Time Code spec (MMA0001 / RP004 / RP008)
#[derive(Debug, PartialEq)]
pub enum TimeCodeCueingMsg {
    SystemStop,
    PunchIn { event_number: u16 },
    PunchOut { event_number: u16 },
    EventStart { event_number: u16, additional_information: Vec<MidiMsg> },
    EventStop { event_number: u16, additional_information: Vec<MidiMsg> },
    Cue { event_number: u16, additional_information: Vec<MidiMsg> },
    EventName { event_number: u16, name: AsciiString },
}

/// Each byte as two nibbles, the least significant first.
pub open spec fn spec_nibbles(bytes: Seq<u8>) -> Seq<u8>
    decreases bytes.len(),
{
    if bytes.len() == 0 {
        Seq::empty()
    } else {
        spec_nibbles(bytes.drop_last()) + seq![bytes.last() % 16, bytes.last() / 16]
    }
}

/// Append each byte as two nibbles, the least significant first.
pub fn push_nibbles(bytes: &[u8], v: &mut Vec<u8>)
    ensures
        final(v)@ == old(v)@ + spec_nibbles(bytes@),
{
    let ghost start = v@;
    let mut i: usize = 0;
    while i < bytes.len()
        invariant
            i <= bytes@.len(),
            v@ == start + spec_nibbles(bytes@.subrange(0, i as int)),
        decreases bytes@.len() - i,
    {
        let n = to_nibble(bytes[i]);
        v.push(n[1]);
        v.push(n[0]);
        i = i + 1;
        assert(bytes@.subrange(0, i as int).drop_last() == bytes@.subrange(0, i - 1));
    }
    assert(bytes@.subrange(0, bytes@.len() as int) == bytes@);
}

/// The kind byte of a message that carries additional information: `plain` without it,
/// `with` when there is some.
pub open spec fn spec_info_kind(info: Seq<MidiMsg>, plain: u8, with: u8) -> u8 {
    if info.len() == 0 {
        plain
    } else {
        with
    }
}

impl TimeCodeCueingSetupMsg {
    /// Whether the additional information can be sent.
    pub open spec fn spec_serializable(self) -> bool
        decreases self,
    {
        match self {
            TimeCodeCueingSetupMsg::EventStart { additional_information, .. }
            | TimeCodeCueingSetupMsg::EventStop { additional_information, .. }
            | TimeCodeCueingSetupMsg::Cue { additional_information, .. } => spec_all_serializable(
                additional_information@,
            ),
            _ => true,
        }
    }

    /// The bytes of the message: its kind, the time code, then the event number and any
    /// additional information, nibble by nibble.
    pub open spec fn spec_midi(self) -> Seq<u8>
        decreases self,
    {
        match self {
            TimeCodeCueingSetupMsg::TimeCodeOffset { time_code } => seq![0x00u8]
                + time_code.spec_midi() + seq![0x00u8, 0x00],
            TimeCodeCueingSetupMsg::EnableEventList => seq![0x00u8]
                + HighResTimeCode::spec_default().spec_midi() + seq![0x01u8, 0x00],
            TimeCodeCueingSetupMsg::DisableEventList => seq![0x00u8]
                + HighResTimeCode::spec_default().spec_midi() + seq![0x02u8, 0x00],
            TimeCodeCueingSetupMsg::ClearEventList => seq![0x00u8]
                + HighResTimeCode::spec_default().spec_midi() + seq![0x03u8, 0x00],
            TimeCodeCueingSetupMsg::SystemStop => seq![0x00u8]
                + HighResTimeCode::spec_default().spec_midi() + seq![0x04u8, 0x00],
            TimeCodeCueingSetupMsg::EventListRequest { time_code } => seq![0x00u8]
                + time_code.spec_midi() + seq![0x05u8, 0x00],
            TimeCodeCueingSetupMsg::PunchIn { time_code, event_number } => seq![0x01u8]
                + time_code.spec_midi() + spec_u14_bytes(event_number),
            TimeCodeCueingSetupMsg::PunchOut { time_code, event_number } => seq![0x02u8]
                + time_code.spec_midi() + spec_u14_bytes(event_number),
            TimeCodeCueingSetupMsg::DeletePunchIn { time_code, event_number } => seq![0x03u8]
                + time_code.spec_midi() + spec_u14_bytes(event_number),
            TimeCodeCueingSetupMsg::DeletePunchOut { time_code, event_number } => seq![0x04u8]
                + time_code.spec_midi() + spec_u14_bytes(event_number),
            TimeCodeCueingSetupMsg::EventStart { time_code, event_number, additional_information } =>
            seq![spec_info_kind(additional_information@, 0x05, 0x07)] + time_code.spec_midi()
                + spec_u14_bytes(event_number) + spec_nibblized_midi(additional_information@),
            TimeCodeCueingSetupMsg::EventStop { time_code, event_number, additional_information } =>
            seq![spec_info_kind(additional_information@, 0x06, 0x08)] + time_code.spec_midi()
                + spec_u14_bytes(event_number) + spec_nibblized_midi(additional_information@),
            TimeCodeCueingSetupMsg::DeleteEventStart { time_code, event_number } => seq![0x09u8]
                + time_code.spec_midi() + spec_u14_bytes(event_number),
            TimeCodeCueingSetupMsg::DeleteEventStop { time_code, event_number } => seq![0x0Au8]
                + time_code.spec_midi() + spec_u14_bytes(event_number),
            TimeCodeCueingSetupMsg::Cue { time_code, event_number, additional_information } => seq![
                spec_info_kind(additional_information@, 0x0B, 0x0C),
            ] + time_code.spec_midi() + spec_u14_bytes(event_number) + spec_nibblized_midi(
                additional_information@,
            ),
            TimeCodeCueingSetupMsg::DeleteCue { time_code, event_number } => seq![0x0Du8]
                + time_code.spec_midi() + spec_u14_bytes(event_number),
            TimeCodeCueingSetupMsg::EventName { time_code, event_number, name } => seq![0x0Eu8]
                + time_code.spec_midi() + spec_u14_bytes(event_number) + spec_nibbles(
                ascii_bytes(name),
            ),
        }
    }

    /// Append the message.
    pub fn extend_midi(&self, v: &mut Vec<u8>)
        requires
            self.spec_serializable(),
        ensures
            final(v)@ == old(v)@ + self.spec_midi(),
        decreases self,
    {
        let ghost start = v@;
        match self {
            TimeCodeCueingSetupMsg::TimeCodeOffset { time_code } => {
                v.push(0x00);
                time_code.extend_midi(v);
                v.push(0x00);
                v.push(0x00);
            },
            TimeCodeCueingSetupMsg::EnableEventList => {
                v.push(0x00);
                HighResTimeCode::default().extend_midi(v);
                v.push(0x01);
                v.push(0x00);
            },
            TimeCodeCueingSetupMsg::DisableEventList => {
                v.push(0x00);
                HighResTimeCode::default().extend_midi(v);
                v.push(0x02);
                v.push(0x00);
            },
            TimeCodeCueingSetupMsg::ClearEventList => {
                v.push(0x00);
                HighResTimeCode::default().extend_midi(v);
                v.push(0x03);
                v.push(0x00);
            },
            TimeCodeCueingSetupMsg::SystemStop => {
                v.push(0x00);
                HighResTimeCode::default().extend_midi(v);
                v.push(0x04);
                v.push(0x00);
            },
            TimeCodeCueingSetupMsg::EventListRequest { time_code } => {
                v.push(0x00);
                time_code.extend_midi(v);
                v.push(0x05);
                v.push(0x00);
            },
            TimeCodeCueingSetupMsg::PunchIn { time_code, event_number } => {
                v.push(0x01);
                time_code.extend_midi(v);
                push_u14(*event_number, v);
            },
            TimeCodeCueingSetupMsg::PunchOut { time_code, event_number } => {
                v.push(0x02);
                time_code.extend_midi(v);
                push_u14(*event_number, v);
            },
            TimeCodeCueingSetupMsg::DeletePunchIn { time_code, event_number } => {
                v.push(0x03);
                time_code.extend_midi(v);
                push_u14(*event_number, v);
            },
            TimeCodeCueingSetupMsg::DeletePunchOut { time_code, event_number } => {
                v.push(0x04);
                time_code.extend_midi(v);
                push_u14(*event_number, v);
            },
            TimeCodeCueingSetupMsg::EventStart { time_code, event_number, additional_information } => {
                v.push(if additional_information.len() == 0 { 0x05 } else { 0x07 });
                time_code.extend_midi(v);
                push_u14(*event_number, v);
                MidiMsg::push_nibblized_midi(additional_information, v);
            },
            TimeCodeCueingSetupMsg::EventStop { time_code, event_number, additional_information } => {
                v.push(if additional_information.len() == 0 { 0x06 } else { 0x08 });
                time_code.extend_midi(v);
                push_u14(*event_number, v);
                MidiMsg::push_nibblized_midi(additional_information, v);
            },
            TimeCodeCueingSetupMsg::DeleteEventStart { time_code, event_number } => {
                v.push(0x09);
                time_code.extend_midi(v);
                push_u14(*event_number, v);
            },
            TimeCodeCueingSetupMsg::DeleteEventStop { time_code, event_number } => {
                v.push(0x0A);
                time_code.extend_midi(v);
                push_u14(*event_number, v);
            },
            TimeCodeCueingSetupMsg::Cue { time_code, event_number, additional_information } => {
                v.push(if additional_information.len() == 0 { 0x0B } else { 0x0C });
                time_code.extend_midi(v);
                push_u14(*event_number, v);
                MidiMsg::push_nibblized_midi(additional_information, v);
            },
            TimeCodeCueingSetupMsg::DeleteCue { time_code, event_number } => {
                v.push(0x0D);
                time_code.extend_midi(v);
                push_u14(*event_number, v);
            },
            TimeCodeCueingSetupMsg::EventName { time_code, event_number, name } => {
                v.push(0x0E);
                time_code.extend_midi(v);
                push_u14(*event_number, v);
                push_nibbles(ascii_as_bytes(name), v);
            },
        }
        assert(v@ == start + self.spec_midi());
    }

    /// Parsing of time code cueing setup messages is not implemented: always an error.
    pub fn from_midi(_m: &[u8]) -> (r: Result<(TimeCodeCueingSetupMsg, usize), ParseError>)
        ensures
            r matches Err(e) && e == ParseError::NotImplemented("TimeCodeCueingSetupMsg"),
    {
        Err(ParseError::NotImplemented("TimeCodeCueingSetupMsg"))
    }
}

impl TimeCodeCueingMsg {
    /// Whether the additional information can be sent.
    pub open spec fn spec_serializable(self) -> bool
        decreases self,
    {
        match self {
            TimeCodeCueingMsg::EventStart { additional_information, .. }
            | TimeCodeCueingMsg::EventStop { additional_information, .. }
            | TimeCodeCueingMsg::Cue { additional_information, .. } => spec_all_serializable(
                additional_information@,
            ),
            _ => true,
        }
    }

    /// The bytes of the message: its kind, the event number and any additional information,
    /// nibble by nibble.
    pub open spec fn spec_midi(self) -> Seq<u8>
        decreases self,
    {
        match self {
            TimeCodeCueingMsg::SystemStop => seq![0x00u8, 0x04, 0x00],
            TimeCodeCueingMsg::PunchIn { event_number } => seq![0x01u8] + spec_u14_bytes(
                event_number,
            ),
            TimeCodeCueingMsg::PunchOut { event_number } => seq![0x02u8] + spec_u14_bytes(
                event_number,
            ),
            TimeCodeCueingMsg::EventStart { event_number, additional_information } => seq![
                spec_info_kind(additional_information@, 0x05, 0x07),
            ] + spec_u14_bytes(event_number) + spec_nibblized_midi(additional_information@),
            TimeCodeCueingMsg::EventStop { event_number, additional_information } => seq![
                spec_info_kind(additional_information@, 0x06, 0x08),
            ] + spec_u14_bytes(event_number) + spec_nibblized_midi(additional_information@),
            TimeCodeCueingMsg::Cue { event_number, additional_information } => seq![
                spec_info_kind(additional_information@, 0x0B, 0x0C),
            ] + spec_u14_bytes(event_number) + spec_nibblized_midi(additional_information@),
            TimeCodeCueingMsg::EventName { event_number, name } => seq![0x0Eu8] + spec_u14_bytes(
                event_number,
            ) + spec_nibbles(ascii_bytes(name)),
        }
    }

    /// Append the message.
    pub fn extend_midi(&self, v: &mut Vec<u8>)
        requires
            self.spec_serializable(),
        ensures
            final(v)@ == old(v)@ + self.spec_midi(),
        decreases self,
    {
        let ghost start = v@;
        match self {
            TimeCodeCueingMsg::SystemStop => {
                v.push(0x00);
                v.push(0x04);
                v.push(0x00);
            },
            TimeCodeCueingMsg::PunchIn { event_number } => {
                v.push(0x01);
                push_u14(*event_number, v);
            },
            TimeCodeCueingMsg::PunchOut { event_number } => {
                v.push(0x02);
                push_u14(*event_number, v);
            },
            TimeCodeCueingMsg::EventStart { event_number, additional_information } => {
                v.push(if additional_information.len() == 0 { 0x05 } else { 0x07 });
                push_u14(*event_number, v);
                MidiMsg::push_nibblized_midi(additional_information, v);
            },
            TimeCodeCueingMsg::EventStop { event_number, additional_information } => {
                v.push(if additional_information.len() == 0 { 0x06 } else { 0x08 });
                push_u14(*event_number, v);
                MidiMsg::push_nibblized_midi(additional_information, v);
            },
            TimeCodeCueingMsg::Cue { event_number, additional_information } => {
                v.push(if additional_information.len() == 0 { 0x0B } else { 0x0C });
                push_u14(*event_number, v);
                MidiMsg::push_nibblized_midi(additional_information, v);
            },
            TimeCodeCueingMsg::EventName { event_number, name } => {
                v.push(0x0E);
                push_u14(*event_number, v);
                push_nibbles(ascii_as_bytes(name), v);
            },
        }
        assert(v@ == start + self.spec_midi());
    }

    /// Parsing of time code cueing messages is not implemented: always an error.
    pub fn from_midi(_m: &[u8]) -> (r: Result<(TimeCodeCueingMsg, usize), ParseError>)
        ensures
            r matches Err(e) && e == ParseError::NotImplemented("TimeCodeCueingMsg"),
    {
        Err(ParseError::NotImplemented("TimeCodeCueingMsg"))
    }
}

impl Clone for TimeCodeCueingSetupMsg {
    fn clone(&self) -> (r: Self)
        decreases self,
    {
        match self {
            TimeCodeCueingSetupMsg::TimeCodeOffset { time_code } => TimeCodeCueingSetupMsg::TimeCodeOffset {
                time_code: *time_code,
            },
            TimeCodeCueingSetupMsg::EnableEventList => TimeCodeCueingSetupMsg::EnableEventList,
            TimeCodeCueingSetupMsg::DisableEventList => TimeCodeCueingSetupMsg::DisableEventList,
            TimeCodeCueingSetupMsg::ClearEventList => TimeCodeCueingSetupMsg::ClearEventList,
            TimeCodeCueingSetupMsg::SystemStop => TimeCodeCueingSetupMsg::SystemStop,
            TimeCodeCueingSetupMsg::EventListRequest { time_code } => TimeCodeCueingSetupMsg::EventListRequest {
                time_code: *time_code,
            },
            TimeCodeCueingSetupMsg::PunchIn { time_code, event_number } => TimeCodeCueingSetupMsg::PunchIn {
                time_code: *time_code,
                event_number: *event_number,
            },
            TimeCodeCueingSetupMsg::PunchOut { time_code, event_number } => TimeCodeCueingSetupMsg::PunchOut {
                time_code: *time_code,
                event_number: *event_number,
            },
            TimeCodeCueingSetupMsg::DeletePunchIn { time_code, event_number } => TimeCodeCueingSetupMsg::DeletePunchIn {
                time_code: *time_code,
                event_number: *event_number,
            },
            TimeCodeCueingSetupMsg::DeletePunchOut { time_code, event_number } => TimeCodeCueingSetupMsg::DeletePunchOut {
                time_code: *time_code,
                event_number: *event_number,
            },
            TimeCodeCueingSetupMsg::EventStart { time_code, event_number, additional_information } => TimeCodeCueingSetupMsg::EventStart {
                time_code: *time_code,
                event_number: *event_number,
                additional_information: clone_messages(additional_information),
            },
            TimeCodeCueingSetupMsg::EventStop { time_code, event_number, additional_information } => TimeCodeCueingSetupMsg::EventStop {
                time_code: *time_code,
                event_number: *event_number,
                additional_information: clone_messages(additional_information),
            },
            TimeCodeCueingSetupMsg::DeleteEventStart { time_code, event_number } => TimeCodeCueingSetupMsg::DeleteEventStart {
                time_code: *time_code,
                event_number: *event_number,
            },
            TimeCodeCueingSetupMsg::DeleteEventStop { time_code, event_number } => TimeCodeCueingSetupMsg::DeleteEventStop {
                time_code: *time_code,
                event_number: *event_number,
            },
            TimeCodeCueingSetupMsg::Cue { time_code, event_number, additional_information } => TimeCodeCueingSetupMsg::Cue {
                time_code: *time_code,
                event_number: *event_number,
                additional_information: clone_messages(additional_information),
            },
            TimeCodeCueingSetupMsg::DeleteCue { time_code, event_number } => TimeCodeCueingSetupMsg::DeleteCue {
                time_code: *time_code,
                event_number: *event_number,
            },
            TimeCodeCueingSetupMsg::EventName { time_code, event_number, name } => TimeCodeCueingSetupMsg::EventName {
                time_code: *time_code,
                event_number: *event_number,
                name: name.clone(),
            },
        }
    }
}

impl Clone for TimeCodeCueingMsg {
    fn clone(&self) -> (r: Self)
        decreases self,
    {
        match self {
            TimeCodeCueingMsg::SystemStop => TimeCodeCueingMsg::SystemStop,
            TimeCodeCueingMsg::PunchIn { event_number } => TimeCodeCueingMsg::PunchIn {
                event_number: *event_number,
            },
            TimeCodeCueingMsg::PunchOut { event_number } => TimeCodeCueingMsg::PunchOut {
                event_number: *event_number,
            },
            TimeCodeCueingMsg::EventStart { event_number, additional_information } => TimeCodeCueingMsg::EventStart {
                event_number: *event_number,
                additional_information: clone_messages(additional_information),
            },
            TimeCodeCueingMsg::EventStop { event_number, additional_information } => TimeCodeCueingMsg::EventStop {
                event_number: *event_number,
                additional_information: clone_messages(additional_information),
            },
            TimeCodeCueingMsg::Cue { event_number, additional_information } => TimeCodeCueingMsg::Cue {
                event_number: *event_number,
                additional_information: clone_messages(additional_information),
            },
            TimeCodeCueingMsg::EventName { event_number, name } => TimeCodeCueingMsg::EventName {
                event_number: *event_number,
                name: name.clone(),
            },
        }
    }
}

impl From<TimeCode> for StandardTimeCode {
    fn from(t: TimeCode) -> (r: StandardTimeCode) {
        StandardTimeCode::from_time_code(t)
    }
}

impl vstd::std_specs::convert::FromSpecImpl<TimeCode> for StandardTimeCode {
    open spec fn obeys_from_spec() -> bool {
        true
    }

    open spec fn from_spec(t: TimeCode) -> StandardTimeCode {
        StandardTimeCode {
            subframes: SubFrames::FractionalFrames(0),
            frames: t.frames as i8,
            seconds: t.seconds,
            minutes: t.minutes,
            hours: t.hours,
            code_type: t.code_type,
        }
    }
}

impl From<StandardUserBits> for TimeCode {
    fn from(t: StandardUserBits) -> (r: TimeCode) {
        t.to_time_code()
    }
}

impl vstd::std_specs::convert::FromSpecImpl<StandardUserBits> for TimeCode {
    open spec fn obeys_from_spec() -> bool {
        true
    }

    open spec fn from_spec(t: StandardUserBits) -> TimeCode {
        t.spec_time_code()
    }
}

impl From<TimeCode> for StandardUserBits {
    fn from(t: TimeCode) -> (r: StandardUserBits) {
        StandardUserBits::from_time_code(t)
    }
}

impl vstd::std_specs::convert::FromSpecImpl<TimeCode> for StandardUserBits {
    open spec fn obeys_from_spec() -> bool {
        true
    }

    open spec fn from_spec(t: TimeCode) -> StandardUserBits {
        StandardUserBits {
            bytes: (t.spec_to_bytes()[3], t.spec_to_bytes()[2], t.spec_to_bytes()[1], t.spec_to_bytes()[0]),
            flag1: false,
            flag2: false,
            secondary_time_code: true,
        }
    }
}

impl From<UserBits> for StandardUserBits {
    fn from(t: UserBits) -> (r: StandardUserBits) {
        StandardUserBits::from_user_bits(t)
    }
}

impl vstd::std_specs::convert::FromSpecImpl<UserBits> for StandardUserBits {
    open spec fn obeys_from_spec() -> bool {
        true
    }

    open spec fn from_spec(t: UserBits) -> StandardUserBits {
        StandardUserBits {
            bytes: t.bytes,
            flag1: t.flag1,
            flag2: t.flag2,
            secondary_time_code: false,
        }
    }
}

/// A time code within range, carried in user bits, is read back from them.
pub proof fn lemma_user_bits_time_code_round_trip(t: TimeCode)
    requires
        t.spec_in_range(),
    ensures
        (StandardUserBits {
            bytes: (t.spec_to_bytes()[3], t.spec_to_bytes()[2], t.spec_to_bytes()[1], t.spec_to_bytes()[0]),
            flag1: false,
            flag2: false,
            secondary_time_code: true,
        }).spec_time_code() == t,
{
    let b = t.spec_to_bytes()[3];
    let c = t.code_type.spec_to_u8();
    assert(b == t.hours + c * 32);
    assert((b / 16 % 2) * 16 + b % 16 == t.hours && (b / 16 % 8) / 2 == c) by (nonlinear_arith)
        requires
            b == t.hours + c * 32,
            t.hours <= 23,
            c <= 3,
    ;
    assert(TimeCodeType::spec_from_u2(c) == t.code_type);
}

} // verus!
