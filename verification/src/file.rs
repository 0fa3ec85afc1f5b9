use vstd::prelude::*;

use crate::message::{Channel, MidiMsg, ReceiverContext};
use crate::parse_error::{decimal, spec_decimal, ParseError};
use crate::parse_outcome::lemma_track_event_outcome;
use crate::system_exclusive::SystemExclusiveMsg;
use crate::system_real_time::SystemRealTimeMsg;
use crate::text::{string_from_utf8_lossy, utf8_lossy};
use crate::time_code::{HighResTimeCode, TimeCodeType};
use crate::util::{
    extend_from_slice, push_u16, push_u32, push_vlq, read_vlq, spec_read_vlq, spec_u16_be,
    spec_u32_be, spec_u32_from_midi, spec_vlq, u32_from_midi,
};
use vstd::string::StringSliceAdditionalSpecFns;

verus! {

/// A meta event in a Standard Midi File
#[derive(Debug, Clone, PartialEq)]
pub enum Meta {
    /// Must occur at the start of a track, and specifies the sequence number of the track. In a MultiSong file, this is the "pattern" number that identifies the song for cueing purposes.
    SequenceNumber(u16),
    /// Any text, describing anything
    Text(String),
    /// A copyright notice
    Copyright(String),
    /// The name of the track
    TrackName(String),
    /// The name of the instrument used in the track
    InstrumentName(String),
    /// A lyric. See RP-017 for guidance on the use of this meta event.
    Lyric(String),
    /// Normally only used in a SingleTrack file, or the first track of a MultiTrack file. Used to mark significant points in the music.
    Marker(String),
    /// A description of something happening at a point in time
    CuePoint(String),
    /// The MIDI channel that the following track events are intended for. Effective until the next event that specifies a channel.
    ChannelPrefix(Channel),
    /// Marks the end of a track. This event is not optional. It must be the last event in every track.
    EndOfTrack,
    /// The tempo in microseconds per quarter note.
    SetTempo(u32),
    /// If present, the time at which the track is supposed to start. Should be present at the start of the track.
    SmpteOffset(HighResTimeCode),
    /// A time signature.
    TimeSignature(FileTimeSignature),
    /// A key signature.
    KeySignature(KeySignature),
    /// A chunk of data that is specific to the sequencer that created the file.
    SequencerSpecific(Vec<u8>),
    /// Any other meta event that is not recognized
    Unknown { meta_type: u8, data: Vec<u8> },
}

/// A time signature occurring in a Standard Midi File.
#[derive(Debug, Clone, PartialEq)]
pub struct FileTimeSignature {
    /// The numerator of the time signature, as it would be notated.
    pub numerator: u8,
    /// The denominator of the time signature, as it would be notated.
    ///
    /// This is tranformed from the power-of-two representation used in the file.
    pub denominator: u16,
    /// The number of MIDI clocks per metronome tick.
    pub clocks_per_metronome_tick: u8,
    /// How many 32nd notes are in a MIDI quarter note, which should usually be 8.
    pub thirty_second_notes_per_24_clocks: u8,
}

/// A key signature occurring in a Standard Midi File.
#[derive(Debug, Clone, PartialEq)]
pub struct KeySignature {
    /// Negative for number of flats, positive for number of sharps
    pub key: i8,
    /// 0 for major, 1 for minor
    pub scale: u8,
}

/// 2 to the power `e` as a 16-bit value: zero once the bit is shifted out.
pub open spec fn spec_pow2_u16(e: u8) -> u16 {
    if e == 0 {
        1
    } else if e == 1 {
        2
    } else if e == 2 {
        4
    } else if e == 3 {
        8
    } else if e == 4 {
        16
    } else if e == 5 {
        32
    } else if e == 6 {
        64
    } else if e == 7 {
        128
    } else if e == 8 {
        256
    } else if e == 9 {
        512
    } else if e == 10 {
        1024
    } else if e == 11 {
        2048
    } else if e == 12 {
        4096
    } else if e == 13 {
        8192
    } else if e == 14 {
        16384
    } else if e == 15 {
        32768
    } else {
        0
    }
}

/// The largest `k` with `2^k <= d`; zero for zero.
pub open spec fn spec_log2(d: u16) -> u8 {
    if d >= 32768 {
        15
    } else if d >= 16384 {
        14
    } else if d >= 8192 {
        13
    } else if d >= 4096 {
        12
    } else if d >= 2048 {
        11
    } else if d >= 1024 {
        10
    } else if d >= 512 {
        9
    } else if d >= 256 {
        8
    } else if d >= 128 {
        7
    } else if d >= 64 {
        6
    } else if d >= 32 {
        5
    } else if d >= 16 {
        4
    } else if d >= 8 {
        3
    } else if d >= 4 {
        2
    } else if d >= 2 {
        1
    } else {
        0
    }
}

impl FileTimeSignature {
    /// Numerator, the power of two of the denominator, clocks per tick, 32nd notes per quarter.
    pub open spec fn spec_midi(self) -> Seq<u8> {
        seq![
            self.numerator,
            spec_log2(self.denominator),
            self.clocks_per_metronome_tick,
            self.thirty_second_notes_per_24_clocks,
        ]
    }

    /// Parsing the four bytes of a time signature.
    pub open spec fn spec_from_midi(m: Seq<u8>) -> Result<FileTimeSignature, ParseError> {
        if m.len() < 4 {
            Err(ParseError::UnexpectedEnd)
        } else {
            Ok(
                FileTimeSignature {
                    numerator: m[0],
                    denominator: spec_pow2_u16(m[1]),
                    clocks_per_metronome_tick: m[2],
                    thirty_second_notes_per_24_clocks: m[3],
                },
            )
        }
    }

    /// Parse the four bytes of a time signature.
    pub fn from_midi(m: &[u8]) -> (r: Result<FileTimeSignature, ParseError>)
        ensures
            r == FileTimeSignature::spec_from_midi(m@),
    {
        if m.len() < 4 {
            return Err(ParseError::UnexpectedEnd);
        }
        Ok(
            FileTimeSignature {
                numerator: m[0],
                denominator: pow2_u16(m[1]),
                clocks_per_metronome_tick: m[2],
                thirty_second_notes_per_24_clocks: m[3],
            },
        )
    }

    /// Append the four bytes of the time signature.
    pub fn extend_midi(&self, v: &mut Vec<u8>)
        ensures
            final(v)@ == old(v)@ + self.spec_midi(),
    {
        let ghost start = v@;
        v.push(self.numerator);
        v.push(log2_u16(self.denominator));
        v.push(self.clocks_per_metronome_tick);
        v.push(self.thirty_second_notes_per_24_clocks);
        assert(v@ == start + self.spec_midi());
    }
}

fn pow2_u16(e: u8) -> (r: u16)
    ensures
        r == spec_pow2_u16(e),
{
    if e == 0 {
        1
    } else if e == 1 {
        2
    } else if e == 2 {
        4
    } else if e == 3 {
        8
    } else if e == 4 {
        16
    } else if e == 5 {
        32
    } else if e == 6 {
        64
    } else if e == 7 {
        128
    } else if e == 8 {
        256
    } else if e == 9 {
        512
    } else if e == 10 {
        1024
    } else if e == 11 {
        2048
    } else if e == 12 {
        4096
    } else if e == 13 {
        8192
    } else if e == 14 {
        16384
    } else if e == 15 {
        32768
    } else {
        0
    }
}

fn log2_u16(d: u16) -> (r: u8)
    ensures
        r == spec_log2(d),
{
    if d >= 32768 {
        15
    } else if d >= 16384 {
        14
    } else if d >= 8192 {
        13
    } else if d >= 4096 {
        12
    } else if d >= 2048 {
        11
    } else if d >= 1024 {
        10
    } else if d >= 512 {
        9
    } else if d >= 256 {
        8
    } else if d >= 128 {
        7
    } else if d >= 64 {
        6
    } else if d >= 32 {
        5
    } else if d >= 16 {
        4
    } else if d >= 8 {
        3
    } else if d >= 4 {
        2
    } else if d >= 2 {
        1
    } else {
        0
    }
}

impl KeySignature {
    /// The key as a byte, then the scale.
    pub open spec fn spec_midi(self) -> Seq<u8> {
        seq![self.key as u8, self.scale]
    }

    /// Parsing the two bytes of a key signature.
    pub open spec fn spec_from_midi(m: Seq<u8>) -> Result<KeySignature, ParseError> {
        if m.len() < 2 {
            Err(ParseError::UnexpectedEnd)
        } else {
            Ok(KeySignature { key: m[0] as i8, scale: m[1] })
        }
    }

    /// Parse the two bytes of a key signature.
    pub fn from_midi(m: &[u8]) -> (r: Result<KeySignature, ParseError>)
        ensures
            r == KeySignature::spec_from_midi(m@),
    {
        if m.len() < 2 {
            return Err(ParseError::UnexpectedEnd);
        }
        Ok(KeySignature { key: m[0] as i8, scale: m[1] })
    }

    /// Append the two bytes of the key signature.
    pub fn extend_midi(&self, v: &mut Vec<u8>)
        ensures
            final(v)@ == old(v)@ + self.spec_midi(),
    {
        v.push(self.key as u8);
        v.push(self.scale);
    }
}

/// A meta event's type, the variable length quantity of its length, and its data.
pub open spec fn spec_meta_event(meta_type: u8, data: Seq<u8>) -> Seq<u8> {
    seq![meta_type] + spec_vlq(data.len() as u32) + data
}

/// Whether `s` is what decoding `data` as UTF-8 gives: invalid sequences are replaced by
/// U+FFFD, and valid UTF-8 gives exactly the characters it encodes.
pub open spec fn spec_decoded(data: Seq<u8>, s: String) -> bool {
    &&& s@ == utf8_lossy(data)
    &&& vstd::utf8::valid_utf8(data) ==> s@ == vstd::utf8::decode_utf8(data)
}

/// The UTF-8 bytes of a string.
pub open spec fn spec_string_bytes(s: String) -> Seq<u8> {
    vstd::utf8::encode_utf8(s@)
}

impl Meta {
    /// Whether the event can be written: its data must be shorter than 2^28 bytes.
    pub open spec fn spec_serializable(self) -> bool {
        match self {
            Meta::Text(s) | Meta::Copyright(s) | Meta::TrackName(s) | Meta::InstrumentName(s)
            | Meta::Lyric(s) | Meta::Marker(s) | Meta::CuePoint(s) => spec_string_bytes(s).len()
                <= 0x0FFFFFFF,
            Meta::SequencerSpecific(d) => d@.len() <= 0x0FFFFFFF,
            Meta::Unknown { data, .. } => data@.len() <= 0x0FFFFFFF,
            _ => true,
        }
    }

    /// The type, length and data of the event (the 0xFF before it is written by the track).
    pub open spec fn spec_midi(self) -> Seq<u8> {
        match self {
            Meta::SequenceNumber(n) => spec_meta_event(0x00, spec_u16_be(n)),
            Meta::Text(s) => spec_meta_event(0x01, spec_string_bytes(s)),
            Meta::Copyright(s) => spec_meta_event(0x02, spec_string_bytes(s)),
            Meta::TrackName(s) => spec_meta_event(0x03, spec_string_bytes(s)),
            Meta::InstrumentName(s) => spec_meta_event(0x04, spec_string_bytes(s)),
            Meta::Lyric(s) => spec_meta_event(0x05, spec_string_bytes(s)),
            Meta::Marker(s) => spec_meta_event(0x06, spec_string_bytes(s)),
            Meta::CuePoint(s) => spec_meta_event(0x07, spec_string_bytes(s)),
            Meta::ChannelPrefix(n) => spec_meta_event(0x20, seq![n.spec_to_u8()]),
            Meta::EndOfTrack => spec_meta_event(0x2F, Seq::empty()),
            Meta::SetTempo(n) => spec_meta_event(0x51, spec_u32_be(n).subrange(1, 4)),
            Meta::SmpteOffset(t) => spec_meta_event(0x54, t.spec_midi()),
            Meta::TimeSignature(s) => spec_meta_event(0x58, s.spec_midi()),
            Meta::KeySignature(k) => spec_meta_event(0x59, k.spec_midi()),
            Meta::SequencerSpecific(d) => spec_meta_event(0x7F, d@),
            Meta::Unknown { meta_type, data } => spec_meta_event(meta_type, data@),
        }
    }

    /// Whether `r` is what parsing a meta event from `v` (after its 0xFF) gives: the event and
    /// the number of bytes it took. Text is decoded as by `String::from_utf8_lossy`; an event
    /// whose data is too short for its type is an unexpected end.
    pub open spec fn spec_parsed(v: Seq<u8>, r: Result<(Meta, usize), ParseError>) -> bool {
        if v.len() < 2 {
            r == Err::<(Meta, usize), ParseError>(ParseError::UnexpectedEnd)
        } else {
            match spec_read_vlq(v.subrange(1, v.len() as int)) {
                Err(e) => r == Err::<(Meta, usize), ParseError>(e),
                Ok((len, len_offset)) => {
                    let end = len + len_offset + 1;
                    if v.len() < end {
                        r == Err::<(Meta, usize), ParseError>(ParseError::UnexpectedEnd)
                    } else {
                        let data = v.subrange(len_offset + 1, end);
                        Meta::spec_event_parsed(v[0], data, end as usize, r)
                    }
                },
            }
        }
    }

    /// Whether `r` is what reading an event of type `t` with the data `data` gives, the event
    /// having taken `e` bytes.
    pub open spec fn spec_event_parsed(
        t: u8,
        data: Seq<u8>,
        e: usize,
        r: Result<(Meta, usize), ParseError>,
    ) -> bool {
        if t == 0x00 {
            r == if data.len() < 2 {
                Err(ParseError::UnexpectedEnd)
            } else {
                Ok((Meta::SequenceNumber((data[0] * 256 + data[1]) as u16), e))
            }
        } else if 0x01 <= t <= 0x07 {
            r matches Ok((m, l)) && l == e && match m {
                Meta::Text(s) => t == 0x01 && spec_decoded(data, s),
                Meta::Copyright(s) => t == 0x02 && spec_decoded(data, s),
                Meta::TrackName(s) => t == 0x03 && spec_decoded(data, s),
                Meta::InstrumentName(s) => t == 0x04 && spec_decoded(data, s),
                Meta::Lyric(s) => t == 0x05 && spec_decoded(data, s),
                Meta::Marker(s) => t == 0x06 && spec_decoded(data, s),
                Meta::CuePoint(s) => t == 0x07 && spec_decoded(data, s),
                _ => false,
            }
        } else if t == 0x20 {
            r == if data.len() < 1 {
                Err(ParseError::UnexpectedEnd)
            } else {
                Ok((Meta::ChannelPrefix(Channel::spec_from_u8(data[0])), e))
            }
        } else if t == 0x2F {
            r == Ok::<(Meta, usize), ParseError>((Meta::EndOfTrack, e))
        } else if t == 0x51 {
            r == if data.len() < 3 {
                Err(ParseError::UnexpectedEnd)
            } else {
                Ok(
                    (
                        Meta::SetTempo(
                            (data[0] * 65536 + data[1] * 256 + data[2]) as u32,
                        ),
                        e,
                    ),
                )
            }
        } else if t == 0x54 {
            r == match HighResTimeCode::spec_from_midi(data) {
                Err(err) => Err(err),
                Ok((time, _)) => Ok((Meta::SmpteOffset(time), e)),
            }
        } else if t == 0x58 {
            r == match FileTimeSignature::spec_from_midi(data) {
                Err(err) => Err(err),
                Ok(s) => Ok((Meta::TimeSignature(s), e)),
            }
        } else if t == 0x59 {
            r == match KeySignature::spec_from_midi(data) {
                Err(err) => Err(err),
                Ok(k) => Ok((Meta::KeySignature(k), e)),
            }
        } else if t == 0x7F {
            r matches Ok((Meta::SequencerSpecific(d), l)) && l == e && d@ == data
        } else {
            r matches Ok((Meta::Unknown { meta_type, data: d }, l)) && l == e
                && meta_type == t && d@ == data
        }
    }

    /// Append the event.
    pub fn extend_midi(&self, v: &mut Vec<u8>)
        requires
            self.spec_serializable(),
        ensures
            final(v)@ == old(v)@ + self.spec_midi(),
    {
        let ghost start = v@;
        match self {
            Meta::SequenceNumber(n) => {
                v.push(0x00);
                push_vlq(2, v);
                push_u16(*n, v);
            },
            Meta::Text(s) => extend_text(v, 0x01, s),
            Meta::Copyright(s) => extend_text(v, 0x02, s),
            Meta::TrackName(s) => extend_text(v, 0x03, s),
            Meta::InstrumentName(s) => extend_text(v, 0x04, s),
            Meta::Lyric(s) => extend_text(v, 0x05, s),
            Meta::Marker(s) => extend_text(v, 0x06, s),
            Meta::CuePoint(s) => extend_text(v, 0x07, s),
            Meta::ChannelPrefix(n) => {
                v.push(0x20);
                push_vlq(1, v);
                v.push(n.to_u8());
            },
            Meta::EndOfTrack => {
                v.push(0x2F);
                push_vlq(0, v);
            },
            Meta::SetTempo(n) => {
                v.push(0x51);
                push_vlq(3, v);
                v.push(((*n / 65536) % 256) as u8);
                v.push(((*n / 256) % 256) as u8);
                v.push((*n % 256) as u8);
            },
            Meta::SmpteOffset(t) => {
                v.push(0x54);
                push_vlq(5, v);
                t.extend_midi(v);
            },
            Meta::TimeSignature(s) => {
                v.push(0x58);
                push_vlq(4, v);
                s.extend_midi(v);
            },
            Meta::KeySignature(k) => {
                v.push(0x59);
                push_vlq(2, v);
                k.extend_midi(v);
            },
            Meta::SequencerSpecific(d) => {
                v.push(0x7F);
                push_vlq(d.len() as u32, v);
                extend_from_slice(v, d.as_slice());
            },
            Meta::Unknown { meta_type, data } => {
                v.push(*meta_type);
                push_vlq(data.len() as u32, v);
                extend_from_slice(v, data.as_slice());
            },
        }
        assert(v@ == start + self.spec_midi());
    }

    /// Parse a meta event (after its 0xFF), returning it and the number of bytes it took.
    pub fn from_midi(v: &[u8]) -> (r: Result<(Meta, usize), ParseError>)
        ensures
            Meta::spec_parsed(v@, r),
            r matches Ok((_, n)) ==> 2 <= n <= v@.len(),
    {
        if v.len() < 2 {
            return Err(ParseError::UnexpectedEnd);
        }
        let meta_type = v[0];
        let (len, len_offset) = match read_vlq(vstd::slice::slice_subrange(v, 1, v.len())) {
            Ok(x) => x,
            Err(e) => return Err(e),
        };
        if v.len() - len_offset - 1 < len as usize {
            return Err(ParseError::UnexpectedEnd);
        }
        let end = len as usize + len_offset + 1;
        let data = vstd::slice::slice_subrange(v, len_offset + 1, end);
        if meta_type == 0x00 {
            if data.len() < 2 {
                return Err(ParseError::UnexpectedEnd);
            }
            Ok((Meta::SequenceNumber((data[0] as u16) * 256 + (data[1] as u16)), end))
        } else if meta_type == 0x01 {
            Ok((Meta::Text(string_from_utf8_lossy(data)), end))
        } else if meta_type == 0x02 {
            Ok((Meta::Copyright(string_from_utf8_lossy(data)), end))
        } else if meta_type == 0x03 {
            Ok((Meta::TrackName(string_from_utf8_lossy(data)), end))
        } else if meta_type == 0x04 {
            Ok((Meta::InstrumentName(string_from_utf8_lossy(data)), end))
        } else if meta_type == 0x05 {
            Ok((Meta::Lyric(string_from_utf8_lossy(data)), end))
        } else if meta_type == 0x06 {
            Ok((Meta::Marker(string_from_utf8_lossy(data)), end))
        } else if meta_type == 0x07 {
            Ok((Meta::CuePoint(string_from_utf8_lossy(data)), end))
        } else if meta_type == 0x20 {
            if data.len() < 1 {
                return Err(ParseError::UnexpectedEnd);
            }
            Ok((Meta::ChannelPrefix(Channel::from_u8(data[0])), end))
        } else if meta_type == 0x2F {
            Ok((Meta::EndOfTrack, end))
        } else if meta_type == 0x51 {
            if data.len() < 3 {
                return Err(ParseError::UnexpectedEnd);
            }
            Ok(
                (
                    Meta::SetTempo(
                        (data[0] as u32) * 65536 + (data[1] as u32) * 256 + (data[2] as u32),
                    ),
                    end,
                ),
            )
        } else if meta_type == 0x54 {
            match HighResTimeCode::from_midi(data) {
                Err(e) => Err(e),
                Ok((time, _)) => Ok((Meta::SmpteOffset(time), end)),
            }
        } else if meta_type == 0x58 {
            match FileTimeSignature::from_midi(data) {
                Err(e) => Err(e),
                Ok(s) => Ok((Meta::TimeSignature(s), end)),
            }
        } else if meta_type == 0x59 {
            match KeySignature::from_midi(data) {
                Err(e) => Err(e),
                Ok(k) => Ok((Meta::KeySignature(k), end)),
            }
        } else if meta_type == 0x7F {
            Ok((Meta::SequencerSpecific(vstd::slice::slice_to_vec(data)), end))
        } else {
            Ok((Meta::Unknown { meta_type, data: vstd::slice::slice_to_vec(data) }, end))
        }
    }
}

/// Append a text event: its type, the length of its UTF-8 bytes and the bytes.
fn extend_text(v: &mut Vec<u8>, meta_type: u8, s: &String)
    requires
        spec_string_bytes(*s).len() <= 0x0FFFFFFF,
    ensures
        final(v)@ == old(v)@ + spec_meta_event(meta_type, spec_string_bytes(*s)),
{
    let bytes = s.as_str().as_bytes();
    assert(bytes@ == spec_string_bytes(*s));
    v.push(meta_type);
    push_vlq(bytes.len() as u32, v);
    extend_from_slice(v, bytes);
}

/// A Standard Midi File (SMF)
#[derive(Debug, PartialEq)]
pub struct MidiFile {
    /// The header chunk: Contains the file format, number of tracks, and division
    pub header: Header,
    /// The track chunks: Contains the actual midi events
    pub tracks: Vec<Track>,
}

/// Errors that can occur when parsing a [`MidiFile`]
#[derive(Debug, PartialEq)]
pub struct MidiFileParseError {
    pub error: ParseError,
    pub file: MidiFile,
    pub offset: usize,
    pub parsing: String,
    pub remaining_bytes: usize,
    pub next_bytes: Vec<u8>,
}

/// The header chunk of a Standard Midi File
#[derive(Debug, Clone, Copy, PartialEq, Eq, Structural)]
pub struct Header {
    /// The format of the file
    pub format: SMFFormat,
    /// How many tracks are in the file
    pub num_tracks: u16,
    /// The "division" of the file, which specifies the meaning of the delta times in the file
    pub division: Division,
}

/// The format of a Standard Midi File
#[derive(Debug, Clone, Copy, PartialEq, Eq, Structural)]
pub enum SMFFormat {
    /// A single track file
    SingleTrack,
    /// The file contains multiple tracks, but they are all meant to be played simultaneously
    MultiTrack,
    /// The file contains multiple tracks, but they are independent of each other
    MultiSong,
}

/// The division of a Standard Midi File, which specifies the meaning of the delta times in the file
#[derive(Debug, Clone, Copy, PartialEq, Eq, Structural)]
pub enum Division {
    /// Metrical time. Number of "ticks" per quarter note.
    TicksPerQuarterNote(u16),
    /// Time code based time.
    TimeCode { frames_per_second: TimeCodeType, ticks_per_frame: u8 },
}

/// A track in a Standard Midi File
#[derive(Debug, PartialEq)]
pub enum Track {
    /// A standard "MTrk" chunk
    Midi(Vec<TrackEvent>),
    /// Any other chunk data.
    ///
    /// This includes the entire chuck data, include whatever chunk type and length.
    AlienChunk(Vec<u8>),
}

/// An event occurring in a track in a Standard Midi File. The time in beats or frames at
/// which it occurs follows from the delta times and the file's [`Division`].
#[derive(Debug, PartialEq)]
pub struct TrackEvent {
    /// The time since the last event. The meaning of this value is determined by the file header's [`Division`].
    pub delta_time: u32,
    /// The actual midi event.
    pub event: MidiMsg,
}

impl Clone for TrackEvent {
    fn clone(&self) -> (r: Self) {
        TrackEvent { delta_time: self.delta_time, event: self.event.clone() }
    }
}

impl Default for SMFFormat {
    fn default() -> (r: Self)
        ensures
            r == SMFFormat::MultiTrack,
    {
        SMFFormat::MultiTrack
    }
}

impl Default for Division {
    fn default() -> (r: Self)
        ensures
            r == Division::TicksPerQuarterNote(96),
    {
        Division::TicksPerQuarterNote(96)
    }
}

impl Default for Header {
    fn default() -> (r: Self)
        ensures
            r == Header::spec_default(),
    {
        Header {
            format: SMFFormat::MultiTrack,
            num_tracks: 0,
            division: Division::TicksPerQuarterNote(96),
        }
    }
}

impl Default for Track {
    fn default() -> (r: Self)
        ensures
            r matches Track::Midi(events) && events@.len() == 0,
    {
        Track::Midi(Vec::new())
    }
}

impl Default for MidiFile {
    fn default() -> (r: Self)
        ensures
            r.header == Header::spec_default(),
            r.tracks@.len() == 0,
    {
        MidiFile { header: Header::default(), tracks: Vec::new() }
    }
}

/// "MThd"
pub open spec fn spec_mthd() -> Seq<u8> {
    seq![0x4Du8, 0x54, 0x68, 0x64]
}

/// "MTrk"
pub open spec fn spec_mtrk() -> Seq<u8> {
    seq![0x4Du8, 0x54, 0x72, 0x6B]
}

impl SMFFormat {
    /// The 16-bit format number, most significant byte first.
    pub open spec fn spec_midi(self) -> Seq<u8> {
        match self {
            SMFFormat::SingleTrack => seq![0u8, 0],
            SMFFormat::MultiTrack => seq![0u8, 1],
            SMFFormat::MultiSong => seq![0u8, 2],
        }
    }

    /// Parsing the format from its least significant byte.
    pub open spec fn spec_from_midi(v: Seq<u8>) -> Result<(SMFFormat, usize), ParseError> {
        if v.len() < 2 {
            Err(ParseError::UnexpectedEnd)
        } else if v[1] == 0 {
            Ok((SMFFormat::SingleTrack, 2usize))
        } else if v[1] == 1 {
            Ok((SMFFormat::MultiTrack, 2usize))
        } else if v[1] == 2 {
            Ok((SMFFormat::MultiSong, 2usize))
        } else {
            Err(ParseError::Invalid("Invalid SMF format"))
        }
    }

    /// Parse the format.
    pub fn from_midi(v: &[u8]) -> (r: Result<(SMFFormat, usize), ParseError>)
        ensures
            r == SMFFormat::spec_from_midi(v@),
    {
        if v.len() < 2 {
            Err(ParseError::UnexpectedEnd)
        } else if v[1] == 0 {
            Ok((SMFFormat::SingleTrack, 2))
        } else if v[1] == 1 {
            Ok((SMFFormat::MultiTrack, 2))
        } else if v[1] == 2 {
            Ok((SMFFormat::MultiSong, 2))
        } else {
            Err(ParseError::Invalid("Invalid SMF format"))
        }
    }

    /// Append the format.
    pub fn extend_midi(&self, v: &mut Vec<u8>)
        ensures
            final(v)@ == old(v)@ + self.spec_midi(),
    {
        v.push(0);
        match self {
            SMFFormat::SingleTrack => v.push(0),
            SMFFormat::MultiTrack => v.push(1),
            SMFFormat::MultiSong => v.push(2),
        }
    }
}

impl Header {
    /// A multi-track file with no tracks and 96 ticks per quarter note.
    pub open spec fn spec_default() -> Header {
        Header {
            format: SMFFormat::MultiTrack,
            num_tracks: 0,
            division: Division::TicksPerQuarterNote(96),
        }
    }

    /// The header chunk: "MThd", its length 6, the format, the number of tracks and the
    /// division (ticks per quarter note, or 0x80 with the frame rate and ticks per frame).
    pub open spec fn spec_midi(self) -> Seq<u8> {
        spec_mthd() + spec_u32_be(6) + self.format.spec_midi() + spec_u16_be(self.num_tracks)
            + match self.division {
            Division::TicksPerQuarterNote(tpqn) => spec_u16_be(tpqn),
            Division::TimeCode { frames_per_second, ticks_per_frame } => seq![
                (0x80 + frames_per_second.spec_to_u8()) as u8,
                ticks_per_frame,
            ],
        }
    }

    /// Parsing the 14 bytes of a header chunk.
    pub open spec fn spec_from_midi(v: Seq<u8>) -> Result<Header, ParseError> {
        if v.len() < 14 {
            Err(ParseError::UnexpectedEnd)
        } else if v.subrange(0, 4) != spec_mthd() {
            Err(ParseError::Invalid("Invalid header"))
        } else if spec_u32_from_midi(v.subrange(4, 8)) != Ok::<u32, ParseError>(6) {
            Err(ParseError::Invalid("Invalid header length"))
        } else {
            match SMFFormat::spec_from_midi(v.subrange(8, 14)) {
                Err(e) => Err(e),
                Ok((format, _)) => {
                    let num_tracks = (v[10] * 256 + v[11]) as u16;
                    if v[12] < 128 {
                        Ok(
                            Header {
                                format,
                                num_tracks,
                                division: Division::TicksPerQuarterNote((v[12] * 256 + v[13]) as u16),
                            },
                        )
                    } else if v[12] - 128 < 4 {
                        Ok(
                            Header {
                                format,
                                num_tracks,
                                division: Division::TimeCode {
                                    frames_per_second: TimeCodeType::spec_from_u2((v[12] - 128) as u8),
                                    ticks_per_frame: v[13],
                                },
                            },
                        )
                    } else {
                        Err(ParseError::Invalid("Invalid time code type"))
                    }
                },
            }
        }
    }

    /// Append the header chunk.
    pub fn extend_midi(&self, v: &mut Vec<u8>)
        ensures
            final(v)@ == old(v)@ + self.spec_midi(),
    {
        let ghost start = v@;
        v.push(0x4D);
        v.push(0x54);
        v.push(0x68);
        v.push(0x64);
        push_u32(6, v);
        self.format.extend_midi(v);
        push_u16(self.num_tracks, v);
        match self.division {
            Division::TicksPerQuarterNote(tpqn) => push_u16(tpqn, v),
            Division::TimeCode { frames_per_second, ticks_per_frame } => {
                v.push(0x80 + frames_per_second.to_u8());
                v.push(ticks_per_frame);
            },
        }
        assert(v@ == start + self.spec_midi());
    }

    /// Parse the 14 bytes of a header chunk.
    pub fn from_midi(v: &[u8]) -> (r: Result<Header, ParseError>)
        ensures
            r == Header::spec_from_midi(v@),
    {
        if v.len() < 14 {
            return Err(ParseError::UnexpectedEnd);
        }
        if !(v[0] == 0x4D && v[1] == 0x54 && v[2] == 0x68 && v[3] == 0x64) {
            assert(v@.subrange(0, 4) != spec_mthd()) by {
                if v@.subrange(0, 4) == spec_mthd() {
                    assert(v@.subrange(0, 4)[0] == v@[0]);
                    assert(v@.subrange(0, 4)[1] == v@[1]);
                    assert(v@.subrange(0, 4)[2] == v@[2]);
                    assert(v@.subrange(0, 4)[3] == v@[3]);
                }
            }
            return Err(ParseError::Invalid("Invalid header"));
        }
        assert(v@.subrange(0, 4) == spec_mthd());
        match u32_from_midi(vstd::slice::slice_subrange(v, 4, 8)) {
            Ok(6) => {},
            _ => {
                return Err(ParseError::Invalid("Invalid header length"));
            },
        }
        let format = match SMFFormat::from_midi(vstd::slice::slice_subrange(v, 8, 14)) {
            Ok((f, _)) => f,
            Err(e) => return Err(e),
        };
        let num_tracks: u16 = (v[10] as u16) * 256 + (v[11] as u16);
        if v[12] < 128 {
            Ok(
                Header {
                    format,
                    num_tracks,
                    division: Division::TicksPerQuarterNote((v[12] as u16) * 256 + (v[13] as u16)),
                },
            )
        } else if v[12] - 128 < 4 {
            Ok(
                Header {
                    format,
                    num_tracks,
                    division: Division::TimeCode {
                        frames_per_second: TimeCodeType::from_u2(v[12] - 128),
                        ticks_per_frame: v[13],
                    },
                },
            )
        } else {
            Err(ParseError::Invalid("Invalid time code type"))
        }
    }
}

/// A header is read back as written, whatever follows it, when its ticks per quarter note
/// leave the top bit clear.
pub proof fn lemma_header_round_trip(h: Header, rest: Seq<u8>)
    requires
        h.division matches Division::TicksPerQuarterNote(t) ==> t < 0x8000,
    ensures
        Header::spec_from_midi(h.spec_midi() + rest) == Ok::<Header, ParseError>(h),
{
    let v = h.spec_midi() + rest;
    assert(v.subrange(0, 4) == spec_mthd());
    assert(v.subrange(4, 8) == spec_u32_be(6));
    assert(v.subrange(8, 14) == h.spec_midi().subrange(8, 14));
    assert(v.subrange(8, 14)[1] == v[9]);
    match h.division {
        Division::TicksPerQuarterNote(t) => {
            assert(v[12] == t / 256 && v[13] == t % 256);
        },
        Division::TimeCode { frames_per_second, .. } => {
            assert(TimeCodeType::spec_from_u2(frames_per_second.spec_to_u8()) == frames_per_second);
        },
    }
}

impl TrackEvent {
    /// Whether the event is a system reset, which files cannot hold.
    pub open spec fn spec_is_system_reset(self) -> bool {
        self.event matches MidiMsg::SystemRealTime { msg: SystemRealTimeMsg::SystemReset }
    }

    /// Whether the event is a system message (exclusive, common or real time).
    pub open spec fn spec_is_system(self) -> bool {
        match self.event {
            MidiMsg::SystemExclusive { .. } | MidiMsg::SystemCommon { .. }
            | MidiMsg::SystemRealTime { .. } => true,
            _ => false,
        }
    }

    /// Whether the event can be written: its delta time and (for a system message) its length
    /// below 2^28, and the message itself.
    pub open spec fn spec_serializable(self) -> bool {
        self.spec_is_system_reset() || (self.delta_time <= 0x0FFFFFFF
            && self.event.spec_serializable() && (self.spec_is_system()
            ==> self.event.spec_midi().len() <= 0x0FFFFFFF))
    }

    /// The event in a track: nothing for a system reset; else its delta time, then a meta
    /// event after 0xFF, a system message after 0xF7 and its length, or a channel message.
    pub open spec fn spec_midi(self) -> Seq<u8> {
        if self.spec_is_system_reset() {
            Seq::empty()
        } else {
            spec_vlq(self.delta_time) + if self.event is Meta {
                seq![0xFFu8]
            } else if self.spec_is_system() {
                seq![0xF7u8] + spec_vlq(self.event.spec_midi().len() as u32)
            } else {
                Seq::empty()
            } + self.event.spec_midi()
        }
    }

    /// Append the event.
    pub fn extend_midi(&self, v: &mut Vec<u8>)
        requires
            self.spec_serializable(),
        ensures
            final(v)@ == old(v)@ + self.spec_midi(),
    {
        if let MidiMsg::SystemRealTime { msg: SystemRealTimeMsg::SystemReset } = self.event {
            return ;
        }
        let ghost start = v@;
        push_vlq(self.delta_time, v);
        let event = self.event.to_midi();
        let is_meta = match self.event {
            MidiMsg::Meta { .. } => true,
            _ => false,
        };
        let is_system = match self.event {
            MidiMsg::SystemExclusive { .. } | MidiMsg::SystemCommon { .. }
            | MidiMsg::SystemRealTime { .. } => true,
            _ => false,
        };
        if is_meta {
            v.push(0xFF);
        } else if is_system {
            v.push(0xF7);
            push_vlq(event.len() as u32, v);
        }
        extend_from_slice(v, event.as_slice());
        assert(v@ == start + self.spec_midi());
    }

    /// Whether `r` and `ctx2` are what parsing a track event from `v` gives, with the context
    /// `ctx`: the delta time, then an event by its first byte. A system exclusive event (0xF0)
    /// or an escaped message (0xF7) carries its length, which the message must fill exactly.
    pub open spec fn spec_parsed(
        v: Seq<u8>,
        ctx: ReceiverContext,
        r: Result<(TrackEvent, usize), ParseError>,
        ctx2: ReceiverContext,
    ) -> bool {
        match spec_read_vlq(v) {
            Err(e) => r == Err::<(TrackEvent, usize), ParseError>(e) && ctx2 == ctx,
            Ok((delta, off)) => if off >= v.len() {
                r == Err::<(TrackEvent, usize), ParseError>(ParseError::UnexpectedEnd) && ctx2 == ctx
            } else {
                let b = v[off as int];
                if b / 16 == 0xF && (b % 16 == 0 || b % 16 == 7) {
                    match spec_read_vlq(v.subrange(off + 1, v.len() as int)) {
                        Err(e) => r == Err::<(TrackEvent, usize), ParseError>(e) && ctx2 == ctx,
                        Ok((len, lo)) => {
                            let p = off + lo + 1;
                            let rest = v.subrange(p, v.len() as int);
                            let c = ReceiverContext { is_smf_sysex: b % 16 == 0, ..ctx };
                            let invalid = ParseError::Invalid("Invalid system exclusive message");
                            if b % 16 == 0 {
                                &&& ctx2 == ReceiverContext { time_code: ctx2.time_code, ..c }
                                &&& match r {
                                    Ok((ev, l)) => {
                                        &&& ev.delta_time == delta
                                        &&& l == p + len
                                        &&& ev.event matches MidiMsg::SystemExclusive { msg }
                                        &&& SystemExclusiveMsg::spec_parsed(
                                            rest,
                                            true,
                                            ctx.time_code,
                                            Ok((msg, (len + 1) as usize)),
                                            ctx2.time_code,
                                        )
                                    },
                                    Err(e) => SystemExclusiveMsg::spec_parsed(
                                        rest,
                                        true,
                                        ctx.time_code,
                                        Err(e),
                                        ctx2.time_code,
                                    ) || (e == invalid && exists|x: SystemExclusiveMsg, n: usize|
                                        n != len + 1 && SystemExclusiveMsg::spec_parsed(
                                            rest,
                                            true,
                                            ctx.time_code,
                                            Ok((x, n)),
                                            ctx2.time_code,
                                        )),
                                }
                            } else {
                                match r {
                                    Ok((ev, l)) => {
                                        &&& ev.delta_time == delta
                                        &&& l == p + len
                                        &&& MidiMsg::spec_parsed(
                                            rest,
                                            c,
                                            true,
                                            Ok((ev.event, (len + 1) as usize)),
                                            ctx2,
                                        )
                                    },
                                    Err(e) => MidiMsg::spec_parsed(rest, c, true, Err(e), ctx2) || (e
                                        == invalid && exists|x: MidiMsg, n: usize|
                                        n != len + 1 && MidiMsg::spec_parsed(
                                            rest,
                                            c,
                                            true,
                                            Ok((x, n)),
                                            ctx2,
                                        )),
                                }
                            }
                        },
                    }
                } else if b == 0xFF {
                    &&& ctx2 == ctx
                    &&& match r {
                        Ok((ev, l)) => {
                            &&& ev.delta_time == delta
                            &&& ev.event matches MidiMsg::Meta { msg }
                            &&& exists|n: usize|
                                l == off + 1 + n && Meta::spec_parsed(
                                    v.subrange(off + 1, v.len() as int),
                                    Ok((msg, n)),
                                )
                        },
                        Err(e) => Meta::spec_parsed(v.subrange(off + 1, v.len() as int), Err(e)),
                    }
                } else if b / 16 == 0xF {
                    r == Err::<(TrackEvent, usize), ParseError>(ParseError::Invalid("Invalid track event"))
                        && ctx2 == ctx
                } else {
                    let c = ReceiverContext { is_smf_sysex: false, ..ctx };
                    let rest = v.subrange(off as int, v.len() as int);
                    match r {
                        Ok((ev, l)) => ev.delta_time == delta && exists|n: usize|
                            l == off + n && MidiMsg::spec_parsed(rest, c, true, Ok((ev.event, n)), ctx2),
                        Err(e) => MidiMsg::spec_parsed(rest, c, true, Err(e), ctx2),
                    }
                }
            },
        }
    }
}

impl TrackEvent {
    /// Parse a track event whose byte after the delta time (at `off`) starts a system exclusive
    /// event (0xF0) or an escaped message (0xF7), which carry their length.
    #[verifier::rlimit(100)]
    fn from_midi_escaped(v: &[u8], ctx: &mut ReceiverContext, delta_time: u32, off: usize) -> (r:
        Result<(TrackEvent, usize), ParseError>)
        requires
            old(ctx).wf(),
            spec_read_vlq(v@) == Ok::<(u32, usize), ParseError>((delta_time, off)),
            off < v@.len(),
            v@[off as int] / 16 == 0xF,
            v@[off as int] % 16 == 0 || v@[off as int] % 16 == 7,
        ensures
            final(ctx).wf(),
            TrackEvent::spec_parsed(v@, *old(ctx), r, *final(ctx)),
            r matches Ok((_, n)) ==> 1 <= n <= v@.len(),
    {
        let b = v[off];
        let (len, lo) = match read_vlq(vstd::slice::slice_subrange(v, off + 1, v.len())) {
            Ok(x) => x,
            Err(e) => return Err(e),
        };
        let p = off + lo + 1;
        let rest = vstd::slice::slice_subrange(v, p, v.len());
        if b % 16 == 0 {
            ctx.is_smf_sysex = true;
            let mut tc = ctx.time_code;
            let res = SystemExclusiveMsg::from_midi(rest, true, &mut tc);
            ctx.time_code = tc;
            match res {
                Err(e) => Err(e),
                Ok((msg, event_len)) => {
                    if event_len != len as usize + 1 {
                        Err(ParseError::Invalid("Invalid system exclusive message"))
                    } else {
                        Ok(
                            (
                                TrackEvent { delta_time, event: MidiMsg::SystemExclusive { msg } },
                                p + len as usize,
                            ),
                        )
                    }
                },
            }
        } else {
            ctx.is_smf_sysex = false;
            match MidiMsg::parse(rest, ctx, true) {
                Err(e) => Err(e),
                Ok((event, event_len)) => {
                    if event_len != len as usize + 1 {
                        Err(ParseError::Invalid("Invalid system exclusive message"))
                    } else {
                        Ok((TrackEvent { delta_time, event }, p + len as usize))
                    }
                },
            }
        }
    }

    /// Parse a track event, returning it and the number of bytes it took.
    #[verifier::rlimit(100)]
    pub fn from_midi(v: &[u8], ctx: &mut ReceiverContext) -> (r: Result<(TrackEvent, usize), ParseError>)
        requires
            old(ctx).wf(),
        ensures
            final(ctx).wf(),
            TrackEvent::spec_parsed(v@, *old(ctx), r, *final(ctx)),
            r matches Ok((_, n)) ==> 1 <= n <= v@.len(),
    {
        let (delta_time, off) = match read_vlq(v) {
            Ok(x) => x,
            Err(e) => return Err(e),
        };
        if off >= v.len() {
            return Err(ParseError::UnexpectedEnd);
        }
        let b = v[off];
        if b / 16 == 0xF && (b % 16 == 0 || b % 16 == 7) {
            TrackEvent::from_midi_escaped(v, ctx, delta_time, off)
        } else if b == 0xFF {
            match Meta::from_midi(vstd::slice::slice_subrange(v, off + 1, v.len())) {
                Err(e) => Err(e),
                Ok((msg, event_len)) => Ok(
                    (TrackEvent { delta_time, event: MidiMsg::Meta { msg } }, off + 1 + event_len),
                ),
            }
        } else if b / 16 == 0xF {
            Err(ParseError::Invalid("Invalid track event"))
        } else {
            ctx.is_smf_sysex = false;
            match MidiMsg::parse(vstd::slice::slice_subrange(v, off, v.len()), ctx, true) {
                Err(e) => Err(e),
                Ok((event, event_len)) => Ok((TrackEvent { delta_time, event }, off + event_len)),
            }
        }
    }
}

/// The events of a track one after the other.
pub open spec fn spec_events_midi(events: Seq<TrackEvent>) -> Seq<u8>
    decreases events.len(),
{
    if events.len() == 0 {
        Seq::empty()
    } else {
        spec_events_midi(events.drop_last()) + events.last().spec_midi()
    }
}

/// The sum of the delta times of the events.
pub open spec fn spec_total_ticks(events: Seq<TrackEvent>) -> int
    decreases events.len(),
{
    if events.len() == 0 {
        0
    } else {
        spec_total_ticks(events.drop_last()) + events.last().delta_time
    }
}

/// The delta times of the first events add up to no more than those of all of them.
proof fn lemma_total_ticks_prefix(events: Seq<TrackEvent>, i: int)
    requires
        0 <= i <= events.len(),
    ensures
        spec_total_ticks(events.take(i)) <= spec_total_ticks(events),
    decreases events.len() - i,
{
    if i < events.len() {
        lemma_total_ticks_prefix(events, i + 1);
        assert(events.take(i + 1).drop_last() == events.take(i));
    } else {
        assert(events.take(i) == events);
    }
}

/// The tracks one after the other.
pub open spec fn spec_tracks_midi(tracks: Seq<Track>) -> Seq<u8>
    decreases tracks.len(),
{
    if tracks.len() == 0 {
        Seq::empty()
    } else {
        spec_tracks_midi(tracks.drop_last()) + tracks.last().spec_midi()
    }
}

impl Track {
    /// Whether the track can be written: each event can, and the chunk's length fits in 32
    /// bits.
    pub open spec fn spec_serializable(self) -> bool {
        match self {
            Track::Midi(events) => (forall|i: int|
                0 <= i < events@.len() ==> (#[trigger] events@[i]).spec_serializable())
                && spec_events_midi(events@).len() <= u32::MAX,
            Track::AlienChunk(_) => true,
        }
    }

    /// A track chunk: "MTrk", the length of the events and the events; an alien chunk as it is.
    pub open spec fn spec_midi(self) -> Seq<u8> {
        match self {
            Track::Midi(events) => spec_mtrk() + spec_u32_be(spec_events_midi(events@).len() as u32)
                + spec_events_midi(events@),
            Track::AlienChunk(data) => data@,
        }
    }

    /// Get the number of events in the track, or the length in bytes of an `AlienChunk`.
    pub fn len(&self) -> (r: usize)
        ensures
            r == match self {
                Track::Midi(events) => events@.len(),
                Track::AlienChunk(data) => data@.len(),
            },
    {
        match self {
            Track::Midi(events) => events.len(),
            Track::AlienChunk(data) => data.len(),
        }
    }

    /// Get the [`TrackEvent`] events in the track. Will be empty for an `AlienChunk`.
    pub fn events(&self) -> (r: &[TrackEvent])
        ensures
            r@ == match self {
                Track::Midi(events) => events@,
                Track::AlienChunk(_) => Seq::empty(),
            },
    {
        match self {
            Track::Midi(events) => events.as_slice(),
            Track::AlienChunk(_) => &[],
        }
    }

    /// Add an event at the end of a `Midi` track.
    pub fn extend(&mut self, event: TrackEvent)
        requires
            *old(self) is Midi,
        ensures
            *final(self) matches Track::Midi(events) && (*old(self) matches Track::Midi(old_events)
                && events@ == old_events@.push(event)),
    {
        match self {
            Track::Midi(events) => events.push(event),
            Track::AlienChunk(_) => {},
        }
    }

    /// The number of ticks from the start of a `Midi` track to its last event: the sum of the
    /// delta times of its events.
    pub fn total_ticks(&self) -> (r: u32)
        requires
            *self is Midi,
            spec_total_ticks(self->Midi_0@) <= u32::MAX,
        ensures
            r == spec_total_ticks(self->Midi_0@),
    {
        match self {
            Track::Midi(events) => {
                let mut sum: u32 = 0;
                let mut i: usize = 0;
                while i < events.len()
                    invariant
                        i <= events@.len(),
                        spec_total_ticks(events@) <= u32::MAX,
                        sum == spec_total_ticks(events@.take(i as int)),
                    decreases events@.len() - i,
                {
                    proof {
                        lemma_total_ticks_prefix(events@, i + 1);
                        assert(events@.take(i + 1).drop_last() == events@.take(i as int));
                    }
                    sum = sum + events[i].delta_time;
                    i = i + 1;
                }
                assert(events@.take(events@.len() as int) == events@);
                sum
            },
            Track::AlienChunk(_) => 0,
        }
    }

    /// Add an event at the end of a `Midi` track, given the absolute tick at which it happens:
    /// its delta time is what separates that tick from the track's last event.
    pub fn extend_at_tick(&mut self, tick: u32, event: MidiMsg)
        requires
            *old(self) is Midi,
            tick >= spec_total_ticks(old(self)->Midi_0@),
        ensures
            *final(self) matches Track::Midi(events) && (*old(self) matches Track::Midi(old_events)
                && events@ == old_events@.push(
                (TrackEvent { delta_time: (tick - spec_total_ticks(old_events@)) as u32, event }),
            )),
    {
        let last = self.total_ticks();
        self.extend(TrackEvent { delta_time: tick - last, event });
    }

    /// Append the track.
    pub fn extend_midi(&self, v: &mut Vec<u8>)
        requires
            self.spec_serializable(),
        ensures
            final(v)@ == old(v)@ + self.spec_midi(),
    {
        match self {
            Track::Midi(events) => {
                let mut body: Vec<u8> = Vec::new();
                let mut i: usize = 0;
                while i < events.len()
                    invariant
                        i <= events@.len(),
                        forall|j: int|
                            0 <= j < events@.len() ==> (#[trigger] events@[j]).spec_serializable(),
                        body@ == spec_events_midi(events@.subrange(0, i as int)),
                    decreases events@.len() - i,
                {
                    events[i].extend_midi(&mut body);
                    i = i + 1;
                    assert(events@.subrange(0, i as int).drop_last() == events@.subrange(0, i - 1));
                }
                assert(events@.subrange(0, events@.len() as int) == events@);
                v.push(0x4D);
                v.push(0x54);
                v.push(0x72);
                v.push(0x6B);
                push_u32(body.len() as u32, v);
                extend_from_slice(v, body.as_slice());
            },
            Track::AlienChunk(data) => extend_from_slice(v, data.as_slice()),
        }
    }
}

impl MidiFile {
    /// The header chunk followed by the track chunks.
    pub open spec fn spec_midi(self) -> Seq<u8> {
        self.header.spec_midi() + spec_tracks_midi(self.tracks@)
    }

    /// Turn a `MidiFile` into a series of bytes.
    pub fn to_midi(&self) -> (r: Vec<u8>)
        requires
            forall|i: int| 0 <= i < self.tracks@.len() ==> (#[trigger] self.tracks@[i]).spec_serializable(),
        ensures
            r@ == self.spec_midi(),
    {
        let mut r: Vec<u8> = Vec::new();
        self.header.extend_midi(&mut r);
        let mut i: usize = 0;
        while i < self.tracks.len()
            invariant
                i <= self.tracks@.len(),
                forall|j: int|
                    0 <= j < self.tracks@.len() ==> (#[trigger] self.tracks@[j]).spec_serializable(),
                r@ == self.header.spec_midi() + spec_tracks_midi(self.tracks@.subrange(0, i as int)),
            decreases self.tracks@.len() - i,
        {
            self.tracks[i].extend_midi(&mut r);
            i = i + 1;
            assert(self.tracks@.subrange(0, i as int).drop_last() == self.tracks@.subrange(0, i - 1));
        }
        assert(self.tracks@.subrange(0, self.tracks@.len() as int) == self.tracks@);
        r
    }

    /// Add a track to the file. Increments the `num_tracks` field in the header.
    pub fn add_track(&mut self, track: Track)
        requires
            old(self).header.num_tracks < u16::MAX,
        ensures
            final(self).tracks@ == old(self).tracks@.push(track),
            final(self).header == (Header {
                num_tracks: (old(self).header.num_tracks + 1) as u16,
                ..old(self).header
            }),
    {
        self.tracks.push(track);
        self.header.num_tracks = self.header.num_tracks + 1;
    }

    /// Remove a track from the file. Decrements the `num_tracks` field in the header.
    pub fn remove_track(&mut self, track_num: usize)
        requires
            track_num < old(self).tracks@.len(),
            old(self).header.num_tracks > 0,
        ensures
            final(self).tracks@ == old(self).tracks@.remove(track_num as int),
            final(self).header == (Header {
                num_tracks: (old(self).header.num_tracks - 1) as u16,
                ..old(self).header
            }),
    {
        self.tracks.remove(track_num);
        self.header.num_tracks = self.header.num_tracks - 1;
    }
}

/// The name of the track being parsed: "track" and its number.
pub open spec fn spec_track_label(track: u16) -> Seq<char> {
    "track "@ + spec_decimal(track as nat)
}

/// The name of the track event being parsed: "track", its number, "event" and the event's
/// number.
pub open spec fn spec_event_label(track: u16, event: usize) -> Seq<char> {
    spec_track_label(track) + " event "@ + spec_decimal(event as nat)
}

fn track_label(track: u16) -> (r: String)
    ensures
        r@ == spec_track_label(track),
{
    proof {
        reveal_strlit("track ");
    }
    let mut r = String::from_str("track ");
    r.append(decimal(track as u64).as_str());
    r
}

fn event_label(track: u16, event: usize) -> (r: String)
    ensures
        r@ == spec_event_label(track, event),
{
    proof {
        reveal_strlit(" event ");
    }
    let mut r = track_label(track);
    r.append(" event ");
    r.append(decimal(event as u64).as_str());
    r
}

/// The position at which a header fails to parse: at its start, at its length, or at its
/// format and division.
pub open spec fn spec_header_error_offset(v: Seq<u8>) -> usize {
    if v.len() < 14 || v.subrange(0, 4) != spec_mthd() {
        0
    } else if spec_u32_from_midi(v.subrange(4, 8)) != Ok::<u32, ParseError>(6) {
        4
    } else {
        8
    }
}

/// The bytes that a parse error shows: at most 20 from the offset on.
pub open spec fn spec_next_bytes(v: Seq<u8>, offset: int) -> Seq<u8> {
    v.subrange(offset, if v.len() - offset < 20 { v.len() as int } else { offset + 20 })
}

fn parse_error(error: ParseError, file: MidiFile, offset: usize, parsing: String, v: &[u8]) -> (r:
    MidiFileParseError)
    requires
        offset <= v@.len(),
    ensures
        r.error == error,
        r.file == file,
        r.offset == offset,
        r.parsing == parsing,
        r.remaining_bytes == v@.len() - offset,
        r.next_bytes@ == spec_next_bytes(v@, offset as int),
{
    let remaining = v.len() - offset;
    let n: usize = if remaining < 20 {
        remaining
    } else {
        20
    };
    let next_bytes = vstd::slice::slice_to_vec(vstd::slice::slice_subrange(v, offset, offset + n));
    MidiFileParseError { error, file, offset, parsing, remaining_bytes: remaining, next_bytes }
}

/// The receiver with which the events of a track are read: a fresh one, reading a file.
pub open spec fn spec_track_receiver() -> ReceiverContext {
    ReceiverContext { parsing_smf: true, ..ReceiverContext::spec_new() }
}

/// Whether reading a track event at `at` in `v` with the receiver `ctx` gives `event`, ending at
/// `next` and leaving the receiver `ctx2`.
#[verifier::opaque]
pub open spec fn spec_event_read(
    v: Seq<u8>,
    at: int,
    ctx: ReceiverContext,
    event: TrackEvent,
    next: int,
    ctx2: ReceiverContext,
) -> bool {
    TrackEvent::spec_parsed(v.subrange(at, v.len() as int), ctx, Ok((event, (next - at) as usize)), ctx2)
}

/// Whether reading a track event at `at` in `v` with the receiver `ctx` fails with `e`, leaving
/// the receiver `ctx2`.
#[verifier::opaque]
pub open spec fn spec_event_fails(
    v: Seq<u8>,
    at: int,
    ctx: ReceiverContext,
    e: ParseError,
    ctx2: ReceiverContext,
) -> bool {
    TrackEvent::spec_parsed(v.subrange(at, v.len() as int), ctx, Err(e), ctx2)
}

/// Whether `events` are the first events read from a track's events at `start` in `v`, as in
/// [`spec_events_parsed_at`], each starting before `end`; `offs` ends where the last one ended
/// and `ctxs` with the receiver it left.
pub open spec fn spec_events_begun_at(
    v: Seq<u8>,
    start: int,
    end: int,
    events: Seq<TrackEvent>,
    offs: Seq<int>,
    ctxs: Seq<ReceiverContext>,
) -> bool {
    &&& offs.len() == events.len() + 1
    &&& ctxs.len() == events.len() + 1
    &&& offs[0] == start
    &&& ctxs[0] == spec_track_receiver()
    &&& forall|k: int| 0 <= k < events.len() ==> #[trigger] spec_event_step(v, end, events, offs, ctxs, k)
}

/// Whether reading the events of a track from `start` to `end` in `v` fails with `e` at `at`
/// after reading `events`: the next event, which starts at `at` before `end`, fails with `e`,
/// or the last one read runs past `end`, to `at`.
pub open spec fn spec_events_failed(
    v: Seq<u8>,
    start: int,
    end: int,
    events: Seq<TrackEvent>,
    e: ParseError,
    at: int,
) -> bool {
    exists|offs: Seq<int>, ctxs: Seq<ReceiverContext>|
        #[trigger] spec_events_begun_at(v, start, end, events, offs, ctxs) && at == offs.last() && {
            ||| offs.last() > end && e == ParseError::Invalid(
                "Track length exceeded the provided length",
            )
            ||| offs.last() < end && exists|c2: ReceiverContext|
                #[trigger] spec_event_fails(v, offs.last(), ctxs.last(), e, c2)
        }
}

/// Whether reading the chunk at `start` in `v` fails with `e` at `at`, `pushed` being the tracks
/// that it kept: its eight byte head is missing, or its body runs past the end of `v` (nothing
/// kept, failing at `start`), or reading the events of an "MTrk" chunk fails (the events read
/// before are kept).
pub open spec fn spec_track_failed(
    v: Seq<u8>,
    start: int,
    e: ParseError,
    pushed: Seq<Track>,
    at: int,
) -> bool {
    if start + 8 > v.len() {
        e == ParseError::UnexpectedEnd && pushed.len() == 0 && at == start
    } else {
        match spec_u32_from_midi(v.subrange(start + 4, start + 8)) {
            Err(e2) => e == e2 && pushed.len() == 0 && at == start,
            Ok(len) => if start + 8 + len > v.len() {
                e == ParseError::UnexpectedEnd && pushed.len() == 0 && at == start
            } else if v.subrange(start, start + 4) != spec_mtrk() {
                false
            } else {
                &&& pushed.len() == 1
                &&& match pushed[0] {
                    Track::Midi(events) => spec_events_failed(
                        v,
                        start + 8,
                        start + 8 + len,
                        events@,
                        e,
                        at,
                    ),
                    Track::AlienChunk(_) => false,
                }
            },
        }
    }
}

/// What is being read when reading the chunk at `start` in `v`, as track `track`, fails at `at`
/// keeping `pushed`: what was being read before (`before`) while its head is incomplete, the
/// track while its head is read, and then the event that fails, or the last one read where it
/// runs past the end of the chunk.
pub open spec fn spec_failed_label(
    v: Seq<u8>,
    start: int,
    track: u16,
    pushed: Seq<Track>,
    at: int,
    before: Seq<char>,
) -> Seq<char> {
    if start + 8 > v.len() {
        before
    } else if pushed.len() == 0 {
        spec_track_label(track)
    } else {
        let k = match pushed[0] {
            Track::Midi(events) => events@.len() as int,
            Track::AlienChunk(_) => 0,
        };
        match spec_u32_from_midi(v.subrange(start + 4, start + 8)) {
            Ok(len) => if at > start + 8 + len {
                spec_event_label(track, (k - 1) as usize)
            } else {
                spec_event_label(track, k as usize)
            },
            Err(_) => spec_track_label(track),
        }
    }
}

/// What is being read once track `track` has been read: its last event, or the track itself
/// where it has none.
pub open spec fn spec_label_after(track: u16, t: Track) -> Seq<char> {
    match t {
        Track::Midi(events) => if events@.len() > 0 {
            spec_event_label(track, (events@.len() - 1) as usize)
        } else {
            spec_track_label(track)
        },
        Track::AlienChunk(_) => spec_track_label(track),
    }
}

/// What is being read before chunk `i` is read, the chunks before it being `kept`: the header,
/// or what reading the chunk before left.
pub open spec fn spec_label_before(i: int, kept: Seq<Track>) -> Seq<char> {
    if i == 0 {
        "header"@
    } else {
        spec_label_after((i - 1) as u16, kept[i - 1])
    }
}

/// Whether `events` are what reading a track's events from `v` gives, event `k` read at
/// `offs[k]` with the receiver `ctxs[k]` that the previous events left, starting with
/// [`spec_track_receiver`] at `start`, each event starting before `end` and the last ending at
/// `end`.
pub open spec fn spec_events_parsed_at(
    v: Seq<u8>,
    start: int,
    end: int,
    events: Seq<TrackEvent>,
    offs: Seq<int>,
    ctxs: Seq<ReceiverContext>,
) -> bool {
    &&& offs.len() == events.len() + 1
    &&& ctxs.len() == events.len() + 1
    &&& offs[0] == start
    &&& ctxs[0] == spec_track_receiver()
    &&& offs[events.len() as int] == end
    &&& forall|k: int| 0 <= k < events.len() ==> #[trigger] spec_event_step(v, end, events, offs, ctxs, k)
}

/// Whether event `k` of `events` is read at `offs[k]`, before `end`, with the receiver `ctxs[k]`,
/// ending at `offs[k + 1]` (within `v`) and leaving the receiver `ctxs[k + 1]`.
pub open spec fn spec_event_step(
    v: Seq<u8>,
    end: int,
    events: Seq<TrackEvent>,
    offs: Seq<int>,
    ctxs: Seq<ReceiverContext>,
    k: int,
) -> bool {
    &&& offs[k] < end
    &&& offs[k] < offs[k + 1] <= v.len()
    &&& spec_event_read(v, offs[k], ctxs[k], events[k], offs[k + 1], ctxs[k + 1])
}

/// Whether `events` are what reading a track's events from `start` to `end` in `v` gives: each
/// read where the previous one ended, with the receiver that it left.
pub open spec fn spec_events_parsed(v: Seq<u8>, start: int, end: int, events: Seq<TrackEvent>) -> bool {
    exists|offs: Seq<int>, ctxs: Seq<ReceiverContext>|
        spec_events_parsed_at(v, start, end, events, offs, ctxs)
}

/// Whether `track` is the chunk at `start` in `v`, which ends at `next`: its eight byte head
/// gives the length of its body; an "MTrk" chunk's body holds the events of a track, any other
/// chunk is kept whole.
pub open spec fn spec_track_parsed(v: Seq<u8>, start: int, track: Track, next: int) -> bool {
    &&& 0 <= start
    &&& start + 8 <= v.len()
    &&& next <= v.len()
    &&& match spec_u32_from_midi(v.subrange(start + 4, start + 8)) {
        Ok(len) => next == start + 8 + len,
        Err(_) => false,
    }
    &&& if v.subrange(start, start + 4) == spec_mtrk() {
        match track {
            Track::Midi(events) => spec_events_parsed(v, start + 8, next, events@),
            Track::AlienChunk(_) => false,
        }
    } else {
        match track {
            Track::AlienChunk(data) => data@ == v.subrange(start, next),
            Track::Midi(_) => false,
        }
    }
}

/// Whether `tracks` are the chunks that follow the header in `v`, one after the other, track
/// `i` standing at `starts[i]`.
pub open spec fn spec_tracks_parsed_at(v: Seq<u8>, tracks: Seq<Track>, starts: Seq<int>) -> bool {
    &&& starts.len() == tracks.len() + 1
    &&& starts[0] == 14
    &&& forall|i: int|
        0 <= i < tracks.len() ==> spec_track_parsed(v, starts[i], #[trigger] tracks[i], starts[i + 1])
}

/// Whether `tracks` are the chunks that follow the header in `v`, one after the other.
pub open spec fn spec_tracks_parsed(v: Seq<u8>, tracks: Seq<Track>) -> bool {
    exists|starts: Seq<int>| spec_tracks_parsed_at(v, tracks, starts)
}

/// Whether `v` is a file: a header, followed by as many chunks as it counts.
pub open spec fn spec_file_parses(v: Seq<u8>) -> bool {
    &&& Header::spec_from_midi(v) is Ok
    &&& exists|tracks: Seq<Track>|
        tracks.len() == Header::spec_from_midi(v)->Ok_0.num_tracks && #[trigger] spec_tracks_parsed(
            v,
            tracks,
        )
}

/// Whether reading the chunks that follow the header in `v`, of which there are `n`, fails with
/// `e` at `at` while reading what `label` names, `kept` being the tracks read: the first `i`
/// chunks are read (as the first `i` of `kept`), and reading chunk `i` fails (keeping the rest
/// of `kept`).
pub open spec fn spec_tracks_failed(
    v: Seq<u8>,
    n: int,
    e: ParseError,
    kept: Seq<Track>,
    at: int,
    label: Seq<char>,
) -> bool {
    exists|i: int, starts: Seq<int>|
        0 <= i < n && i <= kept.len() && #[trigger] spec_tracks_parsed_at(
            v,
            kept.subrange(0, i),
            starts,
        ) && spec_track_failed(v, starts[i], e, kept.subrange(i, kept.len() as int), at)
            && label == spec_failed_label(
            v,
            starts[i],
            i as u16,
            kept.subrange(i, kept.len() as int),
            at,
            spec_label_before(i, kept),
        )
}

/// Reading one more event keeps the events read so far as they were and adds the new one.
proof fn lemma_events_read_step(
    v: Seq<u8>,
    end: int,
    events: Seq<TrackEvent>,
    offs: Seq<int>,
    ctxs: Seq<ReceiverContext>,
    event: TrackEvent,
    next: int,
    ctx2: ReceiverContext,
)
    requires
        offs.len() == events.len() + 1,
        ctxs.len() == events.len() + 1,
        forall|k: int| 0 <= k < events.len() ==> #[trigger] spec_event_step(v, end, events, offs, ctxs, k),
        offs.last() < end,
        offs.last() < next <= v.len(),
        spec_event_read(v, offs.last(), ctxs.last(), event, next, ctx2),
    ensures
        forall|k: int|
            0 <= k < events.len() + 1 ==> #[trigger] spec_event_step(
                v,
                end,
                events.push(event),
                offs.push(next),
                ctxs.push(ctx2),
                k,
            ),
{
    let events2 = events.push(event);
    let offs2 = offs.push(next);
    let ctxs2 = ctxs.push(ctx2);
    assert forall|k: int| 0 <= k < events.len() + 1 implies #[trigger] spec_event_step(
        v,
        end,
        events2,
        offs2,
        ctxs2,
        k,
    ) by {
        if k < events.len() {
            assert(spec_event_step(v, end, events, offs, ctxs, k));
            assert(events2[k] == events[k]);
            assert(offs2[k] == offs[k] && offs2[k + 1] == offs[k + 1]);
            assert(ctxs2[k] == ctxs[k] && ctxs2[k + 1] == ctxs[k + 1]);
        } else {
            assert(events2[k] == event);
            assert(offs2[k] == offs.last() && offs2[k + 1] == next);
            assert(ctxs2[k] == ctxs.last() && ctxs2[k + 1] == ctx2);
        }
    }
}

/// Reading a track event at the same place with the same receiver twice ends at the same place
/// and leaves the same receiver.
proof fn lemma_event_read_unique(
    v: Seq<u8>,
    at: int,
    ctx: ReceiverContext,
    e1: TrackEvent,
    n1: int,
    c1: ReceiverContext,
    e2: TrackEvent,
    n2: int,
    c2: ReceiverContext,
)
    requires
        v.len() <= usize::MAX,
        0 <= at < n1 <= v.len(),
        at < n2 <= v.len(),
        spec_event_read(v, at, ctx, e1, n1, c1),
        spec_event_read(v, at, ctx, e2, n2, c2),
    ensures
        n1 == n2,
        c1 == c2,
{
    reveal(spec_event_read);
    lemma_track_event_outcome(
        v.subrange(at, v.len() as int),
        ctx,
        Ok((e1, (n1 - at) as usize)),
        c1,
        Ok((e2, (n2 - at) as usize)),
        c2,
    );
}

/// Reading a track event cannot both succeed and fail at the same place with the same receiver.
proof fn lemma_event_read_not_failed(
    v: Seq<u8>,
    at: int,
    ctx: ReceiverContext,
    e1: TrackEvent,
    n1: int,
    c1: ReceiverContext,
    err: ParseError,
    c2: ReceiverContext,
)
    requires
        spec_event_read(v, at, ctx, e1, n1, c1),
    ensures
        !spec_event_fails(v, at, ctx, err, c2),
{
    reveal(spec_event_read);
    reveal(spec_event_fails);
    if TrackEvent::spec_parsed(v.subrange(at, v.len() as int), ctx, Err(err), c2) {
        lemma_track_event_outcome(
            v.subrange(at, v.len() as int),
            ctx,
            Ok((e1, (n1 - at) as usize)),
            c1,
            Err(err),
            c2,
        );
    }
}

/// Where a track's events are read, each one starts no later than where the events end.
proof fn lemma_event_offsets_bounded(
    v: Seq<u8>,
    start: int,
    end: int,
    events: Seq<TrackEvent>,
    offs: Seq<int>,
    ctxs: Seq<ReceiverContext>,
    j: int,
)
    requires
        spec_events_parsed_at(v, start, end, events, offs, ctxs),
        0 <= j <= events.len(),
    ensures
        start <= offs[j] <= end,
    decreases events.len() - j,
{
    lemma_event_offsets_from_start(v, start, end, events, offs, ctxs, j);
    if j < events.len() {
        lemma_event_offsets_bounded(v, start, end, events, offs, ctxs, j + 1);
        assert(spec_event_step(v, end, events, offs, ctxs, j));
    }
}

/// Where a track's events are read, each one starts no earlier than the first.
proof fn lemma_event_offsets_from_start(
    v: Seq<u8>,
    start: int,
    end: int,
    events: Seq<TrackEvent>,
    offs: Seq<int>,
    ctxs: Seq<ReceiverContext>,
    j: int,
)
    requires
        offs.len() == events.len() + 1,
        offs[0] == start,
        forall|k: int| 0 <= k < events.len() ==> #[trigger] spec_event_step(v, end, events, offs, ctxs, k),
        0 <= j <= events.len(),
    ensures
        start <= offs[j],
    decreases j,
{
    if j > 0 {
        lemma_event_offsets_from_start(v, start, end, events, offs, ctxs, j - 1);
        assert(spec_event_step(v, end, events, offs, ctxs, j - 1));
    }
}

/// Reading the events of a track twice, the second time as far as `events2` go, finds them at
/// the same places with the same receivers.
proof fn lemma_events_agree(
    v: Seq<u8>,
    start: int,
    end: int,
    events: Seq<TrackEvent>,
    offs: Seq<int>,
    ctxs: Seq<ReceiverContext>,
    events2: Seq<TrackEvent>,
    offs2: Seq<int>,
    ctxs2: Seq<ReceiverContext>,
    k: int,
)
    requires
        v.len() <= usize::MAX,
        0 <= start,
        spec_events_parsed_at(v, start, end, events, offs, ctxs),
        spec_events_begun_at(v, start, end, events2, offs2, ctxs2),
        0 <= k <= events2.len(),
    ensures
        k <= events.len(),
        offs2[k] == offs[k],
        ctxs2[k] == ctxs[k],
    decreases k,
{
    if k > 0 {
        let j = k - 1;
        lemma_events_agree(v, start, end, events, offs, ctxs, events2, offs2, ctxs2, j);
        assert(spec_event_step(v, end, events2, offs2, ctxs2, j));
        if j == events.len() {
            assert(false);
        }
        assert(spec_event_step(v, end, events, offs, ctxs, j));
        lemma_event_offsets_from_start(v, start, end, events, offs, ctxs, j);
        lemma_event_read_unique(
            v,
            offs[j],
            ctxs[j],
            events[j],
            offs[k],
            ctxs[k],
            events2[j],
            offs2[k],
            ctxs2[k],
        );
    }
}

/// The events of a track cannot both be read to its end and fail to be read.
proof fn lemma_events_not_failed(
    v: Seq<u8>,
    start: int,
    end: int,
    events: Seq<TrackEvent>,
    events2: Seq<TrackEvent>,
    e: ParseError,
    at: int,
)
    requires
        v.len() <= usize::MAX,
        0 <= start,
        spec_events_parsed(v, start, end, events),
    ensures
        !spec_events_failed(v, start, end, events2, e, at),
{
    if spec_events_failed(v, start, end, events2, e, at) {
        let (offs, ctxs) = choose|offs: Seq<int>, ctxs: Seq<ReceiverContext>|
            spec_events_parsed_at(v, start, end, events, offs, ctxs);
        let (offs2, ctxs2) = choose|offs2: Seq<int>, ctxs2: Seq<ReceiverContext>|
            #[trigger] spec_events_begun_at(v, start, end, events2, offs2, ctxs2) && at
                == offs2.last() && {
                ||| offs2.last() > end && e == ParseError::Invalid(
                    "Track length exceeded the provided length",
                )
                ||| offs2.last() < end && exists|c2: ReceiverContext|
                    #[trigger] spec_event_fails(v, offs2.last(), ctxs2.last(), e, c2)
            };
        let m = events2.len() as int;
        lemma_events_agree(v, start, end, events, offs, ctxs, events2, offs2, ctxs2, m);
        lemma_event_offsets_bounded(v, start, end, events, offs, ctxs, m);
        if offs2.last() < end {
            let c2 = choose|c2: ReceiverContext| #[trigger] spec_event_fails(v, offs2.last(), ctxs2.last(), e, c2);
            assert(m < events.len());
            assert(spec_event_step(v, end, events, offs, ctxs, m));
            lemma_event_read_not_failed(v, offs[m], ctxs[m], events[m], offs[m + 1], ctxs[m + 1], e, c2);
            assert(spec_event_fails(v, offs2.last(), ctxs2.last(), e, c2));
        }
        assert(false);
    }
}

/// A chunk cannot both be read and fail to be read.
proof fn lemma_track_not_failed(
    v: Seq<u8>,
    start: int,
    t: Track,
    next: int,
    e: ParseError,
    pushed: Seq<Track>,
    at: int,
)
    requires
        v.len() <= usize::MAX,
        spec_track_parsed(v, start, t, next),
    ensures
        !spec_track_failed(v, start, e, pushed, at),
{
    if spec_track_failed(v, start, e, pushed, at) && v.subrange(start, start + 4) == spec_mtrk() {
        if let (Track::Midi(events), Track::Midi(events2)) = (t, pushed[0]) {
            lemma_events_not_failed(v, start + 8, next, events@, events2@, e, at);
        }
    }
}

/// A file cannot both be read and fail to be read: where all of its chunks are read, reading
/// them does not fail.
proof fn lemma_file_not_failed(
    v: Seq<u8>,
    e: ParseError,
    kept: Seq<Track>,
    at: int,
    label: Seq<char>,
)
    requires
        v.len() <= usize::MAX,
        spec_file_parses(v),
    ensures
        !spec_tracks_failed(v, Header::spec_from_midi(v)->Ok_0.num_tracks as int, e, kept, at, label),
{
    if spec_tracks_failed(v, Header::spec_from_midi(v)->Ok_0.num_tracks as int, e, kept, at, label) {
        let n = Header::spec_from_midi(v)->Ok_0.num_tracks as int;
        let tracks = choose|tracks: Seq<Track>| tracks.len() == n && #[trigger] spec_tracks_parsed(v, tracks);
        let ws = choose|starts: Seq<int>| spec_tracks_parsed_at(v, tracks, starts);
        let (i, fs) = choose|i: int, starts: Seq<int>|
            0 <= i < n && i <= kept.len() && #[trigger] spec_tracks_parsed_at(v, kept.subrange(0, i), starts)
                && spec_track_failed(v, starts[i], e, kept.subrange(i, kept.len() as int), at)
                && label == spec_failed_label(
                v,
                starts[i],
                i as u16,
                kept.subrange(i, kept.len() as int),
                at,
                spec_label_before(i, kept),
            );
        lemma_starts_agree(v, tracks, ws, kept.subrange(0, i), fs, i);
        assert(spec_track_parsed(v, ws[i], tracks[i], ws[i + 1]));
        lemma_track_not_failed(v, ws[i], tracks[i], ws[i + 1], e, kept.subrange(i, kept.len() as int), at);
        assert(spec_track_failed(v, fs[i], e, kept.subrange(i, kept.len() as int), at));
    }
}

/// Two readings of the chunks of a file find the first `k` of them at the same places.
proof fn lemma_starts_agree(
    v: Seq<u8>,
    tracks: Seq<Track>,
    starts: Seq<int>,
    tracks2: Seq<Track>,
    starts2: Seq<int>,
    k: int,
)
    requires
        spec_tracks_parsed_at(v, tracks, starts),
        spec_tracks_parsed_at(v, tracks2, starts2),
        0 <= k <= tracks.len(),
        k <= tracks2.len(),
    ensures
        starts2[k] == starts[k],
    decreases k,
{
    if k > 0 {
        lemma_starts_agree(v, tracks, starts, tracks2, starts2, k - 1);
        assert(spec_track_parsed(v, starts[k - 1], tracks[k - 1], starts[k]));
        assert(spec_track_parsed(v, starts2[k - 1], tracks2[k - 1], starts2[k]));
    }
}

/// Read the track event at `at`, returning it and the number of bytes it took.
fn read_event(v: &[u8], at: usize, ctx: &mut ReceiverContext) -> (r: Result<(TrackEvent, usize), ParseError>)
    requires
        at <= v@.len(),
        old(ctx).wf(),
    ensures
        final(ctx).wf(),
        match r {
            Ok((event, n)) => 1 <= n <= v@.len() - at && spec_event_read(
                v@,
                at as int,
                *old(ctx),
                event,
                at + n,
                *final(ctx),
            ),
            Err(e) => spec_event_fails(v@, at as int, *old(ctx), e, *final(ctx)),
        },
{
    let r = TrackEvent::from_midi(vstd::slice::slice_subrange(v, at, v.len()), ctx);
    proof {
        reveal(spec_event_read);
        reveal(spec_event_fails);
    }
    r
}

/// Parse the track chunk at `*offset`: an "MTrk" chunk's events are parsed until its length is
/// used; any other chunk is kept whole.
fn parse_track(
    v: &[u8],
    offset: &mut usize,
    parsing: &mut String,
    tracks: &mut Vec<Track>,
    track_num: u16,
) -> (r: Result<(), ParseError>)
    requires
        *old(offset) <= v@.len(),
    ensures
        *final(offset) <= v@.len(),
        r is Ok ==> final(tracks)@.len() == old(tracks)@.len() + 1 && spec_track_parsed(
            v@,
            *old(offset) as int,
            final(tracks)@.last(),
            *final(offset) as int,
        ) && final(parsing)@ == spec_label_after(track_num, final(tracks)@.last()),
        r matches Err(e) ==> spec_track_failed(
            v@,
            *old(offset) as int,
            e,
            final(tracks)@.subrange(old(tracks)@.len() as int, final(tracks)@.len() as int),
            *final(offset) as int,
        ) && final(parsing)@ == spec_failed_label(
            v@,
            *old(offset) as int,
            track_num,
            final(tracks)@.subrange(old(tracks)@.len() as int, final(tracks)@.len() as int),
            *final(offset) as int,
            old(parsing)@,
        ),
        old(tracks)@.len() <= final(tracks)@.len() <= old(tracks)@.len() + 1,
        final(tracks)@.subrange(0, old(tracks)@.len() as int) == old(tracks)@,
{
    if v.len() - *offset < 8 {
        return Err(ParseError::UnexpectedEnd);
    }
    *parsing = track_label(track_num);
    let start = *offset;
    let len = match u32_from_midi(vstd::slice::slice_subrange(v, start + 4, start + 8)) {
        Ok(x) => x as usize,
        Err(e) => return Err(e),
    };
    if v.len() - start - 8 < len {
        return Err(ParseError::UnexpectedEnd);
    }
    let ghost head = v@.subrange(start as int, start + 4);
    if !(v[start] == 0x4D && v[start + 1] == 0x54 && v[start + 2] == 0x72 && v[start + 3] == 0x6B) {
        assert(head != spec_mtrk()) by {
            if head == spec_mtrk() {
                assert(head[0] == v@[start as int] && head[1] == v@[start + 1] && head[2] == v@[start
                    + 2] && head[3] == v@[start + 3]);
            }
        }
        tracks.push(
            Track::AlienChunk(
                vstd::slice::slice_to_vec(vstd::slice::slice_subrange(v, start, start + len + 8)),
            ),
        );
        *offset = start + len + 8;
        return Ok(());
    }
    assert(head == spec_mtrk());
    *offset = start + 8;
    let track_end = start + 8 + len;
    let mut receiver = ReceiverContext::new().parsing_smf();
    let mut events: Vec<TrackEvent> = Vec::new();
    let mut i: usize = 0;
    let ghost mut offs: Seq<int> = seq![*offset as int];
    let ghost mut ctxs: Seq<ReceiverContext> = seq![receiver];
    let v_len = v.len();
    let ghost head_len = spec_u32_from_midi(v@.subrange(start + 4, start + 8));
    while *offset < track_end
        invariant
            v_len == v@.len(),
            start == *old(offset),
            start + 8 <= v@.len(),
            head_len matches Ok(n) && track_end == start + 8 + n,
            head_len == spec_u32_from_midi(v@.subrange(start + 4, start + 8)),
            v@.subrange(start as int, start + 4) == spec_mtrk(),
            *offset <= v@.len(),
            track_end <= v@.len(),
            i <= *offset,
            i == events@.len(),
            events@.len() == 0 ==> parsing@ == spec_track_label(track_num),
            events@.len() > 0 ==> parsing@ == spec_event_label(track_num, (events@.len() - 1) as usize),
            receiver.wf(),
            tracks@ == old(tracks)@,
            offs.len() == events@.len() + 1,
            ctxs.len() == events@.len() + 1,
            offs[0] == start + 8,
            ctxs[0] == spec_track_receiver(),
            offs[events@.len() as int] == *offset,
            ctxs[events@.len() as int] == receiver,
            forall|k: int|
                0 <= k < events@.len() ==> #[trigger] spec_event_step(
                    v@,
                    track_end as int,
                    events@,
                    offs,
                    ctxs,
                    k,
                ),
        decreases v@.len() - *offset,
    {
        *parsing = event_label(track_num, i);
        match read_event(v, *offset, &mut receiver) {
            Ok((event, event_len)) => {
                let ghost old_events = events@;
                let ghost read = event;
                events.push(event);
                *offset = *offset + event_len;
                i = i + 1;
                proof {
                    lemma_events_read_step(
                        v@,
                        track_end as int,
                        old_events,
                        offs,
                        ctxs,
                        read,
                        *offset as int,
                        receiver,
                    );
                    offs = offs.push(*offset as int);
                    ctxs = ctxs.push(receiver);
                    assert(events@ == old_events.push(read));
                }
            },
            Err(e) => {
                proof {
                    assert(spec_events_begun_at(v@, start + 8, track_end as int, events@, offs, ctxs));
                    assert(spec_event_fails(v@, offs.last(), ctxs.last(), e, receiver));
                    assert(spec_events_failed(v@, start + 8, track_end as int, events@, e, *offset as int));
                }
                let ghost before = tracks@;
                tracks.push(Track::Midi(events));
                proof {
                    let pushed = tracks@.subrange(before.len() as int, tracks@.len() as int);
                    assert(pushed == seq![tracks@.last()]);
                    assert(pushed[0] == Track::Midi(events));
                    assert(spec_track_failed(v@, start as int, e, pushed, *offset as int));
                }
                return Err(e);
            },
        }
    }
    if *offset > track_end {
        let ghost err = ParseError::Invalid("Track length exceeded the provided length");
        proof {
            assert(spec_events_begun_at(v@, start + 8, track_end as int, events@, offs, ctxs));
            assert(spec_events_failed(v@, start + 8, track_end as int, events@, err, *offset as int));
            assert(events@.len() > 0);
        }
        let ghost before = tracks@;
        tracks.push(Track::Midi(events));
        proof {
            assert(tracks@.subrange(before.len() as int, tracks@.len() as int) == seq![
                tracks@.last(),
            ]);
        }
        return Err(ParseError::Invalid("Track length exceeded the provided length"));
    }
    proof {
        assert(spec_events_parsed_at(v@, start + 8, track_end as int, events@, offs, ctxs));
    }
    tracks.push(Track::Midi(events));
    Ok(())
}

impl MidiFile {
    /// Turn a series of bytes into a `MidiFile`: its header, then as many track chunks as the
    /// header gives. An error tells where parsing stopped and holds what was parsed until then;
    /// it comes exactly where the header or one of those chunks cannot be read.
    pub fn from_midi(v: &[u8]) -> (r: Result<MidiFile, MidiFileParseError>)
        ensures
            r matches Ok(f) ==> Header::spec_from_midi(v@) == Ok::<Header, ParseError>(f.header)
                && f.tracks@.len() == f.header.num_tracks && spec_tracks_parsed(v@, f.tracks@),
            r matches Err(e) ==> e.offset <= v@.len() && e.remaining_bytes == v@.len() - e.offset
                && e.next_bytes@ == spec_next_bytes(v@, e.offset as int),
            Header::spec_from_midi(v@) matches Err(h) ==> r matches Err(e) && e.error == h
                && e.offset == spec_header_error_offset(v@) && e.parsing@ == "header"@
                && e.file.header == Header::spec_default() && e.file.tracks@.len() == 0,
            Header::spec_from_midi(v@) matches Ok(h) ==> (r matches Err(e) ==> e.file.header == h
                && e.file.tracks@.len() <= h.num_tracks && spec_tracks_failed(
                v@,
                h.num_tracks as int,
                e.error,
                e.file.tracks@,
                e.offset as int,
                e.parsing@,
            )),
            spec_file_parses(v@) ==> r is Ok,
    {
        let mut parsing = "header".to_owned();
        let header = match Header::from_midi(v) {
            Ok(h) => h,
            Err(e) => {
                let offset: usize = if v.len() < 14 || !(v[0] == 0x4D && v[1] == 0x54 && v[2]
                    == 0x68 && v[3] == 0x64) {
                    0
                } else {
                    match u32_from_midi(vstd::slice::slice_subrange(v, 4, 8)) {
                        Ok(6) => 8,
                        _ => 4,
                    }
                };
                assert(offset == spec_header_error_offset(v@)) by {
                    if v@.len() >= 14 {
                        if v@.subrange(0, 4) == spec_mthd() {
                            assert(v@.subrange(0, 4)[0] == v@[0]);
                            assert(v@.subrange(0, 4)[1] == v@[1]);
                            assert(v@.subrange(0, 4)[2] == v@[2]);
                            assert(v@.subrange(0, 4)[3] == v@[3]);
                        } else {
                            assert(!(v@[0] == 0x4D && v@[1] == 0x54 && v@[2] == 0x68 && v@[3]
                                == 0x64) || v@.subrange(0, 4) == spec_mthd());
                        }
                    }
                }
                return Err(parse_error(e, MidiFile::default(), offset, parsing, v));
            },
        };
        let mut file = MidiFile { header, tracks: Vec::new() };
        let v_len: usize = v.len();
        let mut offset: usize = 14;
        let mut i: u16 = 0;
        let ghost mut starts: Seq<int> = seq![14int];
        while i < file.header.num_tracks
            invariant
                offset <= v@.len(),
                v_len == v@.len(),
                file.header == header,
                parsing@ == spec_label_before(i as int, file.tracks@),
                Header::spec_from_midi(v@) == Ok::<Header, ParseError>(header),
                file.tracks@.len() == i,
                i <= header.num_tracks,
                starts.len() == file.tracks@.len() + 1,
                starts[0] == 14,
                starts.last() == offset,
                forall|j: int|
                    0 <= j < file.tracks@.len() ==> spec_track_parsed(
                        v@,
                        starts[j],
                        #[trigger] file.tracks@[j],
                        starts[j + 1],
                    ),
            decreases header.num_tracks - i,
        {
            let ghost old_tracks = file.tracks@;
            let ghost old_starts = starts;
            match parse_track(v, &mut offset, &mut parsing, &mut file.tracks, i) {
                Ok(()) => {},
                Err(e) => {
                    proof {
                        let i = old_tracks.len() as int;
                        let kept = file.tracks@;
                        assert(kept.subrange(0, i) == old_tracks);
                        assert(spec_tracks_parsed_at(v@, kept.subrange(0, i), starts));
                        assert(starts[i] == starts.last());
                        assert(spec_track_failed(
                            v@,
                            starts[i],
                            e,
                            kept.subrange(i, kept.len() as int),
                            offset as int,
                        ));
                        assert(0 <= i < header.num_tracks as int && i <= kept.len());
                        assert(i > 0 ==> kept[i - 1] == old_tracks[i - 1]);
                        assert(spec_label_before(i, kept) == spec_label_before(i, old_tracks));
                        assert(spec_tracks_failed(
                            v@,
                            header.num_tracks as int,
                            e,
                            kept,
                            offset as int,
                            parsing@,
                        ));
                        if spec_file_parses(v@) {
                            lemma_file_not_failed(v@, e, kept, offset as int, parsing@);
                        }
                    }
                    return Err(parse_error(e, file, offset, parsing, v));
                },
            }
            proof {
                starts = starts.push(offset as int);
                assert forall|j: int| 0 <= j < file.tracks@.len() implies spec_track_parsed(
                    v@,
                    starts[j],
                    #[trigger] file.tracks@[j],
                    starts[j + 1],
                ) by {
                    if j < old_tracks.len() {
                        assert(file.tracks@[j] == file.tracks@.subrange(0, old_tracks.len() as int)[j]);
                        assert(spec_track_parsed(v@, old_starts[j], old_tracks[j], old_starts[j + 1]));
                    }
                }
            }
            i = i + 1;
        }
        assert(spec_tracks_parsed_at(v@, file.tracks@, starts));
        assert(spec_tracks_parsed(v@, file.tracks@));
        Ok(file)
    }
}

} // verus!
