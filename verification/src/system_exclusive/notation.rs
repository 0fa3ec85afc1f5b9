use vstd::prelude::*;

use crate::parse_error::ParseError;
use crate::util::{push_i14, spec_i14_lsb, spec_i14_msb, spec_u7, to_u7};

verus! {

/// Indicates that the next MIDI clock message is the first clock of a new measure. Which bar
/// is optionally indicated by this message.
/// Used by [`UniversalRealTimeMsg::BarMarker`](crate::UniversalRealTimeMsg::BarMarker).
#[derive(Debug, Copy, Clone, PartialEq)]
pub enum BarMarker {
    /// "Actually, we're not running right now, so there is no bar." Don't know why this is used.
    NotRunning,
    /// The bar is a count-in and are thus negative from 8191-0.
    CountIn(u16),
    /// A regular bar numbered 1-8191.
    Number(u16),
    /// Next clock message will be a new bar, but it's not known what its number is.
    RunningUnknown,
}

/// Used to communicate a new time signature to the receiver.
/// Used by [`UniversalRealTimeMsg`](crate::UniversalRealTimeMsg).
#[derive(Debug, Clone, PartialEq)]
pub struct TimeSignature {
    /// The base time signature.
    pub signature: Signature,
    /// How many MIDI clock events per metronome click.
    /// 24 indicates one click per quarter note (unless specified otherwise by `thirty_second_notes_in_midi_quarter_note`)
    pub midi_clocks_in_metronome_click: u8,
    /// Number of notated 32nd notes in a MIDI quarter note.
    /// 8 is the normal value (e.g. a midi quarter note is a quarter note)
    pub thirty_second_notes_in_midi_quarter_note: u8,
    /// At most 61 (!) additional times signatures for compound time definitions
    pub compound: Vec<Signature>,
}

/// A [time signature](https://en.wikipedia.org/wiki/Time_signature). Used by [`TimeSignature`].
#[derive(Debug, Copy, Clone, PartialEq)]
pub struct Signature {
    /// Number of beats in a bar.
    pub beats: u8,
    /// The note value for each beat.
    pub beat_value: BeatValue,
}

/// The note value of a beat, used by [`Signature`].
#[derive(Debug, Copy, Clone, PartialEq)]
pub enum BeatValue {
    Whole,
    Half,
    Quarter,
    Eighth,
    Sixteenth,
    ThirtySecond,
    SixtyFourth,
    /// Any other value interpreted as 2^x.
    /// The spec does not limit this value, so the maximum is a crazy 2^127
    Other(u8),
}

impl BarMarker {
    /// The two bytes of the bar marker, least significant first.
    pub open spec fn spec_midi(self) -> Seq<u8> {
        match self {
            BarMarker::NotRunning => seq![0x00u8, 0x40u8],
            BarMarker::CountIn(x) => {
                let y: i16 = -(if x > 8191 { 8191 } else { x as int }) as i16;
                seq![spec_i14_lsb(y), spec_i14_msb(y)]
            },
            BarMarker::Number(x) => {
                let y: i16 = (if x > 8191 { 8191 } else { x as int }) as i16;
                seq![spec_i14_lsb(y), spec_i14_msb(y)]
            },
            BarMarker::RunningUnknown => seq![0x7Fu8, 0x3Fu8],
        }
    }

    /// Append the two bytes of the bar marker.
    pub fn extend_midi(&self, v: &mut Vec<u8>)
        ensures
            final(v)@ == old(v)@ + self.spec_midi(),
    {
        match *self {
            BarMarker::NotRunning => {
                v.push(0x00);
                v.push(0x40);
            },
            BarMarker::CountIn(x) => {
                let y: i16 = if x > 8191 {
                    8191
                } else {
                    x as i16
                };
                push_i14(-y, v);
            },
            BarMarker::Number(x) => {
                let y: i16 = if x > 8191 {
                    8191
                } else {
                    x as i16
                };
                push_i14(y, v);
            },
            BarMarker::RunningUnknown => {
                v.push(0x7F);
                v.push(0x3F);
            },
        }
    }

    /// Parsing of bar markers is not implemented: always an error, which says so.
    pub fn from_midi(_m: &[u8]) -> (r: Result<(BarMarker, usize), ParseError>)
        ensures
            r == Err::<(BarMarker, usize), ParseError>(ParseError::Invalid("TODO: Not implemented")),
    {
        Err(ParseError::Invalid("TODO: Not implemented"))
    }
}

impl BeatValue {
    /// The power of two of the note value.
    pub open spec fn spec_to_u8(self) -> u8 {
        match self {
            BeatValue::Whole => 0,
            BeatValue::Half => 1,
            BeatValue::Quarter => 2,
            BeatValue::Eighth => 3,
            BeatValue::Sixteenth => 4,
            BeatValue::ThirtySecond => 5,
            BeatValue::SixtyFourth => 6,
            BeatValue::Other(x) => spec_u7(x as int),
        }
    }

    /// The power of two of the note value.
    pub fn to_u8(&self) -> (r: u8)
        ensures
            r == self.spec_to_u8(),
    {
        match *self {
            BeatValue::Whole => 0,
            BeatValue::Half => 1,
            BeatValue::Quarter => 2,
            BeatValue::Eighth => 3,
            BeatValue::Sixteenth => 4,
            BeatValue::ThirtySecond => 5,
            BeatValue::SixtyFourth => 6,
            BeatValue::Other(x) => to_u7(x),
        }
    }

    /// Reading a beat value from a byte is not implemented: always a quarter note.
    pub fn from_byte(_m: u8) -> (r: BeatValue)
        ensures
            r == BeatValue::Quarter,
    {
        BeatValue::Quarter
    }
}

impl Default for Signature {
    fn default() -> (r: Self)
        ensures
            r == (Signature { beats: 4, beat_value: BeatValue::Quarter }),
    {
        Signature { beats: 4, beat_value: BeatValue::Quarter }
    }
}

impl Signature {
    /// [beats (7-bit), beat value].
    pub open spec fn spec_midi(self) -> Seq<u8> {
        seq![spec_u7(self.beats as int), self.beat_value.spec_to_u8()]
    }

    /// Append [beats, beat value].
    pub fn extend_midi(&self, v: &mut Vec<u8>)
        ensures
            final(v)@ == old(v)@ + self.spec_midi(),
    {
        v.push(to_u7(self.beats));
        v.push(self.beat_value.to_u8());
    }

    /// Parsing of signatures is not implemented: always an error, which says so.
    pub fn from_midi(_m: &[u8]) -> (r: Result<(Signature, usize), ParseError>)
        ensures
            r == Err::<(Signature, usize), ParseError>(ParseError::Invalid("TODO: Not implemented")),
    {
        Err(ParseError::Invalid("TODO: Not implemented"))
    }
}

/// The bytes of a sequence of signatures.
pub open spec fn spec_signatures_midi(s: Seq<Signature>) -> Seq<u8>
    decreases s.len(),
{
    if s.len() == 0 {
        Seq::empty()
    } else {
        spec_signatures_midi(s.drop_last()) + s.last().spec_midi()
    }
}

impl Default for TimeSignature {
    fn default() -> (r: Self)
        ensures
            r.signature == (Signature { beats: 4, beat_value: BeatValue::Quarter }),
            r.midi_clocks_in_metronome_click == 24,
            r.thirty_second_notes_in_midi_quarter_note == 8,
            r.compound@ == Seq::<Signature>::empty(),
    {
        TimeSignature {
            signature: Signature::default(),
            midi_clocks_in_metronome_click: 24,
            thirty_second_notes_in_midi_quarter_note: 8,
            compound: Vec::new(),
        }
    }
}

impl TimeSignature {
    /// The byte count (4 plus two per compound signature, at most 126), the signature, the
    /// clocks per click and 32nd notes per quarter note (7-bit), and at most 61 compound
    /// signatures.
    pub open spec fn spec_midi(self) -> Seq<u8> {
        let n = self.compound@.len();
        seq![(if n >= 61 { 126 } else { 4 + n * 2 }) as u8] + self.signature.spec_midi() + seq![
            spec_u7(self.midi_clocks_in_metronome_click as int),
            spec_u7(self.thirty_second_notes_in_midi_quarter_note as int),
        ] + spec_signatures_midi(self.compound@.take(if n > 61 { 61 } else { n as int }))
    }

    /// Append the time signature.
    pub fn extend_midi(&self, v: &mut Vec<u8>)
        ensures
            final(v)@ == old(v)@ + self.spec_midi(),
    {
        let ghost start = v@;
        let n = self.compound.len();
        v.push(
            if n >= 61 {
                126
            } else {
                (4 + n * 2) as u8
            },
        );
        self.signature.extend_midi(v);
        v.push(to_u7(self.midi_clocks_in_metronome_click));
        v.push(to_u7(self.thirty_second_notes_in_midi_quarter_note));
        let ghost head = v@;
        let limit = if n > 61 {
            61
        } else {
            n
        };
        let mut i: usize = 0;
        while i < limit
            invariant
                limit <= n,
                n == self.compound@.len(),
                i <= limit,
                v@ == head + spec_signatures_midi(self.compound@.take(i as int)),
            decreases limit - i,
        {
            self.compound[i].extend_midi(v);
            i = i + 1;
            assert(self.compound@.take(i as int).drop_last() == self.compound@.take(i - 1));
        }
    }

    /// Parsing of time signatures is not implemented: always an error, which says so.
    pub fn from_midi(_m: &[u8]) -> (r: Result<(TimeSignature, usize), ParseError>)
        ensures
            r matches Err(e) && e == ParseError::Invalid("TODO: Not implemented"),
    {
        Err(ParseError::Invalid("TODO: Not implemented"))
    }
}

} // verus!
