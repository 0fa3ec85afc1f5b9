use vstd::prelude::*;

use crate::parse_error::ParseError;
use crate::util::{
    i_to_u14, i_to_u7, push_u7, spec_i14_offset, spec_u14_lsb, spec_u14_msb, spec_u7, to_u14,
    to_u7,
};

verus! {

/// Change the tunings of one or more notes, either real-time or not.
/// Used by [`UniversalNonRealTimeMsg`](crate::UniversalNonRealTimeMsg) and [`UniversalRealTimeMsg`](crate::UniversalRealTimeMsg).
#[derive(Debug, Clone, PartialEq, Eq)]
pub struct TuningNoteChange {
    /// Which tuning program is targeted, 0-127. See [`Parameter::TuningProgramSelect`](crate::Parameter::TuningProgramSelect).
    pub tuning_program_num: u8,
    /// Which tuning bank is targeted, 0-127. See [`Parameter::TuningBankSelect`](crate::Parameter::TuningBankSelect).
    pub tuning_bank_num: Option<u8>,
    /// At most 127 (MIDI note number, Option<Tuning>) pairs.
    /// A `None` value represents "No change".
    pub tunings: Vec<(u8, Option<Tuning>)>,
}

/// Set the tunings of all 128 notes.
/// Used by [`UniversalNonRealTimeMsg`](crate::UniversalNonRealTimeMsg).
#[derive(Debug, Clone, PartialEq, Eq)]
pub struct KeyBasedTuningDump {
    /// Which tuning program is targeted, 0-127. See [`Parameter::TuningProgramSelect`](crate::Parameter::TuningProgramSelect).
    pub tuning_program_num: u8,
    /// Which tuning bank is targeted, 0-127. See [`Parameter::TuningBankSelect`](crate::Parameter::TuningBankSelect).
    pub tuning_bank_num: Option<u8>,
    /// An exactly 16 character name
    pub name: [u8; 16],
    /// Should be exactly 128 Tunings with the index of each value = the MIDI note number being tuned.
    /// Excess values will be ignored. If fewer than 128 values are supplied, equal temperament
    /// will be applied to the remaining notes.
    /// A `None` value represents "No change".
    pub tunings: Vec<Option<Tuning>>,
}

/// Used to represent a tuning by [`TuningNoteChange`] and [`KeyBasedTuningDump`].
#[derive(Debug, Copy, Clone, PartialEq, Eq)]
pub struct Tuning {
    /// The semitone corresponding with the same MIDI note number, 0-127
    pub semitone: u8,
    /// Fraction of semitones above the `semitone`, in .0061-cent units.
    /// 0-16383
    pub fraction: u16,
}

/// Set the tuning of all octaves for a tuning program/bank.
/// Used by [`UniversalNonRealTimeMsg`](crate::UniversalNonRealTimeMsg).
///
/// As defined in MIDI Tuning Updated Specification (CA-020/CA-021/RP-020)
#[derive(Debug, Copy, Clone, PartialEq, Eq)]
pub struct ScaleTuningDump1Byte {
    /// Which tuning program is targeted, 0-127. See [`Parameter::TuningProgramSelect`](crate::Parameter::TuningProgramSelect).
    pub tuning_program_num: u8,
    /// Which tuning bank is targeted, 0-127. See [`Parameter::TuningBankSelect`](crate::Parameter::TuningBankSelect).
    pub tuning_bank_num: u8,
    /// An exactly 16 character name.
    pub name: [u8; 16],
    /// 12 semitones of tuning adjustments repeated over all octaves, starting with C
    /// Each value represents that number of cents plus the equal temperament tuning,
    /// from -64 to 63 cents
    pub tuning: [i8; 12],
}

/// Set the high-res tuning of all octaves for a tuning program/bank.
/// Used by [`UniversalNonRealTimeMsg`](crate::UniversalNonRealTimeMsg).
///
/// As defined in MIDI Tuning Updated Specification (CA-020/CA-021/RP-020)
#[derive(Debug, Copy, Clone, PartialEq, Eq)]
pub struct ScaleTuningDump2Byte {
    /// Which tuning program is targeted, 0-127. See [`Parameter::TuningProgramSelect`](crate::Parameter::TuningProgramSelect).
    pub tuning_program_num: u8,
    /// Which tuning bank is targeted, 0-127. See [`Parameter::TuningBankSelect`](crate::Parameter::TuningBankSelect).
    pub tuning_bank_num: u8,
    /// An exactly 16 character name.
    pub name: [u8; 16],
    /// 12 semitones of tuning adjustments repeated over all octaves, starting with C
    /// Each value represents that fractional number of cents plus the equal temperament tuning,
    /// from -8192 to 8192 (steps of .012207 cents)
    pub tuning: [i16; 12],
}

/// Set the tuning of all octaves for a set of channels.
/// Used by [`UniversalNonRealTimeMsg`](crate::UniversalNonRealTimeMsg) and [`UniversalRealTimeMsg`](crate::UniversalRealTimeMsg).
///
/// As defined in MIDI Tuning Updated Specification (CA-020/CA-021/RP-020)
#[derive(Debug, Copy, Clone, PartialEq, Eq)]
pub struct ScaleTuning1Byte {
    pub channels: ChannelBitMap,
    /// 12 semitones of tuning adjustments repeated over all octaves, starting with C
    /// Each value represents that number of cents plus the equal temperament tuning,
    /// from -64 to 63 cents
    pub tuning: [i8; 12],
}

/// Set the high-res tuning of all octaves for a set of channels.
/// Used by [`UniversalNonRealTimeMsg`](crate::UniversalNonRealTimeMsg) and [`UniversalRealTimeMsg`](crate::UniversalRealTimeMsg).
///
/// As defined in MIDI Tuning Updated Specification (CA-020/CA-021/RP-020)
#[derive(Debug, Copy, Clone, PartialEq, Eq)]
pub struct ScaleTuning2Byte {
    pub channels: ChannelBitMap,
    /// 12 semitones of tuning adjustments repeated over all octaves, starting with C
    /// Each value represents that fractional number of cents plus the equal temperament tuning,
    /// from -8192 to 8192 (steps of .012207 cents)
    pub tuning: [i16; 12],
}

/// The set of channels to apply this tuning message to. Used by [`ScaleTuning1Byte`] and [`ScaleTuning2Byte`].
#[derive(Debug, Copy, Clone, PartialEq, Eq)]
pub struct ChannelBitMap {
    pub channel_1: bool,
    pub channel_2: bool,
    pub channel_3: bool,
    pub channel_4: bool,
    pub channel_5: bool,
    pub channel_6: bool,
    pub channel_7: bool,
    pub channel_8: bool,
    pub channel_9: bool,
    pub channel_10: bool,
    pub channel_11: bool,
    pub channel_12: bool,
    pub channel_13: bool,
    pub channel_14: bool,
    pub channel_15: bool,
    pub channel_16: bool,
}

/// The "no change" tuning.
pub open spec fn spec_no_change() -> Seq<u8> {
    seq![0x7Fu8, 0x7Fu8, 0x7Fu8]
}

/// A one byte tuning value -64..63 as its offset 7-bit byte.
pub open spec fn spec_i7(t: i8) -> u8 {
    spec_u7(if t < -64 { 0 } else { t + 64 })
}

/// A two byte tuning value as its offset 14-bit value, LSB first.
pub open spec fn spec_i14_bytes(t: i16) -> Seq<u8> {
    seq![spec_u14_lsb(spec_i14_offset(t)), spec_u14_msb(spec_i14_offset(t))]
}

pub open spec fn spec_i7s(s: Seq<i8>) -> Seq<u8>
    decreases s.len(),
{
    if s.len() == 0 {
        Seq::empty()
    } else {
        spec_i7s(s.drop_last()).push(spec_i7(s.last()))
    }
}

pub open spec fn spec_i14s(s: Seq<i16>) -> Seq<u8>
    decreases s.len(),
{
    if s.len() == 0 {
        Seq::empty()
    } else {
        spec_i14s(s.drop_last()) + spec_i14_bytes(s.last())
    }
}

fn extend_i7s(v: &mut Vec<u8>, t: &[i8; 12])
    ensures
        final(v)@ == old(v)@ + spec_i7s(t@),
{
    let ghost start = v@;
    let mut i: usize = 0;
    while i < 12
        invariant
            i <= 12,
            t@.len() == 12,
            v@ == start + spec_i7s(t@.take(i as int)),
        decreases 12 - i,
    {
        v.push(i_to_u7(t[i]));
        i = i + 1;
        assert(t@.take(i as int).drop_last() == t@.take(i - 1));
    }
    assert(t@.take(12) == t@);
}

fn extend_i14s(v: &mut Vec<u8>, t: &[i16; 12])
    ensures
        final(v)@ == old(v)@ + spec_i14s(t@),
{
    let ghost start = v@;
    let mut i: usize = 0;
    while i < 12
        invariant
            i <= 12,
            t@.len() == 12,
            v@ == start + spec_i14s(t@.take(i as int)),
        decreases 12 - i,
    {
        let b = i_to_u14(t[i]);
        v.push(b[1]);
        v.push(b[0]);
        i = i + 1;
        assert(t@.take(i as int).drop_last() == t@.take(i - 1));
    }
    assert(t@.take(12) == t@);
}

fn extend_name(v: &mut Vec<u8>, name: &[u8; 16])
    ensures
        final(v)@ == old(v)@ + name@,
{
    let ghost start = v@;
    let mut i: usize = 0;
    while i < 16
        invariant
            i <= 16,
            name@.len() == 16,
            v@ == start + name@.take(i as int),
        decreases 16 - i,
    {
        v.push(name[i]);
        i = i + 1;
        assert(name@.take(i as int) == name@.take(i - 1).push(name@[i - 1]));
    }
    assert(name@.take(16) == name@);
}

impl Tuning {
    /// [semitone (7-bit), fraction MSB, fraction LSB].
    pub open spec fn spec_midi(self) -> Seq<u8> {
        seq![spec_u7(self.semitone as int), spec_u14_msb(self.fraction), spec_u14_lsb(self.fraction)]
    }

    /// Append [semitone, fraction MSB, fraction LSB].
    pub fn extend_midi(&self, v: &mut Vec<u8>)
        ensures
            final(v)@ == old(v)@ + self.spec_midi(),
    {
        push_u7(self.semitone, v);
        let b = to_u14(self.fraction);
        v.push(b[0]);
        v.push(b[1]);
    }
}

/// An optional tuning: the tuning, or "no change".
pub open spec fn spec_opt_tuning(t: Option<Tuning>) -> Seq<u8> {
    match t {
        Some(t) => t.spec_midi(),
        None => spec_no_change(),
    }
}

fn extend_opt_tuning(v: &mut Vec<u8>, t: &Option<Tuning>)
    ensures
        final(v)@ == old(v)@ + spec_opt_tuning(*t),
{
    match t {
        Some(t) => t.extend_midi(v),
        None => {
            v.push(0x7F);
            v.push(0x7F);
            v.push(0x7F);
        },
    }
}

/// Each (note, tuning) pair as [note (7-bit)] followed by the tuning.
pub open spec fn spec_note_tunings(s: Seq<(u8, Option<Tuning>)>) -> Seq<u8>
    decreases s.len(),
{
    if s.len() == 0 {
        Seq::empty()
    } else {
        spec_note_tunings(s.drop_last()) + seq![spec_u7(s.last().0 as int)] + spec_opt_tuning(
            s.last().1,
        )
    }
}

/// How many of `n` note changes a message carries: at most 127.
pub open spec fn spec_change_count(n: nat) -> int {
    if n < 127 {
        n as int
    } else {
        127
    }
}

impl TuningNoteChange {
    /// [program (7-bit), number of changes] followed by the changes: at most 127 of them, the
    /// first ones. The bank number is written by the enclosing message.
    pub open spec fn spec_midi(self) -> Seq<u8> {
        let k = spec_change_count(self.tunings@.len());
        seq![spec_u7(self.tuning_program_num as int), k as u8] + spec_note_tunings(
            self.tunings@.take(k),
        )
    }

    /// Append the note changes.
    pub fn extend_midi(&self, v: &mut Vec<u8>)
        ensures
            final(v)@ == old(v)@ + self.spec_midi(),
    {
        let k: usize = if self.tunings.len() < 127 {
            self.tunings.len()
        } else {
            127
        };
        push_u7(self.tuning_program_num, v);
        v.push(k as u8);
        let ghost start = v@;
        let mut i: usize = 0;
        while i < k
            invariant
                i <= k <= self.tunings@.len(),
                k == spec_change_count(self.tunings@.len()),
                v@ == start + spec_note_tunings(self.tunings@.take(i as int)),
            decreases k - i,
        {
            push_u7(self.tunings[i].0, v);
            extend_opt_tuning(v, &self.tunings[i].1);
            i = i + 1;
            assert(self.tunings@.take(i as int).drop_last() == self.tunings@.take(i - 1));
        }
    }

    /// Parsing of tuning note changes is not implemented: always an error, which says so.
    pub fn from_midi(_m: &[u8]) -> (r: Result<(TuningNoteChange, usize), ParseError>)
        ensures
            r matches Err(e) && e == ParseError::Invalid("TODO: TuningNoteChange not implemented"),
    {
        Err(ParseError::Invalid("TODO: TuningNoteChange not implemented"))
    }
}

/// The tuning of key `i` in a key based dump: the given tuning, or else equal temperament.
pub open spec fn spec_key_tuning(tunings: Seq<Option<Tuning>>, i: int) -> Seq<u8> {
    if i < tunings.len() {
        spec_opt_tuning(tunings[i])
    } else {
        seq![spec_u7(i), 0u8, 0u8]
    }
}

/// The tunings of the first `n` keys.
pub open spec fn spec_key_tunings(tunings: Seq<Option<Tuning>>, n: int) -> Seq<u8>
    decreases n,
{
    if n <= 0 {
        Seq::empty()
    } else {
        spec_key_tunings(tunings, n - 1) + spec_key_tuning(tunings, n - 1)
    }
}

impl KeyBasedTuningDump {
    /// [bank (7-bit), if any; program (7-bit)], the name, the tunings of all 128 keys, and a
    /// zero that stands in for the checksum.
    pub open spec fn spec_midi(self) -> Seq<u8> {
        (match self.tuning_bank_num {
            Some(b) => seq![spec_u7(b as int)],
            None => Seq::empty(),
        }) + seq![spec_u7(self.tuning_program_num as int)] + self.name@ + spec_key_tunings(
            self.tunings@,
            128,
        ) + seq![0u8]
    }

    /// Append the dump, with a zero in place of its checksum.
    pub fn extend_midi(&self, v: &mut Vec<u8>)
        ensures
            final(v)@ == old(v)@ + self.spec_midi(),
    {
        let ghost start = v@;
        if let Some(bank_num) = self.tuning_bank_num {
            v.push(to_u7(bank_num));
        }
        push_u7(self.tuning_program_num, v);
        extend_name(v, &self.name);
        let ghost head = v@;
        let mut i: usize = 0;
        while i < 128
            invariant
                i <= 128,
                v@ == head + spec_key_tunings(self.tunings@, i as int),
            decreases 128 - i,
        {
            if i < self.tunings.len() {
                extend_opt_tuning(v, &self.tunings[i]);
            } else {
                push_u7(i as u8, v);
                v.push(0);
                v.push(0);
            }
            i = i + 1;
        }
        v.push(0);
    }

    /// Parsing of key based tuning dumps is not implemented: always an error, which says so.
    pub fn from_midi(_m: &[u8]) -> (r: Result<(KeyBasedTuningDump, usize), ParseError>)
        ensures
            r matches Err(e) && e == ParseError::Invalid("TODO: KeyBasedTuningDump not implemented"),
    {
        Err(ParseError::Invalid("TODO: KeyBasedTuningDump not implemented"))
    }
}

impl ScaleTuningDump1Byte {
    /// [bank, program] (7-bit), the name, the twelve offset tunings, and a zero that stands
    /// in for the checksum.
    pub open spec fn spec_midi(self) -> Seq<u8> {
        seq![spec_u7(self.tuning_bank_num as int), spec_u7(self.tuning_program_num as int)]
            + self.name@ + spec_i7s(self.tuning@) + seq![0u8]
    }

    /// Append the dump (with a zero in place of its checksum).
    pub fn extend_midi(&self, v: &mut Vec<u8>)
        ensures
            final(v)@ == old(v)@ + self.spec_midi(),
    {
        push_u7(self.tuning_bank_num, v);
        push_u7(self.tuning_program_num, v);
        extend_name(v, &self.name);
        extend_i7s(v, &self.tuning);
        v.push(0);
    }

    /// Parsing of scale tuning dumps is not implemented: always an error, which says so.
    pub fn from_midi(_m: &[u8]) -> (r: Result<(ScaleTuningDump1Byte, usize), ParseError>)
        ensures
            r matches Err(e) && e == ParseError::Invalid("TODO: ScaleTuningDump1Byte not implemented"),
    {
        Err(ParseError::Invalid("TODO: ScaleTuningDump1Byte not implemented"))
    }
}

impl ScaleTuningDump2Byte {
    /// [bank, program] (7-bit), the name, the twelve offset 14-bit tunings, LSB first, and a
    /// zero that stands in for the checksum.
    pub open spec fn spec_midi(self) -> Seq<u8> {
        seq![spec_u7(self.tuning_bank_num as int), spec_u7(self.tuning_program_num as int)]
            + self.name@ + spec_i14s(self.tuning@) + seq![0u8]
    }

    /// Append the dump (with a zero in place of its checksum).
    pub fn extend_midi(&self, v: &mut Vec<u8>)
        ensures
            final(v)@ == old(v)@ + self.spec_midi(),
    {
        push_u7(self.tuning_bank_num, v);
        push_u7(self.tuning_program_num, v);
        extend_name(v, &self.name);
        extend_i14s(v, &self.tuning);
        v.push(0);
    }

    /// Parsing of scale tuning dumps is not implemented: always an error, which says so.
    pub fn from_midi(_m: &[u8]) -> (r: Result<(ScaleTuningDump2Byte, usize), ParseError>)
        ensures
            r matches Err(e) && e == ParseError::Invalid("TODO: ScaleTuningDump2Byte not implemented"),
    {
        Err(ParseError::Invalid("TODO: ScaleTuningDump2Byte not implemented"))
    }
}

impl ScaleTuning1Byte {
    /// The channel bit map and the twelve offset tunings.
    pub open spec fn spec_midi(self) -> Seq<u8> {
        self.channels.spec_midi() + spec_i7s(self.tuning@)
    }

    /// Append the scale tuning.
    pub fn extend_midi(&self, v: &mut Vec<u8>)
        ensures
            final(v)@ == old(v)@ + self.spec_midi(),
    {
        self.channels.extend_midi(v);
        extend_i7s(v, &self.tuning);
    }

    /// Parsing of scale tunings is not implemented: always an error, which says so.
    pub fn from_midi(_m: &[u8]) -> (r: Result<(ScaleTuning1Byte, usize), ParseError>)
        ensures
            r matches Err(e) && e == ParseError::Invalid("TODO: ScaleTuning1Byte not implemented"),
    {
        Err(ParseError::Invalid("TODO: ScaleTuning1Byte not implemented"))
    }
}

impl ScaleTuning2Byte {
    /// The channel bit map and the twelve offset 14-bit tunings, LSB first.
    pub open spec fn spec_midi(self) -> Seq<u8> {
        self.channels.spec_midi() + spec_i14s(self.tuning@)
    }

    /// Append the scale tuning.
    pub fn extend_midi(&self, v: &mut Vec<u8>)
        ensures
            final(v)@ == old(v)@ + self.spec_midi(),
    {
        self.channels.extend_midi(v);
        extend_i14s(v, &self.tuning);
    }

    /// Parsing of scale tunings is not implemented: always an error, which says so.
    pub fn from_midi(_m: &[u8]) -> (r: Result<(ScaleTuning2Byte, usize), ParseError>)
        ensures
            r matches Err(e) && e == ParseError::Invalid("TODO: ScaleTuning2Byte not implemented"),
    {
        Err(ParseError::Invalid("TODO: ScaleTuning2Byte not implemented"))
    }
}

pub open spec fn spec_bit(b: bool, n: int) -> int {
    if b { n } else { 0 }
}

/// `n` where the flag is set, else zero.
fn bit(b: bool, n: u8) -> (r: u8)
    ensures
        r == spec_bit(b, n as int),
{
    if b { n } else { 0 }
}

impl ChannelBitMap {
    /// Three bytes: channels 16-15, channels 14-8, channels 7-1, highest channel in the
    /// highest bit.
    pub open spec fn spec_midi(self) -> Seq<u8> {
        seq![self.spec_high_byte(), self.spec_middle_byte(), self.spec_low_byte()]
    }

    /// Bits of channels 16 and 15.
    pub open spec fn spec_high_byte(self) -> u8 {
        (spec_bit(self.channel_16, 2) + spec_bit(self.channel_15, 1)) as u8
    }

    /// Bits of channels 14 down to 8.
    pub open spec fn spec_middle_byte(self) -> u8 {
        (spec_bit(self.channel_14, 64) + spec_bit(self.channel_13, 32) + spec_bit(
            self.channel_12,
            16,
        ) + spec_bit(self.channel_11, 8) + spec_bit(self.channel_10, 4) + spec_bit(
            self.channel_9,
            2,
        ) + spec_bit(self.channel_8, 1)) as u8
    }

    /// Bits of channels 7 down to 1.
    pub open spec fn spec_low_byte(self) -> u8 {
        (spec_bit(self.channel_7, 64) + spec_bit(self.channel_6, 32) + spec_bit(
            self.channel_5,
            16,
        ) + spec_bit(self.channel_4, 8) + spec_bit(self.channel_3, 4) + spec_bit(
            self.channel_2,
            2,
        ) + spec_bit(self.channel_1, 1)) as u8
    }

    fn high_byte(&self) -> (r: u8)
        ensures
            r == self.spec_high_byte(),
    {
        bit(self.channel_16, 2) + bit(self.channel_15, 1)
    }

    fn middle_byte(&self) -> (r: u8)
        ensures
            r == self.spec_middle_byte(),
    {
        let a: u8 = bit(self.channel_14, 64) + bit(self.channel_13, 32) + bit(self.channel_12, 16);
        let b: u8 = bit(self.channel_11, 8) + bit(self.channel_10, 4) + bit(self.channel_9, 2)
            + bit(self.channel_8, 1);
        a + b
    }

    fn low_byte(&self) -> (r: u8)
        ensures
            r == self.spec_low_byte(),
    {
        let a: u8 = bit(self.channel_7, 64) + bit(self.channel_6, 32) + bit(self.channel_5, 16);
        let b: u8 = bit(self.channel_4, 8) + bit(self.channel_3, 4) + bit(self.channel_2, 2) + bit(
            self.channel_1,
            1,
        );
        a + b
    }

    /// All channels set
    pub fn all() -> (r: ChannelBitMap)
        ensures
            r.channel_1 && r.channel_2 && r.channel_3 && r.channel_4 && r.channel_5 && r.channel_6
                && r.channel_7 && r.channel_8 && r.channel_9 && r.channel_10 && r.channel_11
                && r.channel_12 && r.channel_13 && r.channel_14 && r.channel_15 && r.channel_16,
    {
        ChannelBitMap {
            channel_1: true,
            channel_2: true,
            channel_3: true,
            channel_4: true,
            channel_5: true,
            channel_6: true,
            channel_7: true,
            channel_8: true,
            channel_9: true,
            channel_10: true,
            channel_11: true,
            channel_12: true,
            channel_13: true,
            channel_14: true,
            channel_15: true,
            channel_16: true,
        }
    }

    /// No channels set
    pub fn none() -> (r: ChannelBitMap)
        ensures
            !r.channel_1 && !r.channel_2 && !r.channel_3 && !r.channel_4 && !r.channel_5
                && !r.channel_6 && !r.channel_7 && !r.channel_8 && !r.channel_9 && !r.channel_10
                && !r.channel_11 && !r.channel_12 && !r.channel_13 && !r.channel_14
                && !r.channel_15 && !r.channel_16,
    {
        ChannelBitMap {
            channel_1: false,
            channel_2: false,
            channel_3: false,
            channel_4: false,
            channel_5: false,
            channel_6: false,
            channel_7: false,
            channel_8: false,
            channel_9: false,
            channel_10: false,
            channel_11: false,
            channel_12: false,
            channel_13: false,
            channel_14: false,
            channel_15: false,
            channel_16: false,
        }
    }

    /// Append the three bytes of the bit map.
    pub fn extend_midi(&self, v: &mut Vec<u8>)
        ensures
            final(v)@ == old(v)@ + self.spec_midi(),
    {
        let hi = self.high_byte();
        let mid = self.middle_byte();
        let lo = self.low_byte();
        v.push(hi);
        v.push(mid);
        v.push(lo);
    }

    /// Parsing of channel bit maps is not implemented: always an error, which says so.
    pub fn from_midi(_m: &[u8]) -> (r: Result<(ChannelBitMap, usize), ParseError>)
        ensures
            r matches Err(e) && e == ParseError::Invalid("TODO: ChannelBitMap not implemented"),
    {
        Err(ParseError::Invalid("TODO: ChannelBitMap not implemented"))
    }
}

impl Default for ChannelBitMap {
    fn default() -> (r: Self)
        ensures
            r == ChannelBitMap::spec_none(),
    {
        ChannelBitMap::none()
    }
}

impl ChannelBitMap {
    /// The bit map with no channel set.
    pub open spec fn spec_none() -> ChannelBitMap {
        ChannelBitMap {
            channel_1: false,
            channel_2: false,
            channel_3: false,
            channel_4: false,
            channel_5: false,
            channel_6: false,
            channel_7: false,
            channel_8: false,
            channel_9: false,
            channel_10: false,
            channel_11: false,
            channel_12: false,
            channel_13: false,
            channel_14: false,
            channel_15: false,
            channel_16: false,
        }
    }
}

} // verus!
