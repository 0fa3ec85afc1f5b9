//! The numbers that the MIDI specifications assign: controller numbers, status bytes, channel
//! numbers, sub-IDs, bit positions and powers of two, each stated as the number itself, so that a
//! message written or read under another number is caught even where writing and reading agree.
use vstd::prelude::*;

use crate::channel_mode::{ChannelModeMsg, PolyMode};
use crate::channel_voice::{ChannelVoiceMsg, ControlChange, Parameter};
use crate::parse_error::ParseError;
use crate::util::{spec_u32_be, spec_vlq};
use crate::system_common::SystemCommonMsg;
use crate::system_real_time::SystemRealTimeMsg;
use crate::time_code::{TimeCode, TimeCodeType};
use crate::file::{
    spec_events_midi, spec_log2, spec_pow2_u16, Division, FileTimeSignature, Header, KeySignature,
    Meta, SMFFormat, Track, TrackEvent,
};
use crate::general_midi::{GMPercussionMap, GMSoundSet, GeneralMidi};
use crate::message::{Channel, MidiMsg};
use crate::system_exclusive::controller_destination::ControlledParameter;
use crate::system_exclusive::file_dump::FileDumpMsg;
use crate::system_exclusive::global_parameter::{ChorusType, ReverbType};
use crate::system_exclusive::machine_control::{InformationField, MachineControlCommandMsg};
use crate::system_exclusive::notation::BeatValue;
use crate::system_exclusive::file_reference::FileReferenceMsg;
use crate::system_exclusive::sample_dump::{
    ExtendedLoopType, ExtendedSampleDumpMsg, LoopType, SampleDumpMsg,
};
use crate::system_exclusive::{
    DeviceID, ManufacturerID, SystemExclusiveMsg, UniversalNonRealTimeMsg, UniversalRealTimeMsg,
};
use crate::system_exclusive::tuning::{spec_bit, ChannelBitMap};

verus! {

/// A value clamped to 7 bits.
pub open spec fn seven(x: u8) -> u8 {
    if x > 127 {
        127
    } else {
        x
    }
}

/// The high 7 bits of a 14-bit value, the maximum above 16383.
pub open spec fn high7(y: u16) -> u8 {
    if y > 16383 {
        127
    } else {
        (y / 128) as u8
    }
}

/// The low 7 bits of a 14-bit value, the maximum above 16383.
pub open spec fn low7(y: u16) -> u8 {
    if y > 16383 {
        127
    } else {
        (y % 128) as u8
    }
}

/// Each 7-bit controller is written with its controller number and its value clamped to 7
/// bits, and the controller number is read as that controller: Hold (sustain) is 64, Sostenuto
/// 66, Soft Pedal 67, Hold 2 69, the sound controllers 70 to 79, General Purpose 5 to 8 80 to
/// 83, Portamento Control 84, High Resolution Velocity Prefix 88, the effect depths 91 to 95,
/// Data Increment 96 and Data Decrement 97. Portamento and Legato are switched by 65 and 68.
#[verifier::rlimit(50)]
pub proof fn lemma_seven_bit_controller_numbers(x: u8, v: u8, on: bool)
    ensures
        ControlChange::Hold(x).spec_midi_running() == seq![64u8, seven(x)],
        ControlChange::Sostenuto(x).spec_midi_running() == seq![66u8, seven(x)],
        ControlChange::SoftPedal(x).spec_midi_running() == seq![67u8, seven(x)],
        ControlChange::Hold2(x).spec_midi_running() == seq![69u8, seven(x)],
        ControlChange::SoundVariation(x).spec_midi_running() == seq![70u8, seven(x)],
        ControlChange::SoundControl1(x).spec_midi_running() == seq![70u8, seven(x)],
        ControlChange::Timbre(x).spec_midi_running() == seq![71u8, seven(x)],
        ControlChange::SoundControl2(x).spec_midi_running() == seq![71u8, seven(x)],
        ControlChange::ReleaseTime(x).spec_midi_running() == seq![72u8, seven(x)],
        ControlChange::SoundControl3(x).spec_midi_running() == seq![72u8, seven(x)],
        ControlChange::AttackTime(x).spec_midi_running() == seq![73u8, seven(x)],
        ControlChange::SoundControl4(x).spec_midi_running() == seq![73u8, seven(x)],
        ControlChange::Brightness(x).spec_midi_running() == seq![74u8, seven(x)],
        ControlChange::SoundControl5(x).spec_midi_running() == seq![74u8, seven(x)],
        ControlChange::DecayTime(x).spec_midi_running() == seq![75u8, seven(x)],
        ControlChange::SoundControl6(x).spec_midi_running() == seq![75u8, seven(x)],
        ControlChange::VibratoRate(x).spec_midi_running() == seq![76u8, seven(x)],
        ControlChange::SoundControl7(x).spec_midi_running() == seq![76u8, seven(x)],
        ControlChange::VibratoDepth(x).spec_midi_running() == seq![77u8, seven(x)],
        ControlChange::SoundControl8(x).spec_midi_running() == seq![77u8, seven(x)],
        ControlChange::VibratoDelay(x).spec_midi_running() == seq![78u8, seven(x)],
        ControlChange::SoundControl9(x).spec_midi_running() == seq![78u8, seven(x)],
        ControlChange::SoundControl10(x).spec_midi_running() == seq![79u8, seven(x)],
        ControlChange::GeneralPurpose5(x).spec_midi_running() == seq![80u8, seven(x)],
        ControlChange::GeneralPurpose6(x).spec_midi_running() == seq![81u8, seven(x)],
        ControlChange::GeneralPurpose7(x).spec_midi_running() == seq![82u8, seven(x)],
        ControlChange::GeneralPurpose8(x).spec_midi_running() == seq![83u8, seven(x)],
        ControlChange::PortamentoControl(x).spec_midi_running() == seq![84u8, seven(x)],
        ControlChange::HighResVelocity(x).spec_midi_running() == seq![88u8, seven(x)],
        ControlChange::Effects1Depth(x).spec_midi_running() == seq![91u8, seven(x)],
        ControlChange::ReverbSendLevel(x).spec_midi_running() == seq![91u8, seven(x)],
        ControlChange::Effects2Depth(x).spec_midi_running() == seq![92u8, seven(x)],
        ControlChange::TremoloDepth(x).spec_midi_running() == seq![92u8, seven(x)],
        ControlChange::Effects3Depth(x).spec_midi_running() == seq![93u8, seven(x)],
        ControlChange::ChorusSendLevel(x).spec_midi_running() == seq![93u8, seven(x)],
        ControlChange::Effects4Depth(x).spec_midi_running() == seq![94u8, seven(x)],
        ControlChange::CelesteDepth(x).spec_midi_running() == seq![94u8, seven(x)],
        ControlChange::Effects5Depth(x).spec_midi_running() == seq![95u8, seven(x)],
        ControlChange::PhaserDepth(x).spec_midi_running() == seq![95u8, seven(x)],
        ControlChange::DataIncrement(x).spec_midi_running() == seq![96u8, seven(x)],
        ControlChange::DataDecrement(x).spec_midi_running() == seq![97u8, seven(x)],
        ControlChange::spec_from_control(64, v) == ControlChange::Hold(v),
        ControlChange::spec_from_control(66, v) == ControlChange::Sostenuto(v),
        ControlChange::spec_from_control(67, v) == ControlChange::SoftPedal(v),
        ControlChange::spec_from_control(69, v) == ControlChange::Hold2(v),
        ControlChange::spec_from_control(70, v) == ControlChange::SoundControl1(v),
        ControlChange::spec_from_control(71, v) == ControlChange::SoundControl2(v),
        ControlChange::spec_from_control(72, v) == ControlChange::SoundControl3(v),
        ControlChange::spec_from_control(73, v) == ControlChange::SoundControl4(v),
        ControlChange::spec_from_control(74, v) == ControlChange::SoundControl5(v),
        ControlChange::spec_from_control(75, v) == ControlChange::SoundControl6(v),
        ControlChange::spec_from_control(76, v) == ControlChange::SoundControl7(v),
        ControlChange::spec_from_control(77, v) == ControlChange::SoundControl8(v),
        ControlChange::spec_from_control(78, v) == ControlChange::SoundControl9(v),
        ControlChange::spec_from_control(79, v) == ControlChange::SoundControl10(v),
        ControlChange::spec_from_control(80, v) == ControlChange::GeneralPurpose5(v),
        ControlChange::spec_from_control(81, v) == ControlChange::GeneralPurpose6(v),
        ControlChange::spec_from_control(82, v) == ControlChange::GeneralPurpose7(v),
        ControlChange::spec_from_control(83, v) == ControlChange::GeneralPurpose8(v),
        ControlChange::spec_from_control(84, v) == ControlChange::PortamentoControl(v),
        ControlChange::spec_from_control(88, v) == ControlChange::HighResVelocity(v),
        ControlChange::spec_from_control(91, v) == ControlChange::Effects1Depth(v),
        ControlChange::spec_from_control(92, v) == ControlChange::Effects2Depth(v),
        ControlChange::spec_from_control(93, v) == ControlChange::Effects3Depth(v),
        ControlChange::spec_from_control(94, v) == ControlChange::Effects4Depth(v),
        ControlChange::spec_from_control(95, v) == ControlChange::Effects5Depth(v),
        ControlChange::spec_from_control(96, v) == ControlChange::DataIncrement(v),
        ControlChange::spec_from_control(97, v) == ControlChange::DataDecrement(v),
        ControlChange::TogglePortamento(on).spec_midi_running() == seq![65u8, if on { 127u8 } else { 0u8 }],
        ControlChange::ToggleLegato(on).spec_midi_running() == seq![68u8, if on { 127u8 } else { 0u8 }],
        ControlChange::spec_from_control(65, v) == ControlChange::TogglePortamento(v >= 64),
        ControlChange::spec_from_control(68, v) == ControlChange::ToggleLegato(v >= 64),
{
}

/// Each 14-bit controller is written as its controller number with the high 7 bits of its value,
/// then the number 32 above it with the low 7 bits (values above 16383 clamped to the maximum),
/// and its controller number is read as that controller with the value's high bits: Bank Select
/// is 0, Modulation Wheel 1, Breath 2, Foot 4, Portamento Time 5, Data Entry 6, Volume 7,
/// Balance 8, Pan 10, Expression 11, Effect Control 1 and 2 12 and 13, General Purpose 1 to 4
/// 16 to 19.
#[verifier::rlimit(50)]
pub proof fn lemma_fourteen_bit_controller_numbers(y: u16, v: u8)
    ensures
        ControlChange::BankSelect(y).spec_midi_running() == seq![0u8, high7(y), 32u8, low7(y)],
        ControlChange::ModWheel(y).spec_midi_running() == seq![1u8, high7(y), 33u8, low7(y)],
        ControlChange::Breath(y).spec_midi_running() == seq![2u8, high7(y), 34u8, low7(y)],
        ControlChange::Foot(y).spec_midi_running() == seq![4u8, high7(y), 36u8, low7(y)],
        ControlChange::Portamento(y).spec_midi_running() == seq![5u8, high7(y), 37u8, low7(y)],
        ControlChange::DataEntry(y).spec_midi_running() == seq![6u8, high7(y), 38u8, low7(y)],
        ControlChange::Volume(y).spec_midi_running() == seq![7u8, high7(y), 39u8, low7(y)],
        ControlChange::Balance(y).spec_midi_running() == seq![8u8, high7(y), 40u8, low7(y)],
        ControlChange::Pan(y).spec_midi_running() == seq![10u8, high7(y), 42u8, low7(y)],
        ControlChange::Expression(y).spec_midi_running() == seq![11u8, high7(y), 43u8, low7(y)],
        ControlChange::Effect1(y).spec_midi_running() == seq![12u8, high7(y), 44u8, low7(y)],
        ControlChange::Effect2(y).spec_midi_running() == seq![13u8, high7(y), 45u8, low7(y)],
        ControlChange::GeneralPurpose1(y).spec_midi_running() == seq![16u8, high7(y), 48u8, low7(y)],
        ControlChange::GeneralPurpose2(y).spec_midi_running() == seq![17u8, high7(y), 49u8, low7(y)],
        ControlChange::GeneralPurpose3(y).spec_midi_running() == seq![18u8, high7(y), 50u8, low7(y)],
        ControlChange::GeneralPurpose4(y).spec_midi_running() == seq![19u8, high7(y), 51u8, low7(y)],
        ControlChange::spec_from_control(0, v) == ControlChange::BankSelect((v * 128) as u16),
        ControlChange::spec_from_control(1, v) == ControlChange::ModWheel((v * 128) as u16),
        ControlChange::spec_from_control(2, v) == ControlChange::Breath((v * 128) as u16),
        ControlChange::spec_from_control(4, v) == ControlChange::Foot((v * 128) as u16),
        ControlChange::spec_from_control(5, v) == ControlChange::Portamento((v * 128) as u16),
        ControlChange::spec_from_control(6, v) == ControlChange::DataEntry((v * 128) as u16),
        ControlChange::spec_from_control(7, v) == ControlChange::Volume((v * 128) as u16),
        ControlChange::spec_from_control(8, v) == ControlChange::Balance((v * 128) as u16),
        ControlChange::spec_from_control(10, v) == ControlChange::Pan((v * 128) as u16),
        ControlChange::spec_from_control(11, v) == ControlChange::Expression((v * 128) as u16),
        ControlChange::spec_from_control(12, v) == ControlChange::Effect1((v * 128) as u16),
        ControlChange::spec_from_control(13, v) == ControlChange::Effect2((v * 128) as u16),
        ControlChange::spec_from_control(16, v) == ControlChange::GeneralPurpose1((v * 128) as u16),
        ControlChange::spec_from_control(17, v) == ControlChange::GeneralPurpose2((v * 128) as u16),
        ControlChange::spec_from_control(18, v) == ControlChange::GeneralPurpose3((v * 128) as u16),
        ControlChange::spec_from_control(19, v) == ControlChange::GeneralPurpose4((v * 128) as u16),
{
}

/// Each channel mode message is written with its controller number: All Sound Off 120, Reset
/// All Controllers 121, Local Control 122 (127 on, 0 off), All Notes Off 123, Omni Off 124, Omni
/// On 125, Mono On 126 (with the number of channels, at most 16) and Poly On 127.
pub proof fn lemma_channel_mode_numbers(on: bool, n: u8)
    ensures
        ChannelModeMsg::AllSoundOff.spec_midi_running() == seq![120u8, 0u8],
        ChannelModeMsg::ResetAllControllers.spec_midi_running() == seq![121u8, 0u8],
        ChannelModeMsg::LocalControl(on).spec_midi_running() == seq![122u8, if on { 127u8 } else { 0u8 }],
        ChannelModeMsg::AllNotesOff.spec_midi_running() == seq![123u8, 0u8],
        ChannelModeMsg::OmniMode(false).spec_midi_running() == seq![124u8, 0u8],
        ChannelModeMsg::OmniMode(true).spec_midi_running() == seq![125u8, 0u8],
        ChannelModeMsg::PolyMode(PolyMode::Mono(n)).spec_midi_running() == seq![
            126u8,
            if n > 16 { 16u8 } else { n },
        ],
        ChannelModeMsg::PolyMode(PolyMode::Poly).spec_midi_running() == seq![127u8, 0u8],
{
}

/// Distinct channel mode messages are written to distinct bytes (a mono mode asking for more than
/// 16 channels being the one that asks for 16), and on a channel they are control changes on a
/// controller from 120 up.
#[verifier::rlimit(50)]
pub proof fn lemma_channel_mode_distinct(a: ChannelModeMsg, b: ChannelModeMsg)
    requires
        a.spec_midi_running() == b.spec_midi_running(),
        (a matches ChannelModeMsg::PolyMode(PolyMode::Mono(n)) ==> n <= 16),
        (b matches ChannelModeMsg::PolyMode(PolyMode::Mono(n)) ==> n <= 16),
    ensures
        a == b,
        a.spec_midi_running()[0] >= 120,
{
    assert(a.spec_midi_running()[0] == b.spec_midi_running()[0]);
    assert(a.spec_midi_running()[1] == b.spec_midi_running()[1]);
}

/// Channels 1 to 16 are the numbers 0 to 15, both ways.
pub proof fn lemma_channel_numbers(k: u8)
    ensures
        Channel::Ch1.spec_to_u8() == 0,
        Channel::Ch2.spec_to_u8() == 1,
        Channel::Ch3.spec_to_u8() == 2,
        Channel::Ch4.spec_to_u8() == 3,
        Channel::Ch5.spec_to_u8() == 4,
        Channel::Ch6.spec_to_u8() == 5,
        Channel::Ch7.spec_to_u8() == 6,
        Channel::Ch8.spec_to_u8() == 7,
        Channel::Ch9.spec_to_u8() == 8,
        Channel::Ch10.spec_to_u8() == 9,
        Channel::Ch11.spec_to_u8() == 10,
        Channel::Ch12.spec_to_u8() == 11,
        Channel::Ch13.spec_to_u8() == 12,
        Channel::Ch14.spec_to_u8() == 13,
        Channel::Ch15.spec_to_u8() == 14,
        Channel::Ch16.spec_to_u8() == 15,
        k < 16 ==> Channel::spec_from_u8(k).spec_to_u8() == k,
{
}

/// The high nibble of the status byte of each kind of channel voice message.
pub open spec fn spec_voice_status(msg: ChannelVoiceMsg) -> u8 {
    match msg {
        ChannelVoiceMsg::NoteOff { .. } | ChannelVoiceMsg::HighResNoteOff { .. } => 0x80,
        ChannelVoiceMsg::NoteOn { .. } | ChannelVoiceMsg::HighResNoteOn { .. } => 0x90,
        ChannelVoiceMsg::PolyPressure { .. } => 0xA0,
        ChannelVoiceMsg::ControlChange { .. } => 0xB0,
        ChannelVoiceMsg::ProgramChange { .. } => 0xC0,
        ChannelVoiceMsg::ChannelPressure { .. } => 0xD0,
        ChannelVoiceMsg::PitchBend { .. } => 0xE0,
    }
}

/// A channel voice message starts with its status byte: Note Off 0x80, Note On 0x90, Polyphonic
/// Key Pressure 0xA0, Control Change 0xB0, Program Change 0xC0, Channel Pressure 0xD0 and Pitch
/// Bend 0xE0, plus the channel number; a channel mode message starts with 0xB0 plus the channel.
#[verifier::rlimit(50)]
pub proof fn lemma_status_bytes(channel: Channel, msg: ChannelVoiceMsg, mode: ChannelModeMsg)
    ensures
        (MidiMsg::ChannelVoice { channel, msg }).spec_midi()[0] == spec_voice_status(msg)
            + channel.spec_to_u8(),
        (MidiMsg::ChannelMode { channel, msg: mode }).spec_midi()[0] == 0xB0 + channel.spec_to_u8(),
{
    crate::message::lemma_channel_round_trip(channel);
    lemma_channel_numbers(0);
}

/// The General MIDI System messages are sub-ID 9 followed by 1 for GM1 System On, 2 for General
/// MIDI System Off and 3 for GM2 System On.
pub proof fn lemma_general_midi_numbers()
    ensures
        UniversalNonRealTimeMsg::GeneralMidi(GeneralMidi::GM1).spec_midi() == seq![0x09u8, 0x01u8],
        UniversalNonRealTimeMsg::GeneralMidi(GeneralMidi::Off).spec_midi() == seq![0x09u8, 0x02u8],
        UniversalNonRealTimeMsg::GeneralMidi(GeneralMidi::GM2).spec_midi() == seq![0x09u8, 0x03u8],
{
}

/// The bit of a flag: 1 when set.
pub open spec fn flag(b: bool) -> u8 {
    if b {
        1
    } else {
        0
    }
}

/// The bit value `n` of a flag is `n` times its bit.
proof fn lemma_bit_value(b: bool, n: int)
    ensures
        spec_bit(b, n) == n * flag(b),
{
}

/// Seven flags as the bits of a byte, the first in the highest bit, read back bit by bit.
proof fn lemma_seven_bits(a: u8, b: u8, c: u8, d: u8, e: u8, f: u8, g: u8)
    requires
        a <= 1 && b <= 1 && c <= 1 && d <= 1 && e <= 1 && f <= 1 && g <= 1,
    ensures
        ({
            let x = 64 * a + 32 * b + 16 * c + 8 * d + 4 * e + 2 * f + g;
            &&& x < 128
            &&& x % 2 == g
            &&& (x / 2) % 2 == f
            &&& (x / 4) % 2 == e
            &&& (x / 8) % 2 == d
            &&& (x / 16) % 2 == c
            &&& (x / 32) % 2 == b
            &&& (x / 64) % 2 == a
        }),
{
    assert({
        let x = 64 * a + 32 * b + 16 * c + 8 * d + 4 * e + 2 * f + g;
        &&& x < 128
        &&& x % 2 == g
        &&& (x / 2) % 2 == f
        &&& (x / 4) % 2 == e
        &&& (x / 8) % 2 == d
        &&& (x / 16) % 2 == c
        &&& (x / 32) % 2 == b
        &&& (x / 64) % 2 == a
    }) by (bit_vector)
        requires
            a <= 1 && b <= 1 && c <= 1 && d <= 1 && e <= 1 && f <= 1 && g <= 1,
    ;
}

/// Channels 1 to 7 are bits 0 to 6 of the low byte.
proof fn lemma_spec_low_byte_bits(m: ChannelBitMap)
    ensures
        m.spec_low_byte() == flag(m.channel_1) + 2 * flag(m.channel_2) + 4 * flag(m.channel_3) + 8 * flag(m.channel_4) + 16 * flag(m.channel_5) + 32 * flag(m.channel_6) + 64 * flag(m.channel_7),
        m.spec_low_byte() < 128,
        (m.spec_low_byte() as int / 1) % 2 == flag(m.channel_1),
        (m.spec_low_byte() as int / 2) % 2 == flag(m.channel_2),
        (m.spec_low_byte() as int / 4) % 2 == flag(m.channel_3),
        (m.spec_low_byte() as int / 8) % 2 == flag(m.channel_4),
        (m.spec_low_byte() as int / 16) % 2 == flag(m.channel_5),
        (m.spec_low_byte() as int / 32) % 2 == flag(m.channel_6),
        (m.spec_low_byte() as int / 64) % 2 == flag(m.channel_7),
{
    lemma_bit_value(m.channel_1, 1);
    lemma_bit_value(m.channel_2, 2);
    lemma_bit_value(m.channel_3, 4);
    lemma_bit_value(m.channel_4, 8);
    lemma_bit_value(m.channel_5, 16);
    lemma_bit_value(m.channel_6, 32);
    lemma_bit_value(m.channel_7, 64);
    assert(m.spec_low_byte() == flag(m.channel_1) + 2 * flag(m.channel_2) + 4 * flag(m.channel_3) + 8 * flag(m.channel_4) + 16 * flag(m.channel_5) + 32 * flag(m.channel_6) + 64 * flag(m.channel_7));
    lemma_seven_bits(
        flag(m.channel_7),
        flag(m.channel_6),
        flag(m.channel_5),
        flag(m.channel_4),
        flag(m.channel_3),
        flag(m.channel_2),
        flag(m.channel_1),
    );
}

/// Channels 8 to 14 are bits 0 to 6 of the middle byte.
proof fn lemma_spec_middle_byte_bits(m: ChannelBitMap)
    ensures
        m.spec_middle_byte() == flag(m.channel_8) + 2 * flag(m.channel_9) + 4 * flag(m.channel_10) + 8 * flag(m.channel_11) + 16 * flag(m.channel_12) + 32 * flag(m.channel_13) + 64 * flag(m.channel_14),
        m.spec_middle_byte() < 128,
        (m.spec_middle_byte() as int / 1) % 2 == flag(m.channel_8),
        (m.spec_middle_byte() as int / 2) % 2 == flag(m.channel_9),
        (m.spec_middle_byte() as int / 4) % 2 == flag(m.channel_10),
        (m.spec_middle_byte() as int / 8) % 2 == flag(m.channel_11),
        (m.spec_middle_byte() as int / 16) % 2 == flag(m.channel_12),
        (m.spec_middle_byte() as int / 32) % 2 == flag(m.channel_13),
        (m.spec_middle_byte() as int / 64) % 2 == flag(m.channel_14),
{
    lemma_bit_value(m.channel_8, 1);
    lemma_bit_value(m.channel_9, 2);
    lemma_bit_value(m.channel_10, 4);
    lemma_bit_value(m.channel_11, 8);
    lemma_bit_value(m.channel_12, 16);
    lemma_bit_value(m.channel_13, 32);
    lemma_bit_value(m.channel_14, 64);
    assert(m.spec_middle_byte() == flag(m.channel_8) + 2 * flag(m.channel_9) + 4 * flag(m.channel_10) + 8 * flag(m.channel_11) + 16 * flag(m.channel_12) + 32 * flag(m.channel_13) + 64 * flag(m.channel_14));
    lemma_seven_bits(
        flag(m.channel_14),
        flag(m.channel_13),
        flag(m.channel_12),
        flag(m.channel_11),
        flag(m.channel_10),
        flag(m.channel_9),
        flag(m.channel_8),
    );
}

/// In a channel bit map, channel `n` from 1 to 7 is bit `n - 1` of the third byte, channels 8 to
/// 14 bits 0 to 6 of the second, and channels 15 and 16 bits 0 and 1 of the first; no other bit
/// is set, so each byte is a data byte.
pub proof fn lemma_channel_bit_positions(m: ChannelBitMap)
    ensures
        m.spec_midi() == seq![m.spec_high_byte(), m.spec_middle_byte(), m.spec_low_byte()],
        m.spec_high_byte() == flag(m.channel_15) + 2 * flag(m.channel_16),
        (m.spec_low_byte() as int / 1) % 2 == flag(m.channel_1),
        (m.spec_low_byte() as int / 2) % 2 == flag(m.channel_2),
        (m.spec_low_byte() as int / 4) % 2 == flag(m.channel_3),
        (m.spec_low_byte() as int / 8) % 2 == flag(m.channel_4),
        (m.spec_low_byte() as int / 16) % 2 == flag(m.channel_5),
        (m.spec_low_byte() as int / 32) % 2 == flag(m.channel_6),
        (m.spec_low_byte() as int / 64) % 2 == flag(m.channel_7),
        (m.spec_middle_byte() as int / 1) % 2 == flag(m.channel_8),
        (m.spec_middle_byte() as int / 2) % 2 == flag(m.channel_9),
        (m.spec_middle_byte() as int / 4) % 2 == flag(m.channel_10),
        (m.spec_middle_byte() as int / 8) % 2 == flag(m.channel_11),
        (m.spec_middle_byte() as int / 16) % 2 == flag(m.channel_12),
        (m.spec_middle_byte() as int / 32) % 2 == flag(m.channel_13),
        (m.spec_middle_byte() as int / 64) % 2 == flag(m.channel_14),
        m.spec_low_byte() < 128,
        m.spec_middle_byte() < 128,
{
    lemma_spec_low_byte_bits(m);
    lemma_spec_middle_byte_bits(m);
    lemma_bit_value(m.channel_16, 2);
    lemma_bit_value(m.channel_15, 1);
}

/// The power of two that a denominator is written as: 2 to that power is the largest power of
/// two not above the denominator, and reading the power back gives 2 to that power; so a
/// denominator that is a power of two, 2^k for k up to 15, is written as k and read back.
pub proof fn lemma_log2(d: u16, k: u8)
    ensures
        d >= 1 ==> vstd::arithmetic::power2::pow2(spec_log2(d) as nat) <= d
            < vstd::arithmetic::power2::pow2(spec_log2(d) as nat + 1),
        k <= 15 ==> spec_pow2_u16(k) == vstd::arithmetic::power2::pow2(k as nat),
        k > 15 ==> spec_pow2_u16(k) == 0,
        k <= 15 ==> spec_log2(spec_pow2_u16(k)) == k,
{
    vstd::arithmetic::power2::lemma2_to64();
}

/// A time signature is written as its numerator, the power of two of its denominator, its
/// clocks per metronome tick and its 32nd notes per quarter note; a denominator 2^k is written
/// as k and read back as 2^k.
pub proof fn lemma_time_signature_bytes(s: FileTimeSignature, k: u8)
    requires
        k <= 15,
        s.denominator == vstd::arithmetic::power2::pow2(k as nat),
    ensures
        s.spec_midi() == seq![s.numerator, k, s.clocks_per_metronome_tick, s.thirty_second_notes_per_24_clocks],
        FileTimeSignature::spec_from_midi(s.spec_midi()) == Ok::<FileTimeSignature, ParseError>(s),
{
    lemma_log2(s.denominator, k);
}

/// The registered parameter numbers, written as the LSB on controller 100 and then the MSB on
/// controller 101, and read back: Pitch Bend Sensitivity (0, 0), Fine Tuning (0, 1), Coarse
/// Tuning (0, 2), Tuning Program Select (0, 3), Tuning Bank Select (0, 4), Modulation Depth
/// Range (0, 5), MPE configuration (0, 6), the 3D sound parameters (61, 0) to (61, 8), and the
/// null parameter (127, 127); a non-registered parameter goes on controllers 98 (LSB) and 99
/// (MSB).
#[verifier::rlimit(50)]
pub proof fn lemma_parameter_numbers(x: u16)
    ensures
        Parameter::Null.spec_midi_running() == seq![100u8, 127u8, 101u8, 127u8],
        Parameter::spec_from_number(127, 127) == Some(Parameter::Null),
        Parameter::PitchBendSensitivity.spec_midi_running() == seq![100u8, 0u8, 101u8, 0u8],
        Parameter::FineTuning.spec_midi_running() == seq![100u8, 1u8, 101u8, 0u8],
        Parameter::CoarseTuning.spec_midi_running() == seq![100u8, 2u8, 101u8, 0u8],
        Parameter::TuningProgramSelect.spec_midi_running() == seq![100u8, 3u8, 101u8, 0u8],
        Parameter::TuningBankSelect.spec_midi_running() == seq![100u8, 4u8, 101u8, 0u8],
        Parameter::ModulationDepthRange.spec_midi_running() == seq![100u8, 5u8, 101u8, 0u8],
        Parameter::PolyphonicExpression.spec_midi_running() == seq![100u8, 6u8, 101u8, 0u8],
        Parameter::AzimuthAngle3DSound.spec_midi_running() == seq![100u8, 0u8, 101u8, 61u8],
        Parameter::ElevationAngle3DSound.spec_midi_running() == seq![100u8, 1u8, 101u8, 61u8],
        Parameter::Gain3DSound.spec_midi_running() == seq![100u8, 2u8, 101u8, 61u8],
        Parameter::DistanceRatio3DSound.spec_midi_running() == seq![100u8, 3u8, 101u8, 61u8],
        Parameter::MaxiumumDistance3DSound.spec_midi_running() == seq![100u8, 4u8, 101u8, 61u8],
        Parameter::GainAtMaxiumumDistance3DSound.spec_midi_running() == seq![100u8, 5u8, 101u8, 61u8],
        Parameter::ReferenceDistanceRatio3DSound.spec_midi_running() == seq![100u8, 6u8, 101u8, 61u8],
        Parameter::PanSpreadAngle3DSound.spec_midi_running() == seq![100u8, 7u8, 101u8, 61u8],
        Parameter::RollAngle3DSound.spec_midi_running() == seq![100u8, 8u8, 101u8, 61u8],
        Parameter::spec_from_number(0, 0) == Some(Parameter::PitchBendSensitivity),
        Parameter::spec_from_number(0, 1) == Some(Parameter::FineTuning),
        Parameter::spec_from_number(0, 2) == Some(Parameter::CoarseTuning),
        Parameter::spec_from_number(0, 3) == Some(Parameter::TuningProgramSelect),
        Parameter::spec_from_number(0, 4) == Some(Parameter::TuningBankSelect),
        Parameter::spec_from_number(0, 5) == Some(Parameter::ModulationDepthRange),
        Parameter::spec_from_number(0, 6) == Some(Parameter::PolyphonicExpression),
        Parameter::spec_from_number(61, 0) == Some(Parameter::AzimuthAngle3DSound),
        Parameter::spec_from_number(61, 1) == Some(Parameter::ElevationAngle3DSound),
        Parameter::spec_from_number(61, 2) == Some(Parameter::Gain3DSound),
        Parameter::spec_from_number(61, 3) == Some(Parameter::DistanceRatio3DSound),
        Parameter::spec_from_number(61, 4) == Some(Parameter::MaxiumumDistance3DSound),
        Parameter::spec_from_number(61, 5) == Some(Parameter::GainAtMaxiumumDistance3DSound),
        Parameter::spec_from_number(61, 6) == Some(Parameter::ReferenceDistanceRatio3DSound),
        Parameter::spec_from_number(61, 7) == Some(Parameter::PanSpreadAngle3DSound),
        Parameter::spec_from_number(61, 8) == Some(Parameter::RollAngle3DSound),
        Parameter::Unregistered(x).spec_midi_running() == seq![98u8, low7(x), 99u8, high7(x)],
{
}

/// The system real-time messages are single status bytes: Timing Clock 0xF8, Start 0xFA,
/// Continue 0xFB, Stop 0xFC, Active Sensing 0xFE and System Reset 0xFF, read back as themselves.
pub proof fn lemma_system_real_time_numbers()
    ensures
        SystemRealTimeMsg::TimingClock.spec_midi() == seq![0xF8u8],
        SystemRealTimeMsg::Start.spec_midi() == seq![0xFAu8],
        SystemRealTimeMsg::Continue.spec_midi() == seq![0xFBu8],
        SystemRealTimeMsg::Stop.spec_midi() == seq![0xFCu8],
        SystemRealTimeMsg::ActiveSensing.spec_midi() == seq![0xFEu8],
        SystemRealTimeMsg::SystemReset.spec_midi() == seq![0xFFu8],
        SystemRealTimeMsg::spec_from_byte(0xF8) == Ok::<(SystemRealTimeMsg, usize), ParseError>((SystemRealTimeMsg::TimingClock, 1usize)),
        SystemRealTimeMsg::spec_from_byte(0xFA) == Ok::<(SystemRealTimeMsg, usize), ParseError>((SystemRealTimeMsg::Start, 1usize)),
        SystemRealTimeMsg::spec_from_byte(0xFB) == Ok::<(SystemRealTimeMsg, usize), ParseError>((SystemRealTimeMsg::Continue, 1usize)),
        SystemRealTimeMsg::spec_from_byte(0xFC) == Ok::<(SystemRealTimeMsg, usize), ParseError>((SystemRealTimeMsg::Stop, 1usize)),
        SystemRealTimeMsg::spec_from_byte(0xFE) == Ok::<(SystemRealTimeMsg, usize), ParseError>((SystemRealTimeMsg::ActiveSensing, 1usize)),
        SystemRealTimeMsg::spec_from_byte(0xFF) == Ok::<(SystemRealTimeMsg, usize), ParseError>((SystemRealTimeMsg::SystemReset, 1usize)),
{
}

/// The system common messages: Song Position Pointer 0xF2 with its 14-bit position LSB first,
/// Song Select 0xF3 with the song, Tune Request 0xF6, and the eight time code quarter frames
/// 0xF1 with the piece number (0 to 7) in the high nibble of the data byte; the song and tune
/// request bytes are read back as those messages.
pub proof fn lemma_system_common_numbers(pos: u16, song: u8, tc: TimeCode)
    ensures
        SystemCommonMsg::SongPosition(pos).spec_midi() == seq![0xF2u8, low7(pos), high7(pos)],
        SystemCommonMsg::SongSelect(song).spec_midi() == seq![0xF3u8, seven(song)],
        SystemCommonMsg::TuneRequest.spec_midi() == seq![0xF6u8],
        SystemCommonMsg::spec_from_midi(seq![0xF6u8], tc) == Ok::<(SystemCommonMsg, usize, TimeCode), ParseError>((SystemCommonMsg::TuneRequest, 1usize, tc)),
        song <= 127 ==> SystemCommonMsg::spec_from_midi(seq![0xF3u8, song], tc) == Ok::<(SystemCommonMsg, usize, TimeCode), ParseError>((SystemCommonMsg::SongSelect(song), 2usize, tc)),
        SystemCommonMsg::TimeCodeQuarterFrame1(tc).spec_midi()[0] == 0xF1 && SystemCommonMsg::TimeCodeQuarterFrame1(tc).spec_midi()[1] / 16 == 0,
        SystemCommonMsg::TimeCodeQuarterFrame2(tc).spec_midi()[0] == 0xF1 && SystemCommonMsg::TimeCodeQuarterFrame2(tc).spec_midi()[1] / 16 == 1,
        SystemCommonMsg::TimeCodeQuarterFrame3(tc).spec_midi()[0] == 0xF1 && SystemCommonMsg::TimeCodeQuarterFrame3(tc).spec_midi()[1] / 16 == 2,
        SystemCommonMsg::TimeCodeQuarterFrame4(tc).spec_midi()[0] == 0xF1 && SystemCommonMsg::TimeCodeQuarterFrame4(tc).spec_midi()[1] / 16 == 3,
        SystemCommonMsg::TimeCodeQuarterFrame5(tc).spec_midi()[0] == 0xF1 && SystemCommonMsg::TimeCodeQuarterFrame5(tc).spec_midi()[1] / 16 == 4,
        SystemCommonMsg::TimeCodeQuarterFrame6(tc).spec_midi()[0] == 0xF1 && SystemCommonMsg::TimeCodeQuarterFrame6(tc).spec_midi()[1] / 16 == 5,
        SystemCommonMsg::TimeCodeQuarterFrame7(tc).spec_midi()[0] == 0xF1 && SystemCommonMsg::TimeCodeQuarterFrame7(tc).spec_midi()[1] / 16 == 6,
        SystemCommonMsg::TimeCodeQuarterFrame8(tc).spec_midi()[0] == 0xF1 && SystemCommonMsg::TimeCodeQuarterFrame8(tc).spec_midi()[1] / 16 == 7,
{
}

/// The frame rates are numbered 0 for 24, 1 for 25, 2 for 30 drop frame and 3 for 30 non-drop,
/// both ways.
pub proof fn lemma_time_code_type_numbers()
    ensures
        TimeCodeType::FPS24.spec_to_u8() == 0,
        TimeCodeType::FPS25.spec_to_u8() == 1,
        TimeCodeType::DF30.spec_to_u8() == 2,
        TimeCodeType::NDF30.spec_to_u8() == 3,
        TimeCodeType::spec_from_u2(0) == TimeCodeType::FPS24,
        TimeCodeType::spec_from_u2(1) == TimeCodeType::FPS25,
        TimeCodeType::spec_from_u2(2) == TimeCodeType::DF30,
        TimeCodeType::spec_from_u2(3) == TimeCodeType::NDF30,
{
}

/// Each meta event is written with its type byte: Sequence Number 0x00, Text 0x01, Copyright
/// 0x02, Track Name 0x03, Instrument Name 0x04, Lyric 0x05, Marker 0x06, Cue Point 0x07, Channel
/// Prefix 0x20, End of Track 0x2F (with no data), Set Tempo 0x51, Time Signature 0x58, Key
/// Signature 0x59 and Sequencer Specific 0x7F; a system exclusive message sent to all devices
/// names them with 0x7F.
#[verifier::rlimit(50)]
pub proof fn lemma_meta_type_numbers(
    n: u16,
    t: String,
    c: Channel,
    tempo: u32,
    s: FileTimeSignature,
    k: KeySignature,
    d: Vec<u8>,
)
    ensures
        Meta::SequenceNumber(n).spec_midi()[0] == 0x00u8,
        Meta::Text(t).spec_midi()[0] == 0x01u8,
        Meta::Copyright(t).spec_midi()[0] == 0x02u8,
        Meta::TrackName(t).spec_midi()[0] == 0x03u8,
        Meta::InstrumentName(t).spec_midi()[0] == 0x04u8,
        Meta::Lyric(t).spec_midi()[0] == 0x05u8,
        Meta::Marker(t).spec_midi()[0] == 0x06u8,
        Meta::CuePoint(t).spec_midi()[0] == 0x07u8,
        Meta::ChannelPrefix(c).spec_midi()[0] == 0x20u8,
        Meta::EndOfTrack.spec_midi()[0] == 0x2Fu8,
        Meta::SetTempo(tempo).spec_midi()[0] == 0x51u8,
        Meta::TimeSignature(s).spec_midi()[0] == 0x58u8,
        Meta::KeySignature(k).spec_midi()[0] == 0x59u8,
        Meta::SequencerSpecific(d).spec_midi()[0] == 0x7Fu8,
        Meta::EndOfTrack.spec_midi() == seq![0x2Fu8, 0x00u8],
        DeviceID::AllCall.spec_to_u8() == 0x7F,
{

}

/// The sub-IDs that begin each universal real-time message.
pub open spec fn spec_real_time_sub_ids(m: UniversalRealTimeMsg) -> Seq<u8> {
    match m {
        UniversalRealTimeMsg::TimeCodeFull(_) => seq![0x01u8, 0x01u8],
        UniversalRealTimeMsg::TimeCodeUserBits(_) => seq![0x01u8, 0x02u8],
        UniversalRealTimeMsg::ShowControl(_) => seq![0x02u8],
        UniversalRealTimeMsg::BarMarker(_) => seq![0x03u8, 0x01u8],
        UniversalRealTimeMsg::TimeSignature(_) => seq![0x03u8, 0x02u8],
        UniversalRealTimeMsg::TimeSignatureDelayed(_) => seq![0x03u8, 0x42u8],
        UniversalRealTimeMsg::MasterVolume(_) => seq![0x04u8, 0x01u8],
        UniversalRealTimeMsg::MasterBalance(_) => seq![0x04u8, 0x02u8],
        UniversalRealTimeMsg::MasterFineTuning(_) => seq![0x04u8, 0x03u8],
        UniversalRealTimeMsg::MasterCoarseTuning(_) => seq![0x04u8, 0x04u8],
        UniversalRealTimeMsg::GlobalParameterControl(_) => seq![0x04u8, 0x05u8],
        UniversalRealTimeMsg::TimeCodeCueing(_) => seq![0x05u8],
        UniversalRealTimeMsg::MachineControlCommand(_) => seq![0x06u8],
        UniversalRealTimeMsg::MachineControlResponse(_) => seq![0x07u8],
        UniversalRealTimeMsg::TuningNoteChange(t) => if t.tuning_bank_num is Some {
            seq![0x08u8, 0x07u8]
        } else {
            seq![0x08u8, 0x02u8]
        },
        UniversalRealTimeMsg::ScaleTuning1Byte(_) => seq![0x08u8, 0x08u8],
        UniversalRealTimeMsg::ScaleTuning2Byte(_) => seq![0x08u8, 0x09u8],
        UniversalRealTimeMsg::ChannelPressureControllerDestination(_) => seq![0x09u8, 0x01u8],
        UniversalRealTimeMsg::PolyphonicKeyPressureControllerDestination(_) => seq![0x09u8, 0x02u8],
        UniversalRealTimeMsg::ControlChangeControllerDestination(_) => seq![0x09u8, 0x03u8],
        UniversalRealTimeMsg::KeyBasedInstrumentControl(_) => seq![0x0Au8, 0x01u8],
    }
}

/// Every universal real-time message begins with the sub-IDs that the MIDI specifications give
/// it: time code 01 (full 01, user bits 02), show control 02, notation 03 (bar marker 01, time
/// signature 02, delayed 42), device control 04 (master volume 01, balance 02, fine tuning 03,
/// coarse tuning 04, global parameters 05), cueing 05, machine control 06 and 07, tuning 08 (note
/// change 02, or 07 in a bank; scale tunings 08 and 09), controller destinations 09 (01 to 03)
/// and key-based instrument control 0A 01.
#[verifier::rlimit(50)]
pub proof fn lemma_real_time_sub_ids(m: UniversalRealTimeMsg)
    ensures
        spec_real_time_sub_ids(m).len() <= m.spec_midi().len(),
        m.spec_midi().subrange(0, spec_real_time_sub_ids(m).len() as int) == spec_real_time_sub_ids(m),
{
}

/// The sub-IDs that begin each universal non-real-time message.
pub open spec fn spec_non_real_time_sub_ids(m: UniversalNonRealTimeMsg) -> Seq<u8> {
    match m {
        UniversalNonRealTimeMsg::SampleDump(d) => match d {
            SampleDumpMsg::Header { .. } => seq![0x01u8],
            SampleDumpMsg::Packet { .. } => seq![0x02u8],
            SampleDumpMsg::Request { .. } => seq![0x03u8],
            SampleDumpMsg::MultipleLoopPoints { .. } => seq![0x05u8, 0x01u8],
            SampleDumpMsg::LoopPointsRequest { .. } => seq![0x05u8, 0x02u8],
        },
        UniversalNonRealTimeMsg::ExtendedSampleDump(d) => match d {
            ExtendedSampleDumpMsg::SampleName { .. } => seq![0x05u8, 0x03u8],
            ExtendedSampleDumpMsg::SampleNameRequest { .. } => seq![0x05u8, 0x04u8],
            ExtendedSampleDumpMsg::Header { .. } => seq![0x05u8, 0x05u8],
            ExtendedSampleDumpMsg::MultipleLoopPoints { .. } => seq![0x05u8, 0x06u8],
            ExtendedSampleDumpMsg::LoopPointsRequest { .. } => seq![0x05u8, 0x07u8],
        },
        UniversalNonRealTimeMsg::TimeCodeCueingSetup(_) => seq![0x04u8],
        UniversalNonRealTimeMsg::IdentityRequest => seq![0x06u8, 0x01u8],
        UniversalNonRealTimeMsg::IdentityReply(_) => seq![0x06u8, 0x02u8],
        UniversalNonRealTimeMsg::FileDump(d) => match d {
            FileDumpMsg::Header { .. } => seq![0x07u8, 0x01u8],
            FileDumpMsg::Packet { .. } => seq![0x07u8, 0x02u8],
            FileDumpMsg::Request { .. } => seq![0x07u8, 0x03u8],
        },
        UniversalNonRealTimeMsg::TuningBulkDumpRequest(_, bank) => if bank is Some {
            seq![0x08u8, 0x03u8]
        } else {
            seq![0x08u8, 0x00u8]
        },
        UniversalNonRealTimeMsg::KeyBasedTuningDump(t) => if t.tuning_bank_num is Some {
            seq![0x08u8, 0x04u8]
        } else {
            seq![0x08u8, 0x01u8]
        },
        UniversalNonRealTimeMsg::ScaleTuningDump1Byte(_) => seq![0x08u8, 0x05u8],
        UniversalNonRealTimeMsg::ScaleTuningDump2Byte(_) => seq![0x08u8, 0x06u8],
        UniversalNonRealTimeMsg::TuningNoteChange(_) => seq![0x08u8, 0x07u8],
        UniversalNonRealTimeMsg::ScaleTuning1Byte(_) => seq![0x08u8, 0x08u8],
        UniversalNonRealTimeMsg::ScaleTuning2Byte(_) => seq![0x08u8, 0x09u8],
        UniversalNonRealTimeMsg::GeneralMidi(g) => match g {
            GeneralMidi::GM1 => seq![0x09u8, 0x01u8],
            GeneralMidi::Off => seq![0x09u8, 0x02u8],
            GeneralMidi::GM2 => seq![0x09u8, 0x03u8],
        },
        UniversalNonRealTimeMsg::FileReference(f) => match f {
            FileReferenceMsg::Open { .. } => seq![0x0Bu8, 0x01u8],
            FileReferenceMsg::SelectContents { .. } => seq![0x0Bu8, 0x02u8],
            FileReferenceMsg::OpenSelectContents { .. } => seq![0x0Bu8, 0x03u8],
            FileReferenceMsg::Close { .. } => seq![0x0Bu8, 0x04u8],
        },
        UniversalNonRealTimeMsg::EOF => seq![0x7Bu8, 0x00u8],
        UniversalNonRealTimeMsg::Wait => seq![0x7Cu8, 0x00u8],
        UniversalNonRealTimeMsg::Cancel => seq![0x7Du8, 0x00u8],
        UniversalNonRealTimeMsg::NAK(_) => seq![0x7Eu8],
        UniversalNonRealTimeMsg::ACK(_) => seq![0x7Fu8],
    }
}

/// Every universal non-real-time message begins with the sub-IDs that the MIDI specifications
/// give it: sample dump 01, 02, 03 and 05 (loop points 01, 02; extended sample dump 03 to 07),
/// cueing setup 04, identity 06 (request 01, reply 02), file dump 07 (header 01, packet 02,
/// request 03), tuning 08 (bulk dump request 00 or 03, dumps 01, 04, 05, 06, note change 07,
/// scale tunings 08 and 09), General MIDI 09, file reference 0B (01 to 04), and the handshakes
/// EOF 7B, Wait 7C, Cancel 7D, NAK 7E and ACK 7F.
#[verifier::rlimit(50)]
pub proof fn lemma_non_real_time_sub_ids(m: UniversalNonRealTimeMsg)
    ensures
        spec_non_real_time_sub_ids(m).len() <= m.spec_midi().len(),
        m.spec_midi().subrange(0, spec_non_real_time_sub_ids(m).len() as int)
            == spec_non_real_time_sub_ids(m),
{
}

/// A system exclusive message is framed by 0xF0 and 0xF7; a universal real-time message's body
/// begins with 0x7F and the device, a non-real-time one with 0x7E and the device, and a
/// non-commercial one with 0x7D.
#[verifier::rlimit(50)]
pub proof fn lemma_system_exclusive_framing(m: SystemExclusiveMsg)
    ensures
        m.spec_midi(true)[0] == 0xF0,
        m.spec_midi(true).last() == 0xF7,
        m.spec_midi(false).last() == 0xF7,
        m.spec_midi(true).subrange(1, m.spec_midi(true).len() - 1) == m.spec_body(),
        m matches SystemExclusiveMsg::UniversalRealTime { device, .. } ==> m.spec_body()[0] == 0x7F
            && m.spec_body()[1] == device.spec_to_u8(),
        m matches SystemExclusiveMsg::UniversalNonRealTime { device, .. } ==> m.spec_body()[0]
            == 0x7E && m.spec_body()[1] == device.spec_to_u8(),
        m is NonCommercial ==> m.spec_body()[0] == 0x7D,
{
    assert(m.spec_midi(true).subrange(1, m.spec_midi(true).len() - 1) =~= m.spec_body());
}

/// The data bytes of each channel voice message: a note and its velocity (or pressure), a
/// program, a pressure, and a pitch bend as its low 7 bits then its high 7 bits, each clamped;
/// a high resolution note sends its velocity's high bits with the note and its low bits on
/// controller 88.
pub proof fn lemma_voice_data_bytes(note: u8, value: u8, wide: u16)
    ensures
        (ChannelVoiceMsg::NoteOff { note, velocity: value }).spec_midi_running() == seq![seven(note), seven(value)],
        (ChannelVoiceMsg::NoteOn { note, velocity: value }).spec_midi_running() == seq![seven(note), seven(value)],
        (ChannelVoiceMsg::PolyPressure { note, pressure: value }).spec_midi_running() == seq![seven(note), seven(value)],
        (ChannelVoiceMsg::ProgramChange { program: value }).spec_midi_running() == seq![seven(value)],
        (ChannelVoiceMsg::ChannelPressure { pressure: value }).spec_midi_running() == seq![seven(value)],
        (ChannelVoiceMsg::PitchBend { bend: wide }).spec_midi_running() == seq![low7(wide), high7(wide)],
        (ChannelVoiceMsg::HighResNoteOn { note, velocity: wide }).spec_midi_running() == seq![
            seven(note),
            high7(wide),
            0xB0u8,
            88u8,
            low7(wide),
        ],
        (ChannelVoiceMsg::HighResNoteOff { note, velocity: wide }).spec_midi_running() == seq![
            seven(note),
            high7(wide),
            0xB0u8,
            88u8,
            low7(wide),
        ],
{
}

/// A status byte selects the kind of channel voice message that is read: 0x8n Note Off, 0x9n
/// Note On, 0xAn Polyphonic Key Pressure, 0xCn Program Change, 0xDn Channel Pressure and 0xEn
/// Pitch Bend (LSB first).
#[verifier::rlimit(50)]
pub proof fn lemma_voice_status_read(n: u8, a: u8, b: u8)
    requires
        n < 16,
        a <= 127,
        b <= 127,
    ensures
        ChannelVoiceMsg::spec_from_midi(seq![(0x80 + n) as u8, a, b]) == Ok::<(ChannelVoiceMsg, usize), ParseError>((ChannelVoiceMsg::NoteOff { note: a, velocity: b }, 3usize)),
        ChannelVoiceMsg::spec_from_midi(seq![(0x90 + n) as u8, a, b]) == Ok::<(ChannelVoiceMsg, usize), ParseError>((ChannelVoiceMsg::NoteOn { note: a, velocity: b }, 3usize)),
        ChannelVoiceMsg::spec_from_midi(seq![(0xA0 + n) as u8, a, b]) == Ok::<(ChannelVoiceMsg, usize), ParseError>((ChannelVoiceMsg::PolyPressure { note: a, pressure: b }, 3usize)),
        ChannelVoiceMsg::spec_from_midi(seq![(0xC0 + n) as u8, a]) == Ok::<(ChannelVoiceMsg, usize), ParseError>((ChannelVoiceMsg::ProgramChange { program: a }, 2usize)),
        ChannelVoiceMsg::spec_from_midi(seq![(0xD0 + n) as u8, a]) == Ok::<(ChannelVoiceMsg, usize), ParseError>((ChannelVoiceMsg::ChannelPressure { pressure: a }, 2usize)),
        ChannelVoiceMsg::spec_from_midi(seq![(0xE0 + n) as u8, a, b]) == Ok::<(ChannelVoiceMsg, usize), ParseError>((ChannelVoiceMsg::PitchBend { bend: (b * 128 + a) as u16 }, 3usize)),
{
}

/// A time code is sent as its frames, seconds, minutes, and hours with the frame rate's number
/// in bits 5 and 6, each clamped to its range (29 frames, 59 seconds and minutes, 23 hours).
pub proof fn lemma_time_code_bytes(tc: TimeCode)
    ensures
        tc.spec_to_bytes() == seq![
            if tc.frames > 29 { 29u8 } else { tc.frames },
            if tc.seconds > 59 { 59u8 } else { tc.seconds },
            if tc.minutes > 59 { 59u8 } else { tc.minutes },
            ((if tc.hours > 23 { 23u8 } else { tc.hours }) + 32 * tc.code_type.spec_to_u8()) as u8,
        ],
        tc.spec_midi() == tc.spec_to_bytes().reverse(),
{
}

/// A file header is "MThd", the length 6 (four bytes, most significant first), the format
/// (0 single track, 1 multi-track, 2 multi-song), the number of tracks and the division, each
/// as two bytes most significant first; a time code division is 0x80 with the frame rate's
/// number, then the ticks per frame. A track chunk is "MTrk" and the length of its events, most
/// significant byte first, where it fits in 32 bits.
#[verifier::rlimit(50)]
pub proof fn lemma_file_chunk_bytes(h: Header, events: Vec<TrackEvent>)
    ensures
        h.spec_midi().len() == 14,
        h.spec_midi().subrange(0, 8) == seq![0x4Du8, 0x54u8, 0x68u8, 0x64u8, 0u8, 0u8, 0u8, 6u8],
        h.spec_midi()[8] == 0,
        h.spec_midi()[9] == match h.format {
            SMFFormat::SingleTrack => 0u8,
            SMFFormat::MultiTrack => 1u8,
            SMFFormat::MultiSong => 2u8,
        },
        h.spec_midi()[10] == h.num_tracks / 256,
        h.spec_midi()[11] == h.num_tracks % 256,
        h.division matches Division::TicksPerQuarterNote(t) ==> h.spec_midi()[12] == t / 256
            && h.spec_midi()[13] == t % 256,
        h.division matches Division::TimeCode { frames_per_second, ticks_per_frame } ==> h.spec_midi()[12]
            == 0x80 + frames_per_second.spec_to_u8() && h.spec_midi()[13] == ticks_per_frame,
        Track::Midi(events).spec_midi().subrange(0, 4) == seq![0x4Du8, 0x54u8, 0x72u8, 0x6Bu8],
        spec_events_midi(events@).len() <= u32::MAX ==> Track::Midi(events).spec_midi().subrange(4, 8)
            == seq![
            (spec_events_midi(events@).len() / 16777216) as u8,
            ((spec_events_midi(events@).len() / 65536) % 256) as u8,
            ((spec_events_midi(events@).len() / 256) % 256) as u8,
            (spec_events_midi(events@).len() % 256) as u8,
        ],
{
    let t = Track::Midi(events).spec_midi();
    assert(t.subrange(0, 4) =~= seq![0x4Du8, 0x54u8, 0x72u8, 0x6Bu8]);
    assert(t.subrange(4, 8) =~= spec_u32_be(spec_events_midi(events@).len() as u32));
}

/// A tempo is written as type 0x51, length 3 and its three low bytes most significant first; a
/// key signature as type 0x59, length 2, the number of sharps (negative for flats) and the scale.
pub proof fn lemma_tempo_and_key_bytes(tempo: u32, k: KeySignature)
    ensures
        Meta::SetTempo(tempo).spec_midi() == seq![
            0x51u8,
            3u8,
            ((tempo / 65536) % 256) as u8,
            ((tempo / 256) % 256) as u8,
            (tempo % 256) as u8,
        ],
        Meta::KeySignature(k).spec_midi() == seq![0x59u8, 2u8, k.key as u8, k.scale],
{
    assert(Meta::SetTempo(tempo).spec_midi() =~= seq![
        0x51u8,
        3u8,
        ((tempo / 65536) % 256) as u8,
        ((tempo / 256) % 256) as u8,
        (tempo % 256) as u8,
    ]);
    assert(Meta::KeySignature(k).spec_midi() =~= seq![0x59u8, 2u8, k.key as u8, k.scale]);
}

/// The General MIDI Level 1 sound set numbers the 128 programs from 0 (Acoustic Grand Piano) to
/// 127 (Gunshot), in the order of the specification, both ways.
#[verifier::rlimit(100)]
pub proof fn lemma_sound_set_numbers()
    ensures
        GMSoundSet::AcousticGrandPiano.spec_to_u8() == 0,
        GMSoundSet::BrightAcousticPiano.spec_to_u8() == 1,
        GMSoundSet::ElectricGrandPiano.spec_to_u8() == 2,
        GMSoundSet::HonkytonkPiano.spec_to_u8() == 3,
        GMSoundSet::ElectricPiano1.spec_to_u8() == 4,
        GMSoundSet::ElectricPiano2.spec_to_u8() == 5,
        GMSoundSet::Harpsichord.spec_to_u8() == 6,
        GMSoundSet::Clavi.spec_to_u8() == 7,
        GMSoundSet::Celesta.spec_to_u8() == 8,
        GMSoundSet::Glockenspiel.spec_to_u8() == 9,
        GMSoundSet::MusicBox.spec_to_u8() == 10,
        GMSoundSet::Vibraphone.spec_to_u8() == 11,
        GMSoundSet::Marimba.spec_to_u8() == 12,
        GMSoundSet::Xylophone.spec_to_u8() == 13,
        GMSoundSet::TubularBells.spec_to_u8() == 14,
        GMSoundSet::Dulcimer.spec_to_u8() == 15,
        GMSoundSet::DrawbarOrgan.spec_to_u8() == 16,
        GMSoundSet::PercussiveOrgan.spec_to_u8() == 17,
        GMSoundSet::RockOrgan.spec_to_u8() == 18,
        GMSoundSet::ChurchOrgan.spec_to_u8() == 19,
        GMSoundSet::ReedOrgan.spec_to_u8() == 20,
        GMSoundSet::Accordion.spec_to_u8() == 21,
        GMSoundSet::Harmonica.spec_to_u8() == 22,
        GMSoundSet::TangoAccordion.spec_to_u8() == 23,
        GMSoundSet::AcousticGuitarNylon.spec_to_u8() == 24,
        GMSoundSet::AcousticGuitarSteel.spec_to_u8() == 25,
        GMSoundSet::ElectricGuitarJazz.spec_to_u8() == 26,
        GMSoundSet::ElectricGuitarClean.spec_to_u8() == 27,
        GMSoundSet::ElectricGuitarMuted.spec_to_u8() == 28,
        GMSoundSet::OverdrivenGuitar.spec_to_u8() == 29,
        GMSoundSet::DistortionGuitar.spec_to_u8() == 30,
        GMSoundSet::GuitarHarmonics.spec_to_u8() == 31,
        GMSoundSet::AcousticBass.spec_to_u8() == 32,
        GMSoundSet::ElectricBassFinger.spec_to_u8() == 33,
        GMSoundSet::ElectricBassPick.spec_to_u8() == 34,
        GMSoundSet::FretlessBass.spec_to_u8() == 35,
        GMSoundSet::SlapBass1.spec_to_u8() == 36,
        GMSoundSet::SlapBass2.spec_to_u8() == 37,
        GMSoundSet::SynthBass1.spec_to_u8() == 38,
        GMSoundSet::SynthBass2.spec_to_u8() == 39,
        GMSoundSet::Violin.spec_to_u8() == 40,
        GMSoundSet::Viola.spec_to_u8() == 41,
        GMSoundSet::Cello.spec_to_u8() == 42,
        GMSoundSet::Contrabass.spec_to_u8() == 43,
        GMSoundSet::TremoloStrings.spec_to_u8() == 44,
        GMSoundSet::PizzicatoStrings.spec_to_u8() == 45,
        GMSoundSet::OrchestralHarp.spec_to_u8() == 46,
        GMSoundSet::Timpani.spec_to_u8() == 47,
        GMSoundSet::StringEnsemble1.spec_to_u8() == 48,
        GMSoundSet::StringEnsemble2.spec_to_u8() == 49,
        GMSoundSet::SynthStrings1.spec_to_u8() == 50,
        GMSoundSet::SynthStrings2.spec_to_u8() == 51,
        GMSoundSet::ChoirAahs.spec_to_u8() == 52,
        GMSoundSet::VoiceOohs.spec_to_u8() == 53,
        GMSoundSet::SynthVoice.spec_to_u8() == 54,
        GMSoundSet::OrchestraHit.spec_to_u8() == 55,
        GMSoundSet::Trumpet.spec_to_u8() == 56,
        GMSoundSet::Trombone.spec_to_u8() == 57,
        GMSoundSet::Tuba.spec_to_u8() == 58,
        GMSoundSet::MutedTrumpet.spec_to_u8() == 59,
        GMSoundSet::FrenchHorn.spec_to_u8() == 60,
        GMSoundSet::BrassSection.spec_to_u8() == 61,
        GMSoundSet::SynthBrass1.spec_to_u8() == 62,
        GMSoundSet::SynthBrass2.spec_to_u8() == 63,
        GMSoundSet::SopranoSax.spec_to_u8() == 64,
        GMSoundSet::AltoSax.spec_to_u8() == 65,
        GMSoundSet::TenorSax.spec_to_u8() == 66,
        GMSoundSet::BaritoneSax.spec_to_u8() == 67,
        GMSoundSet::Oboe.spec_to_u8() == 68,
        GMSoundSet::EnglishHorn.spec_to_u8() == 69,
        GMSoundSet::Bassoon.spec_to_u8() == 70,
        GMSoundSet::Clarinet.spec_to_u8() == 71,
        GMSoundSet::Piccolo.spec_to_u8() == 72,
        GMSoundSet::Flute.spec_to_u8() == 73,
        GMSoundSet::Recorder.spec_to_u8() == 74,
        GMSoundSet::PanFlute.spec_to_u8() == 75,
        GMSoundSet::BlownBottle.spec_to_u8() == 76,
        GMSoundSet::Shakuhachi.spec_to_u8() == 77,
        GMSoundSet::Whistle.spec_to_u8() == 78,
        GMSoundSet::Ocarina.spec_to_u8() == 79,
        GMSoundSet::Lead1.spec_to_u8() == 80,
        GMSoundSet::Lead2.spec_to_u8() == 81,
        GMSoundSet::Lead3.spec_to_u8() == 82,
        GMSoundSet::Lead4.spec_to_u8() == 83,
        GMSoundSet::Lead5.spec_to_u8() == 84,
        GMSoundSet::Lead6.spec_to_u8() == 85,
        GMSoundSet::Lead7.spec_to_u8() == 86,
        GMSoundSet::Lead8.spec_to_u8() == 87,
        GMSoundSet::Pad1.spec_to_u8() == 88,
        GMSoundSet::Pad2.spec_to_u8() == 89,
        GMSoundSet::Pad3.spec_to_u8() == 90,
        GMSoundSet::Pad4.spec_to_u8() == 91,
        GMSoundSet::Pad5.spec_to_u8() == 92,
        GMSoundSet::Pad6.spec_to_u8() == 93,
        GMSoundSet::Pad7.spec_to_u8() == 94,
        GMSoundSet::Pad8.spec_to_u8() == 95,
        GMSoundSet::FX1.spec_to_u8() == 96,
        GMSoundSet::FX2.spec_to_u8() == 97,
        GMSoundSet::FX3.spec_to_u8() == 98,
        GMSoundSet::FX4.spec_to_u8() == 99,
        GMSoundSet::FX5.spec_to_u8() == 100,
        GMSoundSet::FX6.spec_to_u8() == 101,
        GMSoundSet::FX7.spec_to_u8() == 102,
        GMSoundSet::FX8.spec_to_u8() == 103,
        GMSoundSet::Sitar.spec_to_u8() == 104,
        GMSoundSet::Banjo.spec_to_u8() == 105,
        GMSoundSet::Shamisen.spec_to_u8() == 106,
        GMSoundSet::Koto.spec_to_u8() == 107,
        GMSoundSet::Kalimba.spec_to_u8() == 108,
        GMSoundSet::Bagpipe.spec_to_u8() == 109,
        GMSoundSet::Fiddle.spec_to_u8() == 110,
        GMSoundSet::Shanai.spec_to_u8() == 111,
        GMSoundSet::TinkleBell.spec_to_u8() == 112,
        GMSoundSet::Agogo.spec_to_u8() == 113,
        GMSoundSet::SteelDrums.spec_to_u8() == 114,
        GMSoundSet::Woodblock.spec_to_u8() == 115,
        GMSoundSet::TaikoDrum.spec_to_u8() == 116,
        GMSoundSet::MelodicTom.spec_to_u8() == 117,
        GMSoundSet::SynthDrum.spec_to_u8() == 118,
        GMSoundSet::ReverseCymbal.spec_to_u8() == 119,
        GMSoundSet::GuitarFretNoise.spec_to_u8() == 120,
        GMSoundSet::BreathNoise.spec_to_u8() == 121,
        GMSoundSet::Seashore.spec_to_u8() == 122,
        GMSoundSet::BirdTweet.spec_to_u8() == 123,
        GMSoundSet::TelephoneRing.spec_to_u8() == 124,
        GMSoundSet::Helicopter.spec_to_u8() == 125,
        GMSoundSet::Applause.spec_to_u8() == 126,
        GMSoundSet::Gunshot.spec_to_u8() == 127,
        GMSoundSet::spec_from_number(0) == GMSoundSet::AcousticGrandPiano,
        GMSoundSet::spec_from_number(1) == GMSoundSet::BrightAcousticPiano,
        GMSoundSet::spec_from_number(2) == GMSoundSet::ElectricGrandPiano,
        GMSoundSet::spec_from_number(3) == GMSoundSet::HonkytonkPiano,
        GMSoundSet::spec_from_number(4) == GMSoundSet::ElectricPiano1,
        GMSoundSet::spec_from_number(5) == GMSoundSet::ElectricPiano2,
        GMSoundSet::spec_from_number(6) == GMSoundSet::Harpsichord,
        GMSoundSet::spec_from_number(7) == GMSoundSet::Clavi,
        GMSoundSet::spec_from_number(8) == GMSoundSet::Celesta,
        GMSoundSet::spec_from_number(9) == GMSoundSet::Glockenspiel,
        GMSoundSet::spec_from_number(10) == GMSoundSet::MusicBox,
        GMSoundSet::spec_from_number(11) == GMSoundSet::Vibraphone,
        GMSoundSet::spec_from_number(12) == GMSoundSet::Marimba,
        GMSoundSet::spec_from_number(13) == GMSoundSet::Xylophone,
        GMSoundSet::spec_from_number(14) == GMSoundSet::TubularBells,
        GMSoundSet::spec_from_number(15) == GMSoundSet::Dulcimer,
        GMSoundSet::spec_from_number(16) == GMSoundSet::DrawbarOrgan,
        GMSoundSet::spec_from_number(17) == GMSoundSet::PercussiveOrgan,
        GMSoundSet::spec_from_number(18) == GMSoundSet::RockOrgan,
        GMSoundSet::spec_from_number(19) == GMSoundSet::ChurchOrgan,
        GMSoundSet::spec_from_number(20) == GMSoundSet::ReedOrgan,
        GMSoundSet::spec_from_number(21) == GMSoundSet::Accordion,
        GMSoundSet::spec_from_number(22) == GMSoundSet::Harmonica,
        GMSoundSet::spec_from_number(23) == GMSoundSet::TangoAccordion,
        GMSoundSet::spec_from_number(24) == GMSoundSet::AcousticGuitarNylon,
        GMSoundSet::spec_from_number(25) == GMSoundSet::AcousticGuitarSteel,
        GMSoundSet::spec_from_number(26) == GMSoundSet::ElectricGuitarJazz,
        GMSoundSet::spec_from_number(27) == GMSoundSet::ElectricGuitarClean,
        GMSoundSet::spec_from_number(28) == GMSoundSet::ElectricGuitarMuted,
        GMSoundSet::spec_from_number(29) == GMSoundSet::OverdrivenGuitar,
        GMSoundSet::spec_from_number(30) == GMSoundSet::DistortionGuitar,
        GMSoundSet::spec_from_number(31) == GMSoundSet::GuitarHarmonics,
        GMSoundSet::spec_from_number(32) == GMSoundSet::AcousticBass,
        GMSoundSet::spec_from_number(33) == GMSoundSet::ElectricBassFinger,
        GMSoundSet::spec_from_number(34) == GMSoundSet::ElectricBassPick,
        GMSoundSet::spec_from_number(35) == GMSoundSet::FretlessBass,
        GMSoundSet::spec_from_number(36) == GMSoundSet::SlapBass1,
        GMSoundSet::spec_from_number(37) == GMSoundSet::SlapBass2,
        GMSoundSet::spec_from_number(38) == GMSoundSet::SynthBass1,
        GMSoundSet::spec_from_number(39) == GMSoundSet::SynthBass2,
        GMSoundSet::spec_from_number(40) == GMSoundSet::Violin,
        GMSoundSet::spec_from_number(41) == GMSoundSet::Viola,
        GMSoundSet::spec_from_number(42) == GMSoundSet::Cello,
        GMSoundSet::spec_from_number(43) == GMSoundSet::Contrabass,
        GMSoundSet::spec_from_number(44) == GMSoundSet::TremoloStrings,
        GMSoundSet::spec_from_number(45) == GMSoundSet::PizzicatoStrings,
        GMSoundSet::spec_from_number(46) == GMSoundSet::OrchestralHarp,
        GMSoundSet::spec_from_number(47) == GMSoundSet::Timpani,
        GMSoundSet::spec_from_number(48) == GMSoundSet::StringEnsemble1,
        GMSoundSet::spec_from_number(49) == GMSoundSet::StringEnsemble2,
        GMSoundSet::spec_from_number(50) == GMSoundSet::SynthStrings1,
        GMSoundSet::spec_from_number(51) == GMSoundSet::SynthStrings2,
        GMSoundSet::spec_from_number(52) == GMSoundSet::ChoirAahs,
        GMSoundSet::spec_from_number(53) == GMSoundSet::VoiceOohs,
        GMSoundSet::spec_from_number(54) == GMSoundSet::SynthVoice,
        GMSoundSet::spec_from_number(55) == GMSoundSet::OrchestraHit,
        GMSoundSet::spec_from_number(56) == GMSoundSet::Trumpet,
        GMSoundSet::spec_from_number(57) == GMSoundSet::Trombone,
        GMSoundSet::spec_from_number(58) == GMSoundSet::Tuba,
        GMSoundSet::spec_from_number(59) == GMSoundSet::MutedTrumpet,
        GMSoundSet::spec_from_number(60) == GMSoundSet::FrenchHorn,
        GMSoundSet::spec_from_number(61) == GMSoundSet::BrassSection,
        GMSoundSet::spec_from_number(62) == GMSoundSet::SynthBrass1,
        GMSoundSet::spec_from_number(63) == GMSoundSet::SynthBrass2,
        GMSoundSet::spec_from_number(64) == GMSoundSet::SopranoSax,
        GMSoundSet::spec_from_number(65) == GMSoundSet::AltoSax,
        GMSoundSet::spec_from_number(66) == GMSoundSet::TenorSax,
        GMSoundSet::spec_from_number(67) == GMSoundSet::BaritoneSax,
        GMSoundSet::spec_from_number(68) == GMSoundSet::Oboe,
        GMSoundSet::spec_from_number(69) == GMSoundSet::EnglishHorn,
        GMSoundSet::spec_from_number(70) == GMSoundSet::Bassoon,
        GMSoundSet::spec_from_number(71) == GMSoundSet::Clarinet,
        GMSoundSet::spec_from_number(72) == GMSoundSet::Piccolo,
        GMSoundSet::spec_from_number(73) == GMSoundSet::Flute,
        GMSoundSet::spec_from_number(74) == GMSoundSet::Recorder,
        GMSoundSet::spec_from_number(75) == GMSoundSet::PanFlute,
        GMSoundSet::spec_from_number(76) == GMSoundSet::BlownBottle,
        GMSoundSet::spec_from_number(77) == GMSoundSet::Shakuhachi,
        GMSoundSet::spec_from_number(78) == GMSoundSet::Whistle,
        GMSoundSet::spec_from_number(79) == GMSoundSet::Ocarina,
        GMSoundSet::spec_from_number(80) == GMSoundSet::Lead1,
        GMSoundSet::spec_from_number(81) == GMSoundSet::Lead2,
        GMSoundSet::spec_from_number(82) == GMSoundSet::Lead3,
        GMSoundSet::spec_from_number(83) == GMSoundSet::Lead4,
        GMSoundSet::spec_from_number(84) == GMSoundSet::Lead5,
        GMSoundSet::spec_from_number(85) == GMSoundSet::Lead6,
        GMSoundSet::spec_from_number(86) == GMSoundSet::Lead7,
        GMSoundSet::spec_from_number(87) == GMSoundSet::Lead8,
        GMSoundSet::spec_from_number(88) == GMSoundSet::Pad1,
        GMSoundSet::spec_from_number(89) == GMSoundSet::Pad2,
        GMSoundSet::spec_from_number(90) == GMSoundSet::Pad3,
        GMSoundSet::spec_from_number(91) == GMSoundSet::Pad4,
        GMSoundSet::spec_from_number(92) == GMSoundSet::Pad5,
        GMSoundSet::spec_from_number(93) == GMSoundSet::Pad6,
        GMSoundSet::spec_from_number(94) == GMSoundSet::Pad7,
        GMSoundSet::spec_from_number(95) == GMSoundSet::Pad8,
        GMSoundSet::spec_from_number(96) == GMSoundSet::FX1,
        GMSoundSet::spec_from_number(97) == GMSoundSet::FX2,
        GMSoundSet::spec_from_number(98) == GMSoundSet::FX3,
        GMSoundSet::spec_from_number(99) == GMSoundSet::FX4,
        GMSoundSet::spec_from_number(100) == GMSoundSet::FX5,
        GMSoundSet::spec_from_number(101) == GMSoundSet::FX6,
        GMSoundSet::spec_from_number(102) == GMSoundSet::FX7,
        GMSoundSet::spec_from_number(103) == GMSoundSet::FX8,
        GMSoundSet::spec_from_number(104) == GMSoundSet::Sitar,
        GMSoundSet::spec_from_number(105) == GMSoundSet::Banjo,
        GMSoundSet::spec_from_number(106) == GMSoundSet::Shamisen,
        GMSoundSet::spec_from_number(107) == GMSoundSet::Koto,
        GMSoundSet::spec_from_number(108) == GMSoundSet::Kalimba,
        GMSoundSet::spec_from_number(109) == GMSoundSet::Bagpipe,
        GMSoundSet::spec_from_number(110) == GMSoundSet::Fiddle,
        GMSoundSet::spec_from_number(111) == GMSoundSet::Shanai,
        GMSoundSet::spec_from_number(112) == GMSoundSet::TinkleBell,
        GMSoundSet::spec_from_number(113) == GMSoundSet::Agogo,
        GMSoundSet::spec_from_number(114) == GMSoundSet::SteelDrums,
        GMSoundSet::spec_from_number(115) == GMSoundSet::Woodblock,
        GMSoundSet::spec_from_number(116) == GMSoundSet::TaikoDrum,
        GMSoundSet::spec_from_number(117) == GMSoundSet::MelodicTom,
        GMSoundSet::spec_from_number(118) == GMSoundSet::SynthDrum,
        GMSoundSet::spec_from_number(119) == GMSoundSet::ReverseCymbal,
        GMSoundSet::spec_from_number(120) == GMSoundSet::GuitarFretNoise,
        GMSoundSet::spec_from_number(121) == GMSoundSet::BreathNoise,
        GMSoundSet::spec_from_number(122) == GMSoundSet::Seashore,
        GMSoundSet::spec_from_number(123) == GMSoundSet::BirdTweet,
        GMSoundSet::spec_from_number(124) == GMSoundSet::TelephoneRing,
        GMSoundSet::spec_from_number(125) == GMSoundSet::Helicopter,
        GMSoundSet::spec_from_number(126) == GMSoundSet::Applause,
        GMSoundSet::spec_from_number(127) == GMSoundSet::Gunshot,
{
}

/// The General MIDI Level 1 percussion map numbers the keys from 35 (Acoustic Bass Drum) to 81
/// (Open Triangle), in the order of the specification, both ways.
#[verifier::rlimit(100)]
pub proof fn lemma_percussion_numbers()
    ensures
        GMPercussionMap::AcousticBassDrum.spec_to_u8() == 35,
        GMPercussionMap::BassDrum1.spec_to_u8() == 36,
        GMPercussionMap::SideStick.spec_to_u8() == 37,
        GMPercussionMap::AcousticSnare.spec_to_u8() == 38,
        GMPercussionMap::HandClap.spec_to_u8() == 39,
        GMPercussionMap::ElectricSnare.spec_to_u8() == 40,
        GMPercussionMap::LowFloorTom.spec_to_u8() == 41,
        GMPercussionMap::ClosedHiHat.spec_to_u8() == 42,
        GMPercussionMap::HighFloorTom.spec_to_u8() == 43,
        GMPercussionMap::PedalHiHat.spec_to_u8() == 44,
        GMPercussionMap::LowTom.spec_to_u8() == 45,
        GMPercussionMap::OpenHiHat.spec_to_u8() == 46,
        GMPercussionMap::LowMidTom.spec_to_u8() == 47,
        GMPercussionMap::HiMidTom.spec_to_u8() == 48,
        GMPercussionMap::CrashCymbal1.spec_to_u8() == 49,
        GMPercussionMap::HighTom.spec_to_u8() == 50,
        GMPercussionMap::RideCymbal1.spec_to_u8() == 51,
        GMPercussionMap::ChineseCymbal.spec_to_u8() == 52,
        GMPercussionMap::RideBell.spec_to_u8() == 53,
        GMPercussionMap::Tambourine.spec_to_u8() == 54,
        GMPercussionMap::SplashCymbal.spec_to_u8() == 55,
        GMPercussionMap::Cowbell.spec_to_u8() == 56,
        GMPercussionMap::CrashCymbal2.spec_to_u8() == 57,
        GMPercussionMap::Vibraslap.spec_to_u8() == 58,
        GMPercussionMap::RideCymbal2.spec_to_u8() == 59,
        GMPercussionMap::HiBongo.spec_to_u8() == 60,
        GMPercussionMap::LowBongo.spec_to_u8() == 61,
        GMPercussionMap::MuteHiConga.spec_to_u8() == 62,
        GMPercussionMap::OpenHiConga.spec_to_u8() == 63,
        GMPercussionMap::LowConga.spec_to_u8() == 64,
        GMPercussionMap::HighTimbale.spec_to_u8() == 65,
        GMPercussionMap::LowTimbale.spec_to_u8() == 66,
        GMPercussionMap::HighAgogo.spec_to_u8() == 67,
        GMPercussionMap::LowAgogo.spec_to_u8() == 68,
        GMPercussionMap::Cabasa.spec_to_u8() == 69,
        GMPercussionMap::Maracas.spec_to_u8() == 70,
        GMPercussionMap::ShortWhistle.spec_to_u8() == 71,
        GMPercussionMap::LongWhistle.spec_to_u8() == 72,
        GMPercussionMap::ShortGuiro.spec_to_u8() == 73,
        GMPercussionMap::LongGuiro.spec_to_u8() == 74,
        GMPercussionMap::Claves.spec_to_u8() == 75,
        GMPercussionMap::HiWoodBlock.spec_to_u8() == 76,
        GMPercussionMap::LowWoodBlock.spec_to_u8() == 77,
        GMPercussionMap::MuteCuica.spec_to_u8() == 78,
        GMPercussionMap::OpenCuica.spec_to_u8() == 79,
        GMPercussionMap::MuteTriangle.spec_to_u8() == 80,
        GMPercussionMap::OpenTriangle.spec_to_u8() == 81,
        GMPercussionMap::spec_from_number(35) == GMPercussionMap::AcousticBassDrum,
        GMPercussionMap::spec_from_number(36) == GMPercussionMap::BassDrum1,
        GMPercussionMap::spec_from_number(37) == GMPercussionMap::SideStick,
        GMPercussionMap::spec_from_number(38) == GMPercussionMap::AcousticSnare,
        GMPercussionMap::spec_from_number(39) == GMPercussionMap::HandClap,
        GMPercussionMap::spec_from_number(40) == GMPercussionMap::ElectricSnare,
        GMPercussionMap::spec_from_number(41) == GMPercussionMap::LowFloorTom,
        GMPercussionMap::spec_from_number(42) == GMPercussionMap::ClosedHiHat,
        GMPercussionMap::spec_from_number(43) == GMPercussionMap::HighFloorTom,
        GMPercussionMap::spec_from_number(44) == GMPercussionMap::PedalHiHat,
        GMPercussionMap::spec_from_number(45) == GMPercussionMap::LowTom,
        GMPercussionMap::spec_from_number(46) == GMPercussionMap::OpenHiHat,
        GMPercussionMap::spec_from_number(47) == GMPercussionMap::LowMidTom,
        GMPercussionMap::spec_from_number(48) == GMPercussionMap::HiMidTom,
        GMPercussionMap::spec_from_number(49) == GMPercussionMap::CrashCymbal1,
        GMPercussionMap::spec_from_number(50) == GMPercussionMap::HighTom,
        GMPercussionMap::spec_from_number(51) == GMPercussionMap::RideCymbal1,
        GMPercussionMap::spec_from_number(52) == GMPercussionMap::ChineseCymbal,
        GMPercussionMap::spec_from_number(53) == GMPercussionMap::RideBell,
        GMPercussionMap::spec_from_number(54) == GMPercussionMap::Tambourine,
        GMPercussionMap::spec_from_number(55) == GMPercussionMap::SplashCymbal,
        GMPercussionMap::spec_from_number(56) == GMPercussionMap::Cowbell,
        GMPercussionMap::spec_from_number(57) == GMPercussionMap::CrashCymbal2,
        GMPercussionMap::spec_from_number(58) == GMPercussionMap::Vibraslap,
        GMPercussionMap::spec_from_number(59) == GMPercussionMap::RideCymbal2,
        GMPercussionMap::spec_from_number(60) == GMPercussionMap::HiBongo,
        GMPercussionMap::spec_from_number(61) == GMPercussionMap::LowBongo,
        GMPercussionMap::spec_from_number(62) == GMPercussionMap::MuteHiConga,
        GMPercussionMap::spec_from_number(63) == GMPercussionMap::OpenHiConga,
        GMPercussionMap::spec_from_number(64) == GMPercussionMap::LowConga,
        GMPercussionMap::spec_from_number(65) == GMPercussionMap::HighTimbale,
        GMPercussionMap::spec_from_number(66) == GMPercussionMap::LowTimbale,
        GMPercussionMap::spec_from_number(67) == GMPercussionMap::HighAgogo,
        GMPercussionMap::spec_from_number(68) == GMPercussionMap::LowAgogo,
        GMPercussionMap::spec_from_number(69) == GMPercussionMap::Cabasa,
        GMPercussionMap::spec_from_number(70) == GMPercussionMap::Maracas,
        GMPercussionMap::spec_from_number(71) == GMPercussionMap::ShortWhistle,
        GMPercussionMap::spec_from_number(72) == GMPercussionMap::LongWhistle,
        GMPercussionMap::spec_from_number(73) == GMPercussionMap::ShortGuiro,
        GMPercussionMap::spec_from_number(74) == GMPercussionMap::LongGuiro,
        GMPercussionMap::spec_from_number(75) == GMPercussionMap::Claves,
        GMPercussionMap::spec_from_number(76) == GMPercussionMap::HiWoodBlock,
        GMPercussionMap::spec_from_number(77) == GMPercussionMap::LowWoodBlock,
        GMPercussionMap::spec_from_number(78) == GMPercussionMap::MuteCuica,
        GMPercussionMap::spec_from_number(79) == GMPercussionMap::OpenCuica,
        GMPercussionMap::spec_from_number(80) == GMPercussionMap::MuteTriangle,
        GMPercussionMap::spec_from_number(81) == GMPercussionMap::OpenTriangle,
{
}

/// The numbers of the GM2 reverb types (Small Room 0, Medium Room 1, Large Room 2, Medium Hall
/// 3, Large Hall 4, Plate 8), the GM2 chorus types (Chorus 1 to 4 are 0 to 3, FB Chorus 4,
/// Flanger 5) and the controlled parameters of a controller destination (pitch 0, filter
/// cutoff 1, amplitude 2, LFO pitch, filter and amplitude depth 3 to 5).
pub proof fn lemma_effect_and_destination_numbers()
    ensures
        ReverbType::SmallRoom.spec_to_u8() == 0,
        ReverbType::MediumRoom.spec_to_u8() == 1,
        ReverbType::LargeRoom.spec_to_u8() == 2,
        ReverbType::MediumHall.spec_to_u8() == 3,
        ReverbType::LargeHall.spec_to_u8() == 4,
        ReverbType::Plate.spec_to_u8() == 8,
        ChorusType::Chorus1.spec_to_u8() == 0,
        ChorusType::Chorus2.spec_to_u8() == 1,
        ChorusType::Chorus3.spec_to_u8() == 2,
        ChorusType::Chorus4.spec_to_u8() == 3,
        ChorusType::FBChorus.spec_to_u8() == 4,
        ChorusType::Flanger.spec_to_u8() == 5,
        ControlledParameter::PitchControl.spec_to_u8() == 0,
        ControlledParameter::FilterCutoffControl.spec_to_u8() == 1,
        ControlledParameter::AmplitudeControl.spec_to_u8() == 2,
        ControlledParameter::LFOPitchDepth.spec_to_u8() == 3,
        ControlledParameter::LFOFilterDepth.spec_to_u8() == 4,
        ControlledParameter::LFOAmplitudeDepth.spec_to_u8() == 5,
{
}

/// The MIDI Machine Control commands: Stop 0x01, Play 0x02, Deferred Play 0x03, Fast Forward
/// 0x04, Rewind 0x05, Record Strobe 0x06, Record Exit 0x07, Record Pause 0x08, Pause 0x09, Eject
/// 0x0A, Chase 0x0B, Command Error Reset 0x0C and MMC Reset 0x0D; Locate is 0x44 with its byte
/// count, then 0x00 and an information field (numbered 0x01 to 0x0F) or 0x01 and a time code.
#[verifier::rlimit(50)]
pub proof fn lemma_machine_control_numbers(f: InformationField)
    ensures
        MachineControlCommandMsg::Stop.spec_midi() == seq![0x01u8],
        MachineControlCommandMsg::Play.spec_midi() == seq![0x02u8],
        MachineControlCommandMsg::DeferredPlay.spec_midi() == seq![0x03u8],
        MachineControlCommandMsg::FastForward.spec_midi() == seq![0x04u8],
        MachineControlCommandMsg::Rewind.spec_midi() == seq![0x05u8],
        MachineControlCommandMsg::RecordStrobe.spec_midi() == seq![0x06u8],
        MachineControlCommandMsg::RecordExit.spec_midi() == seq![0x07u8],
        MachineControlCommandMsg::RecordPause.spec_midi() == seq![0x08u8],
        MachineControlCommandMsg::Pause.spec_midi() == seq![0x09u8],
        MachineControlCommandMsg::Eject.spec_midi() == seq![0x0Au8],
        MachineControlCommandMsg::Chase.spec_midi() == seq![0x0Bu8],
        MachineControlCommandMsg::CommandErrorReset.spec_midi() == seq![0x0Cu8],
        MachineControlCommandMsg::MMCReset.spec_midi() == seq![0x0Du8],
        MachineControlCommandMsg::LocateInformationField(f).spec_midi() == seq![
            0x44u8,
            2u8,
            0u8,
            f.spec_to_u8(),
        ],
        InformationField::SelectedTimeCode.spec_to_u8() == 0x01,
        InformationField::SelectedMasterCode.spec_to_u8() == 0x02,
        InformationField::RequestedOffset.spec_to_u8() == 0x03,
        InformationField::ActualOffset.spec_to_u8() == 0x04,
        InformationField::LockDeviation.spec_to_u8() == 0x05,
        InformationField::GeneratorTimeCode.spec_to_u8() == 0x06,
        InformationField::MidiTimeCodeInput.spec_to_u8() == 0x07,
        InformationField::GP0.spec_to_u8() == 0x8,
        InformationField::GP1.spec_to_u8() == 0x9,
        InformationField::GP2.spec_to_u8() == 0xa,
        InformationField::GP3.spec_to_u8() == 0xb,
        InformationField::GP4.spec_to_u8() == 0xc,
        InformationField::GP5.spec_to_u8() == 0xd,
        InformationField::GP6.spec_to_u8() == 0xe,
        InformationField::GP7.spec_to_u8() == 0xf,
{
}

/// The loop types of a sample dump (forward 0, bidirectional 1, off 127) and of an extended
/// sample dump (forward 0x00, bidirectional 0x01, with release 0x02 and 0x03, backward 0x40 to
/// 0x43, backward one-shot 0x7E, one-shot 0x7F), and the note values of a notation time
/// signature as powers of two (whole 0 to sixty-fourth 6).
pub proof fn lemma_loop_and_beat_numbers()
    ensures
        LoopType::Forward.spec_to_u8() == 0,
        LoopType::BiDirectional.spec_to_u8() == 1,
        LoopType::Off.spec_to_u8() == 127,
        ExtendedLoopType::Forward.spec_to_u8() == 0x00,
        ExtendedLoopType::BiDirectional.spec_to_u8() == 0x01,
        ExtendedLoopType::ForwardRelease.spec_to_u8() == 0x02,
        ExtendedLoopType::BiDirectionalRelease.spec_to_u8() == 0x03,
        ExtendedLoopType::Backward.spec_to_u8() == 0x40,
        ExtendedLoopType::BackwardBiDirectional.spec_to_u8() == 0x41,
        ExtendedLoopType::BackwardRelease.spec_to_u8() == 0x42,
        ExtendedLoopType::BackwardBiDirectionalRelease.spec_to_u8() == 0x43,
        ExtendedLoopType::BackwardOneShot.spec_to_u8() == 0x7E,
        ExtendedLoopType::OneShot.spec_to_u8() == 0x7F,
        BeatValue::Whole.spec_to_u8() == 0,
        BeatValue::Half.spec_to_u8() == 1,
        BeatValue::Quarter.spec_to_u8() == 2,
        BeatValue::Eighth.spec_to_u8() == 3,
        BeatValue::Sixteenth.spec_to_u8() == 4,
        BeatValue::ThirtySecond.spec_to_u8() == 5,
        BeatValue::SixtyFourth.spec_to_u8() == 6,
{
}

/// A manufacturer ID of one byte is sent as it is (at most 0x7C); one of two bytes is sent
/// after a zero, each byte clamped to 7 bits.
pub proof fn lemma_manufacturer_id_bytes(a: u8, b: u8)
    ensures
        ManufacturerID(a, None).spec_midi() == seq![if a > 0x7C { 0x7Cu8 } else { a }],
        ManufacturerID(a, Some(b)).spec_midi() == seq![0x00u8, seven(a), seven(b)],
{
}

/// The data that a parameter entry sends after selecting its parameter: Pitch Bend
/// Sensitivity's semitones and cents (at most 100), Fine Tuning offset by 8192 in 14 bits,
/// Coarse Tuning offset by 64, the tuning program and bank, and the number of MPE channels (at
/// most 16), each on the data entry controllers 6 and 38.
#[verifier::rlimit(50)]
pub proof fn lemma_parameter_entry_data(semitones: u8, cents: u8, fine: i16, coarse: i8, x: u8)
    ensures
        Parameter::PitchBendSensitivityEntry(semitones, cents).spec_midi_running().subrange(4, 8)
            == seq![6u8, seven(semitones), 38u8, if cents > 100 { 100u8 } else { cents }],
        -8192 <= fine <= 8191 ==> Parameter::FineTuningEntry(fine).spec_midi_running().subrange(4, 8)
            == seq![6u8, ((fine + 8192) / 128) as u8, 38u8, ((fine + 8192) % 128) as u8],
        -64 <= coarse <= 63 ==> Parameter::CoarseTuningEntry(coarse).spec_midi_running().subrange(4, 8)
            == seq![6u8, (coarse + 64) as u8, 38u8, 0u8],
        Parameter::TuningProgramSelectEntry(x).spec_midi_running().subrange(4, 6) == seq![6u8, seven(x)],
        Parameter::TuningBankSelectEntry(x).spec_midi_running().subrange(4, 6) == seq![6u8, seven(x)],
        Parameter::PolyphonicExpressionEntry(x).spec_midi_running().subrange(4, 6) == seq![
            6u8,
            if x > 16 { 16u8 } else { x },
        ],
{
    assert(Parameter::PitchBendSensitivityEntry(semitones, cents).spec_midi_running().subrange(4, 8)
        =~= seq![6u8, seven(semitones), 38u8, if cents > 100 { 100u8 } else { cents }]);
    assert(Parameter::FineTuningEntry(fine).spec_midi_running().subrange(4, 8)
        =~= seq![6u8, crate::util::spec_u14_msb(crate::util::spec_i14_offset(fine)), 38u8, crate::util::spec_u14_lsb(crate::util::spec_i14_offset(fine))]);
    assert(Parameter::CoarseTuningEntry(coarse).spec_midi_running().subrange(4, 8)
        =~= seq![6u8, crate::util::spec_u7(if coarse < -64 { 0 } else { coarse + 64 }), 38u8, 0u8]);
    assert(Parameter::TuningProgramSelectEntry(x).spec_midi_running().subrange(4, 6) =~= seq![6u8, seven(x)]);
    assert(Parameter::TuningBankSelectEntry(x).spec_midi_running().subrange(4, 6) =~= seq![6u8, seven(x)]);
    assert(Parameter::PolyphonicExpressionEntry(x).spec_midi_running().subrange(4, 6) =~= seq![
        6u8,
        if x > 16 { 16u8 } else { x },
    ]);
}

/// A variable length quantity below 2^28 takes one to four bytes, most significant first, the
/// high bit set on every byte but the last; the low seven bits of the bytes, read in base 128,
/// give the value back, and the first byte is not an empty continuation (0x80).
#[verifier::rlimit(50)]
pub proof fn lemma_vlq_bytes(x: u32)
    requires
        x <= 0x0FFFFFFF,
    ensures
        1 <= spec_vlq(x).len() <= 4,
        spec_vlq(x).last() < 128,
        forall|j: int| 0 <= j < spec_vlq(x).len() - 1 ==> spec_vlq(x)[j] >= 128,
        spec_vlq(x).len() > 1 ==> spec_vlq(x)[0] != 0x80,
        spec_vlq(x).len() == 1 ==> x == spec_vlq(x)[0],
        spec_vlq(x).len() == 2 ==> x == (spec_vlq(x)[0] - 128) * 128 + spec_vlq(x)[1],
        spec_vlq(x).len() == 3 ==> x == (spec_vlq(x)[0] - 128) * 16384 + (spec_vlq(x)[1] - 128)
            * 128 + spec_vlq(x)[2],
        spec_vlq(x).len() == 4 ==> x == (spec_vlq(x)[0] - 128) * 2097152 + (spec_vlq(x)[1] - 128)
            * 16384 + (spec_vlq(x)[2] - 128) * 128 + spec_vlq(x)[3],
{
}

/// In a track, an event is its delta time as a variable length quantity, then: a meta event
/// after 0xFF, a system message after 0xF7 and its length, or a channel message as it is; a
/// system reset is not written.
pub proof fn lemma_track_event_bytes(e: TrackEvent)
    ensures
        e.event is Meta ==> e.spec_midi() == spec_vlq(e.delta_time) + seq![0xFFu8] + e.event.spec_midi(),
        e.event is ChannelVoice ==> e.spec_midi() == spec_vlq(e.delta_time) + e.event.spec_midi(),
        (e.event is SystemExclusive || e.event is SystemCommon) ==> e.spec_midi() == spec_vlq(
            e.delta_time,
        ) + seq![0xF7u8] + spec_vlq(e.event.spec_midi().len() as u32) + e.event.spec_midi(),
        e.event == (MidiMsg::SystemRealTime { msg: SystemRealTimeMsg::SystemReset }) ==> e.spec_midi()
            == Seq::<u8>::empty(),
{
}

} // verus!
