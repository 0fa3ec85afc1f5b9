use vstd::prelude::*;

use crate::parse_error::ParseError;
use vstd::slice::slice_subrange;

use crate::util::{
    bool_from_u7, i14_from_u7s, i_to_u14, i_to_u7, push_u14, push_u7, replace_u14_lsb,
    spec_i14_offset, spec_replace_lsb, spec_u14, spec_u14_bytes, spec_u14_from_midi,
    spec_u14_lsb, spec_u14_msb, spec_u7, spec_u7_from_midi, to_u14, to_u7, u14_from_midi,
    u14_from_u7s, u7_from_midi, u7_to_i, u8_from_u7,
};

verus! {

/// Channel-level messages that act on a voice. For instance, turning notes on off,
/// or modifying sounding notes. Used in [`MidiMsg`](crate::MidiMsg).
#[derive(Debug, Clone, Copy, PartialEq, Eq)]
pub enum ChannelVoiceMsg {
    /// Turn on a note
    NoteOn {
        /// A MIDI note number 0-127. Per GM1, 69 = A440
        note: u8,
        /// The velocity the note should be played at, 0-127
        velocity: u8,
    },
    /// Turn off a note
    NoteOff {
        /// Stop playing the given MIDI note at this channel, 0-127
        note: u8,
        /// The velocity the note should stop being played at, 0-127
        velocity: u8,
    },
    /// Generally used for modifying the tones being played. Frequently shortened to 'CC'
    ControlChange { control: ControlChange },
    /// A note on with a preceding HighResVelocity CC per CA-031
    HighResNoteOn { note: u8, velocity: u16 },
    /// A note off with a preceding HighResVelocity CC per CA-031
    HighResNoteOff { note: u8, velocity: u16 },
    /// The amount of pressure being applied to a given note, which is a signal some controllers
    /// after an initial `NoteOn`.
    /// Can act on multiple notes at a time, thus it is "polyphonic".
    PolyPressure {
        /// The note to apply this pressure signal to, 0-127
        note: u8,
        /// The amount of pressure to apply, 0-127
        pressure: u8,
    },
    /// Similar to `PolyPressure`, but only applies at the channel-level.
    ChannelPressure { pressure: u8 },
    /// Which "program", "patch" or "sound" to use when playing any preceding notes, 0-127.
    /// Use [`GMSoundSet`](crate::GMSoundSet) when targeting General MIDI
    ProgramChange { program: u8 },
    /// Apply a pitch bend to all sounding notes. 0-8191 represent negative bends,
    /// 8192 is no bend and 8193-16383 are positive bends, with the standard bend range
    /// being +/-2 semitones per GM2. See [`Parameter::PitchBendSensitivity`]
    PitchBend { bend: u16 },
}

/// The MIDI numbers associated with Control Changes.
#[derive(Debug, Clone, Copy, PartialEq, Eq)]
pub enum ControlNumber {
    BankSelect,
    BankSelectLSB,
    ModWheel,
    ModWheelLSB,
    Breath,
    BreathLSB,
    Foot,
    FootLSB,
    Portamento,
    PortamentoLSB,
    DataEntry,
    DataEntryLSB,
    Volume,
    VolumeLSB,
    Balance,
    BalanceLSB,
    Pan,
    PanLSB,
    Expression,
    ExpressionLSB,
    Effect1,
    Effect1LSB,
    Effect2,
    Effect2LSB,
    GeneralPurpose1,
    GeneralPurpose1LSB,
    GeneralPurpose2,
    GeneralPurpose2LSB,
    GeneralPurpose3,
    GeneralPurpose3LSB,
    GeneralPurpose4,
    GeneralPurpose4LSB,
    /// AKA Sustain
    Hold,
    TogglePortamento,
    Sostenuto,
    SoftPedal,
    ToggleLegato,
    Hold2,
    /// AKA SoundVariation
    SoundControl1,
    /// AKA Timbre
    SoundControl2,
    /// AKA ReleaseTime
    SoundControl3,
    /// AKA AttackTime
    SoundControl4,
    /// AKA Brightness
    SoundControl5,
    /// AKA DecayTime
    SoundControl6,
    /// AKA VibratoRate
    SoundControl7,
    /// AKA VibratoDepth
    SoundControl8,
    /// AKA VibratoDelay
    SoundControl9,
    SoundControl10,
    GeneralPurpose5,
    GeneralPurpose6,
    GeneralPurpose7,
    GeneralPurpose8,
    PortamentoControl,
    HighResVelocity,
    /// AKA ReverbSendLevel
    Effects1Depth,
    /// AKA TremoloDepth
    Effects2Depth,
    /// AKA ChorusSendLevel
    Effects3Depth,
    /// AKA CelesteDepth
    Effects4Depth,
    /// AKA PhaserDepth
    Effects5Depth,
    DataIncrement,
    DataDecrement,
    NonRegisteredParameterLSB,
    NonRegisteredParameter,
    RegisteredParameterLSB,
    RegisteredParameter,
}

/// Used by [`ChannelVoiceMsg::ControlChange`] to modify sounds.
/// Each control targets a particular [`ControlNumber`], the meaning of which is given by convention.
#[derive(Debug, Clone, Copy, PartialEq, Eq)]
pub enum ControlChange {
    /// 0-16383
    BankSelect(u16),
    /// 0-16383
    ModWheel(u16),
    /// 0-16383
    Breath(u16),
    /// Control number may be any valid Midi CC Control number. May not be > 119.
    Undefined {
        control: u8,
        /// 0-127
        value: u8,
    },
    /// `control1` is associated with the MSB of the value, `control2` with the LSB. Neither `controls` may be > 119.
    UndefinedHighRes {
        control1: u8,
        control2: u8,
        /// 0-16383
        value: u16,
    },
    /// 0-16383
    Foot(u16),
    /// 0-16383
    Portamento(u16),
    /// 0-16383
    Volume(u16),
    /// 0-16383
    Balance(u16),
    /// 0-16383
    Pan(u16),
    /// 0-16383
    Expression(u16),
    /// 0-16383
    Effect1(u16),
    /// 0-16383
    Effect2(u16),
    /// 0-16383
    GeneralPurpose1(u16),
    /// 0-16383
    GeneralPurpose2(u16),
    /// 0-16383
    GeneralPurpose3(u16),
    /// 0-16383
    GeneralPurpose4(u16),
    /// 0-127
    GeneralPurpose5(u8),
    /// 0-127
    GeneralPurpose6(u8),
    /// 0-127
    GeneralPurpose7(u8),
    /// 0-127
    GeneralPurpose8(u8),
    /// 0-127
    Hold(u8),
    /// 0-127
    Hold2(u8),
    /// Turn portamento on or off
    TogglePortamento(bool),
    /// 0-127
    Sostenuto(u8),
    /// 0-127
    SoftPedal(u8),
    /// Turn legato on or off
    ToggleLegato(bool),
    /// Same as SoundControl1
    SoundVariation(u8),
    /// Same as SoundControl2
    Timbre(u8),
    /// Same as SoundControl3
    ReleaseTime(u8),
    /// Same as SoundControl4
    AttackTime(u8),
    /// Same as SoundControl5, and used as the MPE "third dimension" (usually Timbre) control
    /// (RP-021, RP-053)
    Brightness(u8),
    /// Same as SoundControl6 (RP-021)
    DecayTime(u8),
    /// Same as SoundControl7 (RP-021)
    VibratoRate(u8),
    /// Same as SoundControl8 (RP-021)
    VibratoDepth(u8),
    /// Same as SoundControl9 (RP-021)
    VibratoDelay(u8),
    /// 0-127
    SoundControl1(u8),
    /// 0-127
    SoundControl2(u8),
    /// 0-127
    SoundControl3(u8),
    /// 0-127
    SoundControl4(u8),
    /// 0-127
    SoundControl5(u8),
    /// 0-127
    SoundControl6(u8),
    /// 0-127
    SoundControl7(u8),
    /// 0-127
    SoundControl8(u8),
    /// 0-127
    SoundControl9(u8),
    /// 0-127
    SoundControl10(u8),
    /// Used as the LSB of the velocity for the next note on/off message, 0-127.
    /// Defined in CA-031
    HighResVelocity(u8),
    /// 0-127
    PortamentoControl(u8),
    /// 0-127
    Effects1Depth(u8),
    /// 0-127
    Effects2Depth(u8),
    /// 0-127
    Effects3Depth(u8),
    /// 0-127
    Effects4Depth(u8),
    /// 0-127
    Effects5Depth(u8),
    /// Same as Effects1Depth (RP-023)
    ReverbSendLevel(u8),
    /// Same as Effects2Depth
    TremoloDepth(u8),
    /// Same as Effects3Depth (RP-023)
    ChorusSendLevel(u8),
    /// Same as Effects4Depth
    CelesteDepth(u8),
    /// Same as Effects5Depth
    PhaserDepth(u8),
    /// Registered and Unregistered Parameters
    Parameter(Parameter),
    /// Set the value of the last-set Parameter. 0-16383
    DataEntry(u16),
    /// Set the MSB and LSB of the last-set parameter separately.
    DataEntry2(u8, u8),
    /// Increment the value of the last-set Parameter. 0-127
    DataIncrement(u8),
    /// Decrement the value of the last-set Parameter. 0-127
    DataDecrement(u8),
}

/// Used by [`ControlChange::Parameter`]. "Entry" Parameters can be used to set the given parameters:
/// they will first select that parameter, then send a [`ControlChange::DataEntry`] with the given value.
#[derive(Debug, Clone, Copy, PartialEq, Eq)]
pub enum Parameter {
    /// A whole bunch of parameters defined by the given number 0-16383, that can be used for whatever.
    Unregistered(u16),
    /// A registered parameter that does nothing.
    /// Defined in GM2.
    Null,
    /// The pitch bend sensitivity in semitones (0-127) and the sensitivity in cents (0-100),
    /// respectively. For example, a value (1, 0) means +/- one semitone (a total range of two
    /// semitones)
    PitchBendSensitivity,
    PitchBendSensitivityEntry(u8, u8),
    /// A value from -8192-8191, representing the fractional cents to shift away from A440
    /// in 1/8192ths of a cent.
    FineTuning,
    FineTuningEntry(i16),
    /// A value from -64-63, the number of semitones to shift away from A44.
    CoarseTuning,
    CoarseTuningEntry(i8),
    /// Which "Tuning Program" to select from: 0-127.
    ///
    /// Defined in the MIDI Tuning Standard (Updated Specification)
    TuningProgramSelect,
    TuningProgramSelectEntry(u8),
    /// Which "Tuning Bank" to select from: 0-127.
    ///
    /// Defined in the MIDI Tuning Standard (Updated Specification)
    TuningBankSelect,
    TuningBankSelectEntry(u8),
    /// The amount of "modulation depth" your mod wheel should apply: 0-16383.
    ///
    /// Defined in CA 26. GM2 defines what this range might mean
    ModulationDepthRange,
    ModulationDepthRangeEntry(u16),
    /// Only valid when sent to channel 1 or channel 16, the former indicating that this
    /// is configuring the number of "lower zone" channels and the latter referring to the
    /// "upper zone". A value between 0 (zone is not configured to be MPE) and 16 (zone has
    /// 16 channels in it). There can be no more than lower zone channels + upper zone channels
    /// active at a given time.
    ///
    /// Defined in RP-053: MIDI Polyphonic Expression
    PolyphonicExpression,
    PolyphonicExpressionEntry(u8),
    /// A value 0-16383 representing -180.00-179.98 degrees.
    ///
    /// Defined in RP-049
    AzimuthAngle3DSound,
    AzimuthAngle3DSoundEntry(u16),
    /// A value 0-16383 representing -180.00-179.98 degrees.
    ///
    /// Defined in RP-049
    ElevationAngle3DSound,
    ElevationAngle3DSoundEntry(u16),
    /// A value 1-16383 representing -163.82-0 dB of gain.
    ///
    /// 0 indicates "negative infinity".
    ///
    /// Defined in RP-049
    Gain3DSound,
    Gain3DSoundEntry(u16),
    /// A value 0-16383 representing a ratio between -0.000061-1.0.
    ///
    /// Defined in RP-049
    DistanceRatio3DSound,
    DistanceRatio3DSoundEntry(u16),
    /// A value 0-16383 representing between 0 and 1000 distance units.
    /// Defined in RP-049
    MaxiumumDistance3DSound,
    MaxiumumDistance3DSoundEntry(u16),
    /// A value 0-16383 representing -163.83-0 dB of gain
    /// Defined in RP-049
    GainAtMaxiumumDistance3DSound,
    GainAtMaxiumumDistance3DSoundEntry(u16),
    /// A value 0-16383 representing a ratio between -0.000061-1.0
    /// Defined in RP-049
    ReferenceDistanceRatio3DSound,
    ReferenceDistanceRatio3DSoundEntry(u16),
    /// A value 0-16383 representing -180.00-179.98 degrees
    /// Defined in RP-049
    PanSpreadAngle3DSound,
    PanSpreadAngle3DSoundEntry(u16),
    /// A value 0-16383 representing -180.00-179.98 degrees
    /// Defined in RP-049
    RollAngle3DSound,
    RollAngle3DSoundEntry(u16),
}

// ---------------------------------------------------------------------------
// The wire format, as mathematical sequences of bytes
// ---------------------------------------------------------------------------

/// A 14-bit controller: `control` carries the MSB, `control + 32` the LSB.
pub open spec fn spec_high_res_cc(control: u8, value: u16) -> Seq<u8> {
    seq![control, spec_u14_msb(value), (control + 32) as u8, spec_u14_lsb(value)]
}

/// A 7-bit controller.
pub open spec fn spec_cc7(control: u8, x: u8) -> Seq<u8> {
    seq![control, spec_u7(x as int)]
}

/// Selection of the registered parameter `(msb, lsb)`.
pub open spec fn spec_rpn(lsb: u8, msb: u8) -> Seq<u8> {
    seq![100u8, lsb, 101u8, msb]
}

pub open spec fn spec_min_u8(x: u8, y: u8) -> u8 {
    if x < y { x } else { y }
}

impl ControlNumber {
    /// The controller number that this name stands for.
    pub open spec fn spec_number(self) -> u8 {
        match self {
            ControlNumber::BankSelect => 0,
            ControlNumber::BankSelectLSB => 32,
            ControlNumber::ModWheel => 1,
            ControlNumber::ModWheelLSB => 33,
            ControlNumber::Breath => 2,
            ControlNumber::BreathLSB => 34,
            ControlNumber::Foot => 4,
            ControlNumber::FootLSB => 36,
            ControlNumber::Portamento => 5,
            ControlNumber::PortamentoLSB => 37,
            ControlNumber::DataEntry => 6,
            ControlNumber::DataEntryLSB => 38,
            ControlNumber::Volume => 7,
            ControlNumber::VolumeLSB => 39,
            ControlNumber::Balance => 8,
            ControlNumber::BalanceLSB => 40,
            ControlNumber::Pan => 10,
            ControlNumber::PanLSB => 42,
            ControlNumber::Expression => 11,
            ControlNumber::ExpressionLSB => 43,
            ControlNumber::Effect1 => 12,
            ControlNumber::Effect1LSB => 44,
            ControlNumber::Effect2 => 13,
            ControlNumber::Effect2LSB => 45,
            ControlNumber::GeneralPurpose1 => 16,
            ControlNumber::GeneralPurpose1LSB => 48,
            ControlNumber::GeneralPurpose2 => 17,
            ControlNumber::GeneralPurpose2LSB => 49,
            ControlNumber::GeneralPurpose3 => 18,
            ControlNumber::GeneralPurpose3LSB => 50,
            ControlNumber::GeneralPurpose4 => 19,
            ControlNumber::GeneralPurpose4LSB => 51,
            ControlNumber::Hold => 64,
            ControlNumber::TogglePortamento => 65,
            ControlNumber::Sostenuto => 66,
            ControlNumber::SoftPedal => 67,
            ControlNumber::ToggleLegato => 68,
            ControlNumber::Hold2 => 69,
            ControlNumber::SoundControl1 => 70,
            ControlNumber::SoundControl2 => 71,
            ControlNumber::SoundControl3 => 72,
            ControlNumber::SoundControl4 => 73,
            ControlNumber::SoundControl5 => 74,
            ControlNumber::SoundControl6 => 75,
            ControlNumber::SoundControl7 => 76,
            ControlNumber::SoundControl8 => 77,
            ControlNumber::SoundControl9 => 78,
            ControlNumber::SoundControl10 => 79,
            ControlNumber::GeneralPurpose5 => 80,
            ControlNumber::GeneralPurpose6 => 81,
            ControlNumber::GeneralPurpose7 => 82,
            ControlNumber::GeneralPurpose8 => 83,
            ControlNumber::PortamentoControl => 84,
            ControlNumber::HighResVelocity => 88,
            ControlNumber::Effects1Depth => 91,
            ControlNumber::Effects2Depth => 92,
            ControlNumber::Effects3Depth => 93,
            ControlNumber::Effects4Depth => 94,
            ControlNumber::Effects5Depth => 95,
            ControlNumber::DataIncrement => 96,
            ControlNumber::DataDecrement => 97,
            ControlNumber::NonRegisteredParameterLSB => 98,
            ControlNumber::NonRegisteredParameter => 99,
            ControlNumber::RegisteredParameterLSB => 100,
            ControlNumber::RegisteredParameter => 101,
        }
    }

    /// The controller number that this name stands for.
    pub fn to_u8(&self) -> (r: u8)
        ensures
            r == self.spec_number(),
    {
        match self {
            ControlNumber::BankSelect => 0,
            ControlNumber::BankSelectLSB => 32,
            ControlNumber::ModWheel => 1,
            ControlNumber::ModWheelLSB => 33,
            ControlNumber::Breath => 2,
            ControlNumber::BreathLSB => 34,
            ControlNumber::Foot => 4,
            ControlNumber::FootLSB => 36,
            ControlNumber::Portamento => 5,
            ControlNumber::PortamentoLSB => 37,
            ControlNumber::DataEntry => 6,
            ControlNumber::DataEntryLSB => 38,
            ControlNumber::Volume => 7,
            ControlNumber::VolumeLSB => 39,
            ControlNumber::Balance => 8,
            ControlNumber::BalanceLSB => 40,
            ControlNumber::Pan => 10,
            ControlNumber::PanLSB => 42,
            ControlNumber::Expression => 11,
            ControlNumber::ExpressionLSB => 43,
            ControlNumber::Effect1 => 12,
            ControlNumber::Effect1LSB => 44,
            ControlNumber::Effect2 => 13,
            ControlNumber::Effect2LSB => 45,
            ControlNumber::GeneralPurpose1 => 16,
            ControlNumber::GeneralPurpose1LSB => 48,
            ControlNumber::GeneralPurpose2 => 17,
            ControlNumber::GeneralPurpose2LSB => 49,
            ControlNumber::GeneralPurpose3 => 18,
            ControlNumber::GeneralPurpose3LSB => 50,
            ControlNumber::GeneralPurpose4 => 19,
            ControlNumber::GeneralPurpose4LSB => 51,
            ControlNumber::Hold => 64,
            ControlNumber::TogglePortamento => 65,
            ControlNumber::Sostenuto => 66,
            ControlNumber::SoftPedal => 67,
            ControlNumber::ToggleLegato => 68,
            ControlNumber::Hold2 => 69,
            ControlNumber::SoundControl1 => 70,
            ControlNumber::SoundControl2 => 71,
            ControlNumber::SoundControl3 => 72,
            ControlNumber::SoundControl4 => 73,
            ControlNumber::SoundControl5 => 74,
            ControlNumber::SoundControl6 => 75,
            ControlNumber::SoundControl7 => 76,
            ControlNumber::SoundControl8 => 77,
            ControlNumber::SoundControl9 => 78,
            ControlNumber::SoundControl10 => 79,
            ControlNumber::GeneralPurpose5 => 80,
            ControlNumber::GeneralPurpose6 => 81,
            ControlNumber::GeneralPurpose7 => 82,
            ControlNumber::GeneralPurpose8 => 83,
            ControlNumber::PortamentoControl => 84,
            ControlNumber::HighResVelocity => 88,
            ControlNumber::Effects1Depth => 91,
            ControlNumber::Effects2Depth => 92,
            ControlNumber::Effects3Depth => 93,
            ControlNumber::Effects4Depth => 94,
            ControlNumber::Effects5Depth => 95,
            ControlNumber::DataIncrement => 96,
            ControlNumber::DataDecrement => 97,
            ControlNumber::NonRegisteredParameterLSB => 98,
            ControlNumber::NonRegisteredParameter => 99,
            ControlNumber::RegisteredParameterLSB => 100,
            ControlNumber::RegisteredParameter => 101,
        }
    }

}

impl ControlChange {
    /// The bytes of this control change, without the status byte.
    pub open spec fn spec_midi_running(self) -> Seq<u8> {
        match self {
            ControlChange::BankSelect(x) => spec_high_res_cc(0, x),
            ControlChange::ModWheel(x) => spec_high_res_cc(1, x),
            ControlChange::Breath(x) => spec_high_res_cc(2, x),
            ControlChange::Foot(x) => spec_high_res_cc(4, x),
            ControlChange::Portamento(x) => spec_high_res_cc(5, x),
            ControlChange::Volume(x) => spec_high_res_cc(7, x),
            ControlChange::Balance(x) => spec_high_res_cc(8, x),
            ControlChange::Pan(x) => spec_high_res_cc(10, x),
            ControlChange::Expression(x) => spec_high_res_cc(11, x),
            ControlChange::Effect1(x) => spec_high_res_cc(12, x),
            ControlChange::Effect2(x) => spec_high_res_cc(13, x),
            ControlChange::GeneralPurpose1(x) => spec_high_res_cc(16, x),
            ControlChange::GeneralPurpose2(x) => spec_high_res_cc(17, x),
            ControlChange::GeneralPurpose3(x) => spec_high_res_cc(18, x),
            ControlChange::GeneralPurpose4(x) => spec_high_res_cc(19, x),
            ControlChange::GeneralPurpose5(x) => spec_cc7(80, x),
            ControlChange::GeneralPurpose6(x) => spec_cc7(81, x),
            ControlChange::GeneralPurpose7(x) => spec_cc7(82, x),
            ControlChange::GeneralPurpose8(x) => spec_cc7(83, x),
            ControlChange::Hold(x) => spec_cc7(64, x),
            ControlChange::Hold2(x) => spec_cc7(69, x),
            ControlChange::Sostenuto(x) => spec_cc7(66, x),
            ControlChange::SoftPedal(x) => spec_cc7(67, x),
            ControlChange::SoundVariation(x) | ControlChange::SoundControl1(x) => spec_cc7(70, x),
            ControlChange::Timbre(x) | ControlChange::SoundControl2(x) => spec_cc7(71, x),
            ControlChange::ReleaseTime(x) | ControlChange::SoundControl3(x) => spec_cc7(72, x),
            ControlChange::AttackTime(x) | ControlChange::SoundControl4(x) => spec_cc7(73, x),
            ControlChange::Brightness(x) | ControlChange::SoundControl5(x) => spec_cc7(74, x),
            ControlChange::DecayTime(x) | ControlChange::SoundControl6(x) => spec_cc7(75, x),
            ControlChange::VibratoRate(x) | ControlChange::SoundControl7(x) => spec_cc7(76, x),
            ControlChange::VibratoDepth(x) | ControlChange::SoundControl8(x) => spec_cc7(77, x),
            ControlChange::VibratoDelay(x) | ControlChange::SoundControl9(x) => spec_cc7(78, x),
            ControlChange::SoundControl10(x) => spec_cc7(79, x),
            ControlChange::PortamentoControl(x) => spec_cc7(84, x),
            ControlChange::HighResVelocity(x) => spec_cc7(88, x),
            ControlChange::Effects1Depth(x) | ControlChange::ReverbSendLevel(x) => spec_cc7(91, x),
            ControlChange::Effects2Depth(x) | ControlChange::TremoloDepth(x) => spec_cc7(92, x),
            ControlChange::Effects3Depth(x) | ControlChange::ChorusSendLevel(x) => spec_cc7(93, x),
            ControlChange::Effects4Depth(x) | ControlChange::CelesteDepth(x) => spec_cc7(94, x),
            ControlChange::Effects5Depth(x) | ControlChange::PhaserDepth(x) => spec_cc7(95, x),
            ControlChange::DataIncrement(x) => spec_cc7(96, x),
            ControlChange::DataDecrement(x) => spec_cc7(97, x),
            ControlChange::Undefined { control, value } => seq![spec_min_u8(control, 119), spec_u7(value as int)],
            ControlChange::UndefinedHighRes { control1, control2, value } => seq![spec_min_u8(control1, 119), spec_u14_msb(value), spec_min_u8(control2, 119), spec_u14_lsb(value)],
            ControlChange::TogglePortamento(on) => seq![65u8, if on { 127u8 } else { 0u8 }],
            ControlChange::ToggleLegato(on) => seq![68u8, if on { 127u8 } else { 0u8 }],
            ControlChange::Parameter(p) => p.spec_midi_running(),
            ControlChange::DataEntry(x) => spec_high_res_cc(6, x),
            ControlChange::DataEntry2(msb, lsb) => seq![6u8, spec_u7(msb as int), 38u8, spec_u7(lsb as int)],
        }
    }

    /// The control change that a controller number and a 7-bit value stand for.
    pub open spec fn spec_from_control(control: u8, value: u8) -> ControlChange {
        match control {
            0 => ControlChange::BankSelect((value * 128) as u16),
            1 => ControlChange::ModWheel((value * 128) as u16),
            2 => ControlChange::Breath((value * 128) as u16),
            4 => ControlChange::Foot((value * 128) as u16),
            5 => ControlChange::Portamento((value * 128) as u16),
            7 => ControlChange::Volume((value * 128) as u16),
            8 => ControlChange::Balance((value * 128) as u16),
            10 => ControlChange::Pan((value * 128) as u16),
            11 => ControlChange::Expression((value * 128) as u16),
            12 => ControlChange::Effect1((value * 128) as u16),
            13 => ControlChange::Effect2((value * 128) as u16),
            16 => ControlChange::GeneralPurpose1((value * 128) as u16),
            17 => ControlChange::GeneralPurpose2((value * 128) as u16),
            18 => ControlChange::GeneralPurpose3((value * 128) as u16),
            19 => ControlChange::GeneralPurpose4((value * 128) as u16),
            6 => ControlChange::DataEntry((value * 128) as u16),
            64 => ControlChange::Hold(value),
            66 => ControlChange::Sostenuto(value),
            67 => ControlChange::SoftPedal(value),
            69 => ControlChange::Hold2(value),
            70 => ControlChange::SoundControl1(value),
            71 => ControlChange::SoundControl2(value),
            72 => ControlChange::SoundControl3(value),
            73 => ControlChange::SoundControl4(value),
            74 => ControlChange::SoundControl5(value),
            75 => ControlChange::SoundControl6(value),
            76 => ControlChange::SoundControl7(value),
            77 => ControlChange::SoundControl8(value),
            78 => ControlChange::SoundControl9(value),
            79 => ControlChange::SoundControl10(value),
            80 => ControlChange::GeneralPurpose5(value),
            81 => ControlChange::GeneralPurpose6(value),
            82 => ControlChange::GeneralPurpose7(value),
            83 => ControlChange::GeneralPurpose8(value),
            84 => ControlChange::PortamentoControl(value),
            88 => ControlChange::HighResVelocity(value),
            91 => ControlChange::Effects1Depth(value),
            92 => ControlChange::Effects2Depth(value),
            93 => ControlChange::Effects3Depth(value),
            94 => ControlChange::Effects4Depth(value),
            95 => ControlChange::Effects5Depth(value),
            96 => ControlChange::DataIncrement(value),
            97 => ControlChange::DataDecrement(value),
            65 => ControlChange::TogglePortamento(value >= 0x40),
            68 => ControlChange::ToggleLegato(value >= 0x40),
            3 | 9 | 14 | 15 | 20 | 21 | 22 | 23 | 24 | 25 | 26 | 27 | 28 | 29 | 30 | 31 => ControlChange::UndefinedHighRes { control1: control, control2: (control + 32) as u8, value: (value * 128) as u16 },
            _ => ControlChange::Undefined { control, value },
        }
    }
}

impl ControlChange {
    /// Whether this control change carries the most significant part of a value.
    pub open spec fn spec_is_msb(self) -> bool {
        match self {
            ControlChange::BankSelect(_) | ControlChange::ModWheel(_) | ControlChange::Breath(_)
            | ControlChange::DataEntry(_) | ControlChange::UndefinedHighRes { .. }
            | ControlChange::Foot(_) | ControlChange::Portamento(_) | ControlChange::Volume(_)
            | ControlChange::Balance(_) | ControlChange::Pan(_) | ControlChange::Expression(_)
            | ControlChange::Effect1(_) | ControlChange::Effect2(_)
            | ControlChange::GeneralPurpose1(_) | ControlChange::GeneralPurpose2(_)
            | ControlChange::GeneralPurpose3(_) | ControlChange::GeneralPurpose4(_) => true,
            ControlChange::Undefined { control, .. } => control < 32 || control == 99 || control
                == 101,
            _ => false,
        }
    }

    /// Whether this control change carries the least significant part of a value.
    pub open spec fn spec_is_lsb(self) -> bool {
        match self {
            ControlChange::Undefined { control, .. } => (32 <= control && control < 64) || control
                == 98 || control == 100,
            _ => false,
        }
    }

    /// For a 14-bit controller, the controller number that carries its least significant bits.
    pub open spec fn spec_lsb_control(self) -> Option<u8> {
        match self {
            ControlChange::BankSelect(_) => Some(32),
            ControlChange::ModWheel(_) => Some(33),
            ControlChange::Breath(_) => Some(34),
            ControlChange::Foot(_) => Some(36),
            ControlChange::Portamento(_) => Some(37),
            ControlChange::DataEntry(_) => Some(38),
            ControlChange::Volume(_) => Some(39),
            ControlChange::Balance(_) => Some(40),
            ControlChange::Pan(_) => Some(42),
            ControlChange::Expression(_) => Some(43),
            ControlChange::Effect1(_) => Some(44),
            ControlChange::Effect2(_) => Some(45),
            ControlChange::GeneralPurpose1(_) => Some(48),
            ControlChange::GeneralPurpose2(_) => Some(49),
            ControlChange::GeneralPurpose3(_) => Some(50),
            ControlChange::GeneralPurpose4(_) => Some(51),
            ControlChange::UndefinedHighRes { control2, .. } => Some(control2),
            _ => None,
        }
    }

    /// The 14-bit value of a 14-bit controller.
    pub open spec fn spec_high_res_value(self) -> u16 {
        match self {
            ControlChange::BankSelect(x) | ControlChange::ModWheel(x) | ControlChange::Breath(x)
            | ControlChange::Foot(x) | ControlChange::Portamento(x) | ControlChange::DataEntry(x)
            | ControlChange::Volume(x) | ControlChange::Balance(x) | ControlChange::Pan(x)
            | ControlChange::Expression(x) | ControlChange::Effect1(x) | ControlChange::Effect2(x)
            | ControlChange::GeneralPurpose1(x) | ControlChange::GeneralPurpose2(x)
            | ControlChange::GeneralPurpose3(x) | ControlChange::GeneralPurpose4(x) => x,
            ControlChange::UndefinedHighRes { value, .. } => value,
            _ => 0,
        }
    }

    /// The same 14-bit controller with another value.
    pub open spec fn spec_with_high_res_value(self, x: u16) -> ControlChange {
        match self {
            ControlChange::BankSelect(_) => ControlChange::BankSelect(x),
            ControlChange::ModWheel(_) => ControlChange::ModWheel(x),
            ControlChange::Breath(_) => ControlChange::Breath(x),
            ControlChange::Foot(_) => ControlChange::Foot(x),
            ControlChange::Portamento(_) => ControlChange::Portamento(x),
            ControlChange::DataEntry(_) => ControlChange::DataEntry(x),
            ControlChange::Volume(_) => ControlChange::Volume(x),
            ControlChange::Balance(_) => ControlChange::Balance(x),
            ControlChange::Pan(_) => ControlChange::Pan(x),
            ControlChange::Expression(_) => ControlChange::Expression(x),
            ControlChange::Effect1(_) => ControlChange::Effect1(x),
            ControlChange::Effect2(_) => ControlChange::Effect2(x),
            ControlChange::GeneralPurpose1(_) => ControlChange::GeneralPurpose1(x),
            ControlChange::GeneralPurpose2(_) => ControlChange::GeneralPurpose2(x),
            ControlChange::GeneralPurpose3(_) => ControlChange::GeneralPurpose3(x),
            ControlChange::GeneralPurpose4(_) => ControlChange::GeneralPurpose4(x),
            ControlChange::UndefinedHighRes { control1, control2, .. } => {
                ControlChange::UndefinedHighRes { control1, control2, value: x }
            },
            other => other,
        }
    }

    /// Two consecutive control changes combined into one, where they form one:
    /// a 14-bit controller and the controller carrying its LSB (in either order),
    /// the two halves of a (non-)registered parameter number (in either order),
    /// or a parameter and a data entry MSB or LSB (in either order).
    pub open spec fn spec_maybe_extend(self, other: ControlChange) -> Option<ControlChange> {
        match (self, other) {
            (
                ControlChange::Undefined { control: ctrl1, value: val1 },
                ControlChange::Undefined { control: ctrl2, value: val2 },
            ) => {
                let (ctrl_lsb, ctrl_msb, val_lsb, val_msb) = if ctrl1 < ctrl2 {
                    (ctrl1, ctrl2, val1, val2)
                } else {
                    (ctrl2, ctrl1, val2, val1)
                };
                if ctrl_lsb == 98 && ctrl_msb == 99 {
                    Some(
                        ControlChange::Parameter(
                            Parameter::Unregistered(spec_u14(val_msb, val_lsb) as u16),
                        ),
                    )
                } else if ctrl_lsb == 100 && ctrl_msb == 101 {
                    match Parameter::spec_from_number(val_msb, val_lsb) {
                        Some(p) => Some(ControlChange::Parameter(p)),
                        None => None,
                    }
                } else {
                    None
                }
            },
            (hr, ControlChange::Undefined { control, value }) if hr.spec_lsb_control() == Some(
                control,
            ) => Some(hr.spec_with_high_res_value(spec_replace_lsb(hr.spec_high_res_value(), value))),
            (ControlChange::Undefined { control, value }, hr) if hr.spec_lsb_control() == Some(
                control,
            ) => Some(hr.spec_with_high_res_value(spec_replace_lsb(hr.spec_high_res_value(), value))),
            (ControlChange::Parameter(p), ControlChange::Undefined { control, value })
                if control == 38 => {
                match p.spec_extend(None, Some(value)) {
                    Some(q) => Some(ControlChange::Parameter(q)),
                    None => None,
                }
            },
            (ControlChange::Undefined { control, value }, ControlChange::Parameter(p))
                if control == 38 => {
                match p.spec_extend(None, Some(value)) {
                    Some(q) => Some(ControlChange::Parameter(q)),
                    None => None,
                }
            },
            (ControlChange::Parameter(p), ControlChange::DataEntry(value)) => {
                match p.spec_extend(Some(value), None) {
                    Some(q) => Some(ControlChange::Parameter(q)),
                    None => None,
                }
            },
            (ControlChange::DataEntry(value), ControlChange::Parameter(p)) => {
                match p.spec_extend(Some(value), None) {
                    Some(q) => Some(ControlChange::Parameter(q)),
                    None => None,
                }
            },
            _ => None,
        }
    }

    /// Whether every `Undefined` value of this control change is a 7-bit value.
    pub open spec fn spec_data_7bit(self) -> bool {
        match self {
            ControlChange::Undefined { value, .. } => value <= 127,
            _ => true,
        }
    }

    /// Parsing a control change from its (controller number, value) bytes.
    pub open spec fn spec_from_midi(m: Seq<u8>) -> Result<ControlChange, ParseError> {
        if m.len() < 2 {
            Err(ParseError::UnexpectedEnd)
        } else if m[0] > 119 {
            Err(
                ParseError::Invalid(
                    "Tried to parse a control change message, but it looks like a channel mode message",
                ),
            )
        } else if m[1] > 127 {
            Err(ParseError::ByteOverflow)
        } else {
            Ok(ControlChange::spec_from_control(m[0], m[1]))
        }
    }
}

pub open spec fn option_to_result<T>(o: Option<T>) -> Result<T, ()> {
    match o {
        Some(x) => Ok(x),
        None => Err(()),
    }
}

fn push_pair(v: &mut Vec<u8>, a: u8, b: u8)
    ensures
        final(v)@ == old(v)@ + seq![a, b],
{
    v.push(a);
    v.push(b);
}

fn push_cc7(v: &mut Vec<u8>, control: u8, x: u8)
    ensures
        final(v)@ == old(v)@ + spec_cc7(control, x),
{
    v.push(control);
    v.push(to_u7(x));
}

fn push_rpn(v: &mut Vec<u8>, lsb: u8, msb: u8)
    ensures
        final(v)@ == old(v)@ + spec_rpn(lsb, msb),
{
    v.push(100);
    v.push(lsb);
    v.push(101);
    v.push(msb);
}

impl ControlChange {
    fn high_res_cc(v: &mut Vec<u8>, control: u8, value: u16)
        requires
            control <= 223,
        ensures
            final(v)@ == old(v)@ + spec_high_res_cc(control, value),
    {
        let b = to_u14(value);
        v.push(control);
        v.push(b[0]);
        v.push(control + 32);
        v.push(b[1]);
    }

    fn undefined(v: &mut Vec<u8>, control: u8, value: u8)
        ensures
            final(v)@ == old(v)@ + seq![spec_min_u8(control, 119), spec_u7(value as int)],
    {
        v.push(if control < 119 {
            control
        } else {
            119
        });
        v.push(to_u7(value));
    }

    fn undefined_high_res(v: &mut Vec<u8>, control1: u8, control2: u8, value: u16)
        ensures
            final(v)@ == old(v)@ + seq![
                spec_min_u8(control1, 119),
                spec_u14_msb(value),
                spec_min_u8(control2, 119),
                spec_u14_lsb(value),
            ],
    {
        let b = to_u14(value);
        v.push(if control1 < 119 {
            control1
        } else {
            119
        });
        v.push(b[0]);
        v.push(if control2 < 119 {
            control2
        } else {
            119
        });
        v.push(b[1]);
    }

    fn is_msb(&self) -> (r: bool)
        ensures
            r == self.spec_is_msb(),
    {
        match self {
            ControlChange::BankSelect(_) | ControlChange::ModWheel(_) | ControlChange::Breath(_)
            | ControlChange::DataEntry(_) | ControlChange::UndefinedHighRes { .. }
            | ControlChange::Foot(_) | ControlChange::Portamento(_) | ControlChange::Volume(_)
            | ControlChange::Balance(_) | ControlChange::Pan(_) | ControlChange::Expression(_)
            | ControlChange::Effect1(_) | ControlChange::Effect2(_)
            | ControlChange::GeneralPurpose1(_) | ControlChange::GeneralPurpose2(_)
            | ControlChange::GeneralPurpose3(_) | ControlChange::GeneralPurpose4(_) => true,
            ControlChange::Undefined { control, .. } => *control < 32 || *control == 99
                || *control == 101,
            _ => false,
        }
    }

    fn is_lsb(&self) -> (r: bool)
        ensures
            r == self.spec_is_lsb(),
    {
        match self {
            ControlChange::Undefined { control, .. } => (*control >= 32 && *control < 64)
                || *control == 98 || *control == 100,
            _ => false,
        }
    }

    fn lsb_control(&self) -> (r: Option<u8>)
        ensures
            r == self.spec_lsb_control(),
    {
        match *self {
            ControlChange::BankSelect(_) => Some(32),
            ControlChange::ModWheel(_) => Some(33),
            ControlChange::Breath(_) => Some(34),
            ControlChange::Foot(_) => Some(36),
            ControlChange::Portamento(_) => Some(37),
            ControlChange::DataEntry(_) => Some(38),
            ControlChange::Volume(_) => Some(39),
            ControlChange::Balance(_) => Some(40),
            ControlChange::Pan(_) => Some(42),
            ControlChange::Expression(_) => Some(43),
            ControlChange::Effect1(_) => Some(44),
            ControlChange::Effect2(_) => Some(45),
            ControlChange::GeneralPurpose1(_) => Some(48),
            ControlChange::GeneralPurpose2(_) => Some(49),
            ControlChange::GeneralPurpose3(_) => Some(50),
            ControlChange::GeneralPurpose4(_) => Some(51),
            ControlChange::UndefinedHighRes { control2, .. } => Some(control2),
            _ => None,
        }
    }

    fn with_replaced_lsb(&self, lsb: u8) -> (r: ControlChange)
        ensures
            r == self.spec_with_high_res_value(spec_replace_lsb(self.spec_high_res_value(), lsb)),
    {
        match *self {
            ControlChange::BankSelect(x) => ControlChange::BankSelect(replace_u14_lsb(x, lsb)),
            ControlChange::ModWheel(x) => ControlChange::ModWheel(replace_u14_lsb(x, lsb)),
            ControlChange::Breath(x) => ControlChange::Breath(replace_u14_lsb(x, lsb)),
            ControlChange::Foot(x) => ControlChange::Foot(replace_u14_lsb(x, lsb)),
            ControlChange::Portamento(x) => ControlChange::Portamento(replace_u14_lsb(x, lsb)),
            ControlChange::DataEntry(x) => ControlChange::DataEntry(replace_u14_lsb(x, lsb)),
            ControlChange::Volume(x) => ControlChange::Volume(replace_u14_lsb(x, lsb)),
            ControlChange::Balance(x) => ControlChange::Balance(replace_u14_lsb(x, lsb)),
            ControlChange::Pan(x) => ControlChange::Pan(replace_u14_lsb(x, lsb)),
            ControlChange::Expression(x) => ControlChange::Expression(replace_u14_lsb(x, lsb)),
            ControlChange::Effect1(x) => ControlChange::Effect1(replace_u14_lsb(x, lsb)),
            ControlChange::Effect2(x) => ControlChange::Effect2(replace_u14_lsb(x, lsb)),
            ControlChange::GeneralPurpose1(x) => ControlChange::GeneralPurpose1(
                replace_u14_lsb(x, lsb),
            ),
            ControlChange::GeneralPurpose2(x) => ControlChange::GeneralPurpose2(
                replace_u14_lsb(x, lsb),
            ),
            ControlChange::GeneralPurpose3(x) => ControlChange::GeneralPurpose3(
                replace_u14_lsb(x, lsb),
            ),
            ControlChange::GeneralPurpose4(x) => ControlChange::GeneralPurpose4(
                replace_u14_lsb(x, lsb),
            ),
            ControlChange::UndefinedHighRes { control1, control2, value } => {
                ControlChange::UndefinedHighRes {
                    control1,
                    control2,
                    value: replace_u14_lsb(value, lsb),
                }
            },
            other => other,
        }
    }

    fn maybe_extend(&self, other: &ControlChange) -> (r: Result<ControlChange, ()>)
        ensures
            r == option_to_result(self.spec_maybe_extend(*other)),
    {
        if let (
            ControlChange::Undefined { control: ctrl1, value: val1 },
            ControlChange::Undefined { control: ctrl2, value: val2 },
        ) = (*self, *other) {
            let (ctrl_lsb, ctrl_msb, val_lsb, val_msb) = if ctrl1 < ctrl2 {
                (ctrl1, ctrl2, val1, val2)
            } else {
                (ctrl2, ctrl1, val2, val1)
            };
            if ctrl_lsb == 98 && ctrl_msb == 99 {
                return Ok(ControlChange::Parameter(Parameter::Unregistered(u14_from_u7s(val_msb, val_lsb))));
            } else if ctrl_lsb == 100 && ctrl_msb == 101 {
                return match Parameter::maybe_extend_cc(val_msb, val_lsb) {
                    Ok(p) => Ok(ControlChange::Parameter(p)),
                    Err(()) => Err(()),
                };
            } else {
                return Err(());
            }
        }
        if let ControlChange::Undefined { control, value } = *other {
            if self.lsb_control() == Some(control) {
                return Ok(self.with_replaced_lsb(value));
            }
        }
        if let ControlChange::Undefined { control, value } = *self {
            if other.lsb_control() == Some(control) {
                return Ok(other.with_replaced_lsb(value));
            }
        }
        match (*self, *other) {
            (ControlChange::Parameter(p), ControlChange::Undefined { control, value })
            | (ControlChange::Undefined { control, value }, ControlChange::Parameter(p)) => {
                if control == 38 {
                    match p.maybe_extend(None, Some(value)) {
                        Ok(q) => Ok(ControlChange::Parameter(q)),
                        Err(()) => Err(()),
                    }
                } else {
                    Err(())
                }
            },
            (ControlChange::Parameter(p), ControlChange::DataEntry(value))
            | (ControlChange::DataEntry(value), ControlChange::Parameter(p)) => {
                match p.maybe_extend(Some(value), None) {
                    Ok(q) => Ok(ControlChange::Parameter(q)),
                    Err(()) => Err(()),
                }
            },
            _ => Err(()),
        }
    }

    /// Parse a control change from its (controller number, value) bytes.
    fn from_midi(m: &[u8]) -> (r: Result<ControlChange, ParseError>)
        ensures
            r == ControlChange::spec_from_midi(m@),
            r matches Ok(c) ==> c.spec_data_7bit(),
    {
        if m.len() < 2 {
            return Err(ParseError::UnexpectedEnd);
        }
        if m[0] > 119 {
            return Err(
                ParseError::Invalid(
                    "Tried to parse a control change message, but it looks like a channel mode message",
                ),
            );
        }
        let value = match u8_from_u7(m[1]) {
            Ok(x) => x,
            Err(e) => return Err(e),
        };
        Ok(ControlChange::from_control(m[0], value))
    }

    /// The bytes of this control change, without the status byte.
    pub fn to_midi_running(&self) -> (r: Vec<u8>)
        ensures
            r@ == self.spec_midi_running(),
    {
        let mut r: Vec<u8> = Vec::new();
        self.extend_midi_running(&mut r);
        assert(r@ == Seq::<u8>::empty() + self.spec_midi_running());
        r
    }

    /// Append the bytes of this control change, without the status byte.
    pub fn extend_midi_running(&self, v: &mut Vec<u8>)
        ensures
            final(v)@ == old(v)@ + self.spec_midi_running(),
    {
        match *self {
            ControlChange::BankSelect(x) => ControlChange::high_res_cc(v, 0, x),
            ControlChange::ModWheel(x) => ControlChange::high_res_cc(v, 1, x),
            ControlChange::Breath(x) => ControlChange::high_res_cc(v, 2, x),
            ControlChange::Foot(x) => ControlChange::high_res_cc(v, 4, x),
            ControlChange::Portamento(x) => ControlChange::high_res_cc(v, 5, x),
            ControlChange::Volume(x) => ControlChange::high_res_cc(v, 7, x),
            ControlChange::Balance(x) => ControlChange::high_res_cc(v, 8, x),
            ControlChange::Pan(x) => ControlChange::high_res_cc(v, 10, x),
            ControlChange::Expression(x) => ControlChange::high_res_cc(v, 11, x),
            ControlChange::Effect1(x) => ControlChange::high_res_cc(v, 12, x),
            ControlChange::Effect2(x) => ControlChange::high_res_cc(v, 13, x),
            ControlChange::GeneralPurpose1(x) => ControlChange::high_res_cc(v, 16, x),
            ControlChange::GeneralPurpose2(x) => ControlChange::high_res_cc(v, 17, x),
            ControlChange::GeneralPurpose3(x) => ControlChange::high_res_cc(v, 18, x),
            ControlChange::GeneralPurpose4(x) => ControlChange::high_res_cc(v, 19, x),
            ControlChange::GeneralPurpose5(x) => push_cc7(v, 80, x),
            ControlChange::GeneralPurpose6(x) => push_cc7(v, 81, x),
            ControlChange::GeneralPurpose7(x) => push_cc7(v, 82, x),
            ControlChange::GeneralPurpose8(x) => push_cc7(v, 83, x),
            ControlChange::Hold(x) => push_cc7(v, 64, x),
            ControlChange::Hold2(x) => push_cc7(v, 69, x),
            ControlChange::Sostenuto(x) => push_cc7(v, 66, x),
            ControlChange::SoftPedal(x) => push_cc7(v, 67, x),
            ControlChange::SoundVariation(x) | ControlChange::SoundControl1(x) => push_cc7(v, 70, x),
            ControlChange::Timbre(x) | ControlChange::SoundControl2(x) => push_cc7(v, 71, x),
            ControlChange::ReleaseTime(x) | ControlChange::SoundControl3(x) => push_cc7(v, 72, x),
            ControlChange::AttackTime(x) | ControlChange::SoundControl4(x) => push_cc7(v, 73, x),
            ControlChange::Brightness(x) | ControlChange::SoundControl5(x) => push_cc7(v, 74, x),
            ControlChange::DecayTime(x) | ControlChange::SoundControl6(x) => push_cc7(v, 75, x),
            ControlChange::VibratoRate(x) | ControlChange::SoundControl7(x) => push_cc7(v, 76, x),
            ControlChange::VibratoDepth(x) | ControlChange::SoundControl8(x) => push_cc7(v, 77, x),
            ControlChange::VibratoDelay(x) | ControlChange::SoundControl9(x) => push_cc7(v, 78, x),
            ControlChange::SoundControl10(x) => push_cc7(v, 79, x),
            ControlChange::PortamentoControl(x) => push_cc7(v, 84, x),
            ControlChange::HighResVelocity(x) => push_cc7(v, 88, x),
            ControlChange::Effects1Depth(x) | ControlChange::ReverbSendLevel(x) => push_cc7(v, 91, x),
            ControlChange::Effects2Depth(x) | ControlChange::TremoloDepth(x) => push_cc7(v, 92, x),
            ControlChange::Effects3Depth(x) | ControlChange::ChorusSendLevel(x) => push_cc7(v, 93, x),
            ControlChange::Effects4Depth(x) | ControlChange::CelesteDepth(x) => push_cc7(v, 94, x),
            ControlChange::Effects5Depth(x) | ControlChange::PhaserDepth(x) => push_cc7(v, 95, x),
            ControlChange::DataIncrement(x) => push_cc7(v, 96, x),
            ControlChange::DataDecrement(x) => push_cc7(v, 97, x),
            ControlChange::Undefined { control, value } => ControlChange::undefined(v, control, value),
            ControlChange::UndefinedHighRes { control1, control2, value } => ControlChange::undefined_high_res(v, control1, control2, value),
            ControlChange::TogglePortamento(on) => push_pair(v, 65, if on { 127 } else { 0 }),
            ControlChange::ToggleLegato(on) => push_pair(v, 68, if on { 127 } else { 0 }),
            ControlChange::Parameter(p) => p.extend_midi_running(v),
            ControlChange::DataEntry(x) => ControlChange::high_res_cc(v, 6, x),
            ControlChange::DataEntry2(msb, lsb) => {
                push_pair(v, 6, to_u7(msb));
                push_pair(v, 6 + 32, to_u7(lsb));
            }
        }
    }

    fn from_control(control: u8, value: u8) -> (r: ControlChange)
        ensures
            r == ControlChange::spec_from_control(control, value),
    {
        match control {
            0 => ControlChange::BankSelect((value as u16) * 128),
            1 => ControlChange::ModWheel((value as u16) * 128),
            2 => ControlChange::Breath((value as u16) * 128),
            4 => ControlChange::Foot((value as u16) * 128),
            5 => ControlChange::Portamento((value as u16) * 128),
            7 => ControlChange::Volume((value as u16) * 128),
            8 => ControlChange::Balance((value as u16) * 128),
            10 => ControlChange::Pan((value as u16) * 128),
            11 => ControlChange::Expression((value as u16) * 128),
            12 => ControlChange::Effect1((value as u16) * 128),
            13 => ControlChange::Effect2((value as u16) * 128),
            16 => ControlChange::GeneralPurpose1((value as u16) * 128),
            17 => ControlChange::GeneralPurpose2((value as u16) * 128),
            18 => ControlChange::GeneralPurpose3((value as u16) * 128),
            19 => ControlChange::GeneralPurpose4((value as u16) * 128),
            6 => ControlChange::DataEntry((value as u16) * 128),
            64 => ControlChange::Hold(value),
            66 => ControlChange::Sostenuto(value),
            67 => ControlChange::SoftPedal(value),
            69 => ControlChange::Hold2(value),
            70 => ControlChange::SoundControl1(value),
            71 => ControlChange::SoundControl2(value),
            72 => ControlChange::SoundControl3(value),
            73 => ControlChange::SoundControl4(value),
            74 => ControlChange::SoundControl5(value),
            75 => ControlChange::SoundControl6(value),
            76 => ControlChange::SoundControl7(value),
            77 => ControlChange::SoundControl8(value),
            78 => ControlChange::SoundControl9(value),
            79 => ControlChange::SoundControl10(value),
            80 => ControlChange::GeneralPurpose5(value),
            81 => ControlChange::GeneralPurpose6(value),
            82 => ControlChange::GeneralPurpose7(value),
            83 => ControlChange::GeneralPurpose8(value),
            84 => ControlChange::PortamentoControl(value),
            88 => ControlChange::HighResVelocity(value),
            91 => ControlChange::Effects1Depth(value),
            92 => ControlChange::Effects2Depth(value),
            93 => ControlChange::Effects3Depth(value),
            94 => ControlChange::Effects4Depth(value),
            95 => ControlChange::Effects5Depth(value),
            96 => ControlChange::DataIncrement(value),
            97 => ControlChange::DataDecrement(value),
            65 => ControlChange::TogglePortamento(value >= 0x40),
            68 => ControlChange::ToggleLegato(value >= 0x40),
            3 | 9 | 14 | 15 | 20 | 21 | 22 | 23 | 24 | 25 | 26 | 27 | 28 | 29 | 30 | 31 => ControlChange::UndefinedHighRes { control1: control, control2: control + 32, value: (value as u16) * 128 },
            _ => ControlChange::Undefined { control, value },
        }
    }
}

impl Parameter {
    /// The bytes of this parameter change, without the status byte: the selection of the
    /// parameter, followed by the data entry for an `...Entry` parameter.
    pub open spec fn spec_midi_running(self) -> Seq<u8> {
        match self {
            Parameter::Null => spec_rpn(0x7F, 0x7F),
            Parameter::PitchBendSensitivity => spec_rpn(0, 0),
            Parameter::FineTuning => spec_rpn(1, 0),
            Parameter::CoarseTuning => spec_rpn(2, 0),
            Parameter::TuningProgramSelect => spec_rpn(3, 0),
            Parameter::TuningBankSelect => spec_rpn(4, 0),
            Parameter::ModulationDepthRange => spec_rpn(5, 0),
            Parameter::PolyphonicExpression => spec_rpn(6, 0),
            Parameter::AzimuthAngle3DSound => spec_rpn(0, 61),
            Parameter::ElevationAngle3DSound => spec_rpn(1, 61),
            Parameter::Gain3DSound => spec_rpn(2, 61),
            Parameter::DistanceRatio3DSound => spec_rpn(3, 61),
            Parameter::MaxiumumDistance3DSound => spec_rpn(4, 61),
            Parameter::GainAtMaxiumumDistance3DSound => spec_rpn(5, 61),
            Parameter::ReferenceDistanceRatio3DSound => spec_rpn(6, 61),
            Parameter::PanSpreadAngle3DSound => spec_rpn(7, 61),
            Parameter::RollAngle3DSound => spec_rpn(8, 61),
            Parameter::PitchBendSensitivityEntry(c, f) => spec_rpn(0, 0) + seq![6u8, spec_u7(c as int), 38u8, spec_min_u8(f, 100)],
            Parameter::FineTuningEntry(x) => spec_rpn(1, 0) + seq![6u8, spec_u14_msb(spec_i14_offset(x)), 38u8, spec_u14_lsb(spec_i14_offset(x))],
            Parameter::CoarseTuningEntry(x) => spec_rpn(2, 0) + seq![6u8, spec_u7(if x < -64 { 0 } else { x + 64 }), 38u8, 0u8],
            Parameter::TuningProgramSelectEntry(x) => spec_rpn(3, 0) + seq![6u8, spec_u7(x as int)],
            Parameter::TuningBankSelectEntry(x) => spec_rpn(4, 0) + seq![6u8, spec_u7(x as int)],
            Parameter::PolyphonicExpressionEntry(x) => spec_rpn(6, 0) + seq![6u8, spec_min_u8(x, 16)],
            Parameter::ModulationDepthRangeEntry(x) => spec_rpn(5, 0) + spec_high_res_cc(6, x),
            Parameter::AzimuthAngle3DSoundEntry(x) => spec_rpn(0, 61) + spec_high_res_cc(6, x),
            Parameter::ElevationAngle3DSoundEntry(x) => spec_rpn(1, 61) + spec_high_res_cc(6, x),
            Parameter::Gain3DSoundEntry(x) => spec_rpn(2, 61) + spec_high_res_cc(6, x),
            Parameter::DistanceRatio3DSoundEntry(x) => spec_rpn(3, 61) + spec_high_res_cc(6, x),
            Parameter::MaxiumumDistance3DSoundEntry(x) => spec_rpn(4, 61) + spec_high_res_cc(6, x),
            Parameter::GainAtMaxiumumDistance3DSoundEntry(x) => spec_rpn(5, 61) + spec_high_res_cc(6, x),
            Parameter::ReferenceDistanceRatio3DSoundEntry(x) => spec_rpn(6, 61) + spec_high_res_cc(6, x),
            Parameter::PanSpreadAngle3DSoundEntry(x) => spec_rpn(7, 61) + spec_high_res_cc(6, x),
            Parameter::RollAngle3DSoundEntry(x) => spec_rpn(8, 61) + spec_high_res_cc(6, x),
            Parameter::Unregistered(x) => seq![98u8, spec_u14_lsb(x), 99u8, spec_u14_msb(x)],
        }
    }

    /// The registered parameter selected by the parameter number (msb, lsb), if it is known.
    pub open spec fn spec_from_number(msb: u8, lsb: u8) -> Option<Parameter> {
        if msb == 0x7F && lsb == 0x7F { Some(Parameter::Null) }
        else if msb == 0 && lsb == 0 { Some(Parameter::PitchBendSensitivity) }
        else if msb == 0 && lsb == 1 { Some(Parameter::FineTuning) }
        else if msb == 0 && lsb == 2 { Some(Parameter::CoarseTuning) }
        else if msb == 0 && lsb == 3 { Some(Parameter::TuningProgramSelect) }
        else if msb == 0 && lsb == 4 { Some(Parameter::TuningBankSelect) }
        else if msb == 0 && lsb == 5 { Some(Parameter::ModulationDepthRange) }
        else if msb == 0 && lsb == 6 { Some(Parameter::PolyphonicExpression) }
        else if msb == 61 && lsb == 0 { Some(Parameter::AzimuthAngle3DSound) }
        else if msb == 61 && lsb == 1 { Some(Parameter::ElevationAngle3DSound) }
        else if msb == 61 && lsb == 2 { Some(Parameter::Gain3DSound) }
        else if msb == 61 && lsb == 3 { Some(Parameter::DistanceRatio3DSound) }
        else if msb == 61 && lsb == 4 { Some(Parameter::MaxiumumDistance3DSound) }
        else if msb == 61 && lsb == 5 { Some(Parameter::GainAtMaxiumumDistance3DSound) }
        else if msb == 61 && lsb == 6 { Some(Parameter::ReferenceDistanceRatio3DSound) }
        else if msb == 61 && lsb == 7 { Some(Parameter::PanSpreadAngle3DSound) }
        else if msb == 61 && lsb == 8 { Some(Parameter::RollAngle3DSound) }
        else { None }
    }

    /// The value after a data entry MSB (a 14-bit data entry value) and/or a data entry LSB
    /// has been received for this parameter. `None` for a parameter that takes no data.
    pub open spec fn spec_extend(self, msb: Option<u16>, lsb: Option<u8>) -> Option<Parameter> {
        let m_hi: u8 = match msb { Some(v) => (v / 128) as u8, None => 0 };
        let l0: u8 = match lsb { Some(l) => l, None => 0 };
        match self {
            Parameter::PitchBendSensitivity => Some(Parameter::PitchBendSensitivityEntry(m_hi, l0)),
            Parameter::PitchBendSensitivityEntry(v1, v2) => Some(Parameter::PitchBendSensitivityEntry(
                match msb { Some(_) => m_hi, None => v1 }, match lsb { Some(l) => l, None => v2 })),
            Parameter::FineTuning => Some(Parameter::FineTuningEntry((spec_u14(m_hi, l0) - 8192) as i16)),
            Parameter::FineTuningEntry(v) => Some(Parameter::FineTuningEntry((spec_u14(
                match msb { Some(_) => m_hi, None => spec_u14_msb(spec_i14_offset(v)) },
                match lsb { Some(l) => l, None => spec_u14_lsb(spec_i14_offset(v)) }) - 8192) as i16)),
            Parameter::CoarseTuning => Some(Parameter::CoarseTuningEntry(match msb { Some(_) => (m_hi - 64) as i8, None => 0 })),
            Parameter::CoarseTuningEntry(c) => Some(Parameter::CoarseTuningEntry(match msb { Some(_) => (m_hi - 64) as i8, None => c })),
            Parameter::TuningProgramSelect => Some(Parameter::TuningProgramSelectEntry(match msb { Some(_) => m_hi, None => 0 })),
            Parameter::TuningProgramSelectEntry(c) => Some(Parameter::TuningProgramSelectEntry(match msb { Some(_) => m_hi, None => c })),
            Parameter::TuningBankSelect => Some(Parameter::TuningBankSelectEntry(match msb { Some(_) => m_hi, None => 0 })),
            Parameter::TuningBankSelectEntry(c) => Some(Parameter::TuningBankSelectEntry(match msb { Some(_) => m_hi, None => c })),
            Parameter::PolyphonicExpression => Some(Parameter::PolyphonicExpressionEntry(match msb { Some(_) => m_hi, None => 0 })),
            Parameter::PolyphonicExpressionEntry(c) => Some(Parameter::PolyphonicExpressionEntry(match msb { Some(_) => m_hi, None => c })),
            Parameter::ModulationDepthRange => Some(Parameter::ModulationDepthRangeEntry(spec_replace_lsb(match msb { Some(v) => v, None => 0 }, l0))),
            Parameter::ModulationDepthRangeEntry(c) => Some(Parameter::ModulationDepthRangeEntry(spec_replace_lsb(match msb { Some(v) => v, None => c }, match lsb { Some(l) => l, None => ((c as u8) % 128) as u8 }))),
            Parameter::AzimuthAngle3DSound => Some(Parameter::AzimuthAngle3DSoundEntry(spec_replace_lsb(match msb { Some(v) => v, None => 0 }, l0))),
            Parameter::AzimuthAngle3DSoundEntry(c) => Some(Parameter::AzimuthAngle3DSoundEntry(spec_replace_lsb(match msb { Some(v) => v, None => c }, match lsb { Some(l) => l, None => ((c as u8) % 128) as u8 }))),
            Parameter::ElevationAngle3DSound => Some(Parameter::ElevationAngle3DSoundEntry(spec_replace_lsb(match msb { Some(v) => v, None => 0 }, l0))),
            Parameter::ElevationAngle3DSoundEntry(c) => Some(Parameter::ElevationAngle3DSoundEntry(spec_replace_lsb(match msb { Some(v) => v, None => c }, match lsb { Some(l) => l, None => ((c as u8) % 128) as u8 }))),
            Parameter::Gain3DSound => Some(Parameter::Gain3DSoundEntry(spec_replace_lsb(match msb { Some(v) => v, None => 0 }, l0))),
            Parameter::Gain3DSoundEntry(c) => Some(Parameter::Gain3DSoundEntry(spec_replace_lsb(match msb { Some(v) => v, None => c }, match lsb { Some(l) => l, None => ((c as u8) % 128) as u8 }))),
            Parameter::DistanceRatio3DSound => Some(Parameter::DistanceRatio3DSoundEntry(spec_replace_lsb(match msb { Some(v) => v, None => 0 }, l0))),
            Parameter::DistanceRatio3DSoundEntry(c) => Some(Parameter::DistanceRatio3DSoundEntry(spec_replace_lsb(match msb { Some(v) => v, None => c }, match lsb { Some(l) => l, None => ((c as u8) % 128) as u8 }))),
            Parameter::MaxiumumDistance3DSound => Some(Parameter::MaxiumumDistance3DSoundEntry(spec_replace_lsb(match msb { Some(v) => v, None => 0 }, l0))),
            Parameter::MaxiumumDistance3DSoundEntry(c) => Some(Parameter::MaxiumumDistance3DSoundEntry(spec_replace_lsb(match msb { Some(v) => v, None => c }, match lsb { Some(l) => l, None => ((c as u8) % 128) as u8 }))),
            Parameter::GainAtMaxiumumDistance3DSound => Some(Parameter::GainAtMaxiumumDistance3DSoundEntry(spec_replace_lsb(match msb { Some(v) => v, None => 0 }, l0))),
            Parameter::GainAtMaxiumumDistance3DSoundEntry(c) => Some(Parameter::GainAtMaxiumumDistance3DSoundEntry(spec_replace_lsb(match msb { Some(v) => v, None => c }, match lsb { Some(l) => l, None => ((c as u8) % 128) as u8 }))),
            Parameter::ReferenceDistanceRatio3DSound => Some(Parameter::ReferenceDistanceRatio3DSoundEntry(spec_replace_lsb(match msb { Some(v) => v, None => 0 }, l0))),
            Parameter::ReferenceDistanceRatio3DSoundEntry(c) => Some(Parameter::ReferenceDistanceRatio3DSoundEntry(spec_replace_lsb(match msb { Some(v) => v, None => c }, match lsb { Some(l) => l, None => ((c as u8) % 128) as u8 }))),
            Parameter::PanSpreadAngle3DSound => Some(Parameter::PanSpreadAngle3DSoundEntry(spec_replace_lsb(match msb { Some(v) => v, None => 0 }, l0))),
            Parameter::PanSpreadAngle3DSoundEntry(c) => Some(Parameter::PanSpreadAngle3DSoundEntry(spec_replace_lsb(match msb { Some(v) => v, None => c }, match lsb { Some(l) => l, None => ((c as u8) % 128) as u8 }))),
            Parameter::RollAngle3DSound => Some(Parameter::RollAngle3DSoundEntry(spec_replace_lsb(match msb { Some(v) => v, None => 0 }, l0))),
            Parameter::RollAngle3DSoundEntry(c) => Some(Parameter::RollAngle3DSoundEntry(spec_replace_lsb(match msb { Some(v) => v, None => c }, match lsb { Some(l) => l, None => ((c as u8) % 128) as u8 }))),
            Parameter::Null | Parameter::Unregistered(_) => None,
        }
    }
}

impl Parameter {
    /// Append the bytes of this parameter change, without the status byte.
    pub fn extend_midi_running(&self, v: &mut Vec<u8>)
        ensures
            final(v)@ == old(v)@ + self.spec_midi_running(),
    {
        match *self {
            Parameter::Null => push_rpn(v, 0x7F, 0x7F),
            Parameter::PitchBendSensitivity => push_rpn(v, 0, 0),
            Parameter::FineTuning => push_rpn(v, 1, 0),
            Parameter::CoarseTuning => push_rpn(v, 2, 0),
            Parameter::TuningProgramSelect => push_rpn(v, 3, 0),
            Parameter::TuningBankSelect => push_rpn(v, 4, 0),
            Parameter::ModulationDepthRange => push_rpn(v, 5, 0),
            Parameter::PolyphonicExpression => push_rpn(v, 6, 0),
            Parameter::AzimuthAngle3DSound => push_rpn(v, 0, 61),
            Parameter::ElevationAngle3DSound => push_rpn(v, 1, 61),
            Parameter::Gain3DSound => push_rpn(v, 2, 61),
            Parameter::DistanceRatio3DSound => push_rpn(v, 3, 61),
            Parameter::MaxiumumDistance3DSound => push_rpn(v, 4, 61),
            Parameter::GainAtMaxiumumDistance3DSound => push_rpn(v, 5, 61),
            Parameter::ReferenceDistanceRatio3DSound => push_rpn(v, 6, 61),
            Parameter::PanSpreadAngle3DSound => push_rpn(v, 7, 61),
            Parameter::RollAngle3DSound => push_rpn(v, 8, 61),
            Parameter::PitchBendSensitivityEntry(c, f) => {
                push_rpn(v, 0, 0);
                push_pair(v, 6, to_u7(c));
                push_pair(v, 6 + 32, if f < 100 { f } else { 100 });
            }
            Parameter::FineTuningEntry(x) => {
                push_rpn(v, 1, 0);
                let b = i_to_u14(x);
                push_pair(v, 6, b[0]);
                push_pair(v, 6 + 32, b[1]);
            }
            Parameter::CoarseTuningEntry(x) => {
                push_rpn(v, 2, 0);
                push_pair(v, 6, i_to_u7(x));
                push_pair(v, 6 + 32, 0);
            }
            Parameter::TuningProgramSelectEntry(x) => {
                push_rpn(v, 3, 0);
                push_pair(v, 6, to_u7(x));
            }
            Parameter::TuningBankSelectEntry(x) => {
                push_rpn(v, 4, 0);
                push_pair(v, 6, to_u7(x));
            }
            Parameter::PolyphonicExpressionEntry(x) => {
                push_rpn(v, 6, 0);
                push_pair(v, 6, if x < 16 { x } else { 16 });
            }
            Parameter::ModulationDepthRangeEntry(x) => {
                push_rpn(v, 5, 0);
                ControlChange::high_res_cc(v, 6, x);
            }
            Parameter::AzimuthAngle3DSoundEntry(x) => {
                push_rpn(v, 0, 61);
                ControlChange::high_res_cc(v, 6, x);
            }
            Parameter::ElevationAngle3DSoundEntry(x) => {
                push_rpn(v, 1, 61);
                ControlChange::high_res_cc(v, 6, x);
            }
            Parameter::Gain3DSoundEntry(x) => {
                push_rpn(v, 2, 61);
                ControlChange::high_res_cc(v, 6, x);
            }
            Parameter::DistanceRatio3DSoundEntry(x) => {
                push_rpn(v, 3, 61);
                ControlChange::high_res_cc(v, 6, x);
            }
            Parameter::MaxiumumDistance3DSoundEntry(x) => {
                push_rpn(v, 4, 61);
                ControlChange::high_res_cc(v, 6, x);
            }
            Parameter::GainAtMaxiumumDistance3DSoundEntry(x) => {
                push_rpn(v, 5, 61);
                ControlChange::high_res_cc(v, 6, x);
            }
            Parameter::ReferenceDistanceRatio3DSoundEntry(x) => {
                push_rpn(v, 6, 61);
                ControlChange::high_res_cc(v, 6, x);
            }
            Parameter::PanSpreadAngle3DSoundEntry(x) => {
                push_rpn(v, 7, 61);
                ControlChange::high_res_cc(v, 6, x);
            }
            Parameter::RollAngle3DSoundEntry(x) => {
                push_rpn(v, 8, 61);
                ControlChange::high_res_cc(v, 6, x);
            }
            Parameter::Unregistered(x) => {
                let b = to_u14(x);
                push_pair(v, 98, b[1]);
                push_pair(v, 99, b[0]);
            }
        }
    }

    fn maybe_extend_cc(msb: u8, lsb: u8) -> (r: Result<Parameter, ()>)
        ensures
            r == option_to_result(Parameter::spec_from_number(msb, lsb)),
    {
        match (msb, lsb) {
            (0x7F, 0x7F) => Ok(Parameter::Null),
            (0, 0) => Ok(Parameter::PitchBendSensitivity),
            (0, 1) => Ok(Parameter::FineTuning),
            (0, 2) => Ok(Parameter::CoarseTuning),
            (0, 3) => Ok(Parameter::TuningProgramSelect),
            (0, 4) => Ok(Parameter::TuningBankSelect),
            (0, 5) => Ok(Parameter::ModulationDepthRange),
            (0, 6) => Ok(Parameter::PolyphonicExpression),
            (61, 0) => Ok(Parameter::AzimuthAngle3DSound),
            (61, 1) => Ok(Parameter::ElevationAngle3DSound),
            (61, 2) => Ok(Parameter::Gain3DSound),
            (61, 3) => Ok(Parameter::DistanceRatio3DSound),
            (61, 4) => Ok(Parameter::MaxiumumDistance3DSound),
            (61, 5) => Ok(Parameter::GainAtMaxiumumDistance3DSound),
            (61, 6) => Ok(Parameter::ReferenceDistanceRatio3DSound),
            (61, 7) => Ok(Parameter::PanSpreadAngle3DSound),
            (61, 8) => Ok(Parameter::RollAngle3DSound),
            _ => Err(()),
        }
    }

    fn maybe_extend(&self, msb: Option<u16>, lsb: Option<u8>) -> (r: Result<Parameter, ()>)
        requires
            msb is None || lsb is None,
        ensures
            r == option_to_result(self.spec_extend(msb, lsb)),
    {
        let m_hi: u8 = match msb { Some(v) => (v / 128) as u8, None => 0 };
        let l0: u8 = match lsb { Some(l) => l, None => 0 };
        match *self {
            Parameter::PitchBendSensitivity => Ok(Parameter::PitchBendSensitivityEntry(m_hi, l0)),
            Parameter::PitchBendSensitivityEntry(v1, v2) => Ok(Parameter::PitchBendSensitivityEntry(
                match msb { Some(_) => m_hi, None => v1 }, match lsb { Some(l) => l, None => v2 })),
            Parameter::FineTuning => Ok(Parameter::FineTuningEntry(i14_from_u7s(m_hi, l0))),
            Parameter::FineTuningEntry(c) => {
                let cur = i_to_u14(c);
                let hi: u8 = match msb { Some(_) => m_hi, None => cur[0] };
                let lo: u8 = match lsb { Some(l) => l, None => cur[1] };
                Ok(Parameter::FineTuningEntry(i14_from_u7s(hi, lo)))
            }
            Parameter::CoarseTuning => Ok(Parameter::CoarseTuningEntry(match msb { Some(_) => u7_to_i(m_hi), None => 0 })),
            Parameter::CoarseTuningEntry(c) => Ok(Parameter::CoarseTuningEntry(match msb { Some(_) => u7_to_i(m_hi), None => c })),
            Parameter::TuningProgramSelect => Ok(Parameter::TuningProgramSelectEntry(match msb { Some(_) => m_hi, None => 0 })),
            Parameter::TuningProgramSelectEntry(c) => Ok(Parameter::TuningProgramSelectEntry(match msb { Some(_) => m_hi, None => c })),
            Parameter::TuningBankSelect => Ok(Parameter::TuningBankSelectEntry(match msb { Some(_) => m_hi, None => 0 })),
            Parameter::TuningBankSelectEntry(c) => Ok(Parameter::TuningBankSelectEntry(match msb { Some(_) => m_hi, None => c })),
            Parameter::PolyphonicExpression => Ok(Parameter::PolyphonicExpressionEntry(match msb { Some(_) => m_hi, None => 0 })),
            Parameter::PolyphonicExpressionEntry(c) => Ok(Parameter::PolyphonicExpressionEntry(match msb { Some(_) => m_hi, None => c })),
            Parameter::ModulationDepthRange => Ok(Parameter::ModulationDepthRangeEntry(replace_u14_lsb(match msb { Some(v) => v, None => 0 }, l0))),
            Parameter::ModulationDepthRangeEntry(c) => Ok(Parameter::ModulationDepthRangeEntry(replace_u14_lsb(match msb { Some(v) => v, None => c }, match lsb { Some(l) => l, None => (c as u8) % 128 }))),
            Parameter::AzimuthAngle3DSound => Ok(Parameter::AzimuthAngle3DSoundEntry(replace_u14_lsb(match msb { Some(v) => v, None => 0 }, l0))),
            Parameter::AzimuthAngle3DSoundEntry(c) => Ok(Parameter::AzimuthAngle3DSoundEntry(replace_u14_lsb(match msb { Some(v) => v, None => c }, match lsb { Some(l) => l, None => (c as u8) % 128 }))),
            Parameter::ElevationAngle3DSound => Ok(Parameter::ElevationAngle3DSoundEntry(replace_u14_lsb(match msb { Some(v) => v, None => 0 }, l0))),
            Parameter::ElevationAngle3DSoundEntry(c) => Ok(Parameter::ElevationAngle3DSoundEntry(replace_u14_lsb(match msb { Some(v) => v, None => c }, match lsb { Some(l) => l, None => (c as u8) % 128 }))),
            Parameter::Gain3DSound => Ok(Parameter::Gain3DSoundEntry(replace_u14_lsb(match msb { Some(v) => v, None => 0 }, l0))),
            Parameter::Gain3DSoundEntry(c) => Ok(Parameter::Gain3DSoundEntry(replace_u14_lsb(match msb { Some(v) => v, None => c }, match lsb { Some(l) => l, None => (c as u8) % 128 }))),
            Parameter::DistanceRatio3DSound => Ok(Parameter::DistanceRatio3DSoundEntry(replace_u14_lsb(match msb { Some(v) => v, None => 0 }, l0))),
            Parameter::DistanceRatio3DSoundEntry(c) => Ok(Parameter::DistanceRatio3DSoundEntry(replace_u14_lsb(match msb { Some(v) => v, None => c }, match lsb { Some(l) => l, None => (c as u8) % 128 }))),
            Parameter::MaxiumumDistance3DSound => Ok(Parameter::MaxiumumDistance3DSoundEntry(replace_u14_lsb(match msb { Some(v) => v, None => 0 }, l0))),
            Parameter::MaxiumumDistance3DSoundEntry(c) => Ok(Parameter::MaxiumumDistance3DSoundEntry(replace_u14_lsb(match msb { Some(v) => v, None => c }, match lsb { Some(l) => l, None => (c as u8) % 128 }))),
            Parameter::GainAtMaxiumumDistance3DSound => Ok(Parameter::GainAtMaxiumumDistance3DSoundEntry(replace_u14_lsb(match msb { Some(v) => v, None => 0 }, l0))),
            Parameter::GainAtMaxiumumDistance3DSoundEntry(c) => Ok(Parameter::GainAtMaxiumumDistance3DSoundEntry(replace_u14_lsb(match msb { Some(v) => v, None => c }, match lsb { Some(l) => l, None => (c as u8) % 128 }))),
            Parameter::ReferenceDistanceRatio3DSound => Ok(Parameter::ReferenceDistanceRatio3DSoundEntry(replace_u14_lsb(match msb { Some(v) => v, None => 0 }, l0))),
            Parameter::ReferenceDistanceRatio3DSoundEntry(c) => Ok(Parameter::ReferenceDistanceRatio3DSoundEntry(replace_u14_lsb(match msb { Some(v) => v, None => c }, match lsb { Some(l) => l, None => (c as u8) % 128 }))),
            Parameter::PanSpreadAngle3DSound => Ok(Parameter::PanSpreadAngle3DSoundEntry(replace_u14_lsb(match msb { Some(v) => v, None => 0 }, l0))),
            Parameter::PanSpreadAngle3DSoundEntry(c) => Ok(Parameter::PanSpreadAngle3DSoundEntry(replace_u14_lsb(match msb { Some(v) => v, None => c }, match lsb { Some(l) => l, None => (c as u8) % 128 }))),
            Parameter::RollAngle3DSound => Ok(Parameter::RollAngle3DSoundEntry(replace_u14_lsb(match msb { Some(v) => v, None => 0 }, l0))),
            Parameter::RollAngle3DSoundEntry(c) => Ok(Parameter::RollAngle3DSoundEntry(replace_u14_lsb(match msb { Some(v) => v, None => c }, match lsb { Some(l) => l, None => (c as u8) % 128 }))),
            Parameter::Null | Parameter::Unregistered(_) => Err(()),
        }
    }
}

impl ChannelVoiceMsg {
    /// The status byte of this message on channel 1.
    pub open spec fn spec_status(self) -> u8 {
        match self {
            ChannelVoiceMsg::NoteOff { .. } | ChannelVoiceMsg::HighResNoteOff { .. } => 0x80,
            ChannelVoiceMsg::NoteOn { .. } | ChannelVoiceMsg::HighResNoteOn { .. } => 0x90,
            ChannelVoiceMsg::PolyPressure { .. } => 0xA0,
            ChannelVoiceMsg::ControlChange { .. } => 0xB0,
            ChannelVoiceMsg::ProgramChange { .. } => 0xC0,
            ChannelVoiceMsg::ChannelPressure { .. } => 0xD0,
            ChannelVoiceMsg::PitchBend { .. } => 0xE0,
        }
    }

    /// The bytes of this message after the status byte. A high resolution note is followed
    /// by the control change (on channel 1) that carries the low bits of its velocity.
    pub open spec fn spec_midi_running(self) -> Seq<u8> {
        match self {
            ChannelVoiceMsg::NoteOff { note, velocity } | ChannelVoiceMsg::NoteOn {
                note,
                velocity,
            } => seq![spec_u7(note as int), spec_u7(velocity as int)],
            ChannelVoiceMsg::HighResNoteOff { note, velocity } | ChannelVoiceMsg::HighResNoteOn {
                note,
                velocity,
            } => seq![
                spec_u7(note as int),
                spec_u14_msb(velocity),
                0xB0u8,
                0x58u8,
                spec_u14_lsb(velocity),
            ],
            ChannelVoiceMsg::PolyPressure { note, pressure } => seq![
                spec_u7(note as int),
                spec_u7(pressure as int),
            ],
            ChannelVoiceMsg::ControlChange { control } => control.spec_midi_running(),
            ChannelVoiceMsg::ProgramChange { program } => seq![spec_u7(program as int)],
            ChannelVoiceMsg::ChannelPressure { pressure } => seq![spec_u7(pressure as int)],
            ChannelVoiceMsg::PitchBend { bend } => spec_u14_bytes(bend),
        }
    }

    /// The bytes of this message on channel 1.
    pub open spec fn spec_midi(self) -> Seq<u8> {
        seq![self.spec_status()] + self.spec_midi_running()
    }

    /// Whether another message can extend this one.
    pub open spec fn spec_is_extensible(self) -> bool {
        match self {
            ChannelVoiceMsg::NoteOff { .. } | ChannelVoiceMsg::NoteOn { .. }
            | ChannelVoiceMsg::HighResNoteOff { .. } | ChannelVoiceMsg::HighResNoteOn {
                ..
            } => true,
            ChannelVoiceMsg::ControlChange { control } => match control {
                ControlChange::Parameter(_) => true,
                _ => control.spec_is_lsb() || control.spec_is_msb(),
            },
            _ => false,
        }
    }

    /// Whether this message can act as the extension of another.
    pub open spec fn spec_is_extension(self) -> bool {
        match self {
            ChannelVoiceMsg::ControlChange { control } => match control {
                ControlChange::HighResVelocity(_) => true,
                _ => control.spec_is_lsb() || control.spec_is_msb(),
            },
            _ => false,
        }
    }

    /// This message extended by `other`: a note and a high resolution velocity make a high
    /// resolution note; two control changes combine as [`ControlChange`]s do.
    pub open spec fn spec_maybe_extend(self, other: ChannelVoiceMsg) -> Option<ChannelVoiceMsg> {
        match (self, other) {
            (
                ChannelVoiceMsg::NoteOff { note, velocity },
                ChannelVoiceMsg::ControlChange { control: ControlChange::HighResVelocity(v) },
            ) => Some(
                ChannelVoiceMsg::HighResNoteOff { note, velocity: spec_u14(velocity, v) as u16 },
            ),
            (
                ChannelVoiceMsg::NoteOn { note, velocity },
                ChannelVoiceMsg::ControlChange { control: ControlChange::HighResVelocity(v) },
            ) => Some(
                ChannelVoiceMsg::HighResNoteOn { note, velocity: spec_u14(velocity, v) as u16 },
            ),
            (
                ChannelVoiceMsg::HighResNoteOff { note, velocity },
                ChannelVoiceMsg::ControlChange { control: ControlChange::HighResVelocity(v) },
            ) => Some(
                ChannelVoiceMsg::HighResNoteOff { note, velocity: spec_replace_lsb(velocity, v) },
            ),
            (
                ChannelVoiceMsg::HighResNoteOn { note, velocity },
                ChannelVoiceMsg::ControlChange { control: ControlChange::HighResVelocity(v) },
            ) => Some(
                ChannelVoiceMsg::HighResNoteOn { note, velocity: spec_replace_lsb(velocity, v) },
            ),
            (
                ChannelVoiceMsg::ControlChange { control: c1 },
                ChannelVoiceMsg::ControlChange { control: c2 },
            ) => match c1.spec_maybe_extend(c2) {
                Some(c) => Some(ChannelVoiceMsg::ControlChange { control: c }),
                None => None,
            },
            _ => None,
        }
    }

    /// Whether the `Undefined` control change values held are 7-bit values, as parsing gives.
    pub open spec fn spec_data_7bit(self) -> bool {
        match self {
            ChannelVoiceMsg::ControlChange { control } => control.spec_data_7bit(),
            _ => true,
        }
    }

    /// Parsing the data bytes of a message whose status is that of `msg`.
    pub open spec fn spec_from_midi_running(m: Seq<u8>, msg: ChannelVoiceMsg) -> Result<
        (ChannelVoiceMsg, usize),
        ParseError,
    > {
        match msg {
            ChannelVoiceMsg::NoteOff { .. } | ChannelVoiceMsg::NoteOn { .. }
            | ChannelVoiceMsg::PolyPressure { .. } => match spec_u7_from_midi(m) {
                Err(e) => Err(e),
                Ok(a) => match spec_u7_from_midi(m.subrange(1, m.len() as int)) {
                    Err(e) => Err(e),
                    Ok(b) => Ok(
                        (
                            match msg {
                                ChannelVoiceMsg::NoteOff { .. } => ChannelVoiceMsg::NoteOff {
                                    note: a,
                                    velocity: b,
                                },
                                ChannelVoiceMsg::NoteOn { .. } => ChannelVoiceMsg::NoteOn {
                                    note: a,
                                    velocity: b,
                                },
                                _ => ChannelVoiceMsg::PolyPressure { note: a, pressure: b },
                            },
                            2usize,
                        ),
                    ),
                },
            },
            ChannelVoiceMsg::ControlChange { .. } | ChannelVoiceMsg::HighResNoteOn { .. }
            | ChannelVoiceMsg::HighResNoteOff { .. } => match ControlChange::spec_from_midi(m) {
                Err(e) => Err(e),
                Ok(c) => Ok((ChannelVoiceMsg::ControlChange { control: c }, 2usize)),
            },
            ChannelVoiceMsg::ProgramChange { .. } => match spec_u7_from_midi(m) {
                Err(e) => Err(e),
                Ok(a) => Ok((ChannelVoiceMsg::ProgramChange { program: a }, 1usize)),
            },
            ChannelVoiceMsg::ChannelPressure { .. } => match spec_u7_from_midi(m) {
                Err(e) => Err(e),
                Ok(a) => Ok((ChannelVoiceMsg::ChannelPressure { pressure: a }, 1usize)),
            },
            ChannelVoiceMsg::PitchBend { .. } => match spec_u14_from_midi(m) {
                Err(e) => Err(e),
                Ok(a) => Ok((ChannelVoiceMsg::PitchBend { bend: a }, 2usize)),
            },
        }
    }

    /// The message kind that a status byte announces (with zeroed data), if it is one.
    pub open spec fn spec_status_kind(b: u8) -> Option<ChannelVoiceMsg> {
        let hi = b / 16;
        if hi == 0x8 {
            Some(ChannelVoiceMsg::NoteOff { note: 0, velocity: 0 })
        } else if hi == 0x9 {
            Some(ChannelVoiceMsg::NoteOn { note: 0, velocity: 0 })
        } else if hi == 0xA {
            Some(ChannelVoiceMsg::PolyPressure { note: 0, pressure: 0 })
        } else if hi == 0xB {
            Some(ChannelVoiceMsg::ControlChange { control: ControlChange::BankSelect(0) })
        } else if hi == 0xC {
            Some(ChannelVoiceMsg::ProgramChange { program: 0 })
        } else if hi == 0xD {
            Some(ChannelVoiceMsg::ChannelPressure { pressure: 0 })
        } else if hi == 0xE {
            Some(ChannelVoiceMsg::PitchBend { bend: 0 })
        } else {
            None
        }
    }

    /// Parsing a message from its status byte onwards.
    pub open spec fn spec_from_midi(m: Seq<u8>) -> Result<(ChannelVoiceMsg, usize), ParseError> {
        if m.len() == 0 {
            Err(ParseError::UnexpectedEnd)
        } else {
            match ChannelVoiceMsg::spec_status_kind(m[0]) {
                None => Err(ParseError::Invalid("This shouldn't be possible")),
                Some(status) => match ChannelVoiceMsg::spec_from_midi_running(
                    m.subrange(1, m.len() as int),
                    status,
                ) {
                    Err(e) => Err(e),
                    Ok((msg, len)) => Ok((msg, (len + 1) as usize)),
                },
            }
        }
    }
}

impl ChannelVoiceMsg {
    fn status_byte(&self) -> (r: u8)
        ensures
            r == self.spec_status(),
    {
        match self {
            ChannelVoiceMsg::NoteOff { .. } | ChannelVoiceMsg::HighResNoteOff { .. } => 0x80,
            ChannelVoiceMsg::NoteOn { .. } | ChannelVoiceMsg::HighResNoteOn { .. } => 0x90,
            ChannelVoiceMsg::PolyPressure { .. } => 0xA0,
            ChannelVoiceMsg::ControlChange { .. } => 0xB0,
            ChannelVoiceMsg::ProgramChange { .. } => 0xC0,
            ChannelVoiceMsg::ChannelPressure { .. } => 0xD0,
            ChannelVoiceMsg::PitchBend { .. } => 0xE0,
        }
    }

    /// Append this message, as sent on channel 1.
    pub fn extend_midi(&self, v: &mut Vec<u8>)
        ensures
            final(v)@ == old(v)@ + self.spec_midi(),
    {
        v.push(self.status_byte());
        self.extend_midi_running(v);
    }

    /// Can this message be extended by another?
    pub fn is_extensible(&self) -> (r: bool)
        ensures
            r == self.spec_is_extensible(),
    {
        match self {
            ChannelVoiceMsg::NoteOff { .. } | ChannelVoiceMsg::NoteOn { .. }
            | ChannelVoiceMsg::HighResNoteOff { .. } | ChannelVoiceMsg::HighResNoteOn {
                ..
            } => true,
            ChannelVoiceMsg::ControlChange { control } => match control {
                ControlChange::Parameter(_) => true,
                _ => control.is_lsb() || control.is_msb(),
            },
            _ => false,
        }
    }

    /// Can this message function as an extension to another?
    pub fn is_extension(&self) -> (r: bool)
        ensures
            r == self.spec_is_extension(),
    {
        match self {
            ChannelVoiceMsg::ControlChange { control } => match control {
                ControlChange::HighResVelocity(_) => true,
                _ => control.is_lsb() || control.is_msb(),
            },
            _ => false,
        }
    }

    /// This message extended by `other`, where they combine.
    pub fn maybe_extend(&self, other: &ChannelVoiceMsg) -> (r: Result<ChannelVoiceMsg, ()>)
        ensures
            r == option_to_result(self.spec_maybe_extend(*other)),
    {
        match (*self, *other) {
            (
                ChannelVoiceMsg::NoteOff { note, velocity },
                ChannelVoiceMsg::ControlChange { control: ControlChange::HighResVelocity(v) },
            ) => Ok(ChannelVoiceMsg::HighResNoteOff { note, velocity: u14_from_u7s(velocity, v) }),
            (
                ChannelVoiceMsg::NoteOn { note, velocity },
                ChannelVoiceMsg::ControlChange { control: ControlChange::HighResVelocity(v) },
            ) => Ok(ChannelVoiceMsg::HighResNoteOn { note, velocity: u14_from_u7s(velocity, v) }),
            (
                ChannelVoiceMsg::HighResNoteOff { note, velocity },
                ChannelVoiceMsg::ControlChange { control: ControlChange::HighResVelocity(v) },
            ) => Ok(
                ChannelVoiceMsg::HighResNoteOff { note, velocity: replace_u14_lsb(velocity, v) },
            ),
            (
                ChannelVoiceMsg::HighResNoteOn { note, velocity },
                ChannelVoiceMsg::ControlChange { control: ControlChange::HighResVelocity(v) },
            ) => Ok(
                ChannelVoiceMsg::HighResNoteOn { note, velocity: replace_u14_lsb(velocity, v) },
            ),
            (
                ChannelVoiceMsg::ControlChange { control: c1 },
                ChannelVoiceMsg::ControlChange { control: c2 },
            ) => match c1.maybe_extend(&c2) {
                Ok(c) => Ok(ChannelVoiceMsg::ControlChange { control: c }),
                Err(()) => Err(()),
            },
            _ => Err(()),
        }
    }

    /// Append the bytes of this message after the status byte.
    pub fn extend_midi_running(&self, v: &mut Vec<u8>)
        ensures
            final(v)@ == old(v)@ + self.spec_midi_running(),
    {
        match *self {
            ChannelVoiceMsg::NoteOff { note, velocity } | ChannelVoiceMsg::NoteOn {
                note,
                velocity,
            } => {
                v.push(to_u7(note));
                v.push(to_u7(velocity));
            },
            ChannelVoiceMsg::HighResNoteOff { note, velocity } | ChannelVoiceMsg::HighResNoteOn {
                note,
                velocity,
            } => {
                let b = to_u14(velocity);
                push_u7(note, v);
                v.push(b[0]);
                v.push(0xB0);
                v.push(0x58);
                v.push(b[1]);
            },
            ChannelVoiceMsg::PolyPressure { note, pressure } => {
                v.push(to_u7(note));
                v.push(to_u7(pressure));
            },
            ChannelVoiceMsg::ControlChange { control } => control.extend_midi_running(v),
            ChannelVoiceMsg::ProgramChange { program } => v.push(to_u7(program)),
            ChannelVoiceMsg::ChannelPressure { pressure } => v.push(to_u7(pressure)),
            ChannelVoiceMsg::PitchBend { bend } => push_u14(bend, v),
        }
    }

    /// Parse a message from its status byte onwards.
    pub fn from_midi(m: &[u8]) -> (r: Result<(ChannelVoiceMsg, usize), ParseError>)
        ensures
            r == ChannelVoiceMsg::spec_from_midi(m@),
            r matches Ok((msg, _)) ==> msg.spec_data_7bit(),
    {
        if m.len() == 0 {
            return Err(ParseError::UnexpectedEnd);
        }
        let hi = m[0] / 16;
        let status = if hi == 0x8 {
            ChannelVoiceMsg::NoteOff { note: 0, velocity: 0 }
        } else if hi == 0x9 {
            ChannelVoiceMsg::NoteOn { note: 0, velocity: 0 }
        } else if hi == 0xA {
            ChannelVoiceMsg::PolyPressure { note: 0, pressure: 0 }
        } else if hi == 0xB {
            ChannelVoiceMsg::ControlChange { control: ControlChange::BankSelect(0) }
        } else if hi == 0xC {
            ChannelVoiceMsg::ProgramChange { program: 0 }
        } else if hi == 0xD {
            ChannelVoiceMsg::ChannelPressure { pressure: 0 }
        } else if hi == 0xE {
            ChannelVoiceMsg::PitchBend { bend: 0 }
        } else {
            return Err(ParseError::Invalid("This shouldn't be possible"));
        };
        match ChannelVoiceMsg::from_midi_running(slice_subrange(m, 1, m.len()), &status) {
            Err(e) => Err(e),
            Ok((msg, len)) => Ok((msg, len + 1)),
        }
    }

    /// Parse the data bytes of a message whose status is that of `msg`.
    pub fn from_midi_running(m: &[u8], msg: &ChannelVoiceMsg) -> (r: Result<
        (ChannelVoiceMsg, usize),
        ParseError,
    >)
        ensures
            r == ChannelVoiceMsg::spec_from_midi_running(m@, *msg),
            r matches Ok((x, len)) ==> x.spec_data_7bit() && len <= 2,
    {
        match *msg {
            ChannelVoiceMsg::NoteOff { .. } | ChannelVoiceMsg::NoteOn { .. }
            | ChannelVoiceMsg::PolyPressure { .. } => {
                let a = match u7_from_midi(m) {
                    Ok(a) => a,
                    Err(e) => return Err(e),
                };
                let b = match u7_from_midi(slice_subrange(m, 1, m.len())) {
                    Ok(b) => b,
                    Err(e) => return Err(e),
                };
                let x = match *msg {
                    ChannelVoiceMsg::NoteOff { .. } => ChannelVoiceMsg::NoteOff {
                        note: a,
                        velocity: b,
                    },
                    ChannelVoiceMsg::NoteOn { .. } => ChannelVoiceMsg::NoteOn {
                        note: a,
                        velocity: b,
                    },
                    _ => ChannelVoiceMsg::PolyPressure { note: a, pressure: b },
                };
                Ok((x, 2))
            },
            ChannelVoiceMsg::ControlChange { .. } | ChannelVoiceMsg::HighResNoteOn { .. }
            | ChannelVoiceMsg::HighResNoteOff { .. } => match ControlChange::from_midi(m) {
                Err(e) => Err(e),
                Ok(c) => Ok((ChannelVoiceMsg::ControlChange { control: c }, 2)),
            },
            ChannelVoiceMsg::ProgramChange { .. } => match u7_from_midi(m) {
                Err(e) => Err(e),
                Ok(a) => Ok((ChannelVoiceMsg::ProgramChange { program: a }, 1)),
            },
            ChannelVoiceMsg::ChannelPressure { .. } => match u7_from_midi(m) {
                Err(e) => Err(e),
                Ok(a) => Ok((ChannelVoiceMsg::ChannelPressure { pressure: a }, 1)),
            },
            ChannelVoiceMsg::PitchBend { .. } => match u14_from_midi(m) {
                Err(e) => Err(e),
                Ok(a) => Ok((ChannelVoiceMsg::PitchBend { bend: a }, 2)),
            },
        }
    }
}

/// Combining two consecutive control changes does not depend on their order: whichever comes
/// first, the same pair forms the same control change, or none.
pub proof fn lemma_maybe_extend_symmetric(a: ControlChange, b: ControlChange)
    ensures
        a.spec_maybe_extend(b) == b.spec_maybe_extend(a),
{
}

} // verus!
