pub mod notation;
pub mod controller_destination;
pub mod key_based_instrument_control;
pub mod show_control;
pub mod global_parameter;
pub mod machine_control;
pub mod tuning;
pub mod sample_dump;
pub mod file_dump;
pub mod file_reference;

use vstd::prelude::*;

use self::controller_destination::{ControlChangeControllerDestination, ControllerDestination};
use self::file_dump::FileDumpMsg;
use self::file_reference::FileReferenceMsg;
use self::global_parameter::GlobalParameterControl;
use self::key_based_instrument_control::KeyBasedInstrumentControl;
use self::machine_control::{MachineControlCommandMsg, MachineControlResponseMsg};
use self::notation::{BarMarker, TimeSignature};
use self::sample_dump::{ExtendedSampleDumpMsg, SampleDumpMsg};
use self::show_control::ShowControlMsg;
use self::tuning::{
    KeyBasedTuningDump, ScaleTuning1Byte, ScaleTuning2Byte, ScaleTuningDump1Byte,
    ScaleTuningDump2Byte, TuningNoteChange,
};
use crate::general_midi::GeneralMidi;
use crate::parse_error::ParseError;
use crate::time_code::{TimeCode, TimeCodeCueingMsg, TimeCodeCueingSetupMsg, UserBits};
use crate::util::{
    checksum, extend_u7s, i_to_u14, i_to_u7, push_u14, push_u7, spec_checksum, spec_i14_offset,
    spec_u14_bytes, spec_u14_from_midi, spec_u14_lsb, spec_u14_msb, spec_u7, spec_u7_from_midi,
    to_u14, to_u7, u14_from_midi, u7_from_midi,
};

verus! {

/// Two 7-bit "bytes", used to identify the manufacturer for [`SystemExclusiveMsg::Commercial`] messages.
/// See [the published list of IDs](https://www.midi.org/specifications-old/item/manufacturer-id-numbers).
///
/// If second byte is None, it is a one-byte ID.
/// The first byte in a one-byte ID may not be greater than 0x7C.
#[derive(Debug, Clone, Copy, PartialEq, Eq)]
pub struct ManufacturerID(pub u8, pub Option<u8>);

/// The device ID being addressed, either a number between 0-126 or `AllCall` (all devices).
/// Used by [`SystemExclusiveMsg::UniversalNonRealTime`] and [`SystemExclusiveMsg::UniversalRealTime`].
#[derive(Debug, Clone, Copy, PartialEq, Eq)]
pub enum DeviceID {
    Device(u8),
    AllCall,
}

impl ManufacturerID {
    /// A two-byte ID is sent after a zero byte, each byte clamped to 7 bits; a one-byte ID is
    /// clamped to 0x7C.
    pub open spec fn spec_midi(self) -> Seq<u8> {
        match self.1 {
            Some(second) => seq![0x00u8, spec_u7(self.0 as int), spec_u7(second as int)],
            None => seq![if self.0 > 0x7C { 0x7Cu8 } else { self.0 }],
        }
    }

    /// Parsing an ID: a zero byte announces a two-byte ID.
    pub open spec fn spec_from_midi(m: Seq<u8>) -> Result<(ManufacturerID, usize), ParseError> {
        match spec_u7_from_midi(m) {
            Err(e) => Err(e),
            Ok(b1) => if b1 == 0 {
                if m.len() < 3 {
                    Err(ParseError::UnexpectedEnd)
                } else if m[1] > 127 || m[2] > 127 {
                    Err(ParseError::ByteOverflow)
                } else {
                    Ok((ManufacturerID(m[1], Some(m[2])), 3usize))
                }
            } else {
                Ok((ManufacturerID(b1, None), 1usize))
            },
        }
    }

    /// Append the ID.
    pub fn extend_midi(&self, v: &mut Vec<u8>)
        ensures
            final(v)@ == old(v)@ + self.spec_midi(),
    {
        match self.1 {
            Some(second) => {
                v.push(0x00);
                v.push(to_u7(self.0));
                v.push(to_u7(second));
            },
            None => {
                v.push(if self.0 > 0x7C { 0x7C } else { self.0 });
            },
        }
    }

    /// Parse an ID, returning it and the number of bytes it took.
    pub fn from_midi(m: &[u8]) -> (r: Result<(ManufacturerID, usize), ParseError>)
        ensures
            r == ManufacturerID::spec_from_midi(m@),
    {
        let b1 = match u7_from_midi(m) {
            Ok(b) => b,
            Err(e) => return Err(e),
        };
        if b1 == 0x00 {
            if m.len() < 3 {
                return Err(ParseError::UnexpectedEnd);
            }
            let b2 = match u7_from_midi(vstd::slice::slice_subrange(m, 1, m.len())) {
                Ok(b) => b,
                Err(e) => return Err(e),
            };
            let b3 = match u7_from_midi(vstd::slice::slice_subrange(m, 2, m.len())) {
                Ok(b) => b,
                Err(e) => return Err(e),
            };
            Ok((ManufacturerID(b2, Some(b3)), 3))
        } else {
            Ok((ManufacturerID(b1, None), 1))
        }
    }
}

impl From<u8> for ManufacturerID {
    fn from(a: u8) -> (r: Self) {
        ManufacturerID(a, None)
    }
}

impl vstd::std_specs::convert::FromSpecImpl<u8> for ManufacturerID {
    open spec fn obeys_from_spec() -> bool {
        true
    }

    open spec fn from_spec(a: u8) -> Self {
        ManufacturerID(a, None)
    }
}

impl From<(u8, u8)> for ManufacturerID {
    fn from(ab: (u8, u8)) -> (r: Self) {
        ManufacturerID(ab.0, Some(ab.1))
    }
}

impl vstd::std_specs::convert::FromSpecImpl<(u8, u8)> for ManufacturerID {
    open spec fn obeys_from_spec() -> bool {
        true
    }

    open spec fn from_spec(ab: (u8, u8)) -> Self {
        ManufacturerID(ab.0, Some(ab.1))
    }
}

impl DeviceID {
    /// The device byte: 0x7F for all call, else the device number clamped to 7 bits.
    pub open spec fn spec_to_u8(self) -> u8 {
        match self {
            DeviceID::AllCall => 0x7F,
            DeviceID::Device(x) => spec_u7(x as int),
        }
    }

    /// Parsing a device byte: 0x7F is all call.
    pub open spec fn spec_from_midi(m: Seq<u8>) -> Result<DeviceID, ParseError> {
        match spec_u7_from_midi(m) {
            Err(e) => Err(e),
            Ok(b) => Ok(if b == 0x7F { DeviceID::AllCall } else { DeviceID::Device(b) }),
        }
    }

    /// The device byte.
    pub fn to_u8(&self) -> (r: u8)
        ensures
            r == self.spec_to_u8(),
    {
        match self {
            DeviceID::AllCall => 0x7F,
            DeviceID::Device(x) => to_u7(*x),
        }
    }

    /// Parse a device byte.
    pub fn from_midi(m: &[u8]) -> (r: Result<DeviceID, ParseError>)
        ensures
            r == DeviceID::spec_from_midi(m@),
    {
        let b = match u7_from_midi(m) {
            Ok(b) => b,
            Err(e) => return Err(e),
        };
        if b == 0x7F {
            Ok(DeviceID::AllCall)
        } else {
            Ok(DeviceID::Device(b))
        }
    }
}

/// The bulk of the MIDI spec lives here, in "Universal System Exclusive" messages.
/// Also used for manufacturer-specific messages.
/// Used in [`MidiMsg`](crate::MidiMsg).
#[derive(Debug, PartialEq)]
pub enum SystemExclusiveMsg {
    /// An arbitrary set of 7-bit "bytes", the meaning of which must be derived from the
    /// message, the definition of which is determined by the given manufacturer.
    Commercial { id: ManufacturerID, data: Vec<u8> },
    /// Similar to `Commercial` but for use in non-commercial situations.
    NonCommercial { data: Vec<u8> },
    /// A diverse range of messages, for real-time applications.
    /// A message is targeted to the given `device`.
    UniversalRealTime { device: DeviceID, msg: UniversalRealTimeMsg },
    /// A diverse range of messages, for non-real-time applications.
    /// A message is targeted to the given `device`.
    UniversalNonRealTime { device: DeviceID, msg: UniversalNonRealTimeMsg },
}

/// A diverse range of messages for real-time applications. Used by [`SystemExclusiveMsg::UniversalRealTime`].
#[derive(Debug, PartialEq)]
pub enum UniversalRealTimeMsg {
    /// For use when a quarter frame message is not appropriate: when rewinding,
    /// fast-forwarding, or otherwise locating and cueing.
    TimeCodeFull(TimeCode),
    /// Provided for sending SMTPE "user bits", which are application specific.
    TimeCodeUserBits(UserBits),
    /// Used to control equipment for liver performances and installations.
    ShowControl(ShowControlMsg),
    /// Indicates that the next MIDI clock message is the first clock of a new measure.
    BarMarker(BarMarker),
    /// Indicates a change in time signature, effective immediately (or on the next MIDI clock).
    TimeSignature(TimeSignature),
    /// Indicates a change in time signature, effective upon receipt of the next `BarMarker` message.
    TimeSignatureDelayed(TimeSignature),
    /// Change the volume of all sound, from 0 (volume off) to 16383.
    MasterVolume(u16),
    /// Change the balance of all sound, from 0 (hard left) to 8192 (center) to 16383 (hard right).
    MasterBalance(u16),
    /// A value from -8192-8191, used like [`Parameter::FineTuning`](crate::Parameter::FineTuning), but affecting all channels.
    ///
    /// Defined in CA-025.
    MasterFineTuning(i16),
    /// A value from -64-63, used like [`Parameter::CoarseTuning`](crate::Parameter::CoarseTuning), but affecting all channels.
    ///
    /// Defined in CA-025.
    MasterCoarseTuning(i8),
    /// Used to control parameters on a device that affect all sound, e.g. a global reverb.
    GlobalParameterControl(GlobalParameterControl),
    /// Used to define a range of time points.
    TimeCodeCueing(TimeCodeCueingMsg),
    /// Used to control audio recording and production systems.
    MachineControlCommand(MachineControlCommandMsg),
    /// Responses to `MachineControlCommand`.
    MachineControlResponse(MachineControlResponseMsg),
    /// Immediately change the tuning of 1 or more notes.
    TuningNoteChange(TuningNoteChange),
    /// A set of 12 tunings across all octaves targeting a set of channels, to take effect immediately.
    ScaleTuning1Byte(ScaleTuning1Byte),
    /// A set of 12 high-res tunings across all octaves targeting a set of channels, to take effect immediately.
    ScaleTuning2Byte(ScaleTuning2Byte),
    /// Select the destination of a [`ChannelPressure`](crate::ChannelVoiceMsg::ChannelPressure) message.
    ChannelPressureControllerDestination(ControllerDestination),
    /// Select the destination of a [`PolyPressure`](crate::ChannelVoiceMsg::PolyPressure) message.
    PolyphonicKeyPressureControllerDestination(ControllerDestination),
    /// Select the destination of a [`ControlChange`](crate::ChannelVoiceMsg::ControlChange) message.
    ControlChangeControllerDestination(ControlChangeControllerDestination),
    /// Intended to act like Control Change messages, but targeted at an individual key for e.g. changing the release time for individual drum sounds.
    KeyBasedInstrumentControl(KeyBasedInstrumentControl),
}

/// A diverse range of messages for non-real-time applications. Used by [`SystemExclusiveMsg::UniversalNonRealTime`].
#[derive(Debug, PartialEq)]
pub enum UniversalNonRealTimeMsg {
    /// Used to transmit sampler data.
    SampleDump(SampleDumpMsg),
    /// Additional ways/features for transmitting sampler data per CA-019.
    ExtendedSampleDump(ExtendedSampleDumpMsg),
    /// Used to define a range of time points per MMA0001.
    TimeCodeCueingSetup(TimeCodeCueingSetupMsg),
    /// Request that the targeted device identify itself.
    IdentityRequest,
    /// The response to an `IdentityRequest`.
    IdentityReply(IdentityReply),
    /// Used to transmit general file data.
    FileDump(FileDumpMsg),
    /// Request a tuning bulk dump for the provided
    /// tuning program number, 0-127, and optional tuning bank number, 0-127
    TuningBulkDumpRequest(u8, Option<u8>),
    /// A "key based" tuning dump, with one tuning for every key.
    KeyBasedTuningDump(KeyBasedTuningDump),
    /// A "1 byte scale" tuning dump, with 12 tunings applied across all octaves.
    ScaleTuningDump1Byte(ScaleTuningDump1Byte),
    /// A "2 byte scale" tuning dump, with 12 tunings applied across all octaves.
    /// Like `ScaleTuningDump1Byte` but higher resolution.
    ScaleTuningDump2Byte(ScaleTuningDump2Byte),
    /// Change the tuning of 1 or more notes for the next sounding of those notes.
    TuningNoteChange(TuningNoteChange),
    /// Similar to `ScaleTuningDump1Byte`, but targets a channel, to take effect the next time a note is sounded.
    ScaleTuning1Byte(ScaleTuning1Byte),
    /// Similar to `ScaleTuningDump2Byte`, but targets a channel, to take effect the next time a note is sounded.
    ScaleTuning2Byte(ScaleTuning2Byte),
    /// Turn on or off General MIDI 1 or 2.
    GeneralMidi(GeneralMidi),
    /// Messages for accessing files on a shared network or filesystem.
    FileReference(FileReferenceMsg),
    /// Used by both `SampleDump` and `FileDump` to indicate all packets have been sent.
    EOF,
    /// Used by both `SampleDump` and `FileDump` from the receiver to request that the sender
    /// does not send any more packets until an `ACK` or `NAK` is sent.
    Wait,
    /// Used to abort an ongoing `SampleDump` or `FileDump`.
    Cancel,
    /// Used by both `SampleDump` and `FileDump` from the receiver to indicate that it did not
    /// receive the last packet correctly.
    NAK(u8),
    /// Used by both `SampleDump` and `FileDump` from the receiver to indicate that it
    /// received the last packet correctly.
    ACK(u8),
}

/// A response to [`UniversalNonRealTimeMsg::IdentityRequest`], meant to indicate the type of device
/// that this message is sent from.
/// Used by [`UniversalNonRealTimeMsg::IdentityReply`].
#[derive(Debug, Copy, Clone, PartialEq, Eq)]
pub struct IdentityReply {
    pub id: ManufacturerID,
    pub family: u16,
    pub family_member: u16,
    /// Four values, 0-127, sent in order provided
    pub software_revision: (u8, u8, u8, u8),
}

/// Bytes clamped to 7 bits.
pub open spec fn spec_u7s(data: Seq<u8>) -> Seq<u8> {
    data.map_values(|b: u8| spec_u7(b as int))
}

impl IdentityReply {
    /// The ID, the family and family member (14-bit, lsb first) and the four revision values
    /// (7-bit).
    pub open spec fn spec_midi(self) -> Seq<u8> {
        self.id.spec_midi() + spec_u14_bytes(self.family) + spec_u14_bytes(self.family_member)
            + seq![
            spec_u7(self.software_revision.0 as int),
            spec_u7(self.software_revision.1 as int),
            spec_u7(self.software_revision.2 as int),
            spec_u7(self.software_revision.3 as int),
        ]
    }

    /// Parsing a reply: the ID, then eight bytes of family, member and revision.
    pub open spec fn spec_from_midi(m: Seq<u8>) -> Result<IdentityReply, ParseError> {
        match ManufacturerID::spec_from_midi(m) {
            Err(e) => Err(e),
            Ok((id, shift)) => if m.len() < shift + 8 {
                Err(ParseError::UnexpectedEnd)
            } else {
                match spec_u14_from_midi(m.subrange(shift as int, m.len() as int)) {
                    Err(e) => Err(e),
                    Ok(family) => match spec_u14_from_midi(
                        m.subrange(shift + 2, m.len() as int),
                    ) {
                        Err(e) => Err(e),
                        Ok(family_member) => Ok(
                            IdentityReply {
                                id,
                                family,
                                family_member,
                                software_revision: (
                                    m[shift + 4],
                                    m[shift + 5],
                                    m[shift + 6],
                                    m[shift + 7],
                                ),
                            },
                        ),
                    },
                }
            },
        }
    }

    /// Append the reply.
    pub fn extend_midi(&self, v: &mut Vec<u8>)
        ensures
            final(v)@ == old(v)@ + self.spec_midi(),
    {
        let ghost start = v@;
        self.id.extend_midi(v);
        push_u14(self.family, v);
        push_u14(self.family_member, v);
        push_u7(self.software_revision.0, v);
        push_u7(self.software_revision.1, v);
        push_u7(self.software_revision.2, v);
        push_u7(self.software_revision.3, v);
        assert(v@ == start + self.spec_midi());
    }

    /// Parse a reply.
    pub fn from_midi(m: &[u8]) -> (r: Result<IdentityReply, ParseError>)
        ensures
            r == IdentityReply::spec_from_midi(m@),
    {
        let (id, shift) = match ManufacturerID::from_midi(m) {
            Ok(x) => x,
            Err(e) => return Err(e),
        };
        if m.len() < shift + 8 {
            return Err(ParseError::UnexpectedEnd);
        }
        let family = match u14_from_midi(vstd::slice::slice_subrange(m, shift, m.len())) {
            Ok(x) => x,
            Err(e) => return Err(e),
        };
        let family_member = match u14_from_midi(vstd::slice::slice_subrange(m, shift + 2, m.len())) {
            Ok(x) => x,
            Err(e) => return Err(e),
        };
        Ok(
            IdentityReply {
                id,
                family,
                family_member,
                software_revision: (m[shift + 4], m[shift + 5], m[shift + 6], m[shift + 7]),
            },
        )
    }

    /// Return the family + family member as bytes, as per many MIDI implementations docs:
    /// [family lsb, family msb, member lsb, member msb].
    pub fn family_as_bytes(&self) -> (r: [u8; 4])
        ensures
            r@ == spec_u14_bytes(self.family) + spec_u14_bytes(self.family_member),
    {
        let f = to_u14(self.family);
        let m = to_u14(self.family_member);
        let r = [f[1], f[0], m[1], m[0]];
        assert(r@ == spec_u14_bytes(self.family) + spec_u14_bytes(self.family_member));
        r
    }
}

impl UniversalRealTimeMsg {
    /// Whether the message can be sent.
    pub open spec fn spec_serializable(self) -> bool
        decreases self,
    {
        match self {
            UniversalRealTimeMsg::TimeCodeCueing(m) => m.spec_serializable(),
            _ => true,
        }
    }

    /// The sub-IDs of the message followed by its body.
    pub open spec fn spec_midi(self) -> Seq<u8>
        decreases self,
    {
        match self {
            UniversalRealTimeMsg::TimeCodeFull(code) => seq![0x01u8, 0x01] + code.spec_midi(),
            UniversalRealTimeMsg::TimeCodeUserBits(user_bits) => seq![0x01u8, 0x02]
                + user_bits.spec_to_nibbles(),
            UniversalRealTimeMsg::ShowControl(msg) => seq![0x02u8] + msg.spec_midi(),
            UniversalRealTimeMsg::BarMarker(marker) => seq![0x03u8, 0x01] + marker.spec_midi(),
            UniversalRealTimeMsg::TimeSignature(signature) => seq![0x03u8, 0x02]
                + signature.spec_midi(),
            UniversalRealTimeMsg::TimeSignatureDelayed(signature) => seq![0x03u8, 0x42]
                + signature.spec_midi(),
            UniversalRealTimeMsg::MasterVolume(vol) => seq![0x04u8, 0x01] + spec_u14_bytes(vol),
            UniversalRealTimeMsg::MasterBalance(bal) => seq![0x04u8, 0x02] + spec_u14_bytes(bal),
            UniversalRealTimeMsg::MasterFineTuning(t) => seq![
                0x04u8,
                0x03,
                spec_u14_lsb(spec_i14_offset(t)),
                spec_u14_msb(spec_i14_offset(t)),
            ],
            UniversalRealTimeMsg::MasterCoarseTuning(t) => seq![
                0x04u8,
                0x04,
                spec_u7(if t < -64 { 0 } else { t + 64 }),
            ],
            UniversalRealTimeMsg::GlobalParameterControl(gp) => seq![0x04u8, 0x05]
                + gp.spec_midi(),
            UniversalRealTimeMsg::TimeCodeCueing(msg) => seq![0x05u8] + msg.spec_midi(),
            UniversalRealTimeMsg::MachineControlCommand(msg) => seq![0x06u8] + msg.spec_midi(),
            UniversalRealTimeMsg::MachineControlResponse(msg) => seq![0x07u8] + msg.spec_midi(),
            UniversalRealTimeMsg::TuningNoteChange(note_change) => (match note_change.tuning_bank_num {
                Some(bank) => seq![0x08u8, 0x07, spec_u7(bank as int)],
                None => seq![0x08u8, 0x02],
            }) + note_change.spec_midi(),
            UniversalRealTimeMsg::ScaleTuning1Byte(tuning) => seq![0x08u8, 0x08]
                + tuning.spec_midi(),
            UniversalRealTimeMsg::ScaleTuning2Byte(tuning) => seq![0x08u8, 0x09]
                + tuning.spec_midi(),
            UniversalRealTimeMsg::ChannelPressureControllerDestination(d) => seq![0x09u8, 0x01]
                + d.spec_midi(),
            UniversalRealTimeMsg::PolyphonicKeyPressureControllerDestination(d) => seq![
                0x09u8,
                0x02,
            ] + d.spec_midi(),
            UniversalRealTimeMsg::ControlChangeControllerDestination(d) => seq![0x09u8, 0x03]
                + d.spec_midi(),
            UniversalRealTimeMsg::KeyBasedInstrumentControl(control) => seq![0x0Au8, 0x01]
                + control.spec_midi(),
        }
    }

    /// Parsing a real-time message after the device: only full time codes are read; they
    /// become the current time code.
    pub open spec fn spec_from_midi(m: Seq<u8>, tc: TimeCode) -> (Result<
        UniversalRealTimeMsg,
        ParseError,
    >, TimeCode) {
        if m.len() < 2 {
            (Err(ParseError::UnexpectedEnd), tc)
        } else if m[0] == 0x01 && m[1] == 0x01 {
            if m.len() > 6 {
                (Err(ParseError::Invalid("Extra bytes after a UniversalRealTimeMsg::TimeCodeFull")), tc)
            } else {
                match TimeCode::spec_from_midi(m.subrange(2, m.len() as int)) {
                    Err(e) => (Err(e), tc),
                    Ok(t) => (Ok(UniversalRealTimeMsg::TimeCodeFull(t)), t),
                }
            }
        } else {
            (Err(ParseError::NotImplemented("UniversalRealTimeMsg")), tc)
        }
    }

    /// Append the message.
    pub fn extend_midi(&self, v: &mut Vec<u8>)
        requires
            self.spec_serializable(),
        ensures
            final(v)@ == old(v)@ + self.spec_midi(),
        decreases self,
    {
        let ghost start = v@;
        match self {
            UniversalRealTimeMsg::TimeCodeFull(code) => {
                v.push(0x01);
                v.push(0x01);
                code.extend_midi(v);
            },
            UniversalRealTimeMsg::TimeCodeUserBits(user_bits) => {
                v.push(0x01);
                v.push(0x02);
                let n = user_bits.to_nibbles();
                let mut i: usize = 0;
                while i < 9
                    invariant
                        i <= 9,
                        n@ == user_bits.spec_to_nibbles(),
                        v@ == start + seq![0x01u8, 0x02] + n@.subrange(0, i as int),
                    decreases 9 - i,
                {
                    v.push(n[i]);
                    i = i + 1;
                    assert(n@.subrange(0, i as int) == n@.subrange(0, i - 1).push(n@[i - 1]));
                }
                assert(n@.subrange(0, 9) == n@);
            },
            UniversalRealTimeMsg::ShowControl(msg) => {
                v.push(0x02);
                msg.extend_midi(v);
            },
            UniversalRealTimeMsg::BarMarker(marker) => {
                v.push(0x03);
                v.push(0x01);
                marker.extend_midi(v);
            },
            UniversalRealTimeMsg::TimeSignature(signature) => {
                v.push(0x03);
                v.push(0x02);
                signature.extend_midi(v);
            },
            UniversalRealTimeMsg::TimeSignatureDelayed(signature) => {
                v.push(0x03);
                v.push(0x42);
                signature.extend_midi(v);
            },
            UniversalRealTimeMsg::MasterVolume(vol) => {
                v.push(0x04);
                v.push(0x01);
                push_u14(*vol, v);
            },
            UniversalRealTimeMsg::MasterBalance(bal) => {
                v.push(0x04);
                v.push(0x02);
                push_u14(*bal, v);
            },
            UniversalRealTimeMsg::MasterFineTuning(t) => {
                v.push(0x04);
                v.push(0x03);
                let b = i_to_u14(*t);
                v.push(b[1]);
                v.push(b[0]);
            },
            UniversalRealTimeMsg::MasterCoarseTuning(t) => {
                v.push(0x04);
                v.push(0x04);
                v.push(i_to_u7(*t));
            },
            UniversalRealTimeMsg::GlobalParameterControl(gp) => {
                v.push(0x04);
                v.push(0x05);
                gp.extend_midi(v);
            },
            UniversalRealTimeMsg::TimeCodeCueing(msg) => {
                v.push(0x05);
                msg.extend_midi(v);
            },
            UniversalRealTimeMsg::MachineControlCommand(msg) => {
                v.push(0x06);
                msg.extend_midi(v);
            },
            UniversalRealTimeMsg::MachineControlResponse(msg) => {
                v.push(0x07);
                msg.extend_midi(v);
            },
            UniversalRealTimeMsg::TuningNoteChange(note_change) => {
                v.push(0x08);
                match note_change.tuning_bank_num {
                    Some(bank) => {
                        v.push(0x07);
                        push_u7(bank, v);
                    },
                    None => {
                        v.push(0x02);
                    },
                }
                note_change.extend_midi(v);
            },
            UniversalRealTimeMsg::ScaleTuning1Byte(tuning) => {
                v.push(0x08);
                v.push(0x08);
                tuning.extend_midi(v);
            },
            UniversalRealTimeMsg::ScaleTuning2Byte(tuning) => {
                v.push(0x08);
                v.push(0x09);
                tuning.extend_midi(v);
            },
            UniversalRealTimeMsg::ChannelPressureControllerDestination(d) => {
                v.push(0x09);
                v.push(0x01);
                d.extend_midi(v);
            },
            UniversalRealTimeMsg::PolyphonicKeyPressureControllerDestination(d) => {
                v.push(0x09);
                v.push(0x02);
                d.extend_midi(v);
            },
            UniversalRealTimeMsg::ControlChangeControllerDestination(d) => {
                v.push(0x09);
                v.push(0x03);
                d.extend_midi(v);
            },
            UniversalRealTimeMsg::KeyBasedInstrumentControl(control) => {
                v.push(0x0A);
                v.push(0x01);
                control.extend_midi(v);
            },
        }
        assert(v@ == start + self.spec_midi());
    }

    /// Parse a real-time message after the device. A full time code becomes `tc`.
    pub fn from_midi(m: &[u8], tc: &mut TimeCode) -> (r: Result<UniversalRealTimeMsg, ParseError>)
        ensures
            (r, *final(tc)) == UniversalRealTimeMsg::spec_from_midi(m@, *old(tc)),
    {
        if m.len() < 2 {
            return Err(ParseError::UnexpectedEnd);
        }
        if m[0] == 0x01 && m[1] == 0x01 {
            if m.len() > 6 {
                Err(ParseError::Invalid("Extra bytes after a UniversalRealTimeMsg::TimeCodeFull"))
            } else {
                match TimeCode::from_midi(vstd::slice::slice_subrange(m, 2, m.len())) {
                    Err(e) => Err(e),
                    Ok(t) => {
                        *tc = t;
                        Ok(UniversalRealTimeMsg::TimeCodeFull(t))
                    },
                }
            }
        } else {
            Err(ParseError::NotImplemented("UniversalRealTimeMsg"))
        }
    }
}

impl UniversalNonRealTimeMsg {
    /// Whether the message can be sent.
    pub open spec fn spec_serializable(self) -> bool
        decreases self,
    {
        match self {
            UniversalNonRealTimeMsg::TimeCodeCueingSetup(m) => m.spec_serializable(),
            _ => true,
        }
    }

    /// Whether the message ends with a checksum.
    pub open spec fn spec_checksummed(self) -> bool {
        match self {
            UniversalNonRealTimeMsg::SampleDump(SampleDumpMsg::Packet { .. })
            | UniversalNonRealTimeMsg::KeyBasedTuningDump(_)
            | UniversalNonRealTimeMsg::ScaleTuningDump1Byte(_)
            | UniversalNonRealTimeMsg::ScaleTuningDump2Byte(_)
            | UniversalNonRealTimeMsg::ScaleTuning1Byte(_)
            | UniversalNonRealTimeMsg::ScaleTuning2Byte(_)
            | UniversalNonRealTimeMsg::FileDump(FileDumpMsg::Packet { .. }) => true,
            _ => false,
        }
    }

    /// Whether the message's own bytes end with a zero that its checksum is written over.
    pub open spec fn spec_checksum_placeholder(self) -> bool {
        match self {
            UniversalNonRealTimeMsg::SampleDump(SampleDumpMsg::Packet { .. })
            | UniversalNonRealTimeMsg::KeyBasedTuningDump(_)
            | UniversalNonRealTimeMsg::ScaleTuningDump1Byte(_)
            | UniversalNonRealTimeMsg::ScaleTuningDump2Byte(_) => true,
            _ => false,
        }
    }

    /// The sub-IDs of the message followed by its body.
    pub open spec fn spec_midi(self) -> Seq<u8>
        decreases self,
    {
        match self {
            UniversalNonRealTimeMsg::SampleDump(msg) => (match msg {
                SampleDumpMsg::Header { .. } => seq![0x01u8],
                SampleDumpMsg::Packet { .. } => seq![0x02u8],
                SampleDumpMsg::Request { .. } => seq![0x03u8],
                SampleDumpMsg::MultipleLoopPoints { .. } => seq![0x05u8, 0x01],
                SampleDumpMsg::LoopPointsRequest { .. } => seq![0x05u8, 0x02],
            }) + msg.spec_midi(),
            UniversalNonRealTimeMsg::ExtendedSampleDump(msg) => seq![0x05u8] + (match msg {
                ExtendedSampleDumpMsg::SampleName { .. } => seq![0x03u8],
                ExtendedSampleDumpMsg::SampleNameRequest { .. } => seq![0x04u8],
                ExtendedSampleDumpMsg::Header { .. } => seq![0x05u8],
                ExtendedSampleDumpMsg::MultipleLoopPoints { .. } => seq![0x06u8],
                ExtendedSampleDumpMsg::LoopPointsRequest { .. } => seq![0x07u8],
            }) + msg.spec_midi(),
            UniversalNonRealTimeMsg::TimeCodeCueingSetup(msg) => seq![0x04u8] + msg.spec_midi(),
            UniversalNonRealTimeMsg::IdentityRequest => seq![0x06u8, 0x01],
            UniversalNonRealTimeMsg::IdentityReply(identity) => seq![0x06u8, 0x02]
                + identity.spec_midi(),
            UniversalNonRealTimeMsg::FileDump(msg) => seq![0x07u8] + msg.spec_midi(),
            UniversalNonRealTimeMsg::TuningBulkDumpRequest(program_num, bank_num) => seq![0x08u8]
                + (match bank_num {
                Some(bank) => seq![0x03u8, spec_u7(bank as int)],
                None => seq![0x00u8],
            }) + seq![spec_u7(program_num as int)],
            UniversalNonRealTimeMsg::KeyBasedTuningDump(tuning) => seq![
                0x08u8,
                if tuning.tuning_bank_num is Some { 0x04u8 } else { 0x01u8 },
            ] + tuning.spec_midi(),
            UniversalNonRealTimeMsg::ScaleTuningDump1Byte(tuning) => seq![0x08u8, 0x05]
                + tuning.spec_midi(),
            UniversalNonRealTimeMsg::ScaleTuningDump2Byte(tuning) => seq![0x08u8, 0x06]
                + tuning.spec_midi(),
            UniversalNonRealTimeMsg::TuningNoteChange(tuning) => seq![
                0x08u8,
                0x07,
                spec_u7(
                    match tuning.tuning_bank_num {
                        Some(b) => b as int,
                        None => 0,
                    },
                ),
            ] + tuning.spec_midi(),
            UniversalNonRealTimeMsg::ScaleTuning1Byte(tuning) => seq![0x08u8, 0x08]
                + tuning.spec_midi(),
            UniversalNonRealTimeMsg::ScaleTuning2Byte(tuning) => seq![0x08u8, 0x09]
                + tuning.spec_midi(),
            UniversalNonRealTimeMsg::GeneralMidi(gm) => seq![0x09u8, gm.spec_to_u8()],
            UniversalNonRealTimeMsg::FileReference(msg) => seq![
                0x0Bu8,
                match msg {
                    FileReferenceMsg::Open { .. } => 0x01u8,
                    FileReferenceMsg::SelectContents { .. } => 0x02u8,
                    FileReferenceMsg::OpenSelectContents { .. } => 0x03u8,
                    FileReferenceMsg::Close { .. } => 0x04u8,
                },
            ] + msg.spec_midi(),
            UniversalNonRealTimeMsg::EOF => seq![0x7Bu8, 0x00],
            UniversalNonRealTimeMsg::Wait => seq![0x7Cu8, 0x00],
            UniversalNonRealTimeMsg::Cancel => seq![0x7Du8, 0x00],
            UniversalNonRealTimeMsg::NAK(packet_num) => seq![0x7Eu8, spec_u7(packet_num as int)],
            UniversalNonRealTimeMsg::ACK(packet_num) => seq![0x7Fu8, spec_u7(packet_num as int)],
        }
    }

    /// Parsing a non-real-time message after the device: only identity replies are read.
    pub open spec fn spec_from_midi(m: Seq<u8>) -> Result<UniversalNonRealTimeMsg, ParseError> {
        if m.len() < 2 {
            Err(ParseError::UnexpectedEnd)
        } else if m[0] == 0x06 && m[1] == 0x02 {
            if m.len() < 3 {
                Err(ParseError::UnexpectedEnd)
            } else {
                match IdentityReply::spec_from_midi(m.subrange(2, m.len() as int)) {
                    Err(e) => Err(e),
                    Ok(reply) => Ok(UniversalNonRealTimeMsg::IdentityReply(reply)),
                }
            }
        } else {
            Err(ParseError::NotImplemented("UniversalNonRealTimeMsg"))
        }
    }

    /// Append the message (without a checksum).
    pub fn extend_midi(&self, v: &mut Vec<u8>)
        requires
            self.spec_serializable(),
        ensures
            final(v)@ == old(v)@ + self.spec_midi(),
        decreases self,
    {
        let ghost start = v@;
        match self {
            UniversalNonRealTimeMsg::SampleDump(msg) => {
                match msg {
                    SampleDumpMsg::Header { .. } => v.push(0x01),
                    SampleDumpMsg::Packet { .. } => v.push(0x02),
                    SampleDumpMsg::Request { .. } => v.push(0x03),
                    SampleDumpMsg::MultipleLoopPoints { .. } => {
                        v.push(0x05);
                        v.push(0x01);
                    },
                    SampleDumpMsg::LoopPointsRequest { .. } => {
                        v.push(0x05);
                        v.push(0x02);
                    },
                }
                msg.extend_midi(v);
            },
            UniversalNonRealTimeMsg::ExtendedSampleDump(msg) => {
                v.push(0x05);
                match msg {
                    ExtendedSampleDumpMsg::SampleName { .. } => v.push(0x03),
                    ExtendedSampleDumpMsg::SampleNameRequest { .. } => v.push(0x04),
                    ExtendedSampleDumpMsg::Header { .. } => v.push(0x05),
                    ExtendedSampleDumpMsg::MultipleLoopPoints { .. } => v.push(0x06),
                    ExtendedSampleDumpMsg::LoopPointsRequest { .. } => v.push(0x07),
                }
                msg.extend_midi(v);
            },
            UniversalNonRealTimeMsg::TimeCodeCueingSetup(msg) => {
                v.push(0x04);
                msg.extend_midi(v);
            },
            UniversalNonRealTimeMsg::IdentityRequest => {
                v.push(0x06);
                v.push(0x01);
            },
            UniversalNonRealTimeMsg::IdentityReply(identity) => {
                v.push(0x06);
                v.push(0x02);
                identity.extend_midi(v);
            },
            UniversalNonRealTimeMsg::FileDump(msg) => {
                v.push(0x07);
                msg.extend_midi(v);
            },
            UniversalNonRealTimeMsg::TuningBulkDumpRequest(program_num, bank_num) => {
                v.push(0x08);
                match bank_num {
                    Some(bank) => {
                        v.push(0x03);
                        push_u7(*bank, v);
                    },
                    None => v.push(0x00),
                }
                push_u7(*program_num, v);
            },
            UniversalNonRealTimeMsg::KeyBasedTuningDump(tuning) => {
                v.push(0x08);
                v.push(if tuning.tuning_bank_num.is_some() { 0x04 } else { 0x01 });
                tuning.extend_midi(v);
            },
            UniversalNonRealTimeMsg::ScaleTuningDump1Byte(tuning) => {
                v.push(0x08);
                v.push(0x05);
                tuning.extend_midi(v);
            },
            UniversalNonRealTimeMsg::ScaleTuningDump2Byte(tuning) => {
                v.push(0x08);
                v.push(0x06);
                tuning.extend_midi(v);
            },
            UniversalNonRealTimeMsg::TuningNoteChange(tuning) => {
                v.push(0x08);
                v.push(0x07);
                push_u7(
                    match tuning.tuning_bank_num {
                        Some(b) => b,
                        None => 0,
                    },
                    v,
                );
                tuning.extend_midi(v);
            },
            UniversalNonRealTimeMsg::ScaleTuning1Byte(tuning) => {
                v.push(0x08);
                v.push(0x08);
                tuning.extend_midi(v);
            },
            UniversalNonRealTimeMsg::ScaleTuning2Byte(tuning) => {
                v.push(0x08);
                v.push(0x09);
                tuning.extend_midi(v);
            },
            UniversalNonRealTimeMsg::GeneralMidi(gm) => {
                v.push(0x09);
                v.push(gm.to_u8());
            },
            UniversalNonRealTimeMsg::FileReference(msg) => {
                v.push(0x0B);
                v.push(
                    match msg {
                        FileReferenceMsg::Open { .. } => 0x01,
                        FileReferenceMsg::SelectContents { .. } => 0x02,
                        FileReferenceMsg::OpenSelectContents { .. } => 0x03,
                        FileReferenceMsg::Close { .. } => 0x04,
                    },
                );
                msg.extend_midi(v);
            },
            UniversalNonRealTimeMsg::EOF => {
                v.push(0x7B);
                v.push(0x00);
            },
            UniversalNonRealTimeMsg::Wait => {
                v.push(0x7C);
                v.push(0x00);
            },
            UniversalNonRealTimeMsg::Cancel => {
                v.push(0x7D);
                v.push(0x00);
            },
            UniversalNonRealTimeMsg::NAK(packet_num) => {
                v.push(0x7E);
                push_u7(*packet_num, v);
            },
            UniversalNonRealTimeMsg::ACK(packet_num) => {
                v.push(0x7F);
                push_u7(*packet_num, v);
            },
        }
        assert(v@ == start + self.spec_midi());
    }

    /// Whether the message ends with a checksum.
    pub fn is_checksummed(&self) -> (r: bool)
        ensures
            r == self.spec_checksummed(),
    {
        match self {
            UniversalNonRealTimeMsg::SampleDump(SampleDumpMsg::Packet { .. })
            | UniversalNonRealTimeMsg::KeyBasedTuningDump(_)
            | UniversalNonRealTimeMsg::ScaleTuningDump1Byte(_)
            | UniversalNonRealTimeMsg::ScaleTuningDump2Byte(_)
            | UniversalNonRealTimeMsg::ScaleTuning1Byte(_)
            | UniversalNonRealTimeMsg::ScaleTuning2Byte(_)
            | UniversalNonRealTimeMsg::FileDump(FileDumpMsg::Packet { .. }) => true,
            _ => false,
        }
    }

    /// Whether the message's own bytes end with a zero that its checksum is written over.
    pub fn has_checksum_placeholder(&self) -> (r: bool)
        ensures
            r == self.spec_checksum_placeholder(),
    {
        match self {
            UniversalNonRealTimeMsg::SampleDump(SampleDumpMsg::Packet { .. })
            | UniversalNonRealTimeMsg::KeyBasedTuningDump(_)
            | UniversalNonRealTimeMsg::ScaleTuningDump1Byte(_)
            | UniversalNonRealTimeMsg::ScaleTuningDump2Byte(_) => true,
            _ => false,
        }
    }

    /// Parse a non-real-time message after the device.
    pub fn from_midi(m: &[u8]) -> (r: Result<UniversalNonRealTimeMsg, ParseError>)
        ensures
            r == UniversalNonRealTimeMsg::spec_from_midi(m@),
    {
        if m.len() < 2 {
            return Err(ParseError::UnexpectedEnd);
        }
        if m[0] == 0x06 && m[1] == 0x02 {
            if m.len() < 3 {
                return Err(ParseError::UnexpectedEnd);
            }
            match IdentityReply::from_midi(vstd::slice::slice_subrange(m, 2, m.len())) {
                Err(e) => Err(e),
                Ok(reply) => Ok(UniversalNonRealTimeMsg::IdentityReply(reply)),
            }
        } else {
            Err(ParseError::NotImplemented("UniversalNonRealTimeMsg"))
        }
    }
}

/// Scanning a system exclusive message from byte `i`: the index of its end flag, or the error
/// met first.
pub open spec fn spec_sysex_end(m: Seq<u8>, i: int) -> Result<int, ParseError>
    decreases m.len() - i,
{
    if i < 0 || i >= m.len() {
        Err(ParseError::NoEndOfSystemExclusiveFlag)
    } else if m[i] == 0xF7 {
        Ok(i)
    } else if m[i] > 127 {
        Err(ParseError::ByteOverflow)
    } else {
        spec_sysex_end(m, i + 1)
    }
}

/// The body of a system exclusive message: after the 0xF0 (where one is expected) and up to
/// the end flag.
pub open spec fn spec_sysex_bytes(m: Seq<u8>, first_byte_is_f0: bool) -> Result<Seq<u8>, ParseError> {
    if first_byte_is_f0 && (m.len() == 0 || m[0] != 0xF0) {
        Err(
            ParseError::UndefinedSystemExclusiveMessage(
                if m.len() == 0 { None } else { Some(m[0]) },
            ),
        )
    } else {
        let offset: int = if first_byte_is_f0 { 1 } else { 0 };
        match spec_sysex_end(m, offset) {
            Err(e) => Err(e),
            Ok(end) => Ok(m.subrange(offset, end)),
        }
    }
}

impl SystemExclusiveMsg {
    /// Whether the message can be sent.
    pub open spec fn spec_serializable(self) -> bool
        decreases self,
    {
        match self {
            SystemExclusiveMsg::UniversalRealTime { msg, .. } => msg.spec_serializable(),
            SystemExclusiveMsg::UniversalNonRealTime { msg, .. } => msg.spec_serializable(),
            _ => true,
        }
    }

    /// The message between its start and end flags. Data bytes are clamped to 7 bits; the
    /// non-real-time messages that carry one end with the XOR of the bytes from 0x7E on, written
    /// over the zero that stands in for it where the message has one.
    pub open spec fn spec_body(self) -> Seq<u8>
        decreases self,
    {
        match self {
            SystemExclusiveMsg::Commercial { id, data } => id.spec_midi() + spec_u7s(data@),
            SystemExclusiveMsg::NonCommercial { data } => seq![0x7Du8] + spec_u7s(data@),
            SystemExclusiveMsg::UniversalRealTime { device, msg } => seq![
                0x7Fu8,
                device.spec_to_u8(),
            ] + msg.spec_midi(),
            SystemExclusiveMsg::UniversalNonRealTime { device, msg } => {
                let b = seq![0x7Eu8, device.spec_to_u8()] + msg.spec_midi();
                if msg.spec_checksum_placeholder() {
                    b.drop_last() + seq![spec_checksum(b.drop_last())]
                } else if msg.spec_checksummed() {
                    b + seq![spec_checksum(b)]
                } else {
                    b
                }
            },
        }
    }

    /// The bytes of the message: 0xF0 (unless omitted, as in files), the body and 0xF7.
    pub open spec fn spec_midi(self, first_byte_is_f0: bool) -> Seq<u8> {
        (if first_byte_is_f0 { seq![0xF0u8] } else { Seq::empty() }) + self.spec_body() + seq![
            0xF7u8,
        ]
    }

    /// Whether `r` and `tc2` are what parsing a system exclusive message gives, with the current
    /// time code `tc`: the message and the bytes it took (its body and two flags), and the time
    /// code after it. The data of a commercial or non-commercial message is the rest of the body.
    pub open spec fn spec_parsed(
        m: Seq<u8>,
        is_smf_sysex: bool,
        tc: TimeCode,
        r: Result<(SystemExclusiveMsg, usize), ParseError>,
        tc2: TimeCode,
    ) -> bool {
        match spec_sysex_bytes(m, !is_smf_sysex) {
            Err(e) => r == Err::<(SystemExclusiveMsg, usize), ParseError>(e) && tc2 == tc,
            Ok(b) => {
                let len = (b.len() + 2) as usize;
                if b.len() == 0 {
                    r == Err::<(SystemExclusiveMsg, usize), ParseError>(ParseError::UnexpectedEnd)
                        && tc2 == tc
                } else if b.len() + 2 > usize::MAX {
                    r == Err::<(SystemExclusiveMsg, usize), ParseError>(
                        ParseError::Invalid("System exclusive message too long"),
                    ) && tc2 == tc
                } else if b[0] == 0x7D {
                    &&& tc2 == tc
                    &&& r matches Ok((SystemExclusiveMsg::NonCommercial { data }, l))
                    &&& l == len
                    &&& data@ == b.subrange(1, b.len() as int)
                } else if b[0] == 0x7E {
                    tc2 == tc && r == match DeviceID::spec_from_midi(b.subrange(1, b.len() as int)) {
                        Err(e) => Err(e),
                        Ok(device) => match UniversalNonRealTimeMsg::spec_from_midi(
                            b.subrange(2, b.len() as int),
                        ) {
                            Err(e) => Err(e),
                            Ok(msg) => Ok((SystemExclusiveMsg::UniversalNonRealTime { device, msg }, len)),
                        },
                    }
                } else if b[0] == 0x7F {
                    match DeviceID::spec_from_midi(b.subrange(1, b.len() as int)) {
                        Err(e) => r == Err::<(SystemExclusiveMsg, usize), ParseError>(e) && tc2
                            == tc,
                        Ok(device) => match UniversalRealTimeMsg::spec_from_midi(
                            b.subrange(2, b.len() as int),
                            tc,
                        ) {
                            (Err(e), t) => r == Err::<(SystemExclusiveMsg, usize), ParseError>(e)
                                && tc2 == t,
                            (Ok(msg), t) => r == Ok::<(SystemExclusiveMsg, usize), ParseError>(
                                (SystemExclusiveMsg::UniversalRealTime { device, msg }, len),
                            ) && tc2 == t,
                        },
                    }
                } else {
                    match ManufacturerID::spec_from_midi(b) {
                        Err(e) => r == Err::<(SystemExclusiveMsg, usize), ParseError>(e) && tc2
                            == tc,
                        Ok((id, n)) => {
                            &&& tc2 == tc
                            &&& r matches Ok((SystemExclusiveMsg::Commercial { id: i, data }, l))
                            &&& i == id
                            &&& l == len
                            &&& data@ == b.subrange(n as int, b.len() as int)
                        },
                    }
                }
            },
        }
    }

    /// Append the message.
    pub fn extend_midi(&self, v: &mut Vec<u8>, first_byte_is_f0: bool)
        requires
            self.spec_serializable(),
        ensures
            final(v)@ == old(v)@ + self.spec_midi(first_byte_is_f0),
        decreases self,
    {
        let ghost start = v@;
        if first_byte_is_f0 {
            v.push(0xF0);
        }
        let ghost mid = v@;
        match self {
            SystemExclusiveMsg::Commercial { id, data } => {
                id.extend_midi(v);
                extend_u7s(v, data.as_slice());
            },
            SystemExclusiveMsg::NonCommercial { data } => {
                v.push(0x7D);
                extend_u7s(v, data.as_slice());
            },
            SystemExclusiveMsg::UniversalRealTime { device, msg } => {
                v.push(0x7F);
                v.push(device.to_u8());
                msg.extend_midi(v);
            },
            SystemExclusiveMsg::UniversalNonRealTime { device, msg } => {
                let p = v.len();
                v.push(0x7E);
                v.push(device.to_u8());
                msg.extend_midi(v);
                if msg.has_checksum_placeholder() {
                    let n = v.len();
                    let c = checksum(vstd::slice::slice_subrange(v.as_slice(), p, n - 1));
                    assert(v@.subrange(p as int, n - 1) == (seq![0x7Eu8, device.spec_to_u8()]
                        + msg.spec_midi()).drop_last());
                    v.set(n - 1, c);
                    assert(v@ == mid + (seq![0x7Eu8, device.spec_to_u8()] + msg.spec_midi()).drop_last()
                        + seq![c]);
                } else if msg.is_checksummed() {
                    let c = checksum(vstd::slice::slice_subrange(v.as_slice(), p, v.len()));
                    assert(v@.subrange(p as int, v@.len() as int) == seq![0x7Eu8, device.spec_to_u8()]
                        + msg.spec_midi());
                    v.push(c);
                }
            },
        }
        assert(v@ == mid + self.spec_body());
        v.push(0xF7);
        assert(v@ == start + self.spec_midi(first_byte_is_f0));
    }

    /// Find the body of a system exclusive message.
    pub fn sysex_bytes_from_midi(m: &[u8], first_byte_is_f0: bool) -> (r: Result<&[u8], ParseError>)
        ensures
            r matches Ok(b) ==> spec_sysex_bytes(m@, first_byte_is_f0) == Ok::<Seq<u8>, ParseError>(
                b@,
            ),
            r matches Err(e) ==> spec_sysex_bytes(m@, first_byte_is_f0) == Err::<Seq<u8>, ParseError>(
                e,
            ),
            r matches Ok(b) ==> b@.len() + 1 + (if first_byte_is_f0 { 1int } else { 0 }) <= m@.len(),
    {
        if first_byte_is_f0 && (m.len() == 0 || m[0] != 0xF0) {
            return Err(
                ParseError::UndefinedSystemExclusiveMessage(
                    if m.len() == 0 {
                        None
                    } else {
                        Some(m[0])
                    },
                ),
            );
        }
        let offset: usize = if first_byte_is_f0 {
            1
        } else {
            0
        };
        let mut i: usize = offset;
        while i < m.len()
            invariant
                offset <= i,
                offset == (if first_byte_is_f0 { 1usize } else { 0usize }),
                !(first_byte_is_f0 && (m@.len() == 0 || m@[0] != 0xF0)),
                spec_sysex_end(m@, offset as int) == spec_sysex_end(m@, i as int),
            decreases m@.len() - i,
        {
            if m[i] == 0xF7 {
                return Ok(vstd::slice::slice_subrange(m, offset, i));
            }
            if m[i] > 127 {
                return Err(ParseError::ByteOverflow);
            }
            i = i + 1;
        }
        Err(ParseError::NoEndOfSystemExclusiveFlag)
    }

    /// Parse a system exclusive message (its start flag omitted in a file). A full time code
    /// becomes `tc`.
    pub fn from_midi(m: &[u8], is_smf_sysex: bool, tc: &mut TimeCode) -> (r: Result<
        (SystemExclusiveMsg, usize),
        ParseError,
    >)
        ensures
            SystemExclusiveMsg::spec_parsed(m@, is_smf_sysex, *old(tc), r, *final(tc)),
            r matches Ok((_, n)) ==> 2 <= n <= m@.len() + (if is_smf_sysex { 1int } else { 0 }),
    {
        let b = match SystemExclusiveMsg::sysex_bytes_from_midi(m, !is_smf_sysex) {
            Ok(b) => b,
            Err(e) => return Err(e),
        };
        if b.len() == 0 {
            return Err(ParseError::UnexpectedEnd);
        }
        if b.len() > usize::MAX - 2 {
            return Err(ParseError::Invalid("System exclusive message too long"));
        }
        let len = b.len() + 2;
        if b[0] == 0x7D {
            Ok(
                (
                    SystemExclusiveMsg::NonCommercial {
                        data: vstd::slice::slice_to_vec(
                            vstd::slice::slice_subrange(b, 1, b.len()),
                        ),
                    },
                    len,
                ),
            )
        } else if b[0] == 0x7E {
            let device = match DeviceID::from_midi(vstd::slice::slice_subrange(b, 1, b.len())) {
                Ok(d) => d,
                Err(e) => return Err(e),
            };
            match UniversalNonRealTimeMsg::from_midi(vstd::slice::slice_subrange(b, 2, b.len())) {
                Err(e) => Err(e),
                Ok(msg) => Ok((SystemExclusiveMsg::UniversalNonRealTime { device, msg }, len)),
            }
        } else if b[0] == 0x7F {
            let device = match DeviceID::from_midi(vstd::slice::slice_subrange(b, 1, b.len())) {
                Ok(d) => d,
                Err(e) => return Err(e),
            };
            match UniversalRealTimeMsg::from_midi(vstd::slice::slice_subrange(b, 2, b.len()), tc) {
                Err(e) => Err(e),
                Ok(msg) => Ok((SystemExclusiveMsg::UniversalRealTime { device, msg }, len)),
            }
        } else {
            let (id, n) = match ManufacturerID::from_midi(b) {
                Ok(x) => x,
                Err(e) => return Err(e),
            };
            Ok(
                (
                    SystemExclusiveMsg::Commercial {
                        id,
                        data: vstd::slice::slice_to_vec(vstd::slice::slice_subrange(b, n, b.len())),
                    },
                    len,
                ),
            )
        }
    }
}

impl Clone for UniversalRealTimeMsg {
    fn clone(&self) -> (r: Self)
        decreases self,
    {
        match self {
            UniversalRealTimeMsg::TimeCodeFull(x) => UniversalRealTimeMsg::TimeCodeFull(*x),
            UniversalRealTimeMsg::TimeCodeUserBits(x) => UniversalRealTimeMsg::TimeCodeUserBits(*x),
            UniversalRealTimeMsg::ShowControl(x) => UniversalRealTimeMsg::ShowControl(x.clone()),
            UniversalRealTimeMsg::BarMarker(x) => UniversalRealTimeMsg::BarMarker(*x),
            UniversalRealTimeMsg::TimeSignature(x) => UniversalRealTimeMsg::TimeSignature(x.clone()),
            UniversalRealTimeMsg::TimeSignatureDelayed(x) => UniversalRealTimeMsg::TimeSignatureDelayed(x.clone()),
            UniversalRealTimeMsg::MasterVolume(x) => UniversalRealTimeMsg::MasterVolume(*x),
            UniversalRealTimeMsg::MasterBalance(x) => UniversalRealTimeMsg::MasterBalance(*x),
            UniversalRealTimeMsg::MasterFineTuning(x) => UniversalRealTimeMsg::MasterFineTuning(*x),
            UniversalRealTimeMsg::MasterCoarseTuning(x) => UniversalRealTimeMsg::MasterCoarseTuning(*x),
            UniversalRealTimeMsg::GlobalParameterControl(x) => UniversalRealTimeMsg::GlobalParameterControl(x.clone()),
            UniversalRealTimeMsg::TimeCodeCueing(x) => UniversalRealTimeMsg::TimeCodeCueing(x.clone()),
            UniversalRealTimeMsg::MachineControlCommand(x) => UniversalRealTimeMsg::MachineControlCommand(x.clone()),
            UniversalRealTimeMsg::MachineControlResponse(x) => UniversalRealTimeMsg::MachineControlResponse(x.clone()),
            UniversalRealTimeMsg::TuningNoteChange(x) => UniversalRealTimeMsg::TuningNoteChange(x.clone()),
            UniversalRealTimeMsg::ScaleTuning1Byte(x) => UniversalRealTimeMsg::ScaleTuning1Byte(*x),
            UniversalRealTimeMsg::ScaleTuning2Byte(x) => UniversalRealTimeMsg::ScaleTuning2Byte(*x),
            UniversalRealTimeMsg::ChannelPressureControllerDestination(x) => UniversalRealTimeMsg::ChannelPressureControllerDestination(x.clone()),
            UniversalRealTimeMsg::PolyphonicKeyPressureControllerDestination(x) => UniversalRealTimeMsg::PolyphonicKeyPressureControllerDestination(x.clone()),
            UniversalRealTimeMsg::ControlChangeControllerDestination(x) => UniversalRealTimeMsg::ControlChangeControllerDestination(x.clone()),
            UniversalRealTimeMsg::KeyBasedInstrumentControl(x) => UniversalRealTimeMsg::KeyBasedInstrumentControl(x.clone()),
        }
    }
}

impl Clone for UniversalNonRealTimeMsg {
    fn clone(&self) -> (r: Self)
        decreases self,
    {
        match self {
            UniversalNonRealTimeMsg::SampleDump(x) => UniversalNonRealTimeMsg::SampleDump(x.clone()),
            UniversalNonRealTimeMsg::ExtendedSampleDump(x) => UniversalNonRealTimeMsg::ExtendedSampleDump(x.clone()),
            UniversalNonRealTimeMsg::TimeCodeCueingSetup(x) => UniversalNonRealTimeMsg::TimeCodeCueingSetup(x.clone()),
            UniversalNonRealTimeMsg::IdentityRequest => UniversalNonRealTimeMsg::IdentityRequest,
            UniversalNonRealTimeMsg::IdentityReply(x) => UniversalNonRealTimeMsg::IdentityReply(*x),
            UniversalNonRealTimeMsg::FileDump(x) => UniversalNonRealTimeMsg::FileDump(x.clone()),
            UniversalNonRealTimeMsg::TuningBulkDumpRequest(a, b) => UniversalNonRealTimeMsg::TuningBulkDumpRequest(*a, *b),
            UniversalNonRealTimeMsg::KeyBasedTuningDump(x) => UniversalNonRealTimeMsg::KeyBasedTuningDump(x.clone()),
            UniversalNonRealTimeMsg::ScaleTuningDump1Byte(x) => UniversalNonRealTimeMsg::ScaleTuningDump1Byte(*x),
            UniversalNonRealTimeMsg::ScaleTuningDump2Byte(x) => UniversalNonRealTimeMsg::ScaleTuningDump2Byte(*x),
            UniversalNonRealTimeMsg::TuningNoteChange(x) => UniversalNonRealTimeMsg::TuningNoteChange(x.clone()),
            UniversalNonRealTimeMsg::ScaleTuning1Byte(x) => UniversalNonRealTimeMsg::ScaleTuning1Byte(*x),
            UniversalNonRealTimeMsg::ScaleTuning2Byte(x) => UniversalNonRealTimeMsg::ScaleTuning2Byte(*x),
            UniversalNonRealTimeMsg::GeneralMidi(x) => UniversalNonRealTimeMsg::GeneralMidi(*x),
            UniversalNonRealTimeMsg::FileReference(x) => UniversalNonRealTimeMsg::FileReference(x.clone()),
            UniversalNonRealTimeMsg::EOF => UniversalNonRealTimeMsg::EOF,
            UniversalNonRealTimeMsg::Wait => UniversalNonRealTimeMsg::Wait,
            UniversalNonRealTimeMsg::Cancel => UniversalNonRealTimeMsg::Cancel,
            UniversalNonRealTimeMsg::NAK(x) => UniversalNonRealTimeMsg::NAK(*x),
            UniversalNonRealTimeMsg::ACK(x) => UniversalNonRealTimeMsg::ACK(*x),
        }
    }
}

impl Clone for SystemExclusiveMsg {
    fn clone(&self) -> (r: Self)
        decreases self,
    {
        match self {
            SystemExclusiveMsg::Commercial { id, data } => SystemExclusiveMsg::Commercial {
                id: *id,
                data: data.clone(),
            },
            SystemExclusiveMsg::NonCommercial { data } => SystemExclusiveMsg::NonCommercial {
                data: data.clone(),
            },
            SystemExclusiveMsg::UniversalRealTime { device, msg } => SystemExclusiveMsg::UniversalRealTime {
                device: *device,
                msg: msg.clone(),
            },
            SystemExclusiveMsg::UniversalNonRealTime { device, msg } => SystemExclusiveMsg::UniversalNonRealTime {
                device: *device,
                msg: msg.clone(),
            },
        }
    }
}

} // verus!
