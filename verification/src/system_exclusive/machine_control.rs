use vstd::prelude::*;

use crate::parse_error::ParseError;
use crate::time_code::StandardTimeCode;
use crate::util::extend_from_slice;

verus! {

/// A MIDI Machine Control Command.
/// Used by [`UniversalRealTimeMsg::MachineControlCommand`](crate::UniversalRealTimeMsg::MachineControlCommand).
///
/// Only partially implemented. The `Unimplemented` value can be used to
/// represent commands not supported here.
///
/// As defined in MIDI Machine Control 1.0 (MMA0016 / RP013)
#[derive(Debug, Clone, PartialEq)]
pub enum MachineControlCommandMsg {
    Stop,
    Play,
    DeferredPlay,
    FastForward,
    Rewind,
    RecordStrobe,
    RecordExit,
    RecordPause,
    Pause,
    Eject,
    Chase,
    CommandErrorReset,
    MMCReset,
    /// Only `InformationField`s that are time codes are supported
    LocateInformationField(InformationField),
    LocateTarget(StandardTimeCode),
    Wait,
    Resume,
    /// Used to represent all unimplemented MCC messages.
    /// Is inherently not guaranteed to be a valid message.
    Unimplemented(Vec<u8>),
}

/// Used by [`MachineControlCommandMsg`].
#[derive(Debug, Clone, Copy, PartialEq)]
pub enum InformationField {
    SelectedTimeCode,
    SelectedMasterCode,
    RequestedOffset,
    ActualOffset,
    LockDeviation,
    GeneratorTimeCode,
    MidiTimeCodeInput,
    GP0,
    GP1,
    GP2,
    GP3,
    GP4,
    GP5,
    GP6,
    GP7,
}

/// A MIDI Machine Control Response
/// Used by [`UniversalRealTimeMsg::MachineControlResponse`](crate::UniversalRealTimeMsg::MachineControlResponse).
///
/// Not yet implemented. The `Unimplemented` value can be used to
/// represent commands not supported here.
///
/// As defined in MIDI Machine Control 1.0 (MMA0016 / RP013)
#[derive(Debug, Clone, PartialEq)]
pub enum MachineControlResponseMsg {
    /// Used to represent all unimplemented MCR messages.
    /// Is inherently not guaranteed to be a valid message.
    Unimplemented(Vec<u8>),
}

/// The tracks of a machine, as used by machine control messages that select tracks.
/// Serialization is not yet implemented: it appends nothing.
pub struct StandardTrack {
    pub video_active: bool,
    pub time_code_active: bool,
    pub time_code_track_active: bool,
    pub aux_track_a_active: bool,
    pub aux_track_b_active: bool,
    pub track_1_active: bool,
    pub track_2_active: bool,
    pub other_tracks: Vec<bool>,
}

impl InformationField {
    /// The number of the information field.
    pub open spec fn spec_to_u8(self) -> u8 {
        match self {
            InformationField::SelectedTimeCode => 0x01,
            InformationField::SelectedMasterCode => 0x02,
            InformationField::RequestedOffset => 0x03,
            InformationField::ActualOffset => 0x04,
            InformationField::LockDeviation => 0x05,
            InformationField::GeneratorTimeCode => 0x06,
            InformationField::MidiTimeCodeInput => 0x07,
            InformationField::GP0 => 0x08,
            InformationField::GP1 => 0x09,
            InformationField::GP2 => 0x0A,
            InformationField::GP3 => 0x0B,
            InformationField::GP4 => 0x0C,
            InformationField::GP5 => 0x0D,
            InformationField::GP6 => 0x0E,
            InformationField::GP7 => 0x0F,
        }
    }

    /// The number of the information field.
    pub fn to_u8(&self) -> (r: u8)
        ensures
            r == self.spec_to_u8(),
    {
        match self {
            InformationField::SelectedTimeCode => 0x01,
            InformationField::SelectedMasterCode => 0x02,
            InformationField::RequestedOffset => 0x03,
            InformationField::ActualOffset => 0x04,
            InformationField::LockDeviation => 0x05,
            InformationField::GeneratorTimeCode => 0x06,
            InformationField::MidiTimeCodeInput => 0x07,
            InformationField::GP0 => 0x08,
            InformationField::GP1 => 0x09,
            InformationField::GP2 => 0x0A,
            InformationField::GP3 => 0x0B,
            InformationField::GP4 => 0x0C,
            InformationField::GP5 => 0x0D,
            InformationField::GP6 => 0x0E,
            InformationField::GP7 => 0x0F,
        }
    }
}

impl MachineControlCommandMsg {
    /// The bytes of the command.
    pub open spec fn spec_midi(self) -> Seq<u8> {
        match self {
            MachineControlCommandMsg::Stop => seq![0x01u8],
            MachineControlCommandMsg::Play => seq![0x02u8],
            MachineControlCommandMsg::DeferredPlay => seq![0x03u8],
            MachineControlCommandMsg::FastForward => seq![0x04u8],
            MachineControlCommandMsg::Rewind => seq![0x05u8],
            MachineControlCommandMsg::RecordStrobe => seq![0x06u8],
            MachineControlCommandMsg::RecordExit => seq![0x07u8],
            MachineControlCommandMsg::RecordPause => seq![0x08u8],
            MachineControlCommandMsg::Pause => seq![0x09u8],
            MachineControlCommandMsg::Eject => seq![0x0Au8],
            MachineControlCommandMsg::Chase => seq![0x0Bu8],
            MachineControlCommandMsg::CommandErrorReset => seq![0x0Cu8],
            MachineControlCommandMsg::MMCReset => seq![0x0Du8],
            MachineControlCommandMsg::LocateInformationField(f) => seq![
                0x44u8,
                2u8,
                0u8,
                f.spec_to_u8(),
            ],
            MachineControlCommandMsg::LocateTarget(stc) => seq![0x44u8, 6u8, 1u8]
                + stc.spec_midi(),
            MachineControlCommandMsg::Wait => seq![0x01u8],
            MachineControlCommandMsg::Resume => seq![0x01u8],
            MachineControlCommandMsg::Unimplemented(d) => d@,
        }
    }

    /// Append the command.
    pub fn extend_midi(&self, v: &mut Vec<u8>)
        ensures
            final(v)@ == old(v)@ + self.spec_midi(),
    {
        match self {
            MachineControlCommandMsg::Stop => v.push(0x01),
            MachineControlCommandMsg::Play => v.push(0x02),
            MachineControlCommandMsg::DeferredPlay => v.push(0x03),
            MachineControlCommandMsg::FastForward => v.push(0x04),
            MachineControlCommandMsg::Rewind => v.push(0x05),
            MachineControlCommandMsg::RecordStrobe => v.push(0x06),
            MachineControlCommandMsg::RecordExit => v.push(0x07),
            MachineControlCommandMsg::RecordPause => v.push(0x08),
            MachineControlCommandMsg::Pause => v.push(0x09),
            MachineControlCommandMsg::Eject => v.push(0x0A),
            MachineControlCommandMsg::Chase => v.push(0x0B),
            MachineControlCommandMsg::CommandErrorReset => v.push(0x0C),
            MachineControlCommandMsg::MMCReset => v.push(0x0D),
            MachineControlCommandMsg::LocateInformationField(f) => {
                v.push(0x44);
                v.push(2);
                v.push(0);
                v.push(f.to_u8());
            },
            MachineControlCommandMsg::LocateTarget(stc) => {
                v.push(0x44);
                v.push(6);
                v.push(1);
                stc.extend_midi(v);
            },
            MachineControlCommandMsg::Wait => v.push(0x01),
            MachineControlCommandMsg::Resume => v.push(0x01),
            MachineControlCommandMsg::Unimplemented(d) => extend_from_slice(v, d.as_slice()),
        }
    }

    /// Parsing of machine control commands is not implemented: always an error, which says so.
    pub fn from_midi(_m: &[u8]) -> (r: Result<(MachineControlCommandMsg, usize), ParseError>)
        ensures
            r matches Err(e) && e == ParseError::Invalid("TODO: Not implemented"),
    {
        Err(ParseError::Invalid("TODO: Not implemented"))
    }
}

impl MachineControlResponseMsg {
    /// The bytes as given.
    pub open spec fn spec_midi(self) -> Seq<u8> {
        match self {
            MachineControlResponseMsg::Unimplemented(d) => d@,
        }
    }

    /// Append the bytes as given.
    pub fn extend_midi(&self, v: &mut Vec<u8>)
        ensures
            final(v)@ == old(v)@ + self.spec_midi(),
    {
        match self {
            MachineControlResponseMsg::Unimplemented(d) => extend_from_slice(v, d.as_slice()),
        }
    }

    /// Parsing of machine control responses is not implemented: always an error, which says so.
    pub fn from_midi(_m: &[u8]) -> (r: Result<(MachineControlResponseMsg, usize), ParseError>)
        ensures
            r matches Err(e) && e == ParseError::Invalid("TODO: Not implemented"),
    {
        Err(ParseError::Invalid("TODO: Not implemented"))
    }
}

impl StandardTrack {
    /// Serialization of tracks is not yet implemented: appends nothing.
    pub fn extend_midi(&self, v: &mut Vec<u8>)
        ensures
            final(v)@ == old(v)@,
    {
    }
}

} // verus!
