//! Serialization and deserialization of MIDI byte streams, with a typed representation of
//! the messages of the MIDI 1.0 Detailed Specification and its extensions.
pub mod parse_error;
pub mod util;
pub mod text;
pub mod channel_voice;
pub mod time_code;
pub mod channel_mode;
pub mod system_common;
pub mod system_real_time;
pub mod system_exclusive;
pub mod general_midi;
pub mod file;
pub mod parse_outcome;
pub mod assigned_numbers;
pub mod message;
pub mod round_trip;
pub mod file_round_trip;
pub mod well_formed;

pub use parse_error::ParseError;
pub use util::{
    i14_from_u7s, to_i14, to_nibble, to_u14, to_u21, to_u28, to_u35, to_u7, u14_from_u7s,
};
pub use channel_voice::{ChannelVoiceMsg, ControlChange, ControlNumber, Parameter};
pub use channel_mode::{ChannelModeMsg, PolyMode};
pub use time_code::{
    HighResTimeCode, StandardTimeCode, StandardUserBits, SubFrames, TimeCode,
    TimeCodeCueingMsg, TimeCodeCueingSetupMsg, TimeCodeStatus, TimeCodeType, UserBits,
};
pub use system_common::SystemCommonMsg;
pub use system_real_time::SystemRealTimeMsg;
pub use general_midi::{GMPercussionMap, GMSoundSet, GeneralMidi};
pub use system_exclusive::{
    DeviceID, IdentityReply, ManufacturerID, SystemExclusiveMsg, UniversalNonRealTimeMsg,
    UniversalRealTimeMsg,
};
pub use system_exclusive::controller_destination::{
    ControlChangeControllerDestination, ControlledParameter, ControllerDestination,
};
pub use system_exclusive::file_dump::{FileDumpMsg, FileType};
pub use system_exclusive::file_reference::{
    FileReferenceMsg, FileReferenceType, SelectMap, SoundFileMap, WAVMap,
};
pub use system_exclusive::global_parameter::{
    ChorusType, GlobalParameter, GlobalParameterControl, ReverbType, SlotPath,
};
pub use system_exclusive::key_based_instrument_control::KeyBasedInstrumentControl;
pub use system_exclusive::machine_control::{
    InformationField, MachineControlCommandMsg, MachineControlResponseMsg, StandardTrack,
};
pub use system_exclusive::notation::{BarMarker, BeatValue, Signature, TimeSignature};
pub use system_exclusive::sample_dump::{
    ExtendedLoopType, ExtendedSampleDumpMsg, LoopNumber, LoopType, SampleDumpMsg,
};
pub use system_exclusive::show_control::ShowControlMsg;
pub use system_exclusive::tuning::{
    ChannelBitMap, KeyBasedTuningDump, ScaleTuning1Byte, ScaleTuning2Byte, ScaleTuningDump1Byte,
    ScaleTuningDump2Byte, Tuning, TuningNoteChange,
};
pub use file::{
    Division, FileTimeSignature, Header, KeySignature, Meta, MidiFile, MidiFileParseError,
    SMFFormat, Track, TrackEvent,
};
pub use message::{Channel, MidiMsg, ReceiverContext};
