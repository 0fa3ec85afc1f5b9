//! The shape of what is written: a status byte followed by data bytes, values clamped to the
//! bits that they are sent in.
use vstd::prelude::*;

use crate::channel_mode::ChannelModeMsg;
use crate::channel_voice::{ChannelVoiceMsg, ControlChange, Parameter};
use crate::message::{lemma_channel_round_trip, Channel, MidiMsg};
use crate::system_common::SystemCommonMsg;
use crate::system_exclusive::{spec_u7s, SystemExclusiveMsg};
use crate::system_real_time::SystemRealTimeMsg;

verus! {

/// Whether every byte is a data byte (below 0x80).
pub open spec fn spec_all_data(s: Seq<u8>) -> bool {
    forall|j: int| 0 <= j < s.len() ==> s[j] <= 127
}

/// Whether `s` is one message: a status byte (0x80 or above) followed by data bytes.
pub open spec fn spec_status_then_data(s: Seq<u8>) -> bool {
    &&& s.len() >= 1
    &&& s[0] >= 0x80
    &&& spec_all_data(s.subrange(1, s.len() as int))
}

/// The bytes of a parameter change are data bytes.
proof fn lemma_parameter_bytes(p: Parameter)
    ensures
        spec_all_data(p.spec_midi_running()),
{
}

/// The bytes of a control change are data bytes.
#[verifier::rlimit(50)]
proof fn lemma_control_bytes(c: ControlChange)
    ensures
        spec_all_data(c.spec_midi_running()),
{
    if let ControlChange::Parameter(p) = c {
        lemma_parameter_bytes(p);
    }
}

/// Values out of range are clamped, never spilling into a status byte: a channel voice message
/// is a status byte followed by data bytes (a high resolution note is two such messages, the
/// note and the control change that carries the low bits of its velocity), whatever its values.
pub proof fn lemma_channel_voice_bytes(channel: Channel, msg: ChannelVoiceMsg)
    ensures
        ({
            let m = MidiMsg::ChannelVoice { channel, msg }.spec_midi();
            match msg {
                ChannelVoiceMsg::HighResNoteOff { .. } | ChannelVoiceMsg::HighResNoteOn { .. } => {
                    &&& m.len() == 6
                    &&& spec_status_then_data(m.subrange(0, 3))
                    &&& spec_status_then_data(m.subrange(3, 6))
                },
                _ => spec_status_then_data(m),
            }
        }),
{
    lemma_channel_round_trip(channel);
    let m = MidiMsg::ChannelVoice { channel, msg }.spec_midi();
    let run = msg.spec_midi_running();
    if let ChannelVoiceMsg::ControlChange { control } = msg {
        lemma_control_bytes(control);
    }
    match msg {
        ChannelVoiceMsg::HighResNoteOff { .. } | ChannelVoiceMsg::HighResNoteOn { .. } => {
            assert(m.subrange(0, 3).subrange(1, 3) == run.subrange(0, 2));
            assert(m.subrange(3, 6).subrange(1, 3) == run.subrange(3, 5));
        },
        _ => {
            assert(m.subrange(1, m.len() as int) == run);
        },
    }
}

/// A channel mode message is a status byte followed by data bytes.
pub proof fn lemma_channel_mode_bytes(channel: Channel, msg: ChannelModeMsg)
    ensures
        spec_status_then_data((MidiMsg::ChannelMode { channel, msg }).spec_midi()),
{
    lemma_channel_round_trip(channel);
    let m = MidiMsg::ChannelMode { channel, msg }.spec_midi();
    assert(m.subrange(1, m.len() as int) == msg.spec_midi_running());
}

/// A system common message is a status byte followed by data bytes, whatever its values.
pub proof fn lemma_system_common_bytes(msg: SystemCommonMsg)
    ensures
        spec_status_then_data((MidiMsg::SystemCommon { msg }).spec_midi()),
{
    let m = MidiMsg::SystemCommon { msg }.spec_midi();
    match msg {
        SystemCommonMsg::TimeCodeQuarterFrame1(tc) | SystemCommonMsg::TimeCodeQuarterFrame2(tc)
        | SystemCommonMsg::TimeCodeQuarterFrame3(tc) | SystemCommonMsg::TimeCodeQuarterFrame4(tc)
        | SystemCommonMsg::TimeCodeQuarterFrame5(tc) | SystemCommonMsg::TimeCodeQuarterFrame6(tc)
        | SystemCommonMsg::TimeCodeQuarterFrame7(tc) | SystemCommonMsg::TimeCodeQuarterFrame8(
            tc,
        ) => {
            assert(tc.spec_to_bytes()[3] <= 119);
        },
        _ => {},
    }
    assert(m.subrange(1, m.len() as int).len() == m.len() - 1);
}

/// A system real-time message is a single status byte.
pub proof fn lemma_system_real_time_bytes(msg: SystemRealTimeMsg)
    ensures
        (MidiMsg::SystemRealTime { msg }).spec_midi().len() == 1,
        spec_status_then_data((MidiMsg::SystemRealTime { msg }).spec_midi()),
{
    let m = MidiMsg::SystemRealTime { msg }.spec_midi();
    assert(m.subrange(1, 1).len() == 0);
}

/// A commercial or non-commercial system exclusive message is its start flag, data bytes and
/// its end flag, whatever its ID and data: both are clamped to seven bits.
pub proof fn lemma_system_exclusive_bytes(msg: SystemExclusiveMsg)
    requires
        (msg is Commercial || msg is NonCommercial),
    ensures
        ({
            let m = MidiMsg::SystemExclusive { msg }.spec_midi();
            &&& m.len() >= 2
            &&& m[0] == 0xF0
            &&& m[m.len() - 1] == 0xF7
            &&& spec_all_data(m.subrange(1, m.len() - 1))
        }),
{
    let m = MidiMsg::SystemExclusive { msg }.spec_midi();
    let body = msg.spec_body();
    assert(m.subrange(1, m.len() - 1) == body);
    match msg {
        SystemExclusiveMsg::Commercial { id, data } => {
            let d = spec_u7s(data@);
            assert(forall|j: int| 0 <= j < d.len() ==> d[j] <= 127);
        },
        SystemExclusiveMsg::NonCommercial { data } => {
            let d = spec_u7s(data@);
            assert(forall|j: int| 0 <= j < d.len() ==> d[j] <= 127);
        },
        _ => {},
    }
}

} // verus!
