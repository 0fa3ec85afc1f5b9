use midi_msg::{StandardTimeCode, StandardUserBits, SubFrames, UserBits};
use midi_msg::{
    Channel, ChannelVoiceMsg, ControlChange, MidiMsg, ParseError, ReceiverContext,
    SystemCommonMsg, SystemRealTimeMsg, TimeCode, TimeCodeType,
};

#[test]
fn parse_errors_name_what_went_wrong() {
    assert_eq!(MidiMsg::from_midi(&[]), Err(ParseError::UnexpectedEnd));
    assert_eq!(MidiMsg::from_midi(&[0x90, 0x40]), Err(ParseError::UnexpectedEnd));
    assert_eq!(
        MidiMsg::from_midi(&[0x40, 0x40]),
        Err(ParseError::ContextlessRunningStatus)
    );
    assert_eq!(
        MidiMsg::from_midi(&[0xF4]),
        Err(ParseError::UndefinedSystemCommonMessage(0xF4))
    );
    assert_eq!(
        MidiMsg::from_midi(&[0xF9]),
        Err(ParseError::UndefinedSystemRealTimeMessage(0xF9))
    );
    assert_eq!(
        MidiMsg::from_midi(&[0xF7]),
        Err(ParseError::UnexpectedEndOfSystemExclusiveFlag)
    );
    assert_eq!(
        MidiMsg::from_midi(&[0xF0, 0x7D, 0x01]),
        Err(ParseError::NoEndOfSystemExclusiveFlag)
    );
    assert_eq!(
        MidiMsg::from_midi(&[0xF0, 0x7D, 0x81, 0xF7]),
        Err(ParseError::ByteOverflow)
    );
    assert_eq!(
        MidiMsg::from_midi(&[0xB0, 120, 0]),
        Err(ParseError::NotImplemented("ChannelModeMsg"))
    );
    assert_eq!(MidiMsg::from_midi(&[0x90, 0x80, 0x10]), Err(ParseError::ByteOverflow));
}

#[test]
fn running_status_continues_the_last_channel_message() {
    let mut ctx = ReceiverContext::new();
    let (first, len) = MidiMsg::from_midi_with_context(&[0x93, 0x40, 0x20], &mut ctx).unwrap();
    assert_eq!(len, 3);
    assert_eq!(
        first,
        MidiMsg::ChannelVoice {
            channel: Channel::Ch4,
            msg: ChannelVoiceMsg::NoteOn {
                note: 0x40,
                velocity: 0x20
            }
        }
    );
    let (second, len) = MidiMsg::from_midi_with_context(&[0x41, 0x00], &mut ctx).unwrap();
    assert_eq!(len, 2);
    assert_eq!(
        second,
        MidiMsg::ChannelVoice {
            channel: Channel::Ch4,
            msg: ChannelVoiceMsg::NoteOn {
                note: 0x41,
                velocity: 0x00
            }
        }
    );
    // A system real-time message does not interrupt the running status.
    let (clock, len) = MidiMsg::from_midi_with_context(&[0xF8], &mut ctx).unwrap();
    assert_eq!(len, 1);
    assert_eq!(
        clock,
        MidiMsg::SystemRealTime {
            msg: SystemRealTimeMsg::TimingClock
        }
    );
    let (third, _) = MidiMsg::from_midi_with_context(&[0x42, 0x10], &mut ctx).unwrap();
    assert_eq!(
        third,
        MidiMsg::ChannelVoice {
            channel: Channel::Ch4,
            msg: ChannelVoiceMsg::NoteOn {
                note: 0x42,
                velocity: 0x10
            }
        }
    );
}

#[test]
fn running_messages_omit_the_status_byte() {
    let msg = MidiMsg::RunningChannelVoice {
        channel: Channel::Ch1,
        msg: ChannelVoiceMsg::ControlChange {
            control: ControlChange::Volume(1000),
        },
    };
    assert_eq!(msg.to_midi(), vec![7, 0x07, 39, 0x68]);
}

#[test]
fn messages_are_written_one_after_the_other() {
    let msgs = vec![
        MidiMsg::SystemRealTime {
            msg: SystemRealTimeMsg::Start,
        },
        MidiMsg::SystemCommon {
            msg: SystemCommonMsg::SongSelect(3),
        },
        MidiMsg::ChannelVoice {
            channel: Channel::Ch16,
            msg: ChannelVoiceMsg::ProgramChange { program: 9 },
        },
    ];
    assert_eq!(
        MidiMsg::messages_to_midi(&msgs),
        vec![0xFA, 0xF3, 3, 0xCF, 9]
    );
}

#[test]
fn quarter_frames_set_the_time_code_whatever_it_was() {
    let mut ctx = ReceiverContext::new();
    ctx.time_code = TimeCode {
        frames: 7,
        seconds: 7,
        minutes: 7,
        hours: 7,
        code_type: TimeCodeType::FPS24,
    };
    let tc = TimeCode {
        frames: 12,
        seconds: 34,
        minutes: 56,
        hours: 21,
        code_type: TimeCodeType::FPS25,
    };
    let msgs = [
        SystemCommonMsg::TimeCodeQuarterFrame1(tc),
        SystemCommonMsg::TimeCodeQuarterFrame2(tc),
        SystemCommonMsg::TimeCodeQuarterFrame3(tc),
        SystemCommonMsg::TimeCodeQuarterFrame4(tc),
        SystemCommonMsg::TimeCodeQuarterFrame5(tc),
        SystemCommonMsg::TimeCodeQuarterFrame6(tc),
        SystemCommonMsg::TimeCodeQuarterFrame7(tc),
        SystemCommonMsg::TimeCodeQuarterFrame8(tc),
    ];
    for msg in msgs {
        let bytes = MidiMsg::SystemCommon { msg }.to_midi();
        let (_, len) = MidiMsg::from_midi_with_context(&bytes, &mut ctx).unwrap();
        assert_eq!(len, 2);
    }
    assert_eq!(ctx.time_code, tc);
}

#[test]
fn high_resolution_notes_combine_two_messages() {
    let msg = MidiMsg::ChannelVoice {
        channel: Channel::Ch2,
        msg: ChannelVoiceMsg::HighResNoteOn {
            note: 60,
            velocity: 1000,
        },
    };
    let bytes = msg.to_midi();
    assert_eq!(bytes, vec![0x91, 60, 0x07, 0xB1, 0x58, 0x68]);
    let mut ctx = ReceiverContext::new();
    let (parsed, len) = MidiMsg::from_midi_with_context(&bytes, &mut ctx).unwrap();
    assert_eq!(len, 6);
    assert_eq!(parsed, msg);
}

#[test]
fn time_code_conversions() {
    let tc = TimeCode {
        frames: 12,
        seconds: 34,
        minutes: 56,
        hours: 21,
        code_type: TimeCodeType::DF30,
    };
    let s: StandardTimeCode = tc.into();
    assert_eq!(s.frames, 12);
    assert_eq!(s.hours, 21);
    assert_eq!(s.subframes, SubFrames::FractionalFrames(0));
    let bits: StandardUserBits = tc.into();
    assert_eq!(bits.bytes, (21 + 2 * 32, 56, 34, 12));
    assert!(bits.secondary_time_code);
    let back: TimeCode = bits.into();
    assert_eq!(back, tc);
    let plain = StandardUserBits::from(UserBits {
        bytes: (1, 2, 3, 4),
        flag1: true,
        flag2: false,
    });
    assert_eq!(plain.bytes, (1, 2, 3, 4));
    assert!(plain.flag1);
    assert!(!plain.secondary_time_code);
}
