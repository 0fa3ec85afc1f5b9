use midi_msg::{
    StandardTimeCode, SubFrames,
    MidiMsg, ReceiverContext, SystemCommonMsg, SystemRealTimeMsg, TimeCode, TimeCodeType,
};

fn test_serialization(msg: MidiMsg, ctx: &mut ReceiverContext) {
    let midi = msg.to_midi();
    let (msg2, len) = MidiMsg::from_midi_with_context(&midi, ctx).unwrap_or_else(|_| {
        panic!(
            "The input message should be serialized into a deserializable stream\nInput: {:?}\nGot: {:#?}",
            &midi, &msg
        )
    });
    assert_eq!(midi.len(), len);
    assert_eq!(msg, msg2);
}

#[test]
fn serialize_system_common_msg() {
    assert_eq!(
        MidiMsg::SystemCommon {
            msg: SystemCommonMsg::TuneRequest
        }
        .to_midi(),
        vec![0xF6]
    );

    assert_eq!(
        MidiMsg::SystemCommon {
            msg: SystemCommonMsg::SongSelect(69)
        }
        .to_midi(),
        vec![0xF3, 69]
    );

    assert_eq!(
        MidiMsg::SystemCommon {
            msg: SystemCommonMsg::SongPosition(1000)
        }
        .to_midi(),
        vec![0xF2, 0x68, 0x07]
    );

    let frame = TimeCode {
        frames: 40,                    // Should be limited to 29: 0b00011101
        seconds: 58,                   // 0b00111010
        minutes: 20,                   // 0b00010100
        hours: 25,                     // Should be limited to 23: 0b00010111
        code_type: TimeCodeType::DF30, //      0b01000000
    };

    assert_eq!(
        MidiMsg::SystemCommon {
            msg: SystemCommonMsg::TimeCodeQuarterFrame1(frame)
        }
        .to_midi(),
        vec![0xF1, 0b1101]
    );
    assert_eq!(
        MidiMsg::SystemCommon {
            msg: SystemCommonMsg::TimeCodeQuarterFrame2(frame)
        }
        .to_midi(),
        vec![0xF1, 0b00010000 + 0b0001]
    );
    assert_eq!(
        MidiMsg::SystemCommon {
            msg: SystemCommonMsg::TimeCodeQuarterFrame3(frame)
        }
        .to_midi(),
        vec![0xF1, 0b00100000 + 0b1010]
    );
    assert_eq!(
        MidiMsg::SystemCommon {
            msg: SystemCommonMsg::TimeCodeQuarterFrame4(frame)
        }
        .to_midi(),
        vec![0xF1, 0b00110000 + 0b0011]
    );
    assert_eq!(
        MidiMsg::SystemCommon {
            msg: SystemCommonMsg::TimeCodeQuarterFrame5(frame)
        }
        .to_midi(),
        vec![0xF1, 0b01000000 + 0b0100]
    );
    assert_eq!(
        MidiMsg::SystemCommon {
            msg: SystemCommonMsg::TimeCodeQuarterFrame6(frame)
        }
        .to_midi(),
        vec![0xF1, 0b01010000 + 0b0001]
    );
    assert_eq!(
        MidiMsg::SystemCommon {
            msg: SystemCommonMsg::TimeCodeQuarterFrame7(frame)
        }
        .to_midi(),
        vec![0xF1, 0b01100000 + 0b0111]
    );
    assert_eq!(
        MidiMsg::SystemCommon {
            msg: SystemCommonMsg::TimeCodeQuarterFrame8(frame)
        }
        .to_midi(),
        vec![0xF1, 0b01110000 + 0b0101]
    );
}


#[test]
fn deserialize_system_common_msg() {
    let mut ctx = ReceiverContext::new();

    test_serialization(
        MidiMsg::SystemCommon {
            msg: SystemCommonMsg::TuneRequest,
        },
        &mut ctx,
    );

    test_serialization(
        MidiMsg::SystemCommon {
            msg: SystemCommonMsg::SongPosition(1000),
        },
        &mut ctx,
    );

    MidiMsg::from_midi_with_context(&[0xF1, 0b1101], &mut ctx)
        .expect("Expected a timecode, got an error");
    MidiMsg::from_midi_with_context(&[0xF1, 0b00010000 + 0b0001], &mut ctx)
        .expect("Expected a timecode, got an error");
    MidiMsg::from_midi_with_context(&[0xF1, 0b00100000 + 0b1010], &mut ctx)
        .expect("Expected a timecode, got an error");
    MidiMsg::from_midi_with_context(&[0xF1, 0b00110000 + 0b0011], &mut ctx)
        .expect("Expected a timecode, got an error");
    MidiMsg::from_midi_with_context(&[0xF1, 0b01000000 + 0b0100], &mut ctx)
        .expect("Expected a timecode, got an error");
    MidiMsg::from_midi_with_context(&[0xF1, 0b01010000 + 0b0001], &mut ctx)
        .expect("Expected a timecode, got an error");
    MidiMsg::from_midi_with_context(&[0xF1, 0b01100000 + 0b0111], &mut ctx)
        .expect("Expected a timecode, got an error");
    MidiMsg::from_midi_with_context(&[0xF1, 0b01110000 + 0b0101], &mut ctx)
        .expect("Expected a timecode, got an error");

    assert_eq!(
        ctx.time_code,
        TimeCode {
            frames: 29,                    // 0b00011101
            seconds: 58,                   // 0b00111010
            minutes: 20,                   // 0b00010100
            hours: 23,                     // 0b00010111
            code_type: TimeCodeType::DF30, // 0b01000000
        }
    );
}


#[test]
fn serialize_system_real_time_msg() {
    assert_eq!(
        MidiMsg::SystemRealTime {
            msg: SystemRealTimeMsg::TimingClock
        }
        .to_midi(),
        vec![0xF8]
    );
}


#[test]
fn deserialize_system_real_time_msg() {
    let mut ctx = ReceiverContext::new();

    test_serialization(
        MidiMsg::SystemRealTime {
            msg: SystemRealTimeMsg::TimingClock,
        },
        &mut ctx,
    );
}



#[test]
fn standard_time_code_frames_are_clamped() {
    let tc = |frames: i8| StandardTimeCode {
        subframes: SubFrames::FractionalFrames(5),
        frames,
        seconds: 1,
        minutes: 2,
        hours: 3,
        code_type: TimeCodeType::NDF30,
    };
    assert_eq!(tc(-128).to_bytes_short(), [5, 29 + 64]);
    assert_eq!(tc(-3).to_bytes_short(), [5, 3 + 64]);
    assert_eq!(tc(127).to_bytes_short(), [5, 29]);
    assert_eq!(tc(-128).to_bytes()[1], 29 + 64);
}
