use midi_msg::{
    Channel, ChannelModeMsg, ChannelVoiceMsg, ControlChange, MidiMsg, Parameter, PolyMode,
    ReceiverContext,
};

fn test_serialization(msg: MidiMsg, ctx: &mut ReceiverContext) {
    let midi = msg.to_midi();
    let (msg2, len) = MidiMsg::from_midi_with_context(&midi, ctx).unwrap_or_else(|_| {
        panic!(
            "The input message should be serialized into a deserializable stream\nInput: {:?}\nGot: {:#?}",
            &midi, &msg
        )
    });
    assert_eq!(
        midi.len(),
        len,
        "Expected deserializing of {:?} to be of length {} but got {:?} which has length {}",
        &msg,
        midi.len(),
        &msg2,
        len
    );
    assert_eq!(msg, msg2);
}

#[test]
fn serialize_channel_mode_msg() {
    assert_eq!(
        MidiMsg::ChannelMode {
            channel: Channel::Ch3,
            msg: ChannelModeMsg::AllSoundOff
        }
        .to_midi(),
        vec![0xB2, 120, 0]
    );

    assert_eq!(
        MidiMsg::RunningChannelMode {
            channel: Channel::Ch3,
            msg: ChannelModeMsg::AllSoundOff
        }
        .to_midi(),
        vec![120, 0]
    );

    assert_eq!(
        MidiMsg::ChannelMode {
            channel: Channel::Ch3,
            msg: ChannelModeMsg::LocalControl(true)
        }
        .to_midi(),
        vec![0xB2, 122, 127]
    );

    assert_eq!(
        MidiMsg::ChannelMode {
            channel: Channel::Ch3,
            msg: ChannelModeMsg::OmniMode(true)
        }
        .to_midi(),
        vec![0xB2, 125, 0]
    );

    assert_eq!(
        MidiMsg::ChannelMode {
            channel: Channel::Ch3,
            msg: ChannelModeMsg::OmniMode(false)
        }
        .to_midi(),
        vec![0xB2, 124, 0]
    );

    assert_eq!(
        MidiMsg::ChannelMode {
            channel: Channel::Ch3,
            msg: ChannelModeMsg::PolyMode(PolyMode::Poly)
        }
        .to_midi(),
        vec![0xB2, 127, 0]
    );

    assert_eq!(
        MidiMsg::ChannelMode {
            channel: Channel::Ch3,
            msg: ChannelModeMsg::PolyMode(PolyMode::Mono(4))
        }
        .to_midi(),
        vec![0xB2, 126, 4]
    );
}

#[test]
fn serialize_channel_voice_msg() {
    assert_eq!(
        MidiMsg::ChannelVoice {
            channel: Channel::Ch1,
            msg: ChannelVoiceMsg::NoteOn {
                note: 0x88,
                velocity: 0xff
            }
        }
        .to_midi(),
        vec![0x90, 0x7f, 127]
    );

    assert_eq!(
        MidiMsg::RunningChannelVoice {
            channel: Channel::Ch10,
            msg: ChannelVoiceMsg::PitchBend { bend: 0xff44 }
        }
        .to_midi(),
        vec![0x7f, 0x7f]
    );

    assert_eq!(
        MidiMsg::ChannelVoice {
            channel: Channel::Ch10,
            msg: ChannelVoiceMsg::PitchBend { bend: 1000 }
        }
        .to_midi(),
        vec![0xE9, 0x68, 0x07]
    );

    assert_eq!(
        MidiMsg::ChannelVoice {
            channel: Channel::Ch2,
            msg: ChannelVoiceMsg::ControlChange {
                control: ControlChange::Volume(1000)
            }
        }
        .to_midi(),
        vec![0xB1, 7, 0x07, 39, 0x68]
    );

    assert_eq!(
        MidiMsg::ChannelVoice {
            channel: Channel::Ch4,
            msg: ChannelVoiceMsg::ControlChange {
                control: ControlChange::Undefined {
                    control: 85,
                    value: 77
                }
            }
        }
        .to_midi(),
        vec![0xB3, 85, 77]
    );

    assert_eq!(
        MidiMsg::ChannelVoice {
            channel: Channel::Ch2,
            msg: ChannelVoiceMsg::ControlChange {
                control: ControlChange::UndefinedHighRes {
                    control1: 3,
                    control2: 35,
                    value: 1000
                }
            }
        }
        .to_midi(),
        vec![0xB1, 3, 0x07, 35, 0x68]
    );

    assert_eq!(
        MidiMsg::ChannelVoice {
            channel: Channel::Ch3,
            msg: ChannelVoiceMsg::ControlChange {
                control: ControlChange::TogglePortamento(true)
            }
        }
        .to_midi(),
        vec![0xB2, 65, 0x7f]
    );

    assert_eq!(
        MidiMsg::ChannelVoice {
            channel: Channel::Ch2,
            msg: ChannelVoiceMsg::ControlChange {
                control: ControlChange::Parameter(Parameter::FineTuning)
            }
        }
        .to_midi(),
        vec![0xB1, 100, 0x01, 101, 0x00]
    );

    assert_eq!(
        MidiMsg::ChannelVoice {
            channel: Channel::Ch2,
            msg: ChannelVoiceMsg::ControlChange {
                control: ControlChange::Parameter(Parameter::Unregistered(1000))
            }
        }
        .to_midi(),
        vec![0xB1, 98, 0x68, 99, 0x07]
    );
}

#[test]
fn deserialize_channel_voice_msg() {
    let mut ctx = ReceiverContext::new();

    test_serialization(
        MidiMsg::ChannelVoice {
            channel: Channel::Ch1,
            msg: ChannelVoiceMsg::NoteOn {
                note: 0x7f,
                velocity: 0x7f,
            },
        },
        &mut ctx,
    );

    test_serialization(
        MidiMsg::ChannelVoice {
            channel: Channel::Ch10,
            msg: ChannelVoiceMsg::PitchBend { bend: 1000 },
        },
        &mut ctx,
    );

    test_serialization(
        MidiMsg::ChannelVoice {
            channel: Channel::Ch2,
            msg: ChannelVoiceMsg::ControlChange {
                control: ControlChange::Volume(1000),
            },
        },
        &mut ctx,
    );

    test_serialization(
        MidiMsg::ChannelVoice {
            channel: Channel::Ch4,
            msg: ChannelVoiceMsg::ControlChange {
                control: ControlChange::Undefined {
                    control: 85,
                    value: 77,
                },
            },
        },
        &mut ctx,
    );

    test_serialization(
        MidiMsg::ChannelVoice {
            channel: Channel::Ch2,
            msg: ChannelVoiceMsg::ControlChange {
                control: ControlChange::UndefinedHighRes {
                    control1: 3,
                    control2: 35,
                    value: 1000,
                },
            },
        },
        &mut ctx,
    );

    test_serialization(
        MidiMsg::ChannelVoice {
            channel: Channel::Ch3,
            msg: ChannelVoiceMsg::ControlChange {
                control: ControlChange::TogglePortamento(true),
            },
        },
        &mut ctx,
    );

    test_serialization(
        MidiMsg::ChannelVoice {
            channel: Channel::Ch2,
            msg: ChannelVoiceMsg::ControlChange {
                control: ControlChange::Parameter(Parameter::FineTuning),
            },
        },
        &mut ctx,
    );

    test_serialization(
        MidiMsg::ChannelVoice {
            channel: Channel::Ch2,
            msg: ChannelVoiceMsg::ControlChange {
                control: ControlChange::Parameter(Parameter::Unregistered(1000)),
            },
        },
        &mut ctx,
    );

    test_serialization(
        MidiMsg::ChannelVoice {
            channel: Channel::Ch3,
            msg: ChannelVoiceMsg::HighResNoteOn {
                note: 77,
                velocity: 1000,
            },
        },
        &mut ctx,
    );

    test_serialization(
        MidiMsg::ChannelVoice {
            channel: Channel::Ch2,
            msg: ChannelVoiceMsg::ControlChange {
                control: ControlChange::Parameter(Parameter::FineTuningEntry(-30)),
            },
        },
        &mut ctx,
    );

    test_serialization(
        MidiMsg::ChannelVoice {
            channel: Channel::Ch2,
            msg: ChannelVoiceMsg::ControlChange {
                control: ControlChange::Parameter(Parameter::Gain3DSoundEntry(1001)),
            },
        },
        &mut ctx,
    );

    test_serialization(
        MidiMsg::ChannelVoice {
            channel: Channel::Ch2,
            msg: ChannelVoiceMsg::ControlChange {
                control: ControlChange::Parameter(Parameter::PitchBendSensitivityEntry(4, 78)),
            },
        },
        &mut ctx,
    );

    test_serialization(
        MidiMsg::ChannelVoice {
            channel: Channel::Ch2,
            msg: ChannelVoiceMsg::ControlChange {
                control: ControlChange::GeneralPurpose1(50),
            },
        },
        &mut ctx,
    );
}

#[test]
fn general_purpose_6_to_8_controllers() {
    for (control, number) in [
        (ControlChange::GeneralPurpose6(10), 81u8),
        (ControlChange::GeneralPurpose7(10), 82),
        (ControlChange::GeneralPurpose8(10), 83),
    ] {
        let msg = MidiMsg::ChannelVoice {
            channel: Channel::Ch1,
            msg: ChannelVoiceMsg::ControlChange { control },
        };
        assert_eq!(msg.to_midi(), vec![0xB0, number, 10]);
        test_serialization(msg, &mut ReceiverContext::new());
    }
}

#[test]
fn parameter_values_are_clamped() {
    let bytes = |control: ControlChange| {
        MidiMsg::ChannelVoice {
            channel: Channel::Ch1,
            msg: ChannelVoiceMsg::ControlChange { control },
        }
        .to_midi()
    };
    assert_eq!(
        bytes(ControlChange::Parameter(Parameter::PitchBendSensitivityEntry(200, 0))),
        vec![0xB0, 100, 0, 101, 0, 6, 0x7F, 38, 0]
    );
    assert_eq!(
        bytes(ControlChange::Parameter(Parameter::TuningProgramSelectEntry(200))),
        vec![0xB0, 100, 3, 101, 0, 6, 0x7F]
    );
    assert_eq!(
        bytes(ControlChange::Parameter(Parameter::TuningBankSelectEntry(200))),
        vec![0xB0, 100, 4, 101, 0, 6, 0x7F]
    );
    assert_eq!(bytes(ControlChange::DataEntry2(200, 0x90)), vec![0xB0, 6, 0x7F, 38, 0x7F]);
}

#[test]
fn msb_only_parameter_entries_read_back() {
    for p in [
        Parameter::CoarseTuningEntry(6),
        Parameter::CoarseTuningEntry(-64),
        Parameter::CoarseTuningEntry(63),
        Parameter::TuningProgramSelectEntry(5),
        Parameter::TuningBankSelectEntry(127),
        Parameter::PolyphonicExpressionEntry(16),
        Parameter::PitchBendSensitivityEntry(12, 50),
        Parameter::FineTuningEntry(-30),
    ] {
        test_serialization(
            MidiMsg::ChannelVoice {
                channel: Channel::Ch3,
                msg: ChannelVoiceMsg::ControlChange { control: ControlChange::Parameter(p) },
            },
            &mut ReceiverContext::new(),
        );
    }
}

#[test]
fn combining_control_changes_ignores_order() {
    let cc = |control: ControlChange| ChannelVoiceMsg::ControlChange { control };
    let a = cc(ControlChange::Undefined { control: 100, value: 1 });
    let b = cc(ControlChange::Undefined { control: 101, value: 0 });
    let fine = Ok(cc(ControlChange::Parameter(Parameter::FineTuning)));
    assert_eq!(a.maybe_extend(&b), fine);
    assert_eq!(b.maybe_extend(&a), fine);
    let v = cc(ControlChange::Volume(1));
    let h = cc(ControlChange::Hold(2));
    assert_eq!(v.maybe_extend(&h), Err(()));
    assert_eq!(h.maybe_extend(&v), Err(()));
}

#[test]
fn combining_accepts_any_value() {
    let cc = |control: ControlChange| ChannelVoiceMsg::ControlChange { control };
    let p = cc(ControlChange::Parameter(Parameter::ModulationDepthRange));
    let lsb = cc(ControlChange::Undefined { control: 38, value: 200 });
    let entry = Ok(cc(ControlChange::Parameter(Parameter::ModulationDepthRangeEntry(200))));
    assert_eq!(p.maybe_extend(&lsb), entry);
    assert_eq!(lsb.maybe_extend(&p), entry);
}

#[test]
fn read_back_after_an_extensible_message() {
    let mut ctx = ReceiverContext::new();
    let volume = MidiMsg::ChannelVoice {
        channel: Channel::Ch1,
        msg: ChannelVoiceMsg::ControlChange { control: ControlChange::Volume(1000) },
    };
    test_serialization(volume, &mut ctx);
    test_serialization(
        MidiMsg::ChannelVoice {
            channel: Channel::Ch1,
            msg: ChannelVoiceMsg::ControlChange { control: ControlChange::Pan(2000) },
        },
        &mut ctx,
    );
    test_serialization(
        MidiMsg::ChannelVoice {
            channel: Channel::Ch1,
            msg: ChannelVoiceMsg::NoteOn { note: 60, velocity: 90 },
        },
        &mut ctx,
    );
}
