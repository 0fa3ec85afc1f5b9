use ascii::{AsciiChar, AsciiString};
use bstr::{BString, B};
use midi_msg::util::checksum;
use midi_msg::{
    BarMarker, BeatValue, Channel, ChannelVoiceMsg, ChorusType, ControlChangeControllerDestination,
    ControlNumber, ControlledParameter, DeviceID, ExtendedLoopType, ExtendedSampleDumpMsg,
    FileDumpMsg, FileReferenceMsg, FileReferenceType, FileType, GlobalParameter,
    GlobalParameterControl, KeyBasedInstrumentControl, KeyBasedTuningDump,
    MachineControlCommandMsg, MidiMsg, ReceiverContext, SampleDumpMsg, ScaleTuningDump1Byte,
    SelectMap, Signature, SlotPath, SoundFileMap, StandardTimeCode, SystemExclusiveMsg, TimeCode,
    TimeCodeCueingMsg, TimeCodeCueingSetupMsg, TimeCodeType, TimeSignature, Tuning,
    TuningNoteChange, UniversalNonRealTimeMsg, UniversalRealTimeMsg, WAVMap,
};
use std::convert::TryInto;

fn test_serialization(msg: MidiMsg, ctx: &mut ReceiverContext) {
    let midi = msg.to_midi();
    let (msg2, len) = MidiMsg::from_midi_with_context(&midi, ctx).unwrap_or_else(|_| {
        panic!(
            "The input message should be serialized into a deserializable stream\nInput: {:?}\nGot: {:#?}",
            &midi, &msg
        )
    });
    assert_eq!(midi.len(), len);
    assert_eq!(msg, msg2);
}

#[test]
fn system_exclusive_serialize_system_exclusive_msg() {
    assert_eq!(
        MidiMsg::ChannelVoice {
            channel: Channel::Ch1,
            msg: ChannelVoiceMsg::NoteOn {
                note: 0x88,
                velocity: 0xff
            }
        }
        .to_midi(),
        vec![0x90, 0x7f, 127]
    );
}


#[test]
fn mod_serialize_system_exclusive_msg() {
    assert_eq!(
        MidiMsg::SystemExclusive {
            msg: SystemExclusiveMsg::Commercial {
                id: 1.into(),
                data: vec![0xff, 0x77, 0x00]
            }
        }
        .to_midi(),
        vec![0xF0, 0x01, 0x7F, 0x77, 0x00, 0xF7]
    );

    assert_eq!(
        MidiMsg::SystemExclusive {
            msg: SystemExclusiveMsg::Commercial {
                id: (1, 3).into(),
                data: vec![0xff, 0x77, 0x00]
            }
        }
        .to_midi(),
        vec![0xF0, 0x00, 0x01, 0x03, 0x7F, 0x77, 0x00, 0xF7]
    );

    assert_eq!(
        MidiMsg::SystemExclusive {
            msg: SystemExclusiveMsg::NonCommercial {
                data: vec![0xff, 0x77, 0x00]
            }
        }
        .to_midi(),
        vec![0xF0, 0x7D, 0x7F, 0x77, 0x00, 0xF7]
    );

    assert_eq!(
        MidiMsg::SystemExclusive {
            msg: SystemExclusiveMsg::UniversalNonRealTime {
                device: DeviceID::AllCall,
                msg: UniversalNonRealTimeMsg::EOF
            }
        }
        .to_midi(),
        vec![0xF0, 0x7E, 0x7F, 0x7B, 0x00, 0xF7]
    );

    assert_eq!(
        MidiMsg::SystemExclusive {
            msg: SystemExclusiveMsg::UniversalRealTime {
                device: DeviceID::Device(3),
                msg: UniversalRealTimeMsg::MasterVolume(1000)
            }
        }
        .to_midi(),
        vec![0xF0, 0x7F, 0x03, 0x04, 0x01, 0x68, 0x07, 0xF7]
    );
}


#[test]
fn deserialize_system_exclusive_msg() {
    let mut ctx = ReceiverContext::new();

    test_serialization(
        MidiMsg::SystemExclusive {
            msg: SystemExclusiveMsg::Commercial {
                id: 1.into(),
                data: vec![0x7f, 0x77, 0x00],
            },
        },
        &mut ctx,
    );

    test_serialization(
        MidiMsg::SystemExclusive {
            msg: SystemExclusiveMsg::Commercial {
                id: (1, 3).into(),
                data: vec![0x7f, 0x77, 0x00],
            },
        },
        &mut ctx,
    );

    test_serialization(
        MidiMsg::SystemExclusive {
            msg: SystemExclusiveMsg::NonCommercial {
                data: vec![0x7f, 0x77, 0x00],
            },
        },
        &mut ctx,
    );

    test_serialization(
        MidiMsg::SystemExclusive {
            msg: SystemExclusiveMsg::UniversalRealTime {
                device: DeviceID::AllCall,
                msg: UniversalRealTimeMsg::TimeCodeFull(TimeCode {
                    frames: 29,
                    seconds: 58,
                    minutes: 20,
                    hours: 23,
                    code_type: TimeCodeType::DF30,
                }),
            },
        },
        &mut ctx,
    );

    assert_eq!(
        ctx.time_code,
        TimeCode {
            frames: 29,
            seconds: 58,
            minutes: 20,
            hours: 23,
            code_type: TimeCodeType::DF30,
        }
    );
}


#[test]
fn controller_destination_serialize_controller_destination() {
    assert_eq!(
        MidiMsg::SystemExclusive {
            msg: SystemExclusiveMsg::UniversalRealTime {
                device: DeviceID::AllCall,
                msg: UniversalRealTimeMsg::ControlChangeControllerDestination(
                    ControlChangeControllerDestination {
                        channel: Channel::Ch2,
                        control_number: 0x50,
                        param_ranges: vec![
                            (ControlledParameter::PitchControl, 0x42),
                            (ControlledParameter::FilterCutoffControl, 0x60)
                        ]
                    }
                ),
            }
        }
        .to_midi(),
        vec![
            0xF0, 0x7F, 0x7F, // Receiver device
            09, 03, // Sysex IDs
            01, 0x50, 0, 0x42, 1, 0x60, 0xF7
        ]
    );
}


#[test]
fn encode_data() {
    assert_eq!(
        FileDumpMsg::encode_data(&[
            0b11111111, 0b10101010, 0b00000000, 0b01010101, 0b11111111, 0b10101010, 0b00000000,
            0b11010101
        ]),
        vec![
            0b01100110, 0b01111111, 0b00101010, 0b00000000, 0b01010101, 0b01111111, 0b00101010,
            0b00000000, 0b01000000, 0b01010101
        ]
    );
}


#[test]
fn serialize_file_dump_packet() {
    let packet_msg = MidiMsg::SystemExclusive {
        msg: SystemExclusiveMsg::UniversalNonRealTime {
            device: DeviceID::AllCall,
            msg: UniversalNonRealTimeMsg::FileDump(FileDumpMsg::packet(
                129,
                vec![
                    0b11111111, 0b10101010, 0b00000000, 0b01010101, 0b11111111, 0b10101010,
                    0b00000000, 0b11010101,
                ],
            )),
        },
    }
    .to_midi();

    assert_eq!(packet_msg.len(), 19);
    assert_eq!(&packet_msg[0..7], &[0xF0, 0x7E, 0x7F, 0x07, 0x02, 0x01, 9]);
    assert_eq!(
        &packet_msg[7..17],
        &[
            0b01100110, 0b01111111, 0b00101010, 0b00000000, 0b01010101, 0b01111111, 0b00101010,
            0b00000000, 0b01000000, 0b01010101
        ]
    );
    assert_eq!(
        packet_msg[17], // Checksum
        checksum(&[
            0x7E, 0x7F, 0x07, 0x02, 0x01, 9, 0b01100110, 0b01111111, 0b00101010, 0b00000000,
            0b01010101, 0b01111111, 0b00101010, 0b00000000, 0b01000000, 0b01010101
        ])
    );
}


#[test]
fn serialize_file_dump_header() {
    assert_eq!(
        MidiMsg::SystemExclusive {
            msg: SystemExclusiveMsg::UniversalNonRealTime {
                device: DeviceID::AllCall,
                msg: UniversalNonRealTimeMsg::FileDump(FileDumpMsg::Header {
                    sender_device: DeviceID::Device(9),
                    file_type: FileType::MIDI,
                    length: 66,
                    name: BString::from("Hello"),
                }),
            },
        }
        .to_midi(),
        vec![
            0xF0, 0x7E, 0x7F, // Receiver device
            0x7, 0x1, 0x9, // Sender device
            b"M"[0], b"I"[0], b"D"[0], b"I"[0], 66, // Size LSB
            0x0, 0x0, 0x0, b"H"[0], b"e"[0], b"l"[0], b"l"[0], b"o"[0], 0xF7
        ]
    );
}


#[test]
fn file_reference_serialize_sample_dump_msg() {
    assert_eq!(
        MidiMsg::SystemExclusive {
            msg: SystemExclusiveMsg::UniversalNonRealTime {
                device: DeviceID::AllCall,
                msg: UniversalNonRealTimeMsg::FileReference(
                    FileReferenceMsg::OpenSelectContents {
                        ctx: 44,
                        file_type: FileReferenceType::DLS,
                        url: AsciiString::from_ascii("file://foo.dls").unwrap(),
                        map: SelectMap::SoundFile(vec![SoundFileMap {
                            dst_bank: 1 << 10,
                            src_prog: 1,
                            ..Default::default()
                        }]),
                    }
                ),
            },
        }
        .to_midi(),
        vec![
            0xF0,
            0x7E,
            0x7F, // All call
            0x0B,
            0x03, // ExtendedSampleDump header
            44,
            00, // ctx
            28,
            0, // len,
            AsciiChar::D.as_byte(),
            AsciiChar::L.as_byte(),
            AsciiChar::S.as_byte(),
            AsciiChar::Space.as_byte(),
            AsciiChar::f.as_byte(),
            AsciiChar::i.as_byte(),
            AsciiChar::l.as_byte(),
            AsciiChar::e.as_byte(),
            // Start URL
            AsciiChar::Colon.as_byte(),
            AsciiChar::Slash.as_byte(),
            AsciiChar::Slash.as_byte(),
            AsciiChar::f.as_byte(),
            AsciiChar::o.as_byte(),
            AsciiChar::o.as_byte(),
            AsciiChar::Dot.as_byte(),
            AsciiChar::d.as_byte(),
            AsciiChar::l.as_byte(),
            AsciiChar::s.as_byte(),
            0, // End of url
            1, // count
            0,
            8, // dst_bank
            0, //dst_prog
            0,
            0,    // src_bank
            1,    // src_prog
            0,    // flags
            0x7f, // vol
            0xF7
        ]
    );
}


#[test]
fn serialize_global_parameter() {
    assert_eq!(
        MidiMsg::SystemExclusive {
            msg: SystemExclusiveMsg::UniversalRealTime {
                device: DeviceID::AllCall,
                msg: UniversalRealTimeMsg::GlobalParameterControl(GlobalParameterControl {
                    slot_paths: vec![
                        SlotPath::Unregistered(1, 0x47),
                        SlotPath::Unregistered(2, 3)
                    ],
                    param_id_width: 1,
                    value_width: 2,
                    params: vec![
                        GlobalParameter {
                            id: vec![4],
                            value: vec![5, 6, 7] // One byte will be ignored
                        },
                        GlobalParameter {
                            id: vec![4],
                            value: vec![1] // Only the MSB of two bytes
                        }
                    ]
                }),
            },
        }
        .to_midi(),
        vec![
            0xF0, 0x7F, 0x7F, // Receiver device
            04, 05, 2,    // Slot path length
            1,    // Param ID width
            2,    // Value width
            1,    // Slot path 1 MSB
            0x47, // Slot path 1 LSB
            2,    // Slot path 2 MSB
            3,    // Slot path 2 LSB
            4,    // Param number 1
            6,    // Param value 1 LSB
            5,    // Param value 1 MSB
            4,    // Param number 2
            0,    // Param value 2 LSB
            1,    // Param value 2 MSB
            0xF7
        ]
    );

    assert_eq!(
        MidiMsg::SystemExclusive {
            msg: SystemExclusiveMsg::UniversalRealTime {
                device: DeviceID::AllCall,
                msg: UniversalRealTimeMsg::GlobalParameterControl(
                    // The control that `chorus(Some(Flanger), Some(1.1), None, None, Some(100.0))` builds
                    GlobalParameterControl {
                        slot_paths: vec![SlotPath::Chorus],
                        param_id_width: 1,
                        value_width: 1,
                        params: vec![
                            GlobalParameter {
                                id: vec![0],
                                value: vec![ChorusType::Flanger.to_u8()],
                            },
                            GlobalParameter {
                                id: vec![1],
                                value: vec![9], // 1.1 Hz in steps of 0.122 Hz
                            },
                            GlobalParameter {
                                id: vec![4],
                                value: vec![127], // 100% in steps of 0.787%
                            },
                        ],
                    }
                ),
            },
        }
        .to_midi(),
        vec![
            0xF0, 0x7F, 0x7F, // Receiver device
            04, 05, 1,   // Slot path length
            1,   // Param ID width
            1,   // Value width
            1,   // Slot path 1 MSB
            2,   // Slot path 1 LSB
            0,   // Param number 1: chorus type
            5,   // Param value 1
            1,   // Param number 2: mod rate
            9,   // Param value 2
            4,   // Param number 3: send to reverb
            127, // Param value 3
            0xF7
        ]
    );
}


#[test]
fn key_based_instrument_control_serialize_controller_destination() {
    assert_eq!(
        MidiMsg::SystemExclusive {
            msg: SystemExclusiveMsg::UniversalRealTime {
                device: DeviceID::AllCall,
                msg: UniversalRealTimeMsg::KeyBasedInstrumentControl(
                    KeyBasedInstrumentControl {
                        channel: Channel::Ch2,
                        key: 0x60,
                        control_values: vec![
                            (0x06, 0x40), // CC not allowed, should become 0x01
                            (ControlNumber::Effects4Depth.to_u8(), 0x20),
                        ]
                    }
                ),
            }
        }
        .to_midi(),
        vec![
            0xF0, 0x7F, 0x7F, // Receiver device
            0x0A, 01, // Sysex IDs
            01, 0x60, 0x01, 0x40, 94, 0x20, 0xF7
        ]
    );
}


#[test]
fn serialize_machine_control_msg() {
    assert_eq!(
        MidiMsg::SystemExclusive {
            msg: SystemExclusiveMsg::UniversalRealTime {
                device: DeviceID::AllCall,
                msg: UniversalRealTimeMsg::MachineControlCommand(
                    MachineControlCommandMsg::Stop
                ),
            },
        }
        .to_midi(),
        vec![0xF0, 0x7F, 0x7f, 06, 01, 0xF7]
    );

    assert_eq!(
        MidiMsg::SystemExclusive {
            msg: SystemExclusiveMsg::UniversalRealTime {
                device: DeviceID::AllCall,
                msg: UniversalRealTimeMsg::MachineControlCommand(
                    MachineControlCommandMsg::LocateTarget(StandardTimeCode {
                        seconds: 0x20,
                        code_type: TimeCodeType::FPS24, // Is 0
                        ..Default::default()
                    })
                ),
            },
        }
        .to_midi(),
        vec![
            0xF0, 0x7F, 0x7f, // Call call
            06,   // MCC
            0x44, // Locate
            0x06, // Bytes
            01,   // Target
            0, 0, 0x20, 0, 0, // Rest of MTC
            0xF7
        ]
    );
}


#[test]
fn serialize_bar_marker() {
    assert_eq!(
        MidiMsg::SystemExclusive {
            msg: SystemExclusiveMsg::UniversalRealTime {
                device: DeviceID::AllCall,
                msg: UniversalRealTimeMsg::BarMarker(BarMarker::NotRunning),
            },
        }
        .to_midi(),
        vec![0xF0, 0x7F, 0x7f, 03, 01, 0x00, 0x40, 0xF7]
    );

    assert_eq!(
        MidiMsg::SystemExclusive {
            msg: SystemExclusiveMsg::UniversalRealTime {
                device: DeviceID::AllCall,
                msg: UniversalRealTimeMsg::BarMarker(BarMarker::CountIn(1)),
            },
        }
        .to_midi(),
        vec![0xF0, 0x7F, 0x7f, 03, 01, 0x7f, 0x7f, 0xF7]
    );

    assert_eq!(
        MidiMsg::SystemExclusive {
            msg: SystemExclusiveMsg::UniversalRealTime {
                device: DeviceID::AllCall,
                msg: UniversalRealTimeMsg::BarMarker(BarMarker::Number(1)),
            },
        }
        .to_midi(),
        vec![0xF0, 0x7F, 0x7f, 03, 01, 0x01, 0x00, 0xF7]
    );

    assert_eq!(
        MidiMsg::SystemExclusive {
            msg: SystemExclusiveMsg::UniversalRealTime {
                device: DeviceID::AllCall,
                msg: UniversalRealTimeMsg::BarMarker(BarMarker::RunningUnknown),
            },
        }
        .to_midi(),
        vec![0xF0, 0x7F, 0x7f, 03, 01, 0x7f, 0x3f, 0xF7]
    );
}


#[test]
fn serialize_time_signature() {
    assert_eq!(
        MidiMsg::SystemExclusive {
            msg: SystemExclusiveMsg::UniversalRealTime {
                device: DeviceID::AllCall,
                msg: UniversalRealTimeMsg::TimeSignatureDelayed(TimeSignature::default()),
            },
        }
        .to_midi(),
        vec![0xF0, 0x7F, 0x7f, 03, 0x42, 4, 4, 2, 24, 8, 0xF7]
    );

    assert_eq!(
        MidiMsg::SystemExclusive {
            msg: SystemExclusiveMsg::UniversalRealTime {
                device: DeviceID::AllCall,
                msg: UniversalRealTimeMsg::TimeSignature(TimeSignature {
                    compound: vec! {Signature {
                        beats: 3,
                        beat_value: BeatValue::Eighth,
                    }},
                    ..Default::default()
                }),
            },
        }
        .to_midi(),
        vec![0xF0, 0x7F, 0x7f, 03, 0x02, 6, 4, 2, 24, 8, 3, 3, 0xF7]
    );
}


#[test]
fn sample_dump_serialize_sample_dump_msg() {
    assert_eq!(
        MidiMsg::SystemExclusive {
            msg: SystemExclusiveMsg::UniversalNonRealTime {
                device: DeviceID::AllCall,
                msg: UniversalNonRealTimeMsg::ExtendedSampleDump(
                    ExtendedSampleDumpMsg::Header {
                        sample_num: 5,
                        format: 8,
                        sample_rate_integer: 4000,
                        sample_rate_fraction: 1 << 27, // 4000.5 Hz
                        length: 2u64.pow(30),
                        sustain_loop_start: 2u64.pow(10),
                        sustain_loop_end: 2u64.pow(20),
                        loop_type: ExtendedLoopType::BiDirectionalRelease,
                        num_channels: 2
                    }
                ),
            },
        }
        .to_midi(),
        vec![
            0xF0, 0x7E, 0x7F, // All call
            0x05, 0x05, // ExtendedSampleDump header
            05, 00, // Sample number
            8,  // format,
            0b0100000, 0b0011111, 0, 0, // 4000 LSB first
            0, 0, 0, 0x40, // 0.5 LSB first
            0, 0, 0, 0, 0b0000100, // Length
            0, 0b0001000, 0, 0, 0, // Sustain loop start
            0, 0, 0b1000000, 0, 0,    // Sustain loop end
            0x03, // Loop type
            2,    // Num channels
            0xF7
        ]
    );
}


#[test]
fn serialize_show_control_msg() {
}


#[test]
fn serialize_tuning_bulk_dump_reply() {
    let packet_msg = MidiMsg::SystemExclusive {
        msg: SystemExclusiveMsg::UniversalNonRealTime {
            device: DeviceID::AllCall,
            msg: UniversalNonRealTimeMsg::KeyBasedTuningDump(KeyBasedTuningDump {
                tuning_program_num: 5,
                tuning_bank_num: None,
                name: B("A tuning program").try_into().unwrap(), // B creates a &[u8], try_into converts it into an array
                tunings: vec![Some(Tuning {
                    semitone: 1,
                    fraction: 255,
                })],
            }),
        },
    }
    .to_midi();

    assert_eq!(packet_msg.len(), 408);
    assert_eq!(
        &packet_msg[0..7],
        &[0xF0, 0x7E, 0x7F, 0x08, 0x01, 0x05, b"A"[0]]
    );

    assert_eq!(
        &packet_msg[22..31],
        &[
            0x01, 0x01, 0x7f, // Provided tuning
            0x01, 0x00, 0x00, // Default tuning
            0x02, 0x00, 0x00 // Default tuning
        ]
    );
}


#[test]
fn serialize_time_code_cuing_setup_msg() {
    assert_eq!(
        MidiMsg::SystemExclusive {
            msg: SystemExclusiveMsg::UniversalNonRealTime {
                device: DeviceID::AllCall,
                msg: UniversalNonRealTimeMsg::TimeCodeCueingSetup(
                    TimeCodeCueingSetupMsg::SystemStop
                ),
            },
        }
        .to_midi(),
        vec![0xF0, 0x7E, 0x7f, 04, 00, 96, 00, 00, 00, 00, 04, 00, 0xF7]
    );
}


#[test]
fn serialize_time_code_cuing_msg() {
    assert_eq!(
        MidiMsg::SystemExclusive {
            msg: SystemExclusiveMsg::UniversalRealTime {
                device: DeviceID::AllCall,
                msg: UniversalRealTimeMsg::TimeCodeCueing(TimeCodeCueingMsg::SystemStop),
            },
        }
        .to_midi(),
        vec![0xF0, 0x7F, 0x7f, 05, 00, 04, 00, 0xF7]
    );

    assert_eq!(
        MidiMsg::SystemExclusive {
            msg: SystemExclusiveMsg::UniversalRealTime {
                device: DeviceID::AllCall,
                msg: UniversalRealTimeMsg::TimeCodeCueing(TimeCodeCueingMsg::EventStart {
                    event_number: 511,
                    additional_information: vec![]
                }),
            },
        }
        .to_midi(),
        vec![0xF0, 0x7F, 0x7f, 05, 05, 0x7f, 0x03, 0xF7]
    );

    assert_eq!(
        MidiMsg::SystemExclusive {
            msg: SystemExclusiveMsg::UniversalRealTime {
                device: DeviceID::AllCall,
                msg: UniversalRealTimeMsg::TimeCodeCueing(TimeCodeCueingMsg::EventStart {
                    event_number: 511,
                    additional_information: vec![MidiMsg::ChannelVoice {
                        channel: Channel::Ch2,
                        msg: ChannelVoiceMsg::NoteOn {
                            note: 0x55,
                            velocity: 0x67
                        }
                    }]
                }),
            },
        }
        .to_midi(),
        vec![
            0xF0, 0x7F, 0x7f, 05, 07, 0x7f, 0x03,
            // Note on midi msg: 0x91, 0x55, 0x67
            0x01, 0x09, 0x05, 0x05, 0x07, 0x06, // End
            0xF7
        ]
    );
}



#[test]
fn serialize_tuning_note_change() {
    assert_eq!(
        MidiMsg::SystemExclusive {
            msg: SystemExclusiveMsg::UniversalRealTime {
                device: DeviceID::AllCall,
                msg: UniversalRealTimeMsg::TuningNoteChange(TuningNoteChange {
                    tuning_program_num: 5,
                    tuning_bank_num: None,
                    tunings: vec![
                        (
                            1,
                            Some(Tuning {
                                semitone: 1,
                                fraction: 255,
                            }),
                        ),
                        (
                            0x33,
                            Some(Tuning {
                                semitone: 0x33,
                                fraction: 511,
                            }),
                        ),
                        (0x45, None),
                        (0x78, Some(Tuning { semitone: 0x78, fraction: 2 }))
                    ],
                }),
            },
        }
        .to_midi(),
        &[
            0xF0, 0x7F, 0x7F, 0x08, 0x02, 0x05, 4, // Number of changes
            0x01, 0x01, 0x01, 0x7f, // Tuning 1
            0x33, 0x33, 0x03, 0x7f, // Tuning 2
            0x45, 0x7f, 0x7f, 0x7f, // Tuning 3 (no change)
            0x78, 0x78, 0x00, 0x02, // Tuning 4
            0xF7,
        ]
    );
}

#[test]
fn tuning_note_change_count_is_clamped() {
    let tunings: Vec<(u8, Option<Tuning>)> = (0..256).map(|i| ((i % 128) as u8, None)).collect();
    let midi = MidiMsg::SystemExclusive {
        msg: SystemExclusiveMsg::UniversalRealTime {
            device: DeviceID::AllCall,
            msg: UniversalRealTimeMsg::TuningNoteChange(TuningNoteChange {
                tuning_program_num: 5,
                tuning_bank_num: None,
                tunings,
            }),
        },
    }
    .to_midi();
    assert_eq!(midi[6], 127);
    assert_eq!(midi.len(), 7 + 4 * 127 + 1);
    assert_eq!(midi[midi.len() - 1], 0xF7);
}

#[test]
fn key_based_instrument_control_disallowed_controls() {
    assert_eq!(
        MidiMsg::SystemExclusive {
            msg: SystemExclusiveMsg::UniversalRealTime {
                device: DeviceID::AllCall,
                msg: UniversalRealTimeMsg::KeyBasedInstrumentControl(KeyBasedInstrumentControl {
                    channel: Channel::Ch2,
                    key: 0x60,
                    control_values: vec![(0x00, 0x40), (0x62, 0x10), (0x20, 0x11), (94, 0x20)],
                }),
            },
        }
        .to_midi(),
        vec![
            0xF0, 0x7F, 0x7F, 0x0A, 0x01, 1, 0x60, 0x01, 0x40, 0x01, 0x10, 0x01, 0x11, 94, 0x20,
            0xF7
        ]
    );
}

#[test]
fn file_dump_packet_count_is_encoded_length_less_one() {
    for (n, count) in [(0usize, 0u8), (1, 1), (7, 7), (8, 9), (112, 127), (120, 127)] {
        let midi = MidiMsg::SystemExclusive {
            msg: SystemExclusiveMsg::UniversalNonRealTime {
                device: DeviceID::AllCall,
                msg: UniversalNonRealTimeMsg::FileDump(FileDumpMsg::packet(0, vec![0x55; n])),
            },
        }
        .to_midi();
        assert_eq!(midi[6], count);
        let encoded = if n == 0 { 0 } else { count as usize + 1 };
        assert_eq!(midi.len(), 7 + encoded + 2);
    }
}

#[test]
fn sample_dump_packet_checksum_replaces_placeholder() {
    let midi = MidiMsg::SystemExclusive {
        msg: SystemExclusiveMsg::UniversalNonRealTime {
            device: DeviceID::AllCall,
            msg: UniversalNonRealTimeMsg::SampleDump(SampleDumpMsg::Packet {
                running_count: 3,
                data: vec![0x81, 0x02],
            }),
        },
    }
    .to_midi();
    assert_eq!(midi.len(), 127);
    assert_eq!(&midi[0..7], &[0xF0, 0x7E, 0x7F, 0x02, 3, 0x7F, 0x02]);
    assert_eq!(midi[125], checksum(&midi[1..125]));
    assert_eq!(midi[126], 0xF7);
}

#[test]
fn scale_tuning_dump_ends_with_checksum() {
    let midi = MidiMsg::SystemExclusive {
        msg: SystemExclusiveMsg::UniversalNonRealTime {
            device: DeviceID::AllCall,
            msg: UniversalNonRealTimeMsg::ScaleTuningDump1Byte(ScaleTuningDump1Byte {
                tuning_bank_num: 1,
                tuning_program_num: 2,
                name: B("A tuning program").try_into().unwrap(),
                tuning: [0; 12],
            }),
        },
    }
    .to_midi();
    assert_eq!(midi.len(), 5 + 2 + 16 + 12 + 1 + 1);
    assert_eq!(midi[midi.len() - 2], checksum(&midi[1..midi.len() - 2]));
}

#[test]
fn select_map_len_counts_its_bytes() {
    let map = WAVMap {
        dst_bank: 1,
        dst_prog: 2,
        base: 60,
        lokey: 0,
        hikey: 127,
        fine: -3,
        volume: 100,
    };
    assert_eq!(SelectMap::WAV(map).len(), 9);
    assert_eq!(
        SelectMap::WAVBankOffset { map, bank_offset: 5, src_drum: true }.len(),
        16
    );
    assert_eq!(SelectMap::SoundFileBankOffset { bank_offset: 5, src_drum: false }.len(), 7);
}
