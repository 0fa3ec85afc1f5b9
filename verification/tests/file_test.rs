use midi_msg::{
    Channel, ChannelVoiceMsg, Division, FileTimeSignature, Header, KeySignature, Meta, MidiFile,
    MidiMsg, ParseError, SMFFormat, SystemRealTimeMsg, Track, TrackEvent,
};

#[test]
fn test_file_time_signature() {
    let midi_data = vec![4, 2, 24, 8];
    let time_sig = FileTimeSignature::from_midi(&midi_data).unwrap();

    assert_eq!(time_sig.numerator, 4);
    assert_eq!(time_sig.denominator, 4);
    assert_eq!(time_sig.clocks_per_metronome_tick, 24);
    assert_eq!(time_sig.thirty_second_notes_per_24_clocks, 8);

    let mut output = Vec::new();
    time_sig.extend_midi(&mut output);
    assert_eq!(output, midi_data);
}

#[test]
fn test_file_time_signature_error() {
    let midi_data = vec![4, 2, 24];
    assert!(matches!(
        FileTimeSignature::from_midi(&midi_data),
        Err(ParseError::UnexpectedEnd)
    ));
}

#[test]
fn test_key_signature() {
    let midi_data = vec![2, 0];
    let key_sig = KeySignature::from_midi(&midi_data).unwrap();

    assert_eq!(key_sig.key, 2);
    assert_eq!(key_sig.scale, 0);

    let mut output = Vec::new();
    key_sig.extend_midi(&mut output);
    assert_eq!(output, midi_data);
}

#[test]
fn test_key_signature_error() {
    let midi_data = vec![2];
    assert!(matches!(
        KeySignature::from_midi(&midi_data),
        Err(ParseError::UnexpectedEnd)
    ));
}

fn push_event(file: &mut MidiFile, delta_time: u32, event: MidiMsg) {
    file.tracks[0].extend(TrackEvent { delta_time, event });
}

/// The events are placed by their delta times: at beats 0, 0, 0, 1 and 2 of a file with
/// 480 ticks per quarter note.
#[test]
fn test_file_serde() {
    let mut file = MidiFile::default();
    file.header.division = Division::TicksPerQuarterNote(480);

    file.add_track(Track::default());

    push_event(
        &mut file,
        0,
        MidiMsg::Meta {
            msg: Meta::TrackName("Test Track".to_string()),
        },
    );
    push_event(
        &mut file,
        0,
        MidiMsg::Meta {
            msg: Meta::TimeSignature(FileTimeSignature {
                numerator: 4,
                denominator: 4,
                clocks_per_metronome_tick: 24,
                thirty_second_notes_per_24_clocks: 8,
            }),
        },
    );
    push_event(
        &mut file,
        0,
        MidiMsg::ChannelVoice {
            channel: Channel::Ch1,
            msg: ChannelVoiceMsg::NoteOn {
                note: 60,
                velocity: 64,
            },
        },
    );
    push_event(
        &mut file,
        480,
        MidiMsg::ChannelVoice {
            channel: Channel::Ch1,
            msg: ChannelVoiceMsg::NoteOff {
                note: 60,
                velocity: 64,
            },
        },
    );
    push_event(
        &mut file,
        480,
        MidiMsg::Meta {
            msg: Meta::EndOfTrack,
        },
    );

    let bytes = file.to_midi();

    assert!(bytes.starts_with(b"MThd"));
    assert!(bytes[14..].starts_with(b"MTrk"));

    let deserialized_file = MidiFile::from_midi(&bytes).unwrap();
    assert_eq!(deserialized_file.tracks.len(), 1);
    assert_eq!(deserialized_file.tracks[0].events().len(), 5);
    assert_eq!(
        deserialized_file.header.division,
        Division::TicksPerQuarterNote(480)
    );
    assert_eq!(deserialized_file, file);
}

#[test]
fn test_file_system_reset() {
    let mut file = MidiFile::default();
    file.add_track(Track::default());
    push_event(
        &mut file,
        0,
        MidiMsg::SystemRealTime {
            msg: SystemRealTimeMsg::SystemReset,
        },
    );
    let bytes = file.to_midi();

    let deserialized_file = MidiFile::from_midi(&bytes).unwrap();
    assert_eq!(deserialized_file.tracks.len(), 1);
    // The system reset message is not a valid file event, so it is not kept in the track
    assert_eq!(deserialized_file.tracks[0].events().len(), 0);
}

#[test]
fn header_bytes() {
    let header = Header {
        format: SMFFormat::MultiTrack,
        num_tracks: 2,
        division: Division::TicksPerQuarterNote(96),
    };
    let mut v = Vec::new();
    header.extend_midi(&mut v);
    assert_eq!(
        v,
        vec![b'M', b'T', b'h', b'd', 0, 0, 0, 6, 0, 1, 0, 2, 0, 96]
    );
    assert_eq!(Header::from_midi(&v), Ok(header));
    assert_eq!(
        Header::from_midi(&v[..13]),
        Err(ParseError::UnexpectedEnd)
    );
}

#[test]
fn time_signature_denominator_is_a_power_of_two() {
    let sig = FileTimeSignature::from_midi(&[6, 3, 36, 8]).unwrap();
    assert_eq!(sig.numerator, 6);
    assert_eq!(sig.denominator, 8);
    let mut v = Vec::new();
    sig.extend_midi(&mut v);
    assert_eq!(v, vec![6, 3, 36, 8]);
}

#[test]
fn key_signature_of_flats() {
    let sig = KeySignature::from_midi(&[0xFD, 1]).unwrap();
    assert_eq!(sig.key, -3);
    assert_eq!(sig.scale, 1);
}

#[test]
fn meta_events_round_trip() {
    let metas = vec![
        Meta::SequenceNumber(0x1234),
        Meta::Text("hello".to_string()),
        Meta::ChannelPrefix(Channel::Ch5),
        Meta::EndOfTrack,
        Meta::SetTempo(500000),
        Meta::SequencerSpecific(vec![1, 2, 3]),
        Meta::Unknown {
            meta_type: 0x60,
            data: vec![9, 8],
        },
    ];
    for meta in metas {
        let mut v = Vec::new();
        meta.extend_midi(&mut v);
        let (parsed, len) = Meta::from_midi(&v).unwrap();
        assert_eq!(len, v.len());
        assert_eq!(parsed, meta);
    }
}

#[test]
fn truncated_meta_events_are_refused() {
    assert_eq!(Meta::from_midi(&[0x00, 0x02, 0x12]), Err(ParseError::UnexpectedEnd));
    assert_eq!(Meta::from_midi(&[0x51, 0x03, 0x07, 0xA1]), Err(ParseError::UnexpectedEnd));
}

#[test]
fn extend_at_tick_sets_delta_from_last_event() {
    let mut track = Track::Midi(vec![]);
    let note = |note: u8| MidiMsg::ChannelVoice {
        channel: Channel::Ch1,
        msg: ChannelVoiceMsg::NoteOn { note, velocity: 100 },
    };
    track.extend_at_tick(0, note(60));
    track.extend_at_tick(96, note(62));
    track.extend_at_tick(96, note(64));
    track.extend_at_tick(480, note(65));
    assert_eq!(track.total_ticks(), 480);
    let deltas: Vec<u32> = track.events().iter().map(|e| e.delta_time).collect();
    assert_eq!(deltas, vec![0, 96, 0, 384]);
}

#[test]
fn read_error_names_track_and_event() {
    let bytes = vec![
        0x4D, 0x54, 0x68, 0x64, 0, 0, 0, 6, 0, 0, 0, 1, 0, 96, // header
        0x4D, 0x54, 0x72, 0x6B, 0, 0, 0, 6, // track
        0x00, 0xC0, 0x05, // program change
        0x00, 0xF4, 0x00, // not a track event
    ];
    let e = MidiFile::from_midi(&bytes).unwrap_err();
    assert_eq!(e.error, ParseError::Invalid("Invalid track event"));
    assert_eq!(e.parsing, "track 0 event 1");
    assert_eq!(e.offset, 25);
    assert_eq!(e.file.tracks.len(), 1);
    assert_eq!(e.file.tracks[0].len(), 1);
}

#[test]
fn decimal_numbers() {
    assert_eq!(midi_msg::parse_error::decimal(0), "0");
    assert_eq!(midi_msg::parse_error::decimal(7), "7");
    assert_eq!(midi_msg::parse_error::decimal(1203), "1203");
    assert_eq!(midi_msg::parse_error::decimal(u64::MAX), "18446744073709551615");
}

#[test]
fn read_error_after_a_track_keeps_its_label() {
    let bytes = vec![
        0x4D, 0x54, 0x68, 0x64, 0, 0, 0, 6, 0, 1, 0, 2, 0, 96, // header, two tracks
        0x4D, 0x54, 0x72, 0x6B, 0, 0, 0, 4, // track
        0x00, 0xFF, 0x2F, 0x00, // end of track
        0x4D, 0x54, 0x72, // incomplete head
    ];
    let e = MidiFile::from_midi(&bytes).unwrap_err();
    assert_eq!(e.error, ParseError::UnexpectedEnd);
    assert_eq!(e.offset, 26);
    assert_eq!(e.parsing, "track 0 event 0");
    assert_eq!(e.file.tracks.len(), 1);
}

#[test]
fn read_error_past_track_end_names_last_event() {
    let bytes = vec![
        0x4D, 0x54, 0x68, 0x64, 0, 0, 0, 6, 0, 0, 0, 1, 0, 96, // header
        0x4D, 0x54, 0x72, 0x6B, 0, 0, 0, 2, // track claims 2 bytes
        0x00, 0xFF, 0x2F, 0x00, // end of track takes 4
    ];
    let e = MidiFile::from_midi(&bytes).unwrap_err();
    assert_eq!(e.error, ParseError::Invalid("Track length exceeded the provided length"));
    assert_eq!(e.offset, 26);
    assert_eq!(e.parsing, "track 0 event 0");
}
