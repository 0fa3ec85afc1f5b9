use midi_msg::ParseError;

#[test]
fn parse_error_descriptions() {
    assert_eq!(
        ParseError::UnexpectedEnd.to_string(),
        "Error parsing MIDI input: The input ended before a MidiMsg could be fully formed"
    );
    assert_eq!(
        ParseError::NotImplemented("ChannelModeMsg").to_string(),
        "Error parsing MIDI input: ChannelModeMsg is not yet implemented"
    );
    assert_eq!(
        ParseError::Invalid("Invalid header").to_string(),
        "Error parsing MIDI input: Invalid header"
    );
    assert_eq!(
        ParseError::VlqOverflow.to_string(),
        "Error parsing MIDI input: A variable-length quantity exceeded 4 bytes"
    );
}

#[test]
fn parse_error_bytes_are_hexadecimal() {
    assert_eq!(
        ParseError::UndefinedSystemCommonMessage(0xF4).to_string(),
        "Error parsing MIDI input: Encountered undefined system common message 0xf4"
    );
    assert_eq!(
        ParseError::UndefinedSystemRealTimeMessage(0x09).to_string(),
        "Error parsing MIDI input: Encountered undefined system real time message 0x09"
    );
    assert_eq!(
        ParseError::UndefinedSystemExclusiveMessage(Some(0xAB)).to_string(),
        "Error parsing MIDI input: Encountered undefined system exclusive message 0xab"
    );
    assert_eq!(
        ParseError::UndefinedSystemExclusiveMessage(None).to_string(),
        "Error parsing MIDI input: Encountered undefined system exclusive message None"
    );
}
