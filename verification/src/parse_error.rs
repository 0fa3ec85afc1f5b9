use vstd::prelude::*;
use vstd::string::StringExecFns;

verus! {

/// Returned when [`MidiMsg::from_midi`](crate::MidiMsg::from_midi) and similar were not successful.
#[derive(Debug, Clone, PartialEq, Eq)]
pub enum ParseError {
    /// The given input ended before a `MidiMsg` could be fully formed.
    UnexpectedEnd,
    /// Received a non-status byte with no prior channel messages.
    ContextlessRunningStatus,
    /// Reached end without an End of System Exclusive flag.
    NoEndOfSystemExclusiveFlag,
    /// Encountered an unexpected End of System Exclusive flag.
    UnexpectedEndOfSystemExclusiveFlag,
    /// Received a system exclusive message but system exclusive support is unavailable.
    SystemExclusiveDisabled,
    /// Received a meta event message but file support is unavailable.
    FileDisabled,
    /// The series of bytes was otherwise invalid.
    Invalid(&'static str),
    /// Attempted to use a not yet implemented feature.
    NotImplemented(&'static str),
    /// A byte exceeded 7 bits.
    ByteOverflow,
    /// A variable length quantity exceeded 4 bytes.
    VlqOverflow,
    /// Encountered an undefined system common message
    UndefinedSystemCommonMessage(u8),
    /// Encountered an undefined system real time message
    UndefinedSystemRealTimeMessage(u8),
    /// Encountered an undefined system exclusive message
    UndefinedSystemExclusiveMessage(Option<u8>),
}

/// The character of a hexadecimal digit, in lower case.
pub open spec fn spec_hex_digit(n: u8) -> char {
    if n < 10 {
        ('0' as u8 + n) as char
    } else {
        ('a' as u8 + n - 10) as char
    }
}

/// A byte written as `0x` and two lower case hexadecimal digits.
pub open spec fn spec_hex_byte(b: u8) -> Seq<char> {
    seq!['0', 'x', spec_hex_digit(b / 16), spec_hex_digit(b % 16)]
}

/// The hexadecimal digit of a value below 16.
fn hex_digit(n: u8) -> (r: &'static str)
    requires
        n < 16,
    ensures
        r@ == seq![spec_hex_digit(n)],
{
    proof {
        reveal_strlit("0");
        reveal_strlit("1");
        reveal_strlit("2");
        reveal_strlit("3");
        reveal_strlit("4");
        reveal_strlit("5");
        reveal_strlit("6");
        reveal_strlit("7");
        reveal_strlit("8");
        reveal_strlit("9");
        reveal_strlit("a");
        reveal_strlit("b");
        reveal_strlit("c");
        reveal_strlit("d");
        reveal_strlit("e");
        reveal_strlit("f");
    }
    let r = match n {
        0 => "0",
        1 => "1",
        2 => "2",
        3 => "3",
        4 => "4",
        5 => "5",
        6 => "6",
        7 => "7",
        8 => "8",
        9 => "9",
        10 => "a",
        11 => "b",
        12 => "c",
        13 => "d",
        14 => "e",
        _ => "f",
    };
    assert(r@ =~= seq![spec_hex_digit(n)]);
    r
}

/// A number written in decimal, without leading zeros.
pub open spec fn spec_decimal(n: nat) -> Seq<char>
    decreases n,
{
    if n < 10 {
        seq![spec_hex_digit(n as u8)]
    } else {
        spec_decimal(n / 10) + seq![spec_hex_digit((n % 10) as u8)]
    }
}

/// Write a number in decimal, without leading zeros.
pub fn decimal(n: u64) -> (r: String)
    ensures
        r@ == spec_decimal(n as nat),
    decreases n,
{
    if n < 10 {
        let mut r = String::new();
        r.append(hex_digit(n as u8));
        assert(r@ =~= spec_decimal(n as nat));
        r
    } else {
        let mut r = decimal(n / 10);
        r.append(hex_digit((n % 10) as u8));
        assert(r@ =~= spec_decimal(n as nat));
        r
    }
}

/// A byte written as `0x` and two lower case hexadecimal digits.
fn hex_byte(b: u8) -> (r: String)
    ensures
        r@ == spec_hex_byte(b),
{
    proof {
        reveal_strlit("0x");
    }
    let mut r = String::from_str("0x");
    r.append(hex_digit(b / 16));
    r.append(hex_digit(b % 16));
    assert(r@ =~= spec_hex_byte(b));
    r
}

impl ParseError {
    /// The text of the description of the error, after its common prefix.
    pub open spec fn spec_detail(self) -> Seq<char> {
        match self {
            ParseError::UnexpectedEnd => "The input ended before a MidiMsg could be fully formed"@,
            ParseError::ContextlessRunningStatus => "Received a non-status byte with no prior channel messages"@,
            ParseError::NoEndOfSystemExclusiveFlag => "Tried to read a SystemExclusiveMsg, but reached the end without an End of System Exclusive flag"@,
            ParseError::UnexpectedEndOfSystemExclusiveFlag => "Encountered an unexpected End of System Exclusive flag"@,
            ParseError::SystemExclusiveDisabled => "Received a system exclusive message but the crate was built without the sysex feature"@,
            ParseError::FileDisabled => "Received a meta event message but the crate was built without the file feature"@,
            ParseError::ByteOverflow => "A byte exceeded 7 bits"@,
            ParseError::VlqOverflow => "A variable-length quantity exceeded 4 bytes"@,
            ParseError::NotImplemented(what) => what@ + " is not yet implemented"@,
            ParseError::Invalid(what) => what@,
            ParseError::UndefinedSystemCommonMessage(b) => "Encountered undefined system common message "@
                + spec_hex_byte(b),
            ParseError::UndefinedSystemRealTimeMessage(b) => "Encountered undefined system real time message "@
                + spec_hex_byte(b),
            ParseError::UndefinedSystemExclusiveMessage(Some(b)) => "Encountered undefined system exclusive message "@
                + spec_hex_byte(b),
            ParseError::UndefinedSystemExclusiveMessage(None) => "Encountered undefined system exclusive message None"@,
        }
    }

    /// The description of the error, as it is shown to a user.
    pub open spec fn spec_text(self) -> Seq<char> {
        "Error parsing MIDI input: "@ + self.spec_detail()
    }

    /// The description of the error, as it is shown to a user: a common prefix and what went
    /// wrong, with an offending byte written in hexadecimal.
    pub fn to_string(&self) -> (r: String)
        ensures
            r@ == self.spec_text(),
    {
        let mut r = String::from_str("Error parsing MIDI input: ");
        match self {
            ParseError::UnexpectedEnd => {
                r.append("The input ended before a MidiMsg could be fully formed");
            },
            ParseError::ContextlessRunningStatus => {
                r.append("Received a non-status byte with no prior channel messages");
            },
            ParseError::NoEndOfSystemExclusiveFlag => {
                r.append("Tried to read a SystemExclusiveMsg, but reached the end without an End of System Exclusive flag");
            },
            ParseError::UnexpectedEndOfSystemExclusiveFlag => {
                r.append("Encountered an unexpected End of System Exclusive flag");
            },
            ParseError::SystemExclusiveDisabled => {
                r.append("Received a system exclusive message but the crate was built without the sysex feature");
            },
            ParseError::FileDisabled => {
                r.append("Received a meta event message but the crate was built without the file feature");
            },
            ParseError::ByteOverflow => {
                r.append("A byte exceeded 7 bits");
            },
            ParseError::VlqOverflow => {
                r.append("A variable-length quantity exceeded 4 bytes");
            },
            ParseError::NotImplemented(what) => {
                r.append(what);
                r.append(" is not yet implemented");
            },
            ParseError::Invalid(what) => {
                r.append(what);
            },
            ParseError::UndefinedSystemCommonMessage(b) => {
                r.append("Encountered undefined system common message ");
                r.append(hex_byte(*b).as_str());
            },
            ParseError::UndefinedSystemRealTimeMessage(b) => {
                r.append("Encountered undefined system real time message ");
                r.append(hex_byte(*b).as_str());
            },
            ParseError::UndefinedSystemExclusiveMessage(Some(b)) => {
                r.append("Encountered undefined system exclusive message ");
                r.append(hex_byte(*b).as_str());
            },
            ParseError::UndefinedSystemExclusiveMessage(None) => {
                r.append("Encountered undefined system exclusive message None");
            },
        }
        r
    }
}

} // verus!
