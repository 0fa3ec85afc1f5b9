use vstd::prelude::*;

use crate::message::Channel;
use crate::parse_error::ParseError;
use crate::util::{spec_u7, to_u7};

verus! {

/// Intended to act like Control Change messages, but targeted at an individual key.
/// For e.g. Drum sounds that have configurable attack/release/decay per key.
/// Used by [`UniversalRealTimeMsg::KeyBasedInstrumentControl`](crate::UniversalRealTimeMsg::KeyBasedInstrumentControl).
///
/// Defined in CA-023.
#[derive(Debug, Clone, PartialEq)]
pub struct KeyBasedInstrumentControl {
    pub channel: Channel,
    /// The MIDI key number.
    pub key: u8,
    /// Any number of (control number, value) pairs.
    ///
    /// Any controller number may be used except Bank Select MSB/LSB (0x00, 0x20), Data Entry
    /// MSB/LSB (0x06, 0x26), the RPN/NRPN messages (0x60 to 0x65) and the Channel Mode messages
    /// (0x78 and above). Disallowed control numbers are sent as 0x01.
    pub control_values: Vec<(u8, u8)>,
}

/// A control number, with the disallowed ones coerced to 0x01.
pub open spec fn spec_allowed_control(cc: u8) -> u8 {
    if cc == 0x00 || cc == 0x20 || cc == 0x06 || cc == 0x26 || (0x60 <= cc && cc <= 0x65) || cc
        >= 0x78 {
        1
    } else {
        cc
    }
}

/// Each (control number, value) pair as [allowed control number, value (7-bit)].
pub open spec fn spec_control_values_midi(s: Seq<(u8, u8)>) -> Seq<u8>
    decreases s.len(),
{
    if s.len() == 0 {
        Seq::empty()
    } else {
        spec_control_values_midi(s.drop_last()) + seq![
            spec_allowed_control(s.last().0),
            spec_u7(s.last().1 as int),
        ]
    }
}

impl KeyBasedInstrumentControl {
    /// [channel number, key (7-bit)] followed by the control values.
    pub open spec fn spec_midi(self) -> Seq<u8> {
        seq![self.channel.spec_to_u8(), spec_u7(self.key as int)] + spec_control_values_midi(
            self.control_values@,
        )
    }

    /// Append the key based control.
    pub fn extend_midi(&self, v: &mut Vec<u8>)
        ensures
            final(v)@ == old(v)@ + self.spec_midi(),
    {
        v.push(self.channel.to_u8());
        v.push(to_u7(self.key));
        let ghost start = v@;
        let mut i: usize = 0;
        while i < self.control_values.len()
            invariant
                i <= self.control_values@.len(),
                v@ == start + spec_control_values_midi(self.control_values@.take(i as int)),
            decreases self.control_values@.len() - i,
        {
            let (cc, x) = self.control_values[i];
            if cc == 0x00 || cc == 0x20 || cc == 0x06 || cc == 0x26 || (0x60 <= cc && cc <= 0x65)
                || cc >= 0x78 {
                v.push(1);
            } else {
                v.push(cc);
            }
            v.push(to_u7(x));
            i = i + 1;
            assert(self.control_values@.take(i as int).drop_last() == self.control_values@.take(
                i - 1,
            ));
        }
        assert(self.control_values@.take(self.control_values@.len() as int)
            == self.control_values@);
    }

    /// Parsing of key based instrument control is not implemented: always an error.
    pub fn from_midi(_m: &[u8]) -> (r: Result<(KeyBasedInstrumentControl, usize), ParseError>)
        ensures
            r matches Err(e) && e == ParseError::NotImplemented("KeyBasedInstrumentControl"),
    {
        Err(ParseError::NotImplemented("KeyBasedInstrumentControl"))
    }
}

} // verus!
