use vstd::prelude::*;

use crate::parse_error::ParseError;
use crate::util::extend_from_slice;

verus! {

/// A MIDI Show Control command.
/// Used by [`UniversalRealTimeMsg::ShowControl`](crate::UniversalRealTimeMsg::ShowControl).
///
/// As defined in MIDI Show Control 1.1.1 (RP002/RP014)
#[derive(Debug, Clone, PartialEq, Eq)]
pub enum ShowControlMsg {
    /// Until this is implemented, the bytes of a message are given verbatim.
    Unimplemented(Vec<u8>),
}

impl ShowControlMsg {
    /// The bytes as given.
    pub open spec fn spec_midi(self) -> Seq<u8> {
        match self {
            ShowControlMsg::Unimplemented(d) => d@,
        }
    }

    /// Append the bytes as given.
    pub fn extend_midi(&self, v: &mut Vec<u8>)
        ensures
            final(v)@ == old(v)@ + self.spec_midi(),
    {
        match self {
            ShowControlMsg::Unimplemented(d) => extend_from_slice(v, d.as_slice()),
        }
    }

    /// Parsing of show control messages is not implemented: always an error.
    pub fn from_midi(_m: &[u8]) -> (r: Result<(ShowControlMsg, usize), ParseError>)
        ensures
            r matches Err(e) && e == ParseError::NotImplemented("ShowControlMsg"),
    {
        Err(ParseError::NotImplemented("ShowControlMsg"))
    }
}

} // verus!
