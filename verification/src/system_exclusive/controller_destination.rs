use vstd::prelude::*;

use crate::message::Channel;
use crate::parse_error::ParseError;
use crate::util::{spec_u7, to_u7};

verus! {

/// Allows for the selection of the destination of a channel pressure/poly key pressure message.
/// Used by [`UniversalRealTimeMsg`](crate::UniversalRealTimeMsg).
///
/// Defined in CA-022.
#[derive(Debug, Clone, PartialEq, Eq)]
pub struct ControllerDestination {
    pub channel: Channel,
    /// Any parameter can only be used once.
    pub param_ranges: Vec<(ControlledParameter, u8)>,
}

/// Allows for the selection of the destination of a control change message.
/// Used by [`UniversalRealTimeMsg::ControlChangeControllerDestination`](crate::UniversalRealTimeMsg::ControlChangeControllerDestination).
///
/// Defined in CA-022.
#[derive(Debug, Clone, PartialEq, Eq)]
pub struct ControlChangeControllerDestination {
    pub channel: Channel,
    /// A control number between `0x01` - `0x1F` or `0x40` - `0x5F`
    /// Values outside these ranges will be coerced
    pub control_number: u8,
    /// Any parameter can only be used once.
    pub param_ranges: Vec<(ControlledParameter, u8)>,
}

/// The parameters that can be controlled by [`ControllerDestination`] or
/// [`ControlChangeControllerDestination`].
#[derive(Debug, Clone, Copy, PartialEq, Eq)]
pub enum ControlledParameter {
    PitchControl,
    FilterCutoffControl,
    AmplitudeControl,
    LFOPitchDepth,
    LFOFilterDepth,
    LFOAmplitudeDepth,
}

impl ControlledParameter {
    /// The number of the parameter.
    pub open spec fn spec_to_u8(self) -> u8 {
        match self {
            ControlledParameter::PitchControl => 0,
            ControlledParameter::FilterCutoffControl => 1,
            ControlledParameter::AmplitudeControl => 2,
            ControlledParameter::LFOPitchDepth => 3,
            ControlledParameter::LFOFilterDepth => 4,
            ControlledParameter::LFOAmplitudeDepth => 5,
        }
    }

    /// The number of the parameter.
    pub fn to_u8(&self) -> (r: u8)
        ensures
            r == self.spec_to_u8(),
    {
        match self {
            ControlledParameter::PitchControl => 0,
            ControlledParameter::FilterCutoffControl => 1,
            ControlledParameter::AmplitudeControl => 2,
            ControlledParameter::LFOPitchDepth => 3,
            ControlledParameter::LFOFilterDepth => 4,
            ControlledParameter::LFOAmplitudeDepth => 5,
        }
    }
}

/// Each (parameter, range) pair as [parameter number, range (7-bit)].
pub open spec fn spec_param_ranges_midi(s: Seq<(ControlledParameter, u8)>) -> Seq<u8>
    decreases s.len(),
{
    if s.len() == 0 {
        Seq::empty()
    } else {
        spec_param_ranges_midi(s.drop_last()) + seq![
            s.last().0.spec_to_u8(),
            spec_u7(s.last().1 as int),
        ]
    }
}

fn extend_param_ranges(v: &mut Vec<u8>, s: &Vec<(ControlledParameter, u8)>)
    ensures
        final(v)@ == old(v)@ + spec_param_ranges_midi(s@),
{
    let ghost start = v@;
    let mut i: usize = 0;
    while i < s.len()
        invariant
            i <= s@.len(),
            v@ == start + spec_param_ranges_midi(s@.take(i as int)),
        decreases s@.len() - i,
    {
        let (p, r) = s[i];
        v.push(p.to_u8());
        v.push(to_u7(r));
        i = i + 1;
        assert(s@.take(i as int).drop_last() == s@.take(i - 1));
    }
    assert(s@.take(s@.len() as int) == s@);
}

impl ControllerDestination {
    /// [channel number] followed by the parameter ranges.
    pub open spec fn spec_midi(self) -> Seq<u8> {
        seq![self.channel.spec_to_u8()] + spec_param_ranges_midi(self.param_ranges@)
    }

    /// Append the destination.
    pub fn extend_midi(&self, v: &mut Vec<u8>)
        ensures
            final(v)@ == old(v)@ + self.spec_midi(),
    {
        v.push(self.channel.to_u8());
        extend_param_ranges(v, &self.param_ranges);
    }

    /// Parsing of controller destinations is not implemented: always an error, which says so.
    pub fn from_midi(_m: &[u8]) -> (r: Result<(ControllerDestination, usize), ParseError>)
        ensures
            r matches Err(e) && e == ParseError::Invalid("TODO: ControllerDestination not implemented"),
    {
        Err(ParseError::Invalid("TODO: ControllerDestination not implemented"))
    }
}

impl ControlChangeControllerDestination {
    /// The control number coerced into 0x01-0x1F (below 0x40) or 0x40-0x5F.
    pub open spec fn spec_control_number(self) -> u8 {
        let c = self.control_number;
        if c < 0x40 {
            if c < 1 { 1 } else if c > 0x1F { 0x1F } else { c }
        } else {
            if c > 0x5F { 0x5F } else { c }
        }
    }

    /// [channel number, control number] followed by the parameter ranges.
    pub open spec fn spec_midi(self) -> Seq<u8> {
        seq![self.channel.spec_to_u8(), self.spec_control_number()] + spec_param_ranges_midi(
            self.param_ranges@,
        )
    }

    /// Append the destination.
    pub fn extend_midi(&self, v: &mut Vec<u8>)
        ensures
            final(v)@ == old(v)@ + self.spec_midi(),
    {
        v.push(self.channel.to_u8());
        let c = self.control_number;
        v.push(
            if c < 0x40 {
                if c < 1 {
                    1
                } else if c > 0x1F {
                    0x1F
                } else {
                    c
                }
            } else {
                if c > 0x5F {
                    0x5F
                } else {
                    c
                }
            },
        );
        extend_param_ranges(v, &self.param_ranges);
    }

    /// Parsing of controller destinations is not implemented: always an error, which says so.
    pub fn from_midi(_m: &[u8]) -> (r: Result<(ControlChangeControllerDestination, usize), ParseError>)
        ensures
            r matches Err(e) && e == ParseError::Invalid("TODO: ControlChangeControllerDestination not implemented"),
    {
        Err(ParseError::Invalid("TODO: ControlChangeControllerDestination not implemented"))
    }
}

} // verus!
