//! Reading the same bytes in the same state always ends the same way: it succeeds or fails,
//! takes as many bytes and leaves the same receiver, whatever value the relations that describe
//! the reading leave open (such as which `String` holds a decoded text).
use vstd::prelude::*;

use crate::file::{Meta, TrackEvent};
use crate::message::{MidiMsg, ReceiverContext};
use crate::parse_error::ParseError;
use crate::system_exclusive::SystemExclusiveMsg;
use crate::time_code::TimeCode;

verus! {

/// The number of bytes that a successful read took, or `None` for a failed one.
pub open spec fn spec_outcome<T>(r: Result<(T, usize), ParseError>) -> Option<usize> {
    match r {
        Ok((_, n)) => Some(n),
        Err(_) => None,
    }
}

/// Two readings of a system exclusive message from the same bytes end the same way and leave
/// the same time code.
pub proof fn lemma_sysex_outcome(
    m: Seq<u8>,
    is_smf_sysex: bool,
    tc: TimeCode,
    r1: Result<(SystemExclusiveMsg, usize), ParseError>,
    t1: TimeCode,
    r2: Result<(SystemExclusiveMsg, usize), ParseError>,
    t2: TimeCode,
)
    requires
        SystemExclusiveMsg::spec_parsed(m, is_smf_sysex, tc, r1, t1),
        SystemExclusiveMsg::spec_parsed(m, is_smf_sysex, tc, r2, t2),
    ensures
        t1 == t2,
        spec_outcome(r1) == spec_outcome(r2),
{
}

/// Two readings of a message from the same bytes with the same receiver end the same way and
/// leave the same receiver.
pub proof fn lemma_message_outcome(
    m: Seq<u8>,
    ctx: ReceiverContext,
    allow_extensions: bool,
    r1: Result<(MidiMsg, usize), ParseError>,
    c1: ReceiverContext,
    r2: Result<(MidiMsg, usize), ParseError>,
    c2: ReceiverContext,
)
    requires
        MidiMsg::spec_parsed(m, ctx, allow_extensions, r1, c1),
        MidiMsg::spec_parsed(m, ctx, allow_extensions, r2, c2),
    ensures
        c1 == c2,
        spec_outcome(r1) == spec_outcome(r2),
{
    if crate::message::spec_is_sysex_start(m) {
        let s1: Result<(SystemExclusiveMsg, usize), ParseError> = match r1 {
            Ok((MidiMsg::SystemExclusive { msg }, n)) => Ok((msg, n)),
            Ok(_) => Err(ParseError::UnexpectedEnd),
            Err(e) => Err(e),
        };
        let s2: Result<(SystemExclusiveMsg, usize), ParseError> = match r2 {
            Ok((MidiMsg::SystemExclusive { msg }, n)) => Ok((msg, n)),
            Ok(_) => Err(ParseError::UnexpectedEnd),
            Err(e) => Err(e),
        };
        lemma_sysex_outcome(m, ctx.is_smf_sysex, ctx.time_code, s1, c1.time_code, s2, c2.time_code);
    }
}

/// Two readings of a meta event from the same bytes end the same way.
pub proof fn lemma_meta_outcome(
    v: Seq<u8>,
    r1: Result<(Meta, usize), ParseError>,
    r2: Result<(Meta, usize), ParseError>,
)
    requires
        Meta::spec_parsed(v, r1),
        Meta::spec_parsed(v, r2),
    ensures
        spec_outcome(r1) == spec_outcome(r2),
{
}

/// Two readings of a track event from the same bytes with the same receiver end the same way
/// and leave the same receiver.
#[verifier::rlimit(100)]
pub proof fn lemma_track_event_outcome(
    v: Seq<u8>,
    ctx: ReceiverContext,
    r1: Result<(TrackEvent, usize), ParseError>,
    c1: ReceiverContext,
    r2: Result<(TrackEvent, usize), ParseError>,
    c2: ReceiverContext,
)
    requires
        TrackEvent::spec_parsed(v, ctx, r1, c1),
        TrackEvent::spec_parsed(v, ctx, r2, c2),
    ensures
        c1 == c2,
        spec_outcome(r1) == spec_outcome(r2),
{

}

} // verus!
