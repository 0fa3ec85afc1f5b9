use vstd::prelude::*;

use crate::channel_mode::ChannelModeMsg;
use crate::channel_voice::{ChannelVoiceMsg, ControlChange, Parameter};
use crate::file::Meta;
use crate::system_common::SystemCommonMsg;
use crate::system_exclusive::SystemExclusiveMsg;
use crate::system_real_time::SystemRealTimeMsg;
use crate::parse_error::ParseError;
use crate::util::{spec_u14_lsb, spec_u14_msb};
use crate::time_code::{push_nibbles, spec_nibbles, TimeCode, TimeCodeType};

verus! {

/// The primary interface of this library. Used to encode MIDI messages.
#[derive(Debug, PartialEq)]
pub enum MidiMsg {
    /// Channel-level messages that act on a voice, such as turning notes on and off.
    ChannelVoice { channel: Channel, msg: ChannelVoiceMsg },
    /// Like `ChannelVoice`, but with the first "status" byte of the message omitted.
    /// When these "running status" messages are sent, the receiver must treat them
    /// as implicitly referring to the previous "status" received.
    ///
    /// For instance, if a `ChannelVoiceMsg::NoteOn` message is received, and then
    /// the next message does not contain a status byte, it implicitly refers to a
    /// `ChannelVoiceMsg::NoteOn`.
    RunningChannelVoice { channel: Channel, msg: ChannelVoiceMsg },
    /// Channel-level messages that should alter the mode of the receiver.
    ChannelMode { channel: Channel, msg: ChannelModeMsg },
    /// Like `RunningChannelVoice` but for `ChannelMode`
    RunningChannelMode { channel: Channel, msg: ChannelModeMsg },
    /// A fairly limited set of messages, generally for device synchronization.
    SystemCommon { msg: SystemCommonMsg },
    /// Another limited set of messages used for device synchronization.
    SystemRealTime { msg: SystemRealTimeMsg },
    /// The bulk of the MIDI spec lives here, in "Universal System Exclusive" messages.
    /// Also the home of manufacturer-specific messages.
    SystemExclusive { msg: SystemExclusiveMsg },
    /// A meta event of a Standard Midi File.
    Meta { msg: Meta },
}

/// Whether each of the messages can be sent.
pub open spec fn spec_all_serializable(msgs: Seq<MidiMsg>) -> bool
    decreases msgs,
{
    forall|i: int| 0 <= i < msgs.len() ==> (#[trigger] msgs[i]).spec_serializable()
}

/// The bytes of the messages one after the other, each byte as two nibbles (least
/// significant first).
pub open spec fn spec_nibblized_midi(msgs: Seq<MidiMsg>) -> Seq<u8>
    decreases msgs,
{
    if msgs.len() == 0 {
        Seq::empty()
    } else {
        spec_nibblized_midi(msgs.subrange(0, msgs.len() - 1)) + spec_nibbles(
            msgs[msgs.len() - 1].spec_midi(),
        )
    }
}

/// A channel message's bytes on channel 1 with the channel number added to its status byte.
pub open spec fn spec_on_channel(s: Seq<u8>, ch: u8) -> Seq<u8> {
    s.update(0, (s[0] + ch) as u8)
}

impl MidiMsg {
    /// Whether the message can be sent.
    pub open spec fn spec_serializable(self) -> bool
        decreases self,
    {
        match self {
            MidiMsg::SystemExclusive { msg } => msg.spec_serializable(),
            MidiMsg::Meta { msg } => msg.spec_serializable(),
            _ => true,
        }
    }

    /// The bytes of the message. A channel message carries its channel in its status byte
    /// (and a high resolution note also in the status byte of its velocity's control change);
    /// a running status message omits the status byte.
    pub open spec fn spec_midi(self) -> Seq<u8>
        decreases self,
    {
        match self {
            MidiMsg::ChannelVoice { channel, msg } => {
                let s = spec_on_channel(msg.spec_midi(), channel.spec_to_u8());
                match msg {
                    ChannelVoiceMsg::HighResNoteOff { .. } | ChannelVoiceMsg::HighResNoteOn {
                        ..
                    } => s.update(3, (s[3] + channel.spec_to_u8()) as u8),
                    _ => s,
                }
            },
            MidiMsg::RunningChannelVoice { msg, .. } => msg.spec_midi_running(),
            MidiMsg::ChannelMode { channel, msg } => spec_on_channel(
                msg.spec_midi(),
                channel.spec_to_u8(),
            ),
            MidiMsg::RunningChannelMode { msg, .. } => msg.spec_midi_running(),
            MidiMsg::SystemCommon { msg } => msg.spec_midi(),
            MidiMsg::SystemRealTime { msg } => msg.spec_midi(),
            MidiMsg::SystemExclusive { msg } => seq![0xF0u8] + msg.spec_body() + seq![0xF7u8],
            MidiMsg::Meta { msg } => msg.spec_midi(),
        }
    }

    /// Given a `Vec<u8>`, append this `MidiMsg` to it.
    pub fn extend_midi(&self, v: &mut Vec<u8>)
        requires
            self.spec_serializable(),
        ensures
            final(v)@ == old(v)@ + self.spec_midi(),
        decreases self,
    {
        let ghost start = v@;
        match self {
            MidiMsg::ChannelVoice { channel, msg } => {
                let p = v.len();
                msg.extend_midi(v);
                let ch = channel.to_u8();
                let b = v[p];
                v.set(p, b + ch);
                match msg {
                    ChannelVoiceMsg::HighResNoteOff { .. } | ChannelVoiceMsg::HighResNoteOn {
                        ..
                    } => {
                        assert(msg.spec_midi()[3] == 0xB0 && msg.spec_midi().len() == 6);
                        assert(v.len() == p + 6);
                        assert(v@[p + 3] == msg.spec_midi()[3]);
                        let b3 = v[p + 3];
                        v.set(p + 3, b3 + ch);
                    },
                    _ => {},
                }
                assert(v@ == start + self.spec_midi());
            },
            MidiMsg::RunningChannelVoice { msg, .. } => msg.extend_midi_running(v),
            MidiMsg::ChannelMode { channel, msg } => {
                let p = v.len();
                msg.extend_midi(v);
                let ch = channel.to_u8();
                let b = v[p];
                v.set(p, b + ch);
                assert(v@ == start + self.spec_midi());
            },
            MidiMsg::RunningChannelMode { msg, .. } => msg.extend_midi_running(v),
            MidiMsg::SystemCommon { msg } => msg.extend_midi(v),
            MidiMsg::SystemRealTime { msg } => msg.extend_midi(v),
            MidiMsg::SystemExclusive { msg } => {
                msg.extend_midi(v, true);
                assert(v@ == start + self.spec_midi());
            },
            MidiMsg::Meta { msg } => msg.extend_midi(v),
        }
    }

    /// Turn a `MidiMsg` into a series of bytes.
    pub fn to_midi(&self) -> (r: Vec<u8>)
        requires
            self.spec_serializable(),
        ensures
            r@ == self.spec_midi(),
    {
        let mut r: Vec<u8> = Vec::new();
        self.extend_midi(&mut r);
        r
    }

    /// Turn a set of `MidiMsg`s into a series of bytes, with fewer allocations than
    /// repeatedly concatenating the results of `to_midi`.
    pub fn messages_to_midi(msgs: &[MidiMsg]) -> (r: Vec<u8>)
        requires
            spec_all_serializable(msgs@),
        ensures
            r@ == spec_messages_midi(msgs@),
    {
        let mut r: Vec<u8> = Vec::new();
        let mut i: usize = 0;
        while i < msgs.len()
            invariant
                i <= msgs@.len(),
                spec_all_serializable(msgs@),
                r@ == spec_messages_midi(msgs@.subrange(0, i as int)),
            decreases msgs@.len() - i,
        {
            assert(msgs@[i as int].spec_serializable());
            msgs[i].extend_midi(&mut r);
            i = i + 1;
            assert(msgs@.subrange(0, i as int).drop_last() == msgs@.subrange(0, i - 1));
        }
        assert(msgs@.subrange(0, msgs@.len() as int) == msgs@);
        r
    }

    /// Append the messages one after the other, each byte as two nibbles.
    pub fn push_nibblized_midi(msgs: &Vec<MidiMsg>, v: &mut Vec<u8>)
        requires
            spec_all_serializable(msgs@),
        ensures
            final(v)@ == old(v)@ + spec_nibblized_midi(msgs@),
        decreases msgs,
    {
        let ghost start = v@;
        let mut i: usize = 0;
        while i < msgs.len()
            invariant
                i <= msgs@.len(),
                spec_all_serializable(msgs@),
                v@ == start + spec_nibblized_midi(msgs@.subrange(0, i as int)),
            decreases msgs@.len() - i,
        {
            assert(msgs@[i as int].spec_serializable());
            let mut b: Vec<u8> = Vec::new();
            proof {
                vstd::std_specs::vec::axiom_vec_index_decreases(*msgs, i as int);
            }
            msgs[i].extend_midi(&mut b);
            push_nibbles(b.as_slice(), v);
            i = i + 1;
            assert(msgs@.subrange(0, i as int).subrange(0, i - 1) == msgs@.subrange(0, i - 1));
        }
        assert(msgs@.subrange(0, msgs@.len() as int) == msgs@);
    }
}

impl Clone for MidiMsg {
    fn clone(&self) -> (r: Self)
        decreases self,
    {
        match self {
            MidiMsg::ChannelVoice { channel, msg } => MidiMsg::ChannelVoice {
                channel: *channel,
                msg: *msg,
            },
            MidiMsg::RunningChannelVoice { channel, msg } => MidiMsg::RunningChannelVoice {
                channel: *channel,
                msg: *msg,
            },
            MidiMsg::ChannelMode { channel, msg } => MidiMsg::ChannelMode {
                channel: *channel,
                msg: *msg,
            },
            MidiMsg::RunningChannelMode { channel, msg } => MidiMsg::RunningChannelMode {
                channel: *channel,
                msg: *msg,
            },
            MidiMsg::SystemCommon { msg } => MidiMsg::SystemCommon { msg: *msg },
            MidiMsg::SystemRealTime { msg } => MidiMsg::SystemRealTime { msg: *msg },
            MidiMsg::SystemExclusive { msg } => MidiMsg::SystemExclusive { msg: msg.clone() },
            MidiMsg::Meta { msg } => MidiMsg::Meta { msg: msg.clone() },
        }
    }
}

/// A copy of each of the messages.
pub fn clone_messages(msgs: &Vec<MidiMsg>) -> (r: Vec<MidiMsg>)
    ensures
        r@.len() == msgs@.len(),
    decreases msgs,
{
    let mut r: Vec<MidiMsg> = Vec::new();
    let mut i: usize = 0;
    while i < msgs.len()
        invariant
            i <= msgs@.len(),
            r@.len() == i,
        decreases msgs@.len() - i,
    {
        proof {
            vstd::std_specs::vec::axiom_vec_index_decreases(*msgs, i as int);
        }
        r.push(msgs[i].clone());
        i = i + 1;
    }
    r
}


/// Passed to [`MidiMsg::from_midi_with_context`] to allow for the capture and use of captured
/// context while reading from a MIDI stream.
///
/// This is used to allow for the formation of fully formed `MidiMsg`s when either a running
/// status is being employed, or when using 14-bit [`ControlChange`](crate::ControlChange) messages.
///
/// It's also used to track the current [`TimeCode`] as sent through quarter frame
/// messages, or full time code messages.
#[derive(Debug, Clone, PartialEq)]
pub struct ReceiverContext {
    /// The last channel message received with a status byte, which running status messages
    /// continue.
    pub previous_channel_message: Option<MidiMsg>,
    /// The time code received so far.
    pub time_code: TimeCode,
    /// Whether a system exclusive message is read as in a Standard Midi File, without 0xF0.
    pub is_smf_sysex: bool,
    /// Whether a Standard Midi File is being parsed.
    pub parsing_smf: bool,
    /// If true, CC messages will be treated as complex CC messages, with their semantics taken
    /// from the Midi spec. Otherwise, they will be treated as simple CC messages.
    pub complex_cc: bool,
}

impl ReceiverContext {
    /// A context with no previous message and a zero time code at 30 frames per second.
    pub open spec fn spec_new() -> ReceiverContext {
        ReceiverContext {
            previous_channel_message: None,
            time_code: TimeCode {
                frames: 0,
                seconds: 0,
                minutes: 0,
                hours: 0,
                code_type: TimeCodeType::NDF30,
            },
            is_smf_sysex: false,
            parsing_smf: false,
            complex_cc: false,
        }
    }

    /// The remembered message, if any, is a channel message, as parsing leaves it.
    pub open spec fn wf(self) -> bool {
        match self.previous_channel_message {
            None => true,
            Some(MidiMsg::ChannelVoice { msg, .. }) => msg.spec_data_7bit(),
            Some(MidiMsg::ChannelMode { .. }) => true,
            Some(_) => false,
        }
    }

    /// A fresh context.
    pub fn new() -> (r: ReceiverContext)
        ensures
            r == ReceiverContext::spec_new(),
            r.wf(),
    {
        ReceiverContext {
            previous_channel_message: None,
            time_code: TimeCode {
                frames: 0,
                seconds: 0,
                minutes: 0,
                hours: 0,
                code_type: TimeCodeType::NDF30,
            },
            is_smf_sysex: false,
            parsing_smf: false,
            complex_cc: false,
        }
    }

    /// Interpret CC messages as complex CC messages.
    pub fn complex_cc(self) -> (r: ReceiverContext)
        ensures
            r == (ReceiverContext { complex_cc: true, ..self }),
    {
        ReceiverContext { complex_cc: true, ..self }
    }

    /// The context of a parse of a Standard Midi File.
    pub fn parsing_smf(self) -> (r: ReceiverContext)
        ensures
            r == (ReceiverContext { parsing_smf: true, ..self }),
    {
        ReceiverContext { parsing_smf: true, ..self }
    }

    /// The time code received so far.
    pub fn time_code(&self) -> (r: TimeCode)
        ensures
            r == self.time_code,
    {
        self.time_code
    }

    /// An exact copy of a well-formed context.
    fn copy(&self) -> (r: ReceiverContext)
        requires
            self.wf(),
        ensures
            r == *self,
    {
        let previous_channel_message = match &self.previous_channel_message {
            None => None,
            Some(MidiMsg::ChannelVoice { channel, msg }) => Some(
                MidiMsg::ChannelVoice { channel: *channel, msg: *msg },
            ),
            Some(MidiMsg::ChannelMode { channel, msg }) => Some(
                MidiMsg::ChannelMode { channel: *channel, msg: *msg },
            ),
            Some(_) => {
                assert(false);
                None
            },
        };
        ReceiverContext {
            previous_channel_message,
            time_code: self.time_code,
            is_smf_sysex: self.is_smf_sysex,
            parsing_smf: self.parsing_smf,
            complex_cc: self.complex_cc,
        }
    }
}

impl Default for ReceiverContext {
    fn default() -> (r: Self)
        ensures
            r == ReceiverContext::spec_new(),
    {
        ReceiverContext::new()
    }
}

/// Whether the bytes start a system exclusive message.
pub open spec fn spec_is_sysex_start(m: Seq<u8>) -> bool {
    m.len() > 0 && m[0] == 0xF0
}

/// A channel voice message received after `prev`, combined with it where they combine.
pub open spec fn spec_extend_previous(prev: ChannelVoiceMsg, msg: ChannelVoiceMsg) -> ChannelVoiceMsg {
    if prev.spec_is_extensible() && msg.spec_is_extension() {
        match prev.spec_maybe_extend(msg) {
            Some(u) => u,
            None => msg,
        }
    } else {
        msg
    }
}

impl MidiMsg {
    /// Parsing one message from input that does not start a system exclusive message, with
    /// the context `ctx`: the result, and the context afterwards. A status byte's high nibble
    /// selects the kind of message; a data byte continues the remembered channel message. With
    /// `allow_extensions`, a control change that extends the remembered one on the same channel
    /// is combined with it.
    pub open spec fn spec_parse_non_sysex(m: Seq<u8>, ctx: ReceiverContext, allow_extensions: bool) -> (
        Result<(MidiMsg, usize), ParseError>,
        ReceiverContext,
    ) {
        if m.len() == 0 {
            (Err(ParseError::UnexpectedEnd), ctx)
        } else {
            let b = m[0];
            let hi = b / 16;
            let channel = Channel::spec_from_u8(b % 16);
            if hi == 0x8 || hi == 0x9 || hi == 0xA || hi == 0xC || hi == 0xD || hi == 0xE {
                match ChannelVoiceMsg::spec_from_midi(m) {
                    Err(e) => (Err(e), ctx),
                    Ok((msg, len)) => {
                        let mm = MidiMsg::ChannelVoice { channel, msg };
                        (Ok((mm, len)), ReceiverContext { previous_channel_message: Some(mm), ..ctx })
                    },
                }
            } else if hi == 0xB {
                if m.len() < 2 {
                    (Err(ParseError::UnexpectedEnd), ctx)
                } else if m[1] >= 120 {
                    (Err(ParseError::NotImplemented("ChannelModeMsg")), ctx)
                } else {
                    match ChannelVoiceMsg::spec_from_midi(m) {
                        Err(e) => (Err(e), ctx),
                        Ok((msg, len)) => {
                            let msg2 = if allow_extensions {
                                match ctx.previous_channel_message {
                                    Some(MidiMsg::ChannelVoice { channel: pc, msg: prev }) => if pc
                                        == channel {
                                        spec_extend_previous(prev, msg)
                                    } else {
                                        msg
                                    },
                                    _ => msg,
                                }
                            } else {
                                msg
                            };
                            let mm = MidiMsg::ChannelVoice { channel, msg: msg2 };
                            (
                                Ok((mm, len)),
                                ReceiverContext { previous_channel_message: Some(mm), ..ctx },
                            )
                        },
                    }
                }
            } else if hi == 0xF {
                if b % 16 < 8 {
                    match SystemCommonMsg::spec_from_midi(m, ctx.time_code) {
                        Err(e) => (Err(e), ctx),
                        Ok((msg, len, tc)) => (
                            Ok((MidiMsg::SystemCommon { msg }, len)),
                            ReceiverContext { time_code: tc, ..ctx },
                        ),
                    }
                } else {
                    match SystemRealTimeMsg::spec_from_byte(b) {
                        Err(e) => (Err(e), ctx),
                        Ok((msg, len)) => (Ok((MidiMsg::SystemRealTime { msg }, len)), ctx),
                    }
                }
            } else {
                match ctx.previous_channel_message {
                    Some(MidiMsg::ChannelVoice { channel: pc, msg: prev }) => match ChannelVoiceMsg::spec_from_midi_running(
                        m,
                        prev,
                    ) {
                        Err(e) => (Err(e), ctx),
                        Ok((msg, len)) => (
                            Ok(
                                (
                                    MidiMsg::ChannelVoice {
                                        channel: pc,
                                        msg: if allow_extensions {
                                            spec_extend_previous(prev, msg)
                                        } else {
                                            msg
                                        },
                                    },
                                    len,
                                ),
                            ),
                            ctx,
                        ),
                    },
                    Some(MidiMsg::ChannelMode { .. }) => (
                        Err(ParseError::NotImplemented("ChannelModeMsg")),
                        ctx,
                    ),
                    Some(_) => (
                        Err(
                            ParseError::Invalid(
                                "ReceiverContext::previous_channel_message may only be a ChannelMode or ChannelVoice message.",
                            ),
                        ),
                        ctx,
                    ),
                    None => (Err(ParseError::ContextlessRunningStatus), ctx),
                }
            }
        }
    }

    /// Whether `r` and `ctx2` are what parsing a system exclusive message from `m` gives, with
    /// the context `ctx`: only the time code of the context can change.
    pub open spec fn spec_sysex_parsed(
        m: Seq<u8>,
        ctx: ReceiverContext,
        r: Result<(MidiMsg, usize), ParseError>,
        ctx2: ReceiverContext,
    ) -> bool {
        &&& ctx2 == ReceiverContext { time_code: ctx2.time_code, ..ctx }
        &&& match r {
            Ok((MidiMsg::SystemExclusive { msg }, len)) => SystemExclusiveMsg::spec_parsed(
                m,
                ctx.is_smf_sysex,
                ctx.time_code,
                Ok((msg, len)),
                ctx2.time_code,
            ),
            Ok(_) => false,
            Err(e) => SystemExclusiveMsg::spec_parsed(
                m,
                ctx.is_smf_sysex,
                ctx.time_code,
                Err(e),
                ctx2.time_code,
            ),
        }
    }

    /// The channel voice message that parsing the next message (without extensions) gives,
    /// its channel and its length, if it is one.
    pub open spec fn spec_next_voice(m: Seq<u8>, ctx: ReceiverContext) -> Option<
        (Channel, ChannelVoiceMsg, usize),
    > {
        if spec_is_sysex_start(m) {
            None
        } else {
            match MidiMsg::spec_parse_non_sysex(m, ctx, false).0 {
                Ok((MidiMsg::ChannelVoice { channel, msg }, len)) => Some((channel, msg, len)),
                _ => None,
            }
        }
    }

    /// Extending the channel voice message `msg`, which took the first `len` bytes of `m`, by
    /// the messages that follow it on the same channel, for as long as they combine.
    pub open spec fn spec_extend_loop(
        m: Seq<u8>,
        ctx: ReceiverContext,
        channel: Channel,
        msg: ChannelVoiceMsg,
        len: int,
    ) -> (ChannelVoiceMsg, int)
        decreases m.len() - len,
    {
        if !msg.spec_is_extensible() || len < 0 || len > m.len() {
            (msg, len)
        } else {
            match MidiMsg::spec_next_voice(m.subrange(len, m.len() as int), ctx) {
                Some((ch2, msg2, len2)) => if ch2 == channel && msg2.spec_is_extension() {
                    match msg.spec_maybe_extend(msg2) {
                        Some(u) => {
                            proof {
                                MidiMsg::lemma_next_voice_len(m.subrange(len, m.len() as int), ctx);
                            }
                            MidiMsg::spec_extend_loop(m, ctx, channel, u, len + len2)
                        },
                        None => (msg, len),
                    }
                } else {
                    (msg, len)
                },
                None => (msg, len),
            }
        }
    }

    /// Whether `r` and `ctx2` are what parsing one message from `m` with the context `ctx` gives.
    /// With `allow_extensions`, a parsed channel voice message is extended by those that follow.
    pub open spec fn spec_parsed(
        m: Seq<u8>,
        ctx: ReceiverContext,
        allow_extensions: bool,
        r: Result<(MidiMsg, usize), ParseError>,
        ctx2: ReceiverContext,
    ) -> bool {
        if spec_is_sysex_start(m) {
            MidiMsg::spec_sysex_parsed(m, ctx, r, ctx2)
        } else {
            let (r1, c1) = MidiMsg::spec_parse_non_sysex(m, ctx, allow_extensions);
            &&& ctx2 == c1
            &&& r == if allow_extensions {
                match r1 {
                    Ok((MidiMsg::ChannelVoice { channel, msg }, len)) => {
                        let (msg2, len2) = MidiMsg::spec_extend_loop(m, c1, channel, msg, len as int);
                        Ok((MidiMsg::ChannelVoice { channel, msg: msg2 }, len2 as usize))
                    },
                    _ => r1,
                }
            } else {
                r1
            }
        }
    }

    /// A parsed channel voice message takes at least one byte and no more than there are.
    pub proof fn lemma_next_voice_len(m: Seq<u8>, ctx: ReceiverContext)
        ensures
            MidiMsg::spec_next_voice(m, ctx) matches Some((_, _, len)) ==> 1 <= len <= m.len(),
    {
        if m.len() > 0 {
            let b = m[0];
            let hi = b / 16;
            if hi < 8 {
                match ctx.previous_channel_message {
                    Some(MidiMsg::ChannelVoice { msg: prev, .. }) => {
                        lemma_running_len(m, prev);
                    },
                    _ => {},
                }
            } else {
                lemma_running_len(
                    m.subrange(1, m.len() as int),
                    match ChannelVoiceMsg::spec_status_kind(b) {
                        Some(k) => k,
                        None => ChannelVoiceMsg::ProgramChange { program: 0 },
                    },
                );
            }
        }
    }
}

/// A running status channel voice message takes one or two of the bytes there are.
pub proof fn lemma_running_len(m: Seq<u8>, prev: ChannelVoiceMsg)
    ensures
        ChannelVoiceMsg::spec_from_midi_running(m, prev) matches Ok((_, len)) ==> 1 <= len <= m.len(),
{
}

impl MidiMsg {
    /// Parse one message without following extensions.
    #[verifier::rlimit(100)]
    fn parse_first(m: &[u8], ctx: &mut ReceiverContext, allow_extensions: bool) -> (r: Result<
        (MidiMsg, usize),
        ParseError,
    >)
        requires
            old(ctx).wf(),
        ensures
            final(ctx).wf(),
            spec_is_sysex_start(m@) ==> MidiMsg::spec_sysex_parsed(m@, *old(ctx), r, *final(ctx)),
            !spec_is_sysex_start(m@) ==> (r, *final(ctx)) == MidiMsg::spec_parse_non_sysex(
                m@,
                *old(ctx),
                allow_extensions,
            ),
            r matches Ok((MidiMsg::ChannelVoice { msg, .. }, len)) ==> msg.spec_data_7bit() && 1
                <= len <= m@.len(),
            r matches Ok((_, n)) ==> 1 <= n <= m@.len() + (if old(ctx).is_smf_sysex { 1int } else { 0 }),
    {
        if m.len() == 0 {
            return Err(ParseError::UnexpectedEnd);
        }
        let b = m[0];
        let hi = b / 16;
        let channel = Channel::from_u8(b % 16);
        if hi == 0x8 || hi == 0x9 || hi == 0xA || hi == 0xC || hi == 0xD || hi == 0xE {
            match ChannelVoiceMsg::from_midi(m) {
                Err(e) => Err(e),
                Ok((msg, len)) => {
                    proof {
                        lemma_running_len(
                            m@.subrange(1, m@.len() as int),
                            ChannelVoiceMsg::spec_status_kind(b).unwrap(),
                        );
                    }
                    ctx.previous_channel_message = Some(MidiMsg::ChannelVoice { channel, msg });
                    Ok((MidiMsg::ChannelVoice { channel, msg }, len))
                },
            }
        } else if hi == 0xB {
            if m.len() < 2 {
                return Err(ParseError::UnexpectedEnd);
            }
            if m[1] >= 120 {
                return match ChannelModeMsg::from_midi(m) {
                    Err(e) => Err(e),
                    Ok((msg, len)) => Ok((MidiMsg::ChannelMode { channel, msg }, len)),
                };
            }
            match ChannelVoiceMsg::from_midi(m) {
                Err(e) => Err(e),
                Ok((msg, len)) => {
                    proof {
                        lemma_running_len(
                            m@.subrange(1, m@.len() as int),
                            ChannelVoiceMsg::spec_status_kind(b).unwrap(),
                        );
                    }
                    let mut msg2 = msg;
                    if allow_extensions {
                        match &ctx.previous_channel_message {
                            Some(MidiMsg::ChannelVoice { channel: pc, msg: prev }) => {
                                if *pc == channel && prev.is_extensible() && msg.is_extension() {
                                    match prev.maybe_extend(&msg) {
                                        Ok(u) => {
                                            msg2 = u;
                                        },
                                        Err(_) => {},
                                    }
                                }
                            },
                            _ => {},
                        }
                    }
                    proof {
                        lemma_extend_7bit(ctx.previous_channel_message, msg);
                    }
                    ctx.previous_channel_message = Some(
                        MidiMsg::ChannelVoice { channel, msg: msg2 },
                    );
                    Ok((MidiMsg::ChannelVoice { channel, msg: msg2 }, len))
                },
            }
        } else if hi == 0xF {
            MidiMsg::parse_system(m, ctx)
        } else {
            MidiMsg::parse_running(m, ctx, allow_extensions)
        }
    }

    /// Parse a system message (its first byte 0xF0 or above).
    #[verifier::rlimit(100)]
    fn parse_system(m: &[u8], ctx: &mut ReceiverContext) -> (r: Result<(MidiMsg, usize), ParseError>)
        requires
            old(ctx).wf(),
            m@.len() > 0,
            m@[0] / 16 == 0xF,
        ensures
            final(ctx).wf(),
            spec_is_sysex_start(m@) ==> MidiMsg::spec_sysex_parsed(m@, *old(ctx), r, *final(ctx)),
            !spec_is_sysex_start(m@) ==> (r, *final(ctx)) == MidiMsg::spec_parse_non_sysex(
                m@,
                *old(ctx),
                false,
            ),
            r matches Ok((_, n)) ==> 1 <= n <= m@.len() + (if old(ctx).is_smf_sysex { 1int } else { 0 }),
            !(r matches Ok((MidiMsg::ChannelVoice { .. }, _))),
    {
        let b = m[0];
            if b % 16 == 0 {
            let mut tc = ctx.time_code;
            let r = SystemExclusiveMsg::from_midi(m, ctx.is_smf_sysex, &mut tc);
            ctx.time_code = tc;
            match r {
                Err(e) => Err(e),
                Ok((msg, len)) => Ok((MidiMsg::SystemExclusive { msg }, len)),
            }
        } else if b % 16 < 8 {
            let mut tc = ctx.time_code;
            let r = SystemCommonMsg::from_midi(m, &mut tc);
            ctx.time_code = tc;
            match r {
                Err(e) => Err(e),
                Ok((msg, len)) => Ok((MidiMsg::SystemCommon { msg }, len)),
            }
        } else {
            match SystemRealTimeMsg::from_midi(m) {
                Err(e) => Err(e),
                Ok((msg, len)) => Ok((MidiMsg::SystemRealTime { msg }, len)),
            }
        }
    }

    /// Parse a message continuing the remembered channel message (its first byte a data byte).
    #[verifier::rlimit(100)]
    fn parse_running(m: &[u8], ctx: &mut ReceiverContext, allow_extensions: bool) -> (r: Result<
        (MidiMsg, usize),
        ParseError,
    >)
        requires
            old(ctx).wf(),
            m@.len() > 0,
            m@[0] < 128,
        ensures
            *final(ctx) == *old(ctx),
            (r, *final(ctx)) == MidiMsg::spec_parse_non_sysex(m@, *old(ctx), allow_extensions),
            r matches Ok((MidiMsg::ChannelVoice { msg, .. }, len)) ==> msg.spec_data_7bit() && 1
                <= len <= m@.len(),
            r matches Ok((_, n)) ==> 1 <= n <= m@.len(),
    {
        let channel = Channel::from_u8(m[0] % 16);
            match &ctx.previous_channel_message {
            Some(MidiMsg::ChannelVoice { channel: pc, msg: prev }) => {
                match ChannelVoiceMsg::from_midi_running(m, prev) {
                    Err(e) => Err(e),
                    Ok((msg, len)) => {
                        proof {
                            lemma_running_len(m@, *prev);
                        }
                        let mut msg2 = msg;
                        if allow_extensions && prev.is_extensible() && msg.is_extension() {
                            match prev.maybe_extend(&msg) {
                                Ok(u) => {
                                    msg2 = u;
                                },
                                Err(_) => {},
                            }
                        }
                        proof {
                            lemma_extend_7bit(ctx.previous_channel_message, msg);
                        }
                        Ok((MidiMsg::ChannelVoice { channel: *pc, msg: msg2 }, len))
                    },
                }
            },
            Some(MidiMsg::ChannelMode { .. }) => match ChannelModeMsg::from_midi_running(m) {
                Err(e) => Err(e),
                Ok((msg, len)) => Ok((MidiMsg::ChannelMode { channel, msg }, len)),
            },
            Some(_) => Err(
                ParseError::Invalid(
                    "ReceiverContext::previous_channel_message may only be a ChannelMode or ChannelVoice message.",
                ),
            ),
            None => Err(ParseError::ContextlessRunningStatus),
        }
    }

    /// Parse one message, extending a channel voice message by those that follow where
    /// `allow_extensions` is set.
    #[verifier::rlimit(100)]
    pub(crate) fn parse(m: &[u8], ctx: &mut ReceiverContext, allow_extensions: bool) -> (r: Result<
        (MidiMsg, usize),
        ParseError,
    >)
        requires
            old(ctx).wf(),
        ensures
            final(ctx).wf(),
            MidiMsg::spec_parsed(m@, *old(ctx), allow_extensions, r, *final(ctx)),
            r matches Ok((_, n)) ==> 1 <= n <= m@.len() + (if old(ctx).is_smf_sysex { 1int } else { 0 }),
    {
        let first = MidiMsg::parse_first(m, ctx, allow_extensions);
        if !allow_extensions {
            return first;
        }
        let (channel, msg0, len0) = match first {
            Ok((MidiMsg::ChannelVoice { channel, msg }, len)) => (channel, msg, len),
            other => return other,
        };
        let ghost c1 = *ctx;
        let mut msg = msg0;
        let mut len = len0;
        while msg.is_extensible()
            invariant
                *ctx == c1,
                ctx.wf(),
                msg.spec_data_7bit(),
                1 <= len <= m@.len(),
                MidiMsg::spec_extend_loop(m@, c1, channel, msg, len as int)
                    == MidiMsg::spec_extend_loop(m@, c1, channel, msg0, len0 as int),
            ensures
                MidiMsg::spec_extend_loop(m@, c1, channel, msg, len as int) == (msg, len as int),
                MidiMsg::spec_extend_loop(m@, c1, channel, msg, len as int)
                    == MidiMsg::spec_extend_loop(m@, c1, channel, msg0, len0 as int),
            decreases m@.len() - len,
        {
            let rest = vstd::slice::slice_subrange(m, len, m.len());
            let mut c = ctx.copy();
            let next = MidiMsg::parse_first(rest, &mut c, false);
            proof {
                MidiMsg::lemma_next_voice_len(rest@, c1);
            }
            match next {
                Ok((MidiMsg::ChannelVoice { channel: nc, msg: nm }, nl)) => {
                    if nc == channel && nm.is_extension() {
                        match msg.maybe_extend(&nm) {
                            Ok(u) => {
                                proof {
                                    lemma_maybe_extend_7bit(msg, nm);
                                }
                                msg = u;
                                len = len + nl;
                            },
                            Err(_) => {
                                break ;
                            },
                        }
                    } else {
                        break ;
                    }
                },
                _ => {
                    break ;
                },
            }
        }
        Ok((MidiMsg::ChannelVoice { channel, msg }, len))
    }

    /// Turn a series of bytes into a `MidiMsg`.
    ///
    /// Ok results return a MidiMsg and the number of bytes consumed from the input.
    pub fn from_midi(m: &[u8]) -> (r: Result<(MidiMsg, usize), ParseError>)
        ensures
            exists|ctx2: ReceiverContext| MidiMsg::spec_parsed(
                m@,
                ReceiverContext::spec_new(),
                true,
                r,
                ctx2,
            ),
    {
        let mut ctx = ReceiverContext::new();
        MidiMsg::parse(m, &mut ctx, true)
    }

    /// Turn a series of bytes into a `MidiMsg`, given a [`ReceiverContext`].
    ///
    /// Consecutive messages that relate to each other will be collapsed into one
    /// `MidiMsg`. E.g. a `ChannelVoiceMsg::ControlChange` where the CC is the MSB and LSB
    /// of `ControlChange::Volume` will turn into a single `ControlChange::Volume` with both
    /// bytes turned into one. Use [`MidiMsg::from_midi_with_context_no_extensions`] to disable this
    /// behavior.
    ///
    /// The `ReceiverContext` is also used to track the current [`TimeCode`]
    /// as sent through quarter frame messages, or full time code messages.
    ///
    /// Ok results return a MidiMsg and the number of bytes consumed from the input.
    pub fn from_midi_with_context(m: &[u8], ctx: &mut ReceiverContext) -> (r: Result<
        (MidiMsg, usize),
        ParseError,
    >)
        requires
            old(ctx).wf(),
        ensures
            final(ctx).wf(),
            MidiMsg::spec_parsed(m@, *old(ctx), true, r, *final(ctx)),
    {
        MidiMsg::parse(m, ctx, true)
    }

    /// Like [`MidiMsg::from_midi_with_context`] but does not turn multiple related consecutive messages
    /// into one `MidiMsg`.
    pub fn from_midi_with_context_no_extensions(m: &[u8], ctx: &mut ReceiverContext) -> (r: Result<
        (MidiMsg, usize),
        ParseError,
    >)
        requires
            old(ctx).wf(),
        ensures
            final(ctx).wf(),
            MidiMsg::spec_parsed(m@, *old(ctx), false, r, *final(ctx)),
    {
        MidiMsg::parse(m, ctx, false)
    }
}

/// Combining with a remembered well-formed message keeps the data 7-bit.
proof fn lemma_extend_7bit(prev: Option<MidiMsg>, msg: ChannelVoiceMsg)
    requires
        msg.spec_data_7bit(),
    ensures
        prev matches Some(MidiMsg::ChannelVoice { msg: p, .. }) ==> spec_extend_previous(
            p,
            msg,
        ).spec_data_7bit(),
{
    match prev {
        Some(MidiMsg::ChannelVoice { msg: p, .. }) => {
            lemma_maybe_extend_7bit(p, msg);
        },
        _ => {},
    }
}

/// Combined messages hold no undefined control change.
proof fn lemma_maybe_extend_7bit(a: ChannelVoiceMsg, b: ChannelVoiceMsg)
    ensures
        a.spec_maybe_extend(b) matches Some(u) ==> u.spec_data_7bit(),
{
}

impl ControlChange {
    /// Whether the control change is read back as itself when sent alone: each value within
    /// its range, under a name that its controller number is read as, and not a parameter.
    pub open spec fn spec_round_trips(self) -> bool {
        match self {
            ControlChange::BankSelect(x) | ControlChange::ModWheel(x) | ControlChange::Breath(x)
            | ControlChange::Foot(x) | ControlChange::Portamento(x) | ControlChange::Volume(x)
            | ControlChange::Balance(x) | ControlChange::Pan(x) | ControlChange::Expression(x)
            | ControlChange::Effect1(x) | ControlChange::Effect2(x)
            | ControlChange::GeneralPurpose1(x) | ControlChange::GeneralPurpose2(x)
            | ControlChange::GeneralPurpose3(x) | ControlChange::GeneralPurpose4(x)
            | ControlChange::DataEntry(x) => x <= 16383,
            ControlChange::Hold(x) | ControlChange::Hold2(x) | ControlChange::Sostenuto(x)
            | ControlChange::SoftPedal(x) | ControlChange::SoundControl1(x)
            | ControlChange::SoundControl2(x) | ControlChange::SoundControl3(x)
            | ControlChange::SoundControl4(x) | ControlChange::SoundControl5(x)
            | ControlChange::SoundControl6(x) | ControlChange::SoundControl7(x)
            | ControlChange::SoundControl8(x) | ControlChange::SoundControl9(x)
            | ControlChange::SoundControl10(x) | ControlChange::GeneralPurpose5(x)
            | ControlChange::GeneralPurpose6(x) | ControlChange::GeneralPurpose7(x)
            | ControlChange::GeneralPurpose8(x) | ControlChange::PortamentoControl(x) | ControlChange::HighResVelocity(x)
            | ControlChange::Effects1Depth(x) | ControlChange::Effects2Depth(x)
            | ControlChange::Effects3Depth(x) | ControlChange::Effects4Depth(x)
            | ControlChange::Effects5Depth(x) | ControlChange::DataIncrement(x)
            | ControlChange::DataDecrement(x) => x <= 127,
            ControlChange::TogglePortamento(_) | ControlChange::ToggleLegato(_) => true,
            ControlChange::Undefined { control, value } => control <= 119 && value <= 127
                && ControlChange::spec_from_control(control, value) == (ControlChange::Undefined {
                control,
                value,
            }),
            ControlChange::UndefinedHighRes { control1, control2, value } => value <= 16383
                && control2 == control1 + 32 && ControlChange::spec_from_control(control1, 0)
                == (ControlChange::UndefinedHighRes { control1, control2, value: 0 }),
            ControlChange::Parameter(p) => p.spec_round_trips(),
            _ => false,
        }
    }
}

impl ChannelVoiceMsg {
    /// Whether the message is read back as itself when sent alone on a channel: each value
    /// within its range, and a control change that round trips.
    pub open spec fn spec_round_trips(self) -> bool {
        match self {
            ChannelVoiceMsg::NoteOff { note, velocity } | ChannelVoiceMsg::NoteOn {
                note,
                velocity,
            } => note <= 127 && velocity <= 127,
            ChannelVoiceMsg::HighResNoteOff { note, velocity } | ChannelVoiceMsg::HighResNoteOn {
                note,
                velocity,
            } => note <= 127 && velocity <= 16383,
            ChannelVoiceMsg::PolyPressure { note, pressure } => note <= 127 && pressure <= 127,
            ChannelVoiceMsg::ProgramChange { program } => program <= 127,
            ChannelVoiceMsg::ChannelPressure { pressure } => pressure <= 127,
            ChannelVoiceMsg::PitchBend { bend } => bend <= 16383,
            ChannelVoiceMsg::ControlChange { control } => control.spec_round_trips(),
        }
    }
}

/// The channel that a channel number gives back is the channel.
pub proof fn lemma_channel_round_trip(c: Channel)
    ensures
        Channel::spec_from_u8(c.spec_to_u8()) == c,
        c.spec_to_u8() < 16,
{
}

/// A channel voice message that nothing follows is not extended.
proof fn lemma_nothing_follows(
    m: Seq<u8>,
    ctx: ReceiverContext,
    channel: Channel,
    msg: ChannelVoiceMsg,
)
    ensures
        MidiMsg::spec_extend_loop(m, ctx, channel, msg, m.len() as int) == (msg, m.len() as int),
{
    assert(m.subrange(m.len() as int, m.len() as int).len() == 0);
}


/// Whether the message that `ctx` remembers cannot be extended by one on `channel`: it is on
/// another channel, or not extensible, or there is none.
pub open spec fn spec_fresh_for(ctx: ReceiverContext, channel: Channel) -> bool {
    match ctx.previous_channel_message {
        Some(MidiMsg::ChannelVoice { channel: pc, msg: prev }) => pc != channel
            || !prev.spec_is_extensible(),
        _ => true,
    }
}

/// Whether the bytes of `msg` on `channel` are read without combining their first message with
/// the message that the receiver `ctx` remembers: reading them with extensions allowed gives
/// what reading them without does.
pub open spec fn spec_not_extending(ctx: ReceiverContext, channel: Channel, msg: ChannelVoiceMsg) -> bool {
    let m = MidiMsg::ChannelVoice { channel, msg }.spec_midi();
    MidiMsg::spec_parse_non_sysex(m, ctx, true) == MidiMsg::spec_parse_non_sysex(m, ctx, false)
}

/// A receiver that remembers no message that can be extended on a channel does not combine
/// the bytes of a message on that channel with it.
pub proof fn lemma_fresh_not_extending(ctx: ReceiverContext, channel: Channel, msg: ChannelVoiceMsg)
    requires
        spec_fresh_for(ctx, channel),
    ensures
        spec_not_extending(ctx, channel, msg),
{
    lemma_channel_round_trip(channel);
    let m = MidiMsg::ChannelVoice { channel, msg }.spec_midi();
    assert(m[0] / 16 == msg.spec_status() / 16 && m[0] % 16 == channel.spec_to_u8());
}

/// A control change sent as one controller and a value is read back.
#[verifier::rlimit(100)]
proof fn lemma_short_control_change_round_trip(ctx: ReceiverContext, channel: Channel, control: ControlChange)
    requires
        spec_not_extending(ctx, channel, (ChannelVoiceMsg::ControlChange { control })),
        control.spec_midi_running().len() == 2,
        control.spec_midi_running()[0] < 120,
        control.spec_midi_running()[1] <= 127,
        ControlChange::spec_from_control(
            control.spec_midi_running()[0],
            control.spec_midi_running()[1],
        ) == control,
    ensures
        ({
            let mm = MidiMsg::ChannelVoice { channel, msg: ChannelVoiceMsg::ControlChange { control } };
            let m = mm.spec_midi();
            MidiMsg::spec_parsed(
                m,
                ctx,
                true,
                Ok((mm, m.len() as usize)),
                MidiMsg::spec_parse_non_sysex(m, ctx, true).1,
            )
        }),
{
    let msg = ChannelVoiceMsg::ControlChange { control };
    let mm = MidiMsg::ChannelVoice { channel, msg };
    let m = mm.spec_midi();
    lemma_channel_round_trip(channel);
    let ch = channel.spec_to_u8();
    assert(m == seq![(0xB0 + ch) as u8, control.spec_midi_running()[0], control.spec_midi_running()[1]]);
    assert(m[0] / 16 == 0xB && m[0] % 16 == ch);
    let (r1, c1) = MidiMsg::spec_parse_non_sysex(m, ctx, true);
    assert(ControlChange::spec_from_midi(m.subrange(1, 3)) == Ok::<ControlChange, ParseError>(control));
    assert(r1 == Ok::<(MidiMsg, usize), ParseError>((mm, 3usize)));
    lemma_nothing_follows(m, c1, channel, msg);
}

/// A 14-bit control change, sent as its MSB controller and (with running status) its LSB
/// controller, is read back.
#[verifier::rlimit(100)]
proof fn lemma_long_control_change_round_trip(ctx: ReceiverContext, channel: Channel, control: ControlChange, first: ControlChange)
    requires
        spec_not_extending(ctx, channel, (ChannelVoiceMsg::ControlChange { control })),
        control.spec_midi_running().len() == 4,
        control.spec_midi_running()[0] < 120,
        control.spec_midi_running()[1] <= 127,
        control.spec_midi_running()[2] < 120,
        control.spec_midi_running()[3] <= 127,
        first == ControlChange::spec_from_control(
            control.spec_midi_running()[0],
            control.spec_midi_running()[1],
        ),
        (ChannelVoiceMsg::ControlChange { control: first }).spec_is_extensible(),
        ControlChange::spec_from_control(
            control.spec_midi_running()[2],
            control.spec_midi_running()[3],
        ) == (ControlChange::Undefined {
            control: control.spec_midi_running()[2],
            value: control.spec_midi_running()[3],
        }),
        first.spec_maybe_extend(
            ControlChange::Undefined {
                control: control.spec_midi_running()[2],
                value: control.spec_midi_running()[3],
            },
        ) == Some(control),
    ensures
        ({
            let mm = MidiMsg::ChannelVoice { channel, msg: ChannelVoiceMsg::ControlChange { control } };
            let m = mm.spec_midi();
            MidiMsg::spec_parsed(
                m,
                ctx,
                true,
                Ok((mm, m.len() as usize)),
                MidiMsg::spec_parse_non_sysex(m, ctx, true).1,
            )
        }),
{
    let msg = ChannelVoiceMsg::ControlChange { control };
    let mm = MidiMsg::ChannelVoice { channel, msg };
    let m = mm.spec_midi();
    lemma_channel_round_trip(channel);
    let ch = channel.spec_to_u8();
    let b = control.spec_midi_running();
    assert(m == seq![(0xB0 + ch) as u8, b[0], b[1], b[2], b[3]]);
    assert(m[0] / 16 == 0xB && m[0] % 16 == ch);
    let (r1, c1) = MidiMsg::spec_parse_non_sysex(m, ctx, true);
    let fmsg = ChannelVoiceMsg::ControlChange { control: first };
    assert(ControlChange::spec_from_midi(m.subrange(1, 5)) == Ok::<ControlChange, ParseError>(first));
    assert(r1 == Ok::<(MidiMsg, usize), ParseError>((MidiMsg::ChannelVoice { channel, msg: fmsg }, 3usize)));
    let rest = m.subrange(3, 5);
    assert(rest == seq![b[2], b[3]]);
    let lsb = ChannelVoiceMsg::ControlChange {
        control: ControlChange::Undefined { control: b[2], value: b[3] },
    };
    assert(ControlChange::spec_from_midi(rest) == Ok::<ControlChange, ParseError>(
        ControlChange::Undefined { control: b[2], value: b[3] },
    ));
    assert(MidiMsg::spec_next_voice(rest, c1) == Some((channel, lsb, 2usize)));
    assert(fmsg.spec_maybe_extend(lsb) == Some(msg));
    lemma_nothing_follows(m, c1, channel, msg);
    assert(MidiMsg::spec_extend_loop(m, c1, channel, fmsg, 3) == (msg, 5int));
}


impl Parameter {
    /// Whether the parameter change is read back as itself: a parameter number, or a data
    /// entry sent in both of its halves, within range.
    pub open spec fn spec_round_trips(self) -> bool {
        match self {
            Parameter::Unregistered(x) => x <= 16383,
            Parameter::PitchBendSensitivityEntry(c, f) => c <= 127 && f <= 100,
            Parameter::FineTuningEntry(x) => -8192 <= x <= 8191,
            Parameter::ModulationDepthRangeEntry(x) | Parameter::AzimuthAngle3DSoundEntry(x)
            | Parameter::ElevationAngle3DSoundEntry(x) | Parameter::Gain3DSoundEntry(x)
            | Parameter::DistanceRatio3DSoundEntry(x) | Parameter::MaxiumumDistance3DSoundEntry(x)
            | Parameter::GainAtMaxiumumDistance3DSoundEntry(x)
            | Parameter::ReferenceDistanceRatio3DSoundEntry(x)
            | Parameter::PanSpreadAngle3DSoundEntry(x) | Parameter::RollAngle3DSoundEntry(x) => x
                <= 16383,
            Parameter::CoarseTuningEntry(x) => -64 <= x <= 63,
            Parameter::TuningProgramSelectEntry(x) | Parameter::TuningBankSelectEntry(x) => x <= 127,
            Parameter::PolyphonicExpressionEntry(x) => x <= 16,
            _ => true,
        }
    }

    /// The parameter that the selection of this one's number gives.
    pub open spec fn spec_selection(self) -> Parameter {
        match self {
            Parameter::PitchBendSensitivityEntry(..) => Parameter::PitchBendSensitivity,
            Parameter::FineTuningEntry(_) => Parameter::FineTuning,
            Parameter::CoarseTuningEntry(_) => Parameter::CoarseTuning,
            Parameter::TuningProgramSelectEntry(_) => Parameter::TuningProgramSelect,
            Parameter::TuningBankSelectEntry(_) => Parameter::TuningBankSelect,
            Parameter::PolyphonicExpressionEntry(_) => Parameter::PolyphonicExpression,
            Parameter::ModulationDepthRangeEntry(_) => Parameter::ModulationDepthRange,
            Parameter::AzimuthAngle3DSoundEntry(_) => Parameter::AzimuthAngle3DSound,
            Parameter::ElevationAngle3DSoundEntry(_) => Parameter::ElevationAngle3DSound,
            Parameter::Gain3DSoundEntry(_) => Parameter::Gain3DSound,
            Parameter::DistanceRatio3DSoundEntry(_) => Parameter::DistanceRatio3DSound,
            Parameter::MaxiumumDistance3DSoundEntry(_) => Parameter::MaxiumumDistance3DSound,
            Parameter::GainAtMaxiumumDistance3DSoundEntry(_) => Parameter::GainAtMaxiumumDistance3DSound,
            Parameter::ReferenceDistanceRatio3DSoundEntry(_) => Parameter::ReferenceDistanceRatio3DSound,
            Parameter::PanSpreadAngle3DSoundEntry(_) => Parameter::PanSpreadAngle3DSound,
            Parameter::RollAngle3DSoundEntry(_) => Parameter::RollAngle3DSound,
            other => other,
        }
    }
}

/// A parameter entry — the selection of its number followed by a data entry MSB and, with
/// running status, LSB — is read back.
#[verifier::rlimit(100)]
proof fn lemma_parameter_entry_round_trip(ctx: ReceiverContext, channel: Channel, p: Parameter, after_msb: Parameter)
    requires
        spec_not_extending(
            ctx,
            channel,
            (ChannelVoiceMsg::ControlChange { control: ControlChange::Parameter(p) }),
        ),
        p.spec_midi_running().len() == 8,
        p.spec_midi_running().subrange(0, 4) == p.spec_selection().spec_midi_running(),
        p.spec_midi_running()[4] == 6,
        p.spec_midi_running()[5] <= 127,
        p.spec_midi_running()[6] == 38,
        p.spec_midi_running()[7] <= 127,
        p.spec_selection().spec_midi_running()[1] <= 127,
        p.spec_selection().spec_midi_running()[3] <= 127,
        Parameter::spec_from_number(
            p.spec_selection().spec_midi_running()[3],
            p.spec_selection().spec_midi_running()[1],
        ) == Some(p.spec_selection()),
        p.spec_selection().spec_extend(Some((p.spec_midi_running()[5] * 128) as u16), None)
            == Some(after_msb),
        after_msb.spec_extend(None, Some(p.spec_midi_running()[7])) == Some(p),
        p.spec_selection().spec_midi_running()[0] == 100,
        p.spec_selection().spec_midi_running()[2] == 101,
    ensures
        ({
            let mm = MidiMsg::ChannelVoice {
                channel,
                msg: ChannelVoiceMsg::ControlChange { control: ControlChange::Parameter(p) },
            };
            let m = mm.spec_midi();
            MidiMsg::spec_parsed(
                m,
                ctx,
                true,
                Ok((mm, m.len() as usize)),
                MidiMsg::spec_parse_non_sysex(m, ctx, true).1,
            )
        }),
{
    let control = ControlChange::Parameter(p);
    let msg = ChannelVoiceMsg::ControlChange { control };
    let mm = MidiMsg::ChannelVoice { channel, msg };
    let m = mm.spec_midi();
    lemma_channel_round_trip(channel);
    let ch = channel.spec_to_u8();
    let b = p.spec_midi_running();
    assert(m == seq![(0xB0 + ch) as u8, b[0], b[1], b[2], b[3], b[4], b[5], b[6], b[7]]);
    assert(m[0] / 16 == 0xB && m[0] % 16 == ch);
    let (r1, c1) = MidiMsg::spec_parse_non_sysex(m, ctx, true);
    let u1 = ChannelVoiceMsg::ControlChange {
        control: ControlChange::Undefined { control: 100, value: b[1] },
    };
    assert(ControlChange::spec_from_midi(m.subrange(1, 9)) == Ok::<ControlChange, ParseError>(
        ControlChange::Undefined { control: 100, value: b[1] },
    ));
    assert(r1 == Ok::<(MidiMsg, usize), ParseError>((MidiMsg::ChannelVoice { channel, msg: u1 }, 3usize)));
    let u2 = ChannelVoiceMsg::ControlChange {
        control: ControlChange::Undefined { control: 101, value: b[3] },
    };
    assert(m.subrange(3, 9).subrange(0, 2) == seq![101u8, b[3]]);
    assert(ControlChange::spec_from_midi(m.subrange(3, 9)) == Ok::<ControlChange, ParseError>(
        ControlChange::Undefined { control: 101, value: b[3] },
    ));
    assert(MidiMsg::spec_next_voice(m.subrange(3, 9), c1) == Some((channel, u2, 2usize)));
    let sel = ChannelVoiceMsg::ControlChange {
        control: ControlChange::Parameter(p.spec_selection()),
    };
    assert(u1.spec_maybe_extend(u2) == Some(sel));
    let d = ChannelVoiceMsg::ControlChange { control: ControlChange::DataEntry((b[5] * 128) as u16) };
    assert(ControlChange::spec_from_midi(m.subrange(5, 9)) == Ok::<ControlChange, ParseError>(
        ControlChange::DataEntry((b[5] * 128) as u16),
    ));
    assert(MidiMsg::spec_next_voice(m.subrange(5, 9), c1) == Some((channel, d, 2usize)));
    let after = ChannelVoiceMsg::ControlChange { control: ControlChange::Parameter(after_msb) };
    assert(sel.spec_maybe_extend(d) == Some(after));
    let l = ChannelVoiceMsg::ControlChange {
        control: ControlChange::Undefined { control: 38, value: b[7] },
    };
    assert(ControlChange::spec_from_midi(m.subrange(7, 9)) == Ok::<ControlChange, ParseError>(
        ControlChange::Undefined { control: 38, value: b[7] },
    ));
    assert(MidiMsg::spec_next_voice(m.subrange(7, 9), c1) == Some((channel, l, 2usize)));
    assert(after.spec_maybe_extend(l) == Some(msg));
    lemma_nothing_follows(m, c1, channel, msg);
    assert(MidiMsg::spec_extend_loop(m, c1, channel, after, 7) == (msg, 9int));
    assert(MidiMsg::spec_extend_loop(m, c1, channel, sel, 5) == (msg, 9int));
    assert(MidiMsg::spec_extend_loop(m, c1, channel, u1, 3) == (msg, 9int));
}

/// A parameter change whose data entry is sent as its most significant half alone is read
/// back.
#[verifier::rlimit(100)]
proof fn lemma_parameter_msb_entry_round_trip(ctx: ReceiverContext, channel: Channel, p: Parameter)
    requires
        spec_not_extending(
            ctx,
            channel,
            (ChannelVoiceMsg::ControlChange { control: ControlChange::Parameter(p) }),
        ),
        p.spec_midi_running().len() == 6,
        p.spec_midi_running().subrange(0, 4) == p.spec_selection().spec_midi_running(),
        p.spec_midi_running()[4] == 6,
        p.spec_midi_running()[5] <= 127,
        p.spec_selection().spec_midi_running()[1] <= 127,
        p.spec_selection().spec_midi_running()[3] <= 127,
        Parameter::spec_from_number(
            p.spec_selection().spec_midi_running()[3],
            p.spec_selection().spec_midi_running()[1],
        ) == Some(p.spec_selection()),
        p.spec_selection().spec_extend(Some((p.spec_midi_running()[5] * 128) as u16), None)
            == Some(p),
        p.spec_selection().spec_midi_running()[0] == 100,
        p.spec_selection().spec_midi_running()[2] == 101,
    ensures
        ({
            let mm = MidiMsg::ChannelVoice {
                channel,
                msg: ChannelVoiceMsg::ControlChange { control: ControlChange::Parameter(p) },
            };
            let m = mm.spec_midi();
            MidiMsg::spec_parsed(
                m,
                ctx,
                true,
                Ok((mm, m.len() as usize)),
                MidiMsg::spec_parse_non_sysex(m, ctx, true).1,
            )
        }),
{
    let control = ControlChange::Parameter(p);
    let msg = ChannelVoiceMsg::ControlChange { control };
    let mm = MidiMsg::ChannelVoice { channel, msg };
    let m = mm.spec_midi();
    lemma_channel_round_trip(channel);
    let ch = channel.spec_to_u8();
    let b = p.spec_midi_running();
    assert(m == seq![(0xB0 + ch) as u8, b[0], b[1], b[2], b[3], b[4], b[5]]);
    assert(m[0] / 16 == 0xB && m[0] % 16 == ch);
    let (r1, c1) = MidiMsg::spec_parse_non_sysex(m, ctx, true);
    let u1 = ChannelVoiceMsg::ControlChange {
        control: ControlChange::Undefined { control: 100, value: b[1] },
    };
    assert(ControlChange::spec_from_midi(m.subrange(1, 7)) == Ok::<ControlChange, ParseError>(
        ControlChange::Undefined { control: 100, value: b[1] },
    ));
    assert(r1 == Ok::<(MidiMsg, usize), ParseError>((MidiMsg::ChannelVoice { channel, msg: u1 }, 3usize)));
    let u2 = ChannelVoiceMsg::ControlChange {
        control: ControlChange::Undefined { control: 101, value: b[3] },
    };
    assert(m.subrange(3, 7).subrange(0, 2) == seq![101u8, b[3]]);
    assert(ControlChange::spec_from_midi(m.subrange(3, 7)) == Ok::<ControlChange, ParseError>(
        ControlChange::Undefined { control: 101, value: b[3] },
    ));
    assert(MidiMsg::spec_next_voice(m.subrange(3, 7), c1) == Some((channel, u2, 2usize)));
    let sel = ChannelVoiceMsg::ControlChange {
        control: ControlChange::Parameter(p.spec_selection()),
    };
    assert(u1.spec_maybe_extend(u2) == Some(sel));
    let d = ChannelVoiceMsg::ControlChange { control: ControlChange::DataEntry((b[5] * 128) as u16) };
    assert(ControlChange::spec_from_midi(m.subrange(5, 7)) == Ok::<ControlChange, ParseError>(
        ControlChange::DataEntry((b[5] * 128) as u16),
    ));
    assert(MidiMsg::spec_next_voice(m.subrange(5, 7), c1) == Some((channel, d, 2usize)));
    assert(sel.spec_maybe_extend(d) == Some(msg));
    lemma_nothing_follows(m, c1, channel, msg);
    assert(MidiMsg::spec_extend_loop(m, c1, channel, sel, 5) == (msg, 7int));
    assert(MidiMsg::spec_extend_loop(m, c1, channel, u1, 3) == (msg, 7int));
}

/// A parameter change that round trips is read back.
#[verifier::rlimit(100)]
proof fn lemma_parameter_round_trip(ctx: ReceiverContext, channel: Channel, p: Parameter)
    requires
        spec_not_extending(
            ctx,
            channel,
            (ChannelVoiceMsg::ControlChange { control: ControlChange::Parameter(p) }),
        ),
        p.spec_round_trips(),
    ensures
        ({
            let mm = MidiMsg::ChannelVoice {
                channel,
                msg: ChannelVoiceMsg::ControlChange { control: ControlChange::Parameter(p) },
            };
            let m = mm.spec_midi();
            MidiMsg::spec_parsed(
                m,
                ctx,
                true,
                Ok((mm, m.len() as usize)),
                MidiMsg::spec_parse_non_sysex(m, ctx, true).1,
            )
        }),
{
    let control = ControlChange::Parameter(p);
    let b = control.spec_midi_running();
    if b.len() == 4 {
        lemma_long_control_change_round_trip(
            ctx, channel,
            control,
            ControlChange::spec_from_control(b[0], b[1]),
        );
    } else if b.len() == 6 {
        assert(p.spec_midi_running().subrange(0, 4) =~= p.spec_selection().spec_midi_running());
        lemma_parameter_msb_entry_round_trip(ctx, channel, p);
    } else {
        let b = p.spec_midi_running();
        let after = p.spec_selection().spec_extend(Some((b[5] * 128) as u16), None).unwrap();
        assert(b.subrange(0, 4) =~= p.spec_selection().spec_midi_running());
        lemma_parameter_entry_round_trip(ctx, channel, p, after);
    }
}

/// A control change that round trips is read back.
#[verifier::rlimit(100)]
proof fn lemma_control_change_round_trip(ctx: ReceiverContext, channel: Channel, control: ControlChange)
    requires
        spec_not_extending(ctx, channel, (ChannelVoiceMsg::ControlChange { control })),
        control.spec_round_trips(),
    ensures
        ({
            let mm = MidiMsg::ChannelVoice { channel, msg: ChannelVoiceMsg::ControlChange { control } };
            let m = mm.spec_midi();
            MidiMsg::spec_parsed(
                m,
                ctx,
                true,
                Ok((mm, m.len() as usize)),
                MidiMsg::spec_parse_non_sysex(m, ctx, true).1,
            )
        }),
{
    match control {
        ControlChange::BankSelect(x) | ControlChange::ModWheel(x) | ControlChange::Breath(x)
        | ControlChange::Foot(x) | ControlChange::Portamento(x) | ControlChange::Volume(x)
        | ControlChange::Balance(x) | ControlChange::Pan(x) | ControlChange::Expression(x)
        | ControlChange::Effect1(x) | ControlChange::Effect2(x)
        | ControlChange::GeneralPurpose1(x) | ControlChange::GeneralPurpose2(x)
        | ControlChange::GeneralPurpose3(x) | ControlChange::GeneralPurpose4(x)
        | ControlChange::DataEntry(x) => {
            let b = control.spec_midi_running();
            lemma_long_control_change_round_trip(
                ctx, channel,
                control,
                ControlChange::spec_from_control(b[0], b[1]),
            );
        },
        ControlChange::UndefinedHighRes { control1, control2, value } => {
            let b = control.spec_midi_running();
            lemma_long_control_change_round_trip(
                ctx, channel,
                control,
                ControlChange::spec_from_control(b[0], b[1]),
            );
        },
        ControlChange::Parameter(p) => {
            lemma_parameter_round_trip(ctx, channel, p);
        },
        _ => {
            lemma_short_control_change_shape(control);
            lemma_short_control_change_round_trip(ctx, channel, control);
        },
    }
}

/// A control change that round trips and is neither a 14-bit controller nor a parameter is
/// sent as one controller below 120 and a 7-bit value, which are read as that control change.
#[verifier::rlimit(100)]
proof fn lemma_short_control_change_shape(control: ControlChange)
    requires
        control.spec_round_trips(),
        !(control is BankSelect || control is ModWheel || control is Breath || control is Foot
            || control is Portamento || control is Volume || control is Balance || control is Pan
            || control is Expression || control is Effect1 || control is Effect2
            || control is GeneralPurpose1 || control is GeneralPurpose2 || control is GeneralPurpose3
            || control is GeneralPurpose4 || control is DataEntry || control is UndefinedHighRes
            || control is Parameter),
    ensures
        control.spec_midi_running().len() == 2,
        control.spec_midi_running()[0] < 120,
        control.spec_midi_running()[1] <= 127,
        ControlChange::spec_from_control(
            control.spec_midi_running()[0],
            control.spec_midi_running()[1],
        ) == control,
{
}

/// Writes read back: a channel voice message that round trips, sent on any channel, is read
/// as that message, taking all of its bytes, by any receiver that does not combine its first
/// bytes with the message it remembers (a fresh receiver, or one whose remembered message on
/// that channel cannot be extended, among them: see [`lemma_fresh_not_extending`]).
#[verifier::rlimit(100)]
pub proof fn lemma_channel_voice_round_trip(ctx: ReceiverContext, channel: Channel, msg: ChannelVoiceMsg)
    requires
        spec_not_extending(ctx, channel, msg),
        msg.spec_round_trips(),
    ensures
        ({
            let mm = MidiMsg::ChannelVoice { channel, msg };
            let m = mm.spec_midi();
            MidiMsg::spec_parsed(
                m,
                ctx,
                true,
                Ok((mm, m.len() as usize)),
                MidiMsg::spec_parse_non_sysex(m, ctx, true).1,
            )
        }),
{
    let mm = MidiMsg::ChannelVoice { channel, msg };
    let m = mm.spec_midi();
    lemma_channel_round_trip(channel);
    let ch = channel.spec_to_u8();
    let (r1, c1) = MidiMsg::spec_parse_non_sysex(m, ctx, true);
    assert(m[0] == msg.spec_status() + ch);
    assert(m[0] / 16 == msg.spec_status() / 16 && m[0] % 16 == ch);
    match msg {
        ChannelVoiceMsg::HighResNoteOff { note, velocity } | ChannelVoiceMsg::HighResNoteOn {
            note,
            velocity,
        } => {
            let first = match msg {
                ChannelVoiceMsg::HighResNoteOff { .. } => ChannelVoiceMsg::NoteOff {
                    note,
                    velocity: spec_u14_msb(velocity),
                },
                _ => ChannelVoiceMsg::NoteOn { note, velocity: spec_u14_msb(velocity) },
            };
            assert(r1 == Ok::<(MidiMsg, usize), ParseError>(
                (MidiMsg::ChannelVoice { channel, msg: first }, 3usize),
            ));
            let rest = m.subrange(3, m.len() as int);
            assert(rest == seq![(0xB0u8 + ch) as u8, 0x58u8, spec_u14_lsb(velocity)]);
            let cc = ChannelVoiceMsg::ControlChange {
                control: ControlChange::HighResVelocity(spec_u14_lsb(velocity)),
            };
            assert(MidiMsg::spec_next_voice(rest, c1) == Some((channel, cc, 3usize)));
            assert(first.spec_maybe_extend(cc) == Some(msg));
            lemma_nothing_follows(m, c1, channel, msg);
            assert(MidiMsg::spec_extend_loop(m, c1, channel, first, 3) == (msg, 6int));
        },
        ChannelVoiceMsg::ControlChange { control } => {
            lemma_control_change_round_trip(ctx, channel, control);
        },
        _ => {
            assert(r1 == Ok::<(MidiMsg, usize), ParseError>((mm, m.len() as usize)));
            lemma_nothing_follows(m, c1, channel, msg);
        },
    }
}

/// The bytes of the messages one after the other.
pub open spec fn spec_messages_midi(msgs: Seq<MidiMsg>) -> Seq<u8>
    decreases msgs.len(),
{
    if msgs.len() == 0 {
        Seq::empty()
    } else {
        spec_messages_midi(msgs.drop_last()) + msgs.last().spec_midi()
    }
}

/// The MIDI channel, 1-16. Used by [`MidiMsg`] and elsewhere.
#[derive(Debug, Clone, Copy, PartialEq, Eq, Structural)]
pub enum Channel {
    Ch1,
    Ch2,
    Ch3,
    Ch4,
    Ch5,
    Ch6,
    Ch7,
    Ch8,
    Ch9,
    Ch10,
    Ch11,
    Ch12,
    Ch13,
    Ch14,
    Ch15,
    Ch16,
}

impl Channel {
    /// The channel number, 0-15.
    pub open spec fn spec_to_u8(self) -> u8 {
        match self {
            Channel::Ch1 => 0,
            Channel::Ch2 => 1,
            Channel::Ch3 => 2,
            Channel::Ch4 => 3,
            Channel::Ch5 => 4,
            Channel::Ch6 => 5,
            Channel::Ch7 => 6,
            Channel::Ch8 => 7,
            Channel::Ch9 => 8,
            Channel::Ch10 => 9,
            Channel::Ch11 => 10,
            Channel::Ch12 => 11,
            Channel::Ch13 => 12,
            Channel::Ch14 => 13,
            Channel::Ch15 => 14,
            Channel::Ch16 => 15,
        }
    }

    /// The channel with number `x` (0-15); numbers above 15 give channel 16.
    pub open spec fn spec_from_u8(x: u8) -> Channel {
        if x == 0 {
            Channel::Ch1
        } else if x == 1 {
            Channel::Ch2
        } else if x == 2 {
            Channel::Ch3
        } else if x == 3 {
            Channel::Ch4
        } else if x == 4 {
            Channel::Ch5
        } else if x == 5 {
            Channel::Ch6
        } else if x == 6 {
            Channel::Ch7
        } else if x == 7 {
            Channel::Ch8
        } else if x == 8 {
            Channel::Ch9
        } else if x == 9 {
            Channel::Ch10
        } else if x == 10 {
            Channel::Ch11
        } else if x == 11 {
            Channel::Ch12
        } else if x == 12 {
            Channel::Ch13
        } else if x == 13 {
            Channel::Ch14
        } else if x == 14 {
            Channel::Ch15
        } else {
            Channel::Ch16
        }
    }

    /// The channel number, 0-15.
    pub fn to_u8(&self) -> (r: u8)
        ensures
            r == self.spec_to_u8(),
            r <= 15,
    {
        match self {
            Channel::Ch1 => 0,
            Channel::Ch2 => 1,
            Channel::Ch3 => 2,
            Channel::Ch4 => 3,
            Channel::Ch5 => 4,
            Channel::Ch6 => 5,
            Channel::Ch7 => 6,
            Channel::Ch8 => 7,
            Channel::Ch9 => 8,
            Channel::Ch10 => 9,
            Channel::Ch11 => 10,
            Channel::Ch12 => 11,
            Channel::Ch13 => 12,
            Channel::Ch14 => 13,
            Channel::Ch15 => 14,
            Channel::Ch16 => 15,
        }
    }

    /// The channel with number `x` (0-15); numbers above 15 give channel 16.
    pub fn from_u8(x: u8) -> (r: Channel)
        ensures
            r == Channel::spec_from_u8(x),
    {
        if x == 0 {
            Channel::Ch1
        } else if x == 1 {
            Channel::Ch2
        } else if x == 2 {
            Channel::Ch3
        } else if x == 3 {
            Channel::Ch4
        } else if x == 4 {
            Channel::Ch5
        } else if x == 5 {
            Channel::Ch6
        } else if x == 6 {
            Channel::Ch7
        } else if x == 7 {
            Channel::Ch8
        } else if x == 8 {
            Channel::Ch9
        } else if x == 9 {
            Channel::Ch10
        } else if x == 10 {
            Channel::Ch11
        } else if x == 11 {
            Channel::Ch12
        } else if x == 12 {
            Channel::Ch13
        } else if x == 13 {
            Channel::Ch14
        } else if x == 14 {
            Channel::Ch15
        } else {
            Channel::Ch16
        }
    }
}

} // verus!
