//! What a receiver reads back of what was written: laws over the byte encodings of the
//! messages and the parser's specification.
use vstd::prelude::*;

use crate::file::{
    spec_log2, spec_meta_event, spec_pow2_u16, spec_string_bytes, FileTimeSignature, KeySignature,
    Meta,
};
use crate::message::{lemma_channel_round_trip, Channel, MidiMsg, ReceiverContext};
use crate::parse_error::ParseError;
use crate::system_common::SystemCommonMsg;
use crate::system_exclusive::{
    spec_sysex_bytes, spec_sysex_end, spec_u7s, DeviceID, ManufacturerID, SystemExclusiveMsg,
    UniversalRealTimeMsg,
};
use crate::system_real_time::SystemRealTimeMsg;
use crate::time_code::{lemma_time_code_round_trip, HighResTimeCode, TimeCode, TimeCodeType};
use crate::util::{
    lemma_vlq_round_trip, spec_read_vlq, spec_u14, spec_u14_bytes, spec_u14_lsb, spec_u14_msb,
    spec_vlq,
};

verus! {

/// Whether a system common message is read back as written: a quarter frame is read as the
/// receiver's time code with one piece replaced, so only the other messages are, and only when
/// their values fit in their bytes.
pub open spec fn spec_system_common_round_trips(msg: SystemCommonMsg) -> bool {
    match msg {
        SystemCommonMsg::SongPosition(pos) => pos <= 16383,
        SystemCommonMsg::SongSelect(song) => song <= 127,
        SystemCommonMsg::TuneRequest => true,
        _ => false,
    }
}

/// Writes read back: a system common message that round trips is read by any receiver as
/// written, taking all of its bytes, and leaves the receiver as it was.
pub proof fn lemma_system_common_round_trip(msg: SystemCommonMsg, ctx: ReceiverContext)
    requires
        spec_system_common_round_trips(msg),
    ensures
        ({
            let mm = MidiMsg::SystemCommon { msg };
            let m = mm.spec_midi();
            MidiMsg::spec_parsed(m, ctx, true, Ok((mm, m.len() as usize)), ctx)
        }),
{
    let mm = MidiMsg::SystemCommon { msg };
    let m = mm.spec_midi();
    let rest = m.subrange(1, m.len() as int);
    match msg {
        SystemCommonMsg::SongPosition(pos) => {
            assert(rest == spec_u14_bytes(pos));
            assert(spec_u14(spec_u14_msb(pos), spec_u14_lsb(pos)) == pos);
        },
        SystemCommonMsg::SongSelect(song) => {
            assert(rest == seq![song]);
        },
        _ => {},
    }
    assert(MidiMsg::spec_parse_non_sysex(m, ctx, true) == (
        Ok::<(MidiMsg, usize), ParseError>((mm, m.len() as usize)),
        ctx,
    ));
}

/// Writes read back: a system real-time message is read by any receiver as written, taking its
/// one byte, and leaves the receiver as it was.
pub proof fn lemma_system_real_time_round_trip(msg: SystemRealTimeMsg, ctx: ReceiverContext)
    ensures
        ({
            let mm = MidiMsg::SystemRealTime { msg };
            let m = mm.spec_midi();
            MidiMsg::spec_parsed(m, ctx, true, Ok((mm, m.len() as usize)), ctx)
        }),
{
    let mm = MidiMsg::SystemRealTime { msg };
    let m = mm.spec_midi();
    assert(MidiMsg::spec_parse_non_sysex(m, ctx, true) == (
        Ok::<(MidiMsg, usize), ParseError>((mm, 1usize)),
        ctx,
    ));
}

/// The receiver after reading each of the byte sequences in `ms` in turn, as single messages
/// outside a system exclusive message.
pub open spec fn spec_after_reading(ctx: ReceiverContext, ms: Seq<Seq<u8>>) -> ReceiverContext
    decreases ms.len(),
{
    if ms.len() == 0 {
        ctx
    } else {
        spec_after_reading(
            MidiMsg::spec_parse_non_sysex(ms[0], ctx, true).1,
            ms.subrange(1, ms.len() as int),
        )
    }
}

/// The eight quarter frame messages that send the time code `tc`, in order.
pub open spec fn spec_quarter_frames(tc: TimeCode) -> Seq<Seq<u8>> {
    Seq::new(
        8,
        |i: int|
            MidiMsg::SystemCommon { msg: SystemCommonMsg::spec_quarter_frame(i as u8, tc) }.spec_midi(),
    )
}

/// The time code after reading the quarter frame bytes `nibbles` in turn.
pub open spec fn spec_extend_all(tc: TimeCode, nibbles: Seq<u8>) -> TimeCode
    decreases nibbles.len(),
{
    if nibbles.len() == 0 {
        tc
    } else {
        spec_extend_all(tc.spec_extend(nibbles[0]).0, nibbles.subrange(1, nibbles.len() as int))
    }
}

/// Reading a quarter frame byte replaces one piece of the time code.
proof fn lemma_read_quarter_frame(ctx: ReceiverContext, nibble: u8)
    requires
        nibble <= 127,
    ensures
        MidiMsg::spec_parse_non_sysex(seq![0xF1u8, nibble], ctx, true).1 == (ReceiverContext {
            time_code: ctx.time_code.spec_extend(nibble).0,
            ..ctx
        }),
{
    let m = seq![0xF1u8, nibble];
    assert(m.subrange(1, 2) == seq![nibble]);
}

/// Reading the quarter frames one by one follows the time code through its pieces.
proof fn lemma_read_quarter_frames(ctx: ReceiverContext, tc: TimeCode, i: int)
    requires
        0 <= i <= 8,
    ensures
        spec_after_reading(ctx, spec_quarter_frames(tc).subrange(i, 8)) == (ReceiverContext {
            time_code: spec_extend_all(ctx.time_code, tc.spec_to_nibbles().subrange(i, 8)),
            ..ctx
        }),
    decreases 8 - i,
{
    let ms = spec_quarter_frames(tc).subrange(i, 8);
    let ns = tc.spec_to_nibbles().subrange(i, 8);
    if i < 8 {
        let nib = tc.spec_to_nibbles()[i];
        assert(nib <= 127) by {
            assert(tc.spec_to_bytes()[3] <= 119);
        }
        assert(ms[0] == seq![0xF1u8, nib]);
        lemma_read_quarter_frame(ctx, nib);
        let ctx1 = ReceiverContext { time_code: ctx.time_code.spec_extend(nib).0, ..ctx };
        lemma_read_quarter_frames(ctx1, tc, i + 1);
        assert(ms.subrange(1, ms.len() as int) == spec_quarter_frames(tc).subrange(i + 1, 8));
        assert(ns.subrange(1, ns.len() as int) == tc.spec_to_nibbles().subrange(i + 1, 8));
    } else {
        assert(ms.len() == 0);
        assert(ns.len() == 0);
    }
}

/// Reading bytes is reading the first two and then the rest.
proof fn lemma_extend_all_two(t: TimeCode, ns: Seq<u8>)
    requires
        ns.len() >= 2,
    ensures
        spec_extend_all(t, ns) == spec_extend_all(
            t.spec_extend(ns[0]).0.spec_extend(ns[1]).0,
            ns.subrange(2, ns.len() as int),
        ),
{
    let rest = ns.subrange(1, ns.len() as int);
    let t1 = t.spec_extend(ns[0]).0;
    assert(spec_extend_all(t, ns) == spec_extend_all(t1, rest));
    assert(rest[0] == ns[1]);
    assert(rest.subrange(1, rest.len() as int) =~= ns.subrange(2, ns.len() as int));
    assert(spec_extend_all(t1, rest) == spec_extend_all(
        t1.spec_extend(rest[0]).0,
        rest.subrange(1, rest.len() as int),
    ));
}

/// The low and then the high nibble of a byte below 64 replace the byte.
proof fn lemma_low_then_high(old: u8, b: u8)
    requires
        b < 64,
    ensures
        ((((old / 16) * 16 + b % 16) as u8) % 16 + (b / 16) * 16) as u8 == b,
{
    assert(((((old / 16) * 16 + b % 16) as u8) % 16 + (b / 16) * 16) as u8 == b) by (bit_vector)
        requires
            b < 64,
    ;
}

/// The low nibble of the hours byte, then its high nibble, replace the hours and the rate.
proof fn lemma_hours_nibbles(old: u8, h: u8, c: u8)
    requires
        h <= 23,
        c <= 3,
    ensures
        ({
            let b = (h + c * 32) as u8;
            let mid = ((old / 16) * 16 + b % 16) as u8;
            &&& ((mid % 16) + ((b / 16) % 2) * 16) as u8 == h
            &&& (b / 16) / 2 == c
        }),
{
    let b = (h + c * 32) as u8;
    assert(((((old / 16) * 16 + b % 16) as u8 % 16) + ((b / 16) % 2) * 16) as u8 == h && (b / 16)
        / 2 == c) by (bit_vector)
        requires
            h <= 23,
            c <= 3,
            b == (h + c * 32) as u8,
    ;
}

/// The piece number and value of a quarter frame byte.
proof fn lemma_nibble(nib: u8, n: u8, x: u8)
    requires
        nib == 16 * n + x,
        x < 16,
    ensures
        nib / 16 == n,
        nib % 16 == x,
{
}

/// The two quarter frames that carry the frames replace them.
proof fn lemma_frames_pieces(t: TimeCode, b: u8, ns: Seq<u8>)
    requires
        b < 64,
        ns.len() >= 2,
        ns[0] == (0 + b % 16) as u8,
        ns[1] == (16 + b / 16) as u8,
    ensures
        spec_extend_all(t, ns) == spec_extend_all(
            TimeCode { frames: b, ..t },
            ns.subrange(2, ns.len() as int),
        ),
{
    lemma_extend_all_two(t, ns);
    lemma_nibble(ns[0], 0, (b % 16) as u8);
    lemma_nibble(ns[1], 1, (b / 16) as u8);
    lemma_low_then_high(t.frames, b);
}

/// The two quarter frames that carry the seconds replace them.
proof fn lemma_seconds_pieces(t: TimeCode, b: u8, ns: Seq<u8>)
    requires
        b < 64,
        ns.len() >= 2,
        ns[0] == (32 + b % 16) as u8,
        ns[1] == (48 + b / 16) as u8,
    ensures
        spec_extend_all(t, ns) == spec_extend_all(
            TimeCode { seconds: b, ..t },
            ns.subrange(2, ns.len() as int),
        ),
{
    lemma_extend_all_two(t, ns);
    lemma_nibble(ns[0], 2, (b % 16) as u8);
    lemma_nibble(ns[1], 3, (b / 16) as u8);
    lemma_low_then_high(t.seconds, b);
}

/// The two quarter frames that carry the minutes replace them.
proof fn lemma_minutes_pieces(t: TimeCode, b: u8, ns: Seq<u8>)
    requires
        b < 64,
        ns.len() >= 2,
        ns[0] == (64 + b % 16) as u8,
        ns[1] == (80 + b / 16) as u8,
    ensures
        spec_extend_all(t, ns) == spec_extend_all(
            TimeCode { minutes: b, ..t },
            ns.subrange(2, ns.len() as int),
        ),
{
    lemma_extend_all_two(t, ns);
    lemma_nibble(ns[0], 4, (b % 16) as u8);
    lemma_nibble(ns[1], 5, (b / 16) as u8);
    lemma_low_then_high(t.minutes, b);
}

/// The two quarter frames that carry the hours and the rate replace them.
proof fn lemma_hours_pieces(t: TimeCode, h: u8, ct: TimeCodeType, ns: Seq<u8>)
    requires
        h <= 23,
        ns.len() >= 2,
        ns[0] == (96 + ((h + ct.spec_to_u8() * 32) as u8) % 16) as u8,
        ns[1] == (112 + ((h + ct.spec_to_u8() * 32) as u8) / 16) as u8,
    ensures
        spec_extend_all(t, ns) == spec_extend_all(
            TimeCode { hours: h, code_type: ct, ..t },
            ns.subrange(2, ns.len() as int),
        ),
{
    let c = ct.spec_to_u8();
    let b = (h + c * 32) as u8;
    assert(b / 16 < 8);
    lemma_extend_all_two(t, ns);
    lemma_nibble(ns[0], 6, (b % 16) as u8);
    lemma_nibble(ns[1], 7, (b / 16) as u8);
    lemma_hours_nibbles(t.hours, h, c);
    assert(TimeCodeType::spec_from_u2(c) == ct);
}

/// The eight pieces of a time code put together give it back, each field clamped to its range.
proof fn lemma_assemble_time_code(start: TimeCode, tc: TimeCode)
    ensures
        spec_extend_all(start, tc.spec_to_nibbles()) == tc.spec_clamped(),
{
    let b = tc.spec_to_bytes();
    let ns = tc.spec_to_nibbles();
    let h = spec_min_hours(tc);
    let t1 = TimeCode { frames: b[0], ..start };
    let t3 = TimeCode { seconds: b[1], ..t1 };
    let t5 = TimeCode { minutes: b[2], ..t3 };
    let t7 = TimeCode { hours: h, code_type: tc.code_type, ..t5 };
    lemma_frames_pieces(start, b[0], ns);
    lemma_seconds_pieces(t1, b[1], ns.subrange(2, 8));
    lemma_minutes_pieces(t3, b[2], ns.subrange(4, 8));
    lemma_hours_pieces(t5, h, tc.code_type, ns.subrange(6, 8));
    assert(ns.subrange(2, 8).subrange(2, 6) == ns.subrange(4, 8));
    assert(ns.subrange(4, 8).subrange(2, 4) == ns.subrange(6, 8));
    assert(ns.subrange(6, 8).subrange(2, 2).len() == 0);
    assert(t7 == tc.spec_clamped());
}

/// The hours of a time code clamped to their range.
pub open spec fn spec_min_hours(tc: TimeCode) -> u8 {
    tc.spec_clamped().hours
}

/// Receiving the eight quarter frames of a time code, in order, sets the receiver's time code to
/// it, each field clamped to its range, whatever time code the receiver had before; nothing
/// else of the receiver changes.
pub proof fn lemma_quarter_frames_round_trip(ctx: ReceiverContext, tc: TimeCode)
    ensures
        spec_after_reading(ctx, spec_quarter_frames(tc)) == (ReceiverContext {
            time_code: tc.spec_clamped(),
            ..ctx
        }),
{
    lemma_read_quarter_frames(ctx, tc, 0);
    assert(spec_quarter_frames(tc).subrange(0, 8) == spec_quarter_frames(tc));
    assert(tc.spec_to_nibbles().subrange(0, 8) == tc.spec_to_nibbles());
    lemma_assemble_time_code(ctx.time_code, tc);
}

/// Whether every byte is a data byte (below 0x80).
pub open spec fn spec_7bit(s: Seq<u8>) -> bool {
    forall|j: int| 0 <= j < s.len() ==> s[j] <= 127
}

/// Whether a manufacturer ID is sent as it is: a one-byte ID that does not announce a two-byte
/// one or another kind of message, or a two-byte ID of data bytes.
pub open spec fn spec_id_round_trips(id: ManufacturerID) -> bool {
    match id.1 {
        None => 1 <= id.0 <= 0x7C,
        Some(second) => id.0 <= 127 && second <= 127,
    }
}

/// Whether a system exclusive message is read back as written: a commercial message with such
/// an ID, or a non-commercial message, whose data are data bytes; or a full time code within
/// range, sent to all devices or to a device numbered below 127.
pub open spec fn spec_sysex_round_trips(msg: SystemExclusiveMsg) -> bool {
    match msg {
        SystemExclusiveMsg::Commercial { id, data } => spec_id_round_trips(id) && spec_7bit(data@),
        SystemExclusiveMsg::NonCommercial { data } => spec_7bit(data@),
        SystemExclusiveMsg::UniversalRealTime { device, msg } => {
            &&& (device matches DeviceID::Device(d) ==> d < 127)
            &&& msg matches UniversalRealTimeMsg::TimeCodeFull(t)
            &&& t.spec_in_range()
        },
        _ => false,
    }
}

/// Whether two system exclusive messages carry the same values: their data compared by view.
pub open spec fn spec_same_sysex(a: SystemExclusiveMsg, b: SystemExclusiveMsg) -> bool {
    match (a, b) {
        (
            SystemExclusiveMsg::Commercial { id, data },
            SystemExclusiveMsg::Commercial { id: id2, data: data2 },
        ) => id == id2 && data@ == data2@,
        (
            SystemExclusiveMsg::NonCommercial { data },
            SystemExclusiveMsg::NonCommercial { data: data2 },
        ) => data@ == data2@,
        (
            SystemExclusiveMsg::UniversalRealTime { device, msg },
            SystemExclusiveMsg::UniversalRealTime { device: device2, msg: msg2 },
        ) => device == device2 && msg == msg2,
        _ => false,
    }
}

/// The time code of a receiver after it reads `msg`, given the one it had: a full time code
/// replaces it.
pub open spec fn spec_time_code_after(msg: SystemExclusiveMsg, tc: TimeCode) -> TimeCode {
    match msg {
        SystemExclusiveMsg::UniversalRealTime {
            msg: UniversalRealTimeMsg::TimeCodeFull(t),
            ..
        } => t,
        _ => tc,
    }
}

/// The bytes of a system exclusive message as a message of its own.
pub open spec fn spec_sysex_midi(msg: SystemExclusiveMsg) -> Seq<u8> {
    MidiMsg::SystemExclusive { msg }.spec_midi()
}

/// Scanning data bytes up to an end flag finds that flag.
proof fn lemma_sysex_end_found(m: Seq<u8>, i: int, k: int)
    requires
        0 <= i <= k < m.len(),
        m[k] == 0xF7,
        forall|j: int| i <= j < k ==> m[j] <= 127,
    ensures
        spec_sysex_end(m, i) == Ok::<int, ParseError>(k),
    decreases k - i,
{
    if i < k {
        lemma_sysex_end_found(m, i + 1, k);
    }
}

/// The body of a system exclusive message that round trips is made of data bytes.
proof fn lemma_sysex_body_7bit(msg: SystemExclusiveMsg)
    requires
        spec_sysex_round_trips(msg),
    ensures
        spec_7bit(msg.spec_body()),
{
    match msg {
        SystemExclusiveMsg::Commercial { id, data } => {
            assert(spec_u7s(data@) == data@);
        },
        SystemExclusiveMsg::NonCommercial { data } => {
            assert(spec_u7s(data@) == data@);
        },
        SystemExclusiveMsg::UniversalRealTime { device, msg } => {
            if let UniversalRealTimeMsg::TimeCodeFull(t) = msg {
                assert(t.spec_to_bytes()[3] <= 119);
            }
        },
        _ => {},
    }
}

/// Writes read back: a system exclusive message that round trips is read by a receiver that
/// expects the start flag as a message with the same values, taking all of its bytes; of the
/// receiver only the time code changes, to the one that a full time code carries.
pub proof fn lemma_system_exclusive_round_trip(
    msg: SystemExclusiveMsg,
    ctx: ReceiverContext,
    r: Result<(MidiMsg, usize), ParseError>,
    ctx2: ReceiverContext,
)
    requires
        spec_sysex_round_trips(msg),
        !ctx.is_smf_sysex,
        spec_sysex_midi(msg).len() <= usize::MAX,
        MidiMsg::spec_parsed(spec_sysex_midi(msg), ctx, true, r, ctx2),
    ensures
        (r matches Ok((MidiMsg::SystemExclusive { msg: msg2 }, len)) && spec_same_sysex(msg, msg2)
            && len == spec_sysex_midi(msg).len()),
        ctx2 == (ReceiverContext { time_code: spec_time_code_after(msg, ctx.time_code), ..ctx }),
{
    let m = MidiMsg::SystemExclusive { msg }.spec_midi();
    let body = msg.spec_body();
    let k: int = body.len() as int + 1;
    lemma_sysex_body_7bit(msg);
    assert forall|j: int| 1 <= j < k implies m[j] <= 127 by {
        assert(m[j] == body[j - 1]);
    }
    lemma_sysex_end_found(m, 1, k);
    assert(m.subrange(1, k) == body);
    assert(spec_sysex_bytes(m, true) == Ok::<Seq<u8>, ParseError>(body));
    match msg {
        SystemExclusiveMsg::Commercial { id, data } => {
            assert(spec_u7s(data@) == data@);
            match id.1 {
                Some(second) => {
                    assert(body.subrange(3, body.len() as int) == data@);
                },
                None => {
                    assert(body.subrange(1, body.len() as int) == data@);
                },
            }
        },
        SystemExclusiveMsg::NonCommercial { data } => {
            assert(spec_u7s(data@) == data@);
            assert(body.subrange(1, body.len() as int) == data@);
        },
        SystemExclusiveMsg::UniversalRealTime { device, msg: rt } => {
            if let UniversalRealTimeMsg::TimeCodeFull(t) = rt {
                let b2 = body.subrange(2, body.len() as int);
                assert(b2 == seq![0x01u8, 0x01] + t.spec_midi());
                assert(b2.subrange(2, b2.len() as int) == t.spec_midi());
                lemma_time_code_round_trip(t);
                assert(body.subrange(1, body.len() as int)[0] == device.spec_to_u8());
            }
        },
        _ => {},
    }
}

/// Whether a meta event type is one that is read as a named event.
pub open spec fn spec_is_known_meta_type(t: u8) -> bool {
    t <= 0x07 || t == 0x20 || t == 0x2F || t == 0x51 || t == 0x54 || t == 0x58 || t == 0x59 || t
        == 0x7F
}

/// Whether each field of a high resolution time code is within its range.
pub open spec fn spec_high_res_in_range(t: HighResTimeCode) -> bool {
    t.fractional_frames <= 99 && t.frames <= 29 && t.seconds <= 59 && t.minutes <= 59 && t.hours
        <= 23
}

/// Whether a meta event is read back as written: it can be written; a tempo fits in three
/// bytes; an SMPTE offset is within range; a time signature's denominator is a power of two;
/// an unknown event does not have the type of a named one.
pub open spec fn spec_meta_round_trips(meta: Meta) -> bool {
    &&& meta.spec_serializable()
    &&& match meta {
        Meta::SetTempo(n) => n <= 0xFFFFFF,
        Meta::SmpteOffset(t) => spec_high_res_in_range(t),
        Meta::TimeSignature(sig) => spec_pow2_u16(spec_log2(sig.denominator)) == sig.denominator,
        Meta::Unknown { meta_type, .. } => !spec_is_known_meta_type(meta_type),
        _ => true,
    }
}

/// Whether two meta events carry the same values: texts and data compared by view.
pub open spec fn spec_same_meta(a: Meta, b: Meta) -> bool {
    match (a, b) {
        (Meta::Text(s), Meta::Text(s2)) => s@ == s2@,
        (Meta::Copyright(s), Meta::Copyright(s2)) => s@ == s2@,
        (Meta::TrackName(s), Meta::TrackName(s2)) => s@ == s2@,
        (Meta::InstrumentName(s), Meta::InstrumentName(s2)) => s@ == s2@,
        (Meta::Lyric(s), Meta::Lyric(s2)) => s@ == s2@,
        (Meta::Marker(s), Meta::Marker(s2)) => s@ == s2@,
        (Meta::CuePoint(s), Meta::CuePoint(s2)) => s@ == s2@,
        (Meta::SequencerSpecific(d), Meta::SequencerSpecific(d2)) => d@ == d2@,
        (
            Meta::Unknown { meta_type, data },
            Meta::Unknown { meta_type: t2, data: d2 },
        ) => meta_type == t2 && data@ == d2@,
        _ => a == b,
    }
}

/// Parsing a meta event finds its type and data behind its length, and reads them.
proof fn lemma_meta_event_parsed(
    t: u8,
    data: Seq<u8>,
    rest: Seq<u8>,
    r: Result<(Meta, usize), ParseError>,
)
    requires
        data.len() <= 0x0FFFFFFF,
    ensures
        Meta::spec_parsed(spec_meta_event(t, data) + rest, r) <==> Meta::spec_event_parsed(
            t,
            data,
            spec_meta_event(t, data).len() as usize,
            r,
        ),
{
    let e = spec_meta_event(t, data);
    let v = e + rest;
    let q = spec_vlq(data.len() as u32);
    lemma_vlq_round_trip(data.len() as u32, data + rest);
    assert(v.subrange(1, v.len() as int) == q + (data + rest));
    assert(v.subrange(q.len() as int + 1, (data.len() + q.len() + 1) as int) == data);
    assert(v[0] == t);
}

/// A text event that round trips is read back.
proof fn lemma_meta_text_round_trip(rest: Seq<u8>, meta: Meta, r: Result<(Meta, usize), ParseError>, t: u8, s: String)
    requires
        spec_meta_round_trips(meta),
        Meta::spec_parsed(meta.spec_midi() + rest, r),
        1 <= t <= 7,
        meta == match t {
            1 => Meta::Text(s),
            2 => Meta::Copyright(s),
            3 => Meta::TrackName(s),
            4 => Meta::InstrumentName(s),
            5 => Meta::Lyric(s),
            6 => Meta::Marker(s),
            _ => Meta::CuePoint(s),
        },
    ensures
        (r matches Ok((m2, len)) && spec_same_meta(meta, m2) && len == meta.spec_midi().len()),
{
    vstd::utf8::encode_utf8_valid_utf8(s@);
    vstd::utf8::encode_utf8_decode_utf8(s@);
    let b = spec_string_bytes(s);
    assert(meta.spec_midi() == spec_meta_event(t, b));
    lemma_meta_event_parsed(t, b, rest, r);
}

/// A sequence number is read back.
proof fn lemma_meta_sequence_number_round_trip(rest: Seq<u8>, n: u16, r: Result<(Meta, usize), ParseError>)
    requires
        Meta::spec_parsed(Meta::SequenceNumber(n).spec_midi() + rest, r),
    ensures
        r == Ok::<(Meta, usize), ParseError>(
            (Meta::SequenceNumber(n), Meta::SequenceNumber(n).spec_midi().len() as usize),
        ),
{
    let d = crate::util::spec_u16_be(n);
    lemma_meta_event_parsed(0x00, d, rest, r);
    assert(d[0] * 256 + d[1] == n);
}

/// A channel prefix is read back.
proof fn lemma_meta_channel_prefix_round_trip(rest: Seq<u8>, c: Channel, r: Result<(Meta, usize), ParseError>)
    requires
        Meta::spec_parsed(Meta::ChannelPrefix(c).spec_midi() + rest, r),
    ensures
        r == Ok::<(Meta, usize), ParseError>(
            (Meta::ChannelPrefix(c), Meta::ChannelPrefix(c).spec_midi().len() as usize),
        ),
{
    lemma_channel_round_trip(c);
    lemma_meta_event_parsed(0x20, seq![c.spec_to_u8()], rest, r);
}

/// A tempo that fits in three bytes is read back.
proof fn lemma_meta_tempo_round_trip(rest: Seq<u8>, n: u32, r: Result<(Meta, usize), ParseError>)
    requires
        n <= 0xFFFFFF,
        Meta::spec_parsed(Meta::SetTempo(n).spec_midi() + rest, r),
    ensures
        r == Ok::<(Meta, usize), ParseError>(
            (Meta::SetTempo(n), Meta::SetTempo(n).spec_midi().len() as usize),
        ),
{
    let d = crate::util::spec_u32_be(n).subrange(1, 4);
    lemma_meta_event_parsed(0x51, d, rest, r);
    assert(d[0] * 65536 + d[1] * 256 + d[2] == n);
}

/// An SMPTE offset within range is read back.
proof fn lemma_meta_smpte_round_trip(rest: Seq<u8>, t: HighResTimeCode, r: Result<(Meta, usize), ParseError>)
    requires
        spec_high_res_in_range(t),
        Meta::spec_parsed(Meta::SmpteOffset(t).spec_midi() + rest, r),
    ensures
        r == Ok::<(Meta, usize), ParseError>(
            (Meta::SmpteOffset(t), Meta::SmpteOffset(t).spec_midi().len() as usize),
        ),
{
    let d = t.spec_midi();
    lemma_meta_event_parsed(0x54, d, rest, r);
    assert(d[0] == t.hours + t.code_type.spec_to_u8() * 32);
    assert(TimeCodeType::spec_from_u2(t.code_type.spec_to_u8()) == t.code_type);
}

/// A time signature whose denominator is a power of two is read back.
proof fn lemma_meta_time_signature_round_trip(rest: Seq<u8>, 
    sig: FileTimeSignature,
    r: Result<(Meta, usize), ParseError>,
)
    requires
        spec_pow2_u16(spec_log2(sig.denominator)) == sig.denominator,
        Meta::spec_parsed(Meta::TimeSignature(sig).spec_midi() + rest, r),
    ensures
        r == Ok::<(Meta, usize), ParseError>(
            (Meta::TimeSignature(sig), Meta::TimeSignature(sig).spec_midi().len() as usize),
        ),
{
    lemma_meta_event_parsed(0x58, sig.spec_midi(), rest, r);
}

/// A key signature is read back.
proof fn lemma_meta_key_signature_round_trip(rest: Seq<u8>, k: KeySignature, r: Result<(Meta, usize), ParseError>)
    requires
        Meta::spec_parsed(Meta::KeySignature(k).spec_midi() + rest, r),
    ensures
        r == Ok::<(Meta, usize), ParseError>(
            (Meta::KeySignature(k), Meta::KeySignature(k).spec_midi().len() as usize),
        ),
{
    lemma_meta_event_parsed(0x59, k.spec_midi(), rest, r);
    let key = k.key;
    assert(key as u8 as i8 == key) by (bit_vector);
}

/// Writes read back: a meta event that round trips is read as an event with the same values,
/// taking all of its bytes and none of the bytes that follow it (`rest`); text is decoded to
/// the characters that were encoded.
pub proof fn lemma_meta_round_trip(rest: Seq<u8>, meta: Meta, r: Result<(Meta, usize), ParseError>)
    requires
        spec_meta_round_trips(meta),
        Meta::spec_parsed(meta.spec_midi() + rest, r),
    ensures
        (r matches Ok((m2, len)) && spec_same_meta(meta, m2) && len == meta.spec_midi().len()),
{
    match meta {
        Meta::Text(s) => lemma_meta_text_round_trip(rest, meta, r, 1, s),
        Meta::Copyright(s) => lemma_meta_text_round_trip(rest, meta, r, 2, s),
        Meta::TrackName(s) => lemma_meta_text_round_trip(rest, meta, r, 3, s),
        Meta::InstrumentName(s) => lemma_meta_text_round_trip(rest, meta, r, 4, s),
        Meta::Lyric(s) => lemma_meta_text_round_trip(rest, meta, r, 5, s),
        Meta::Marker(s) => lemma_meta_text_round_trip(rest, meta, r, 6, s),
        Meta::CuePoint(s) => lemma_meta_text_round_trip(rest, meta, r, 7, s),
        Meta::SequenceNumber(n) => lemma_meta_sequence_number_round_trip(rest, n, r),
        Meta::ChannelPrefix(c) => lemma_meta_channel_prefix_round_trip(rest, c, r),
        Meta::EndOfTrack => lemma_meta_event_parsed(0x2F, Seq::empty(), rest, r),
        Meta::SetTempo(n) => lemma_meta_tempo_round_trip(rest, n, r),
        Meta::SmpteOffset(t) => lemma_meta_smpte_round_trip(rest, t, r),
        Meta::TimeSignature(sig) => lemma_meta_time_signature_round_trip(rest, sig, r),
        Meta::KeySignature(k) => lemma_meta_key_signature_round_trip(rest, k, r),
        Meta::SequencerSpecific(d) => lemma_meta_event_parsed(0x7F, d@, rest, r),
        Meta::Unknown { meta_type, data } => lemma_meta_event_parsed(meta_type, data@, rest, r),
    }
}

} // verus!
