//! What a reader of a Standard MIDI File gets back of a file that was written.
use vstd::prelude::*;

use crate::file::{
    lemma_header_round_trip, spec_event_fails, spec_event_read, spec_event_step,
    spec_events_begun_at, spec_events_failed, spec_events_midi, spec_events_parsed_at, spec_mtrk,
    spec_failed_label, spec_label_before, spec_track_failed, spec_track_parsed, spec_tracks_failed,
    spec_tracks_midi,
    spec_tracks_parsed, spec_tracks_parsed_at, Division, Header, Meta, MidiFile, Track, TrackEvent,
};
use crate::channel_voice::ChannelVoiceMsg;
use crate::message::{lemma_channel_round_trip, Channel, MidiMsg, ReceiverContext};
use crate::parse_error::ParseError;
use crate::round_trip::{lemma_meta_round_trip, spec_meta_round_trips, spec_same_meta};
use crate::util::{lemma_vlq_round_trip, spec_read_vlq, spec_u32_be, spec_u32_from_midi, spec_vlq};

verus! {

/// Whether reading a track event from `v` with the receiver `ctx` gives `e`, taking `n` bytes and
/// leaving the receiver `ctx2`.
#[verifier::opaque]
pub open spec fn spec_reads(
    v: Seq<u8>,
    ctx: ReceiverContext,
    e: TrackEvent,
    n: usize,
    ctx2: ReceiverContext,
) -> bool {
    TrackEvent::spec_parsed(v, ctx, Ok((e, n)), ctx2)
}

/// Whether a track event is a meta event that round trips, with a delta time that can be
/// written.
pub open spec fn spec_meta_event_round_trips(e: TrackEvent) -> bool {
    &&& e.delta_time <= 0x0FFFFFFF
    &&& match e.event {
        MidiMsg::Meta { msg } => spec_meta_round_trips(msg),
        _ => false,
    }
}

/// Whether a track event is read back from a file: a meta event that round trips or a simple
/// channel voice message, with a delta time that can be written.
pub open spec fn spec_file_event_round_trips(e: TrackEvent) -> bool {
    &&& e.delta_time <= 0x0FFFFFFF
    &&& match e.event {
        MidiMsg::Meta { msg } => spec_meta_round_trips(msg),
        MidiMsg::ChannelVoice { msg, .. } => spec_simple_voice(msg),
        _ => false,
    }
}

/// Whether two track events carry the same values: meta events compared as their texts and
/// data, channel messages as they are.
pub open spec fn spec_same_event(a: TrackEvent, b: TrackEvent) -> bool {
    &&& a.delta_time == b.delta_time
    &&& match (a.event, b.event) {
        (MidiMsg::Meta { msg: x }, MidiMsg::Meta { msg: y }) => spec_same_meta(x, y),
        (MidiMsg::ChannelVoice { .. }, MidiMsg::ChannelVoice { .. }) => a.event == b.event,
        _ => false,
    }
}

/// A meta track event that round trips is read back, taking all of its bytes, whatever
/// follows it and whatever the receiver, which it leaves as it was.
#[verifier::rlimit(100)]
proof fn lemma_meta_track_event_read(
    e: TrackEvent,
    rest: Seq<u8>,
    ctx: ReceiverContext,
    e2: TrackEvent,
    n: usize,
    ctx2: ReceiverContext,
)
    requires
        spec_meta_event_round_trips(e),
        spec_reads(e.spec_midi() + rest, ctx, e2, n, ctx2),
    ensures
        spec_same_event(e, e2),
        n == e.spec_midi().len(),
        ctx2 == ctx,
{
    reveal(spec_reads);
    if let MidiMsg::Meta { msg } = e.event {
        let q = spec_vlq(e.delta_time);
        let m = msg.spec_midi();
        let v = e.spec_midi() + rest;
        assert(e.spec_midi() == q + seq![0xFFu8] + m);
        lemma_vlq_round_trip(e.delta_time, seq![0xFFu8] + m + rest);
        assert(v == q + (seq![0xFFu8] + m + rest));
        assert(v[q.len() as int] == 0xFF);
        assert(v.subrange(q.len() as int + 1, v.len() as int) == m + rest);
        if let MidiMsg::Meta { msg: msg2 } = e2.event {
            let n2 = choose|n2: usize|
                n == q.len() + 1 + n2 && Meta::spec_parsed(
                    v.subrange(q.len() as int + 1, v.len() as int),
                    Ok((msg2, n2)),
                );
            lemma_meta_round_trip(rest, msg, Ok((msg2, n2)));
        }
    }
}

/// The bytes of the first `k + 1` events are those of the first `k` and then event `k`.
proof fn lemma_events_prefix(events: Seq<TrackEvent>, k: int)
    requires
        0 <= k < events.len(),
    ensures
        spec_events_midi(events.subrange(0, k + 1)) == spec_events_midi(events.subrange(0, k))
            + events[k].spec_midi(),
{
    assert(events.subrange(0, k + 1).drop_last() == events.subrange(0, k));
}

/// The bytes of the first `j` events begin the bytes of all of them.
proof fn lemma_events_prefix_of(events: Seq<TrackEvent>, j: int)
    requires
        0 <= j <= events.len(),
    ensures
        spec_events_midi(events.subrange(0, j)).len() <= spec_events_midi(events).len(),
        spec_events_midi(events).subrange(0, spec_events_midi(events.subrange(0, j)).len() as int)
            == spec_events_midi(events.subrange(0, j)),
    decreases events.len() - j,
{
    let w = spec_events_midi(events);
    let p = spec_events_midi(events.subrange(0, j));
    if j == events.len() {
        assert(events.subrange(0, j) == events);
    } else {
        lemma_events_prefix_of(events, j + 1);
        lemma_events_prefix(events, j);
        let p1 = spec_events_midi(events.subrange(0, j + 1));
        assert(p1.subrange(0, p.len() as int) == p);
        assert(w.subrange(0, p.len() as int) == w.subrange(0, p1.len() as int).subrange(
            0,
            p.len() as int,
        ));
    }
}

/// Where the bytes of `events` stand in `v` from `start`, the bytes from event `k` on are event
/// `k` and then those from event `k + 1` on.
proof fn lemma_event_at(v: Seq<u8>, start: int, events: Seq<TrackEvent>, k: int)
    requires
        0 <= start,
        start + spec_events_midi(events).len() <= v.len(),
        v.subrange(start, start + spec_events_midi(events).len()) == spec_events_midi(events),
        0 <= k < events.len(),
    ensures
        ({
            let p = start + spec_events_midi(events.subrange(0, k)).len();
            let p1 = start + spec_events_midi(events.subrange(0, k + 1)).len();
            &&& p1 == p + events[k].spec_midi().len()
            &&& p1 <= start + spec_events_midi(events).len()
            &&& v.subrange(p, v.len() as int) == events[k].spec_midi() + v.subrange(
                p1,
                v.len() as int,
            )
        }),
{
    let w = spec_events_midi(events);
    let pk = spec_events_midi(events.subrange(0, k));
    let pk1 = spec_events_midi(events.subrange(0, k + 1));
    let e = events[k].spec_midi();
    lemma_events_prefix(events, k);
    lemma_events_prefix_of(events, k + 1);
    let p = start + pk.len();
    let p1 = start + pk1.len();
    assert(v.subrange(p, p1) == w.subrange(pk.len() as int, pk1.len() as int));
    assert(w.subrange(pk.len() as int, pk1.len() as int) == pk1.subrange(
        pk.len() as int,
        pk1.len() as int,
    ));
    assert(pk1.subrange(pk.len() as int, pk1.len() as int) == e);
    assert(v.subrange(p, v.len() as int) == v.subrange(p, p1) + v.subrange(p1, v.len() as int));
}

/// Whether each event of `events` is read back from a file.
pub open spec fn spec_file_events(events: Seq<TrackEvent>) -> bool {
    forall|k: int| 0 <= k < events.len() ==> spec_file_event_round_trips(#[trigger] events[k])
}

/// Reading the events written from `start` finds the first `k` of them where they were
/// written, with the same values.
#[verifier::rlimit(50)]
proof fn lemma_file_events_offsets(
    v: Seq<u8>,
    start: int,
    events: Seq<TrackEvent>,
    events2: Seq<TrackEvent>,
    offs: Seq<int>,
    ctxs: Seq<ReceiverContext>,
    k: int,
)
    requires
        0 <= start,
        start + spec_events_midi(events).len() <= v.len(),
        v.len() <= usize::MAX,
        v.subrange(start, start + spec_events_midi(events).len()) == spec_events_midi(events),
        spec_file_events(events),
        spec_no_velocity_follows(
            v.subrange(start + spec_events_midi(events).len(), v.len() as int),
        ),
        spec_events_begun_at(
            v,
            start,
            start + spec_events_midi(events).len(),
            events2,
            offs,
            ctxs,
        ),
        0 <= k <= events.len(),
        k <= events2.len(),
    ensures
        offs[k] == start + spec_events_midi(events.subrange(0, k)).len(),
        forall|j: int| 0 <= j < k ==> spec_same_event(events[j], #[trigger] events2[j]),
    decreases k,
{
    if k == 0 {
        assert(events.subrange(0, 0).len() == 0);
    } else {
        let j = k - 1;
        let end = start + spec_events_midi(events).len();
        lemma_file_events_offsets(v, start, events, events2, offs, ctxs, j);
        lemma_event_at(v, start, events, j);
        let p = start + spec_events_midi(events.subrange(0, j)).len();
        let p1 = start + spec_events_midi(events.subrange(0, k)).len();
        assert(spec_event_step(v, end, events2, offs, ctxs, j));
        assert(spec_file_event_round_trips(events[j]));
        assert(spec_no_velocity_follows(v.subrange(p1, v.len() as int))) by {
            if k < events.len() {
                lemma_event_at(v, start, events, k);
                assert(spec_file_event_round_trips(events[k]));
                lemma_event_start(
                    events[k],
                    v.subrange(start + spec_events_midi(events.subrange(0, k + 1)).len(), v.len() as int),
                );
            } else {
                assert(events.subrange(0, k) == events);
            }
        }
        assert(spec_reads(
            events[j].spec_midi() + v.subrange(p1, v.len() as int),
            ctxs[j],
            events2[j],
            (offs[k] - offs[j]) as usize,
            ctxs[k],
        )) by {
            reveal(spec_event_read);
            reveal(spec_reads);
        }
        lemma_track_event_read(
            events[j],
            v.subrange(p1, v.len() as int),
            ctxs[j],
            events2[j],
            (offs[k] - offs[j]) as usize,
            ctxs[k],
        );
    }
}

/// Reading the events written from `start`, up to where they end, finds them all, with the same
/// values.
proof fn lemma_file_events_read(
    v: Seq<u8>,
    start: int,
    events: Seq<TrackEvent>,
    events2: Seq<TrackEvent>,
    offs: Seq<int>,
    ctxs: Seq<ReceiverContext>,
)
    requires
        0 <= start,
        start + spec_events_midi(events).len() <= v.len(),
        v.len() <= usize::MAX,
        v.subrange(start, start + spec_events_midi(events).len()) == spec_events_midi(events),
        spec_file_events(events),
        spec_no_velocity_follows(
            v.subrange(start + spec_events_midi(events).len(), v.len() as int),
        ),
        spec_events_parsed_at(
            v,
            start,
            start + spec_events_midi(events).len(),
            events2,
            offs,
            ctxs,
        ),
    ensures
        events2.len() == events.len(),
        forall|j: int| 0 <= j < events.len() ==> spec_same_event(events[j], #[trigger] events2[j]),
{
    let n = events.len() as int;
    let end = start + spec_events_midi(events).len();
    assert(events.subrange(0, n) == events);
    assert(spec_events_begun_at(v, start, end, events2, offs, ctxs));
    if events2.len() < n {
        let m = events2.len() as int;
        lemma_file_events_offsets(v, start, events, events2, offs, ctxs, m);
        lemma_event_at(v, start, events, m);
        assert(spec_file_event_round_trips(events[m]));
        assert(events[m].spec_midi().len() > 0) by {
            assert(spec_vlq(events[m].delta_time).len() > 0);
        }
        assert(false);
    } else if events2.len() > n {
        lemma_file_events_offsets(v, start, events, events2, offs, ctxs, n);
        assert(spec_event_step(v, end, events2, offs, ctxs, n));
        assert(false);
    } else {
        lemma_file_events_offsets(v, start, events, events2, offs, ctxs, n);
    }
}

/// A 32-bit value written most significant byte first is read back.
proof fn lemma_u32_round_trip(x: u32)
    ensures
        spec_u32_from_midi(spec_u32_be(x)) == Ok::<u32, ParseError>(x),
{
    let b = spec_u32_be(x);
    assert(b[0] * 16777216 + b[1] * 65536 + b[2] * 256 + b[3] == x);
}

/// Whether a track is read back from a file: an "MTrk" track of events that are, whose bytes
/// can be written.
pub open spec fn spec_file_track(t: Track) -> bool {
    match t {
        Track::Midi(events) => spec_file_events(events@) && spec_events_midi(events@).len()
            <= u32::MAX,
        Track::AlienChunk(_) => false,
    }
}

/// Whether two tracks hold events with the same values.
pub open spec fn spec_same_track(a: Track, b: Track) -> bool {
    match (a, b) {
        (Track::Midi(e1), Track::Midi(e2)) => e2@.len() == e1@.len() && forall|j: int|
            0 <= j < e1@.len() ==> spec_same_event(e1@[j], #[trigger] e2@[j]),
        _ => false,
    }
}

/// A track that is read back, written at `s` and followed by bytes that cannot extend its last
/// event, is read as a track with the same events, ending where it was written.
proof fn lemma_file_track_read(v: Seq<u8>, s: int, t: Track, t2: Track, next: int)
    requires
        spec_file_track(t),
        0 <= s,
        s + t.spec_midi().len() <= v.len(),
        v.len() <= usize::MAX,
        v.subrange(s, s + t.spec_midi().len()) == t.spec_midi(),
        spec_no_velocity_follows(v.subrange(s + t.spec_midi().len(), v.len() as int)),
        spec_track_parsed(v, s, t2, next),
    ensures
        spec_same_track(t, t2),
        next == s + t.spec_midi().len(),
{
    if let Track::Midi(events) = t {
        let w = spec_events_midi(events@);
        let tm = t.spec_midi();
        assert(tm == spec_mtrk() + spec_u32_be(w.len() as u32) + w);
        let vt = v.subrange(s, s + tm.len());
        assert(v.subrange(s, s + 4) == vt.subrange(0, 4));
        assert(tm.subrange(0, 4) == spec_mtrk());
        assert(v.subrange(s + 4, s + 8) == vt.subrange(4, 8));
        assert(tm.subrange(4, 8) == spec_u32_be(w.len() as u32));
        lemma_u32_round_trip(w.len() as u32);
        assert(next == s + 8 + w.len());
        assert(v.subrange(s + 8, s + 8 + w.len()) == vt.subrange(8, 8 + w.len() as int));
        assert(tm.subrange(8, 8 + w.len() as int) == w);
        if let Track::Midi(events2) = t2 {
            let (offs, ctxs) = choose|offs: Seq<int>, ctxs: Seq<ReceiverContext>|
                #[trigger] spec_events_parsed_at(v, s + 8, next, events2@, offs, ctxs);
            lemma_file_events_read(v, s + 8, events@, events2@, offs, ctxs);
        }
    }
}

/// The bytes of the first `k + 1` tracks are those of the first `k` and then track `k`.
proof fn lemma_tracks_prefix(tracks: Seq<Track>, k: int)
    requires
        0 <= k < tracks.len(),
    ensures
        spec_tracks_midi(tracks.subrange(0, k + 1)) == spec_tracks_midi(tracks.subrange(0, k))
            + tracks[k].spec_midi(),
{
    assert(tracks.subrange(0, k + 1).drop_last() == tracks.subrange(0, k));
}

/// The bytes of the first `j` tracks begin the bytes of all of them.
proof fn lemma_tracks_prefix_of(tracks: Seq<Track>, j: int)
    requires
        0 <= j <= tracks.len(),
    ensures
        spec_tracks_midi(tracks.subrange(0, j)).len() <= spec_tracks_midi(tracks).len(),
        spec_tracks_midi(tracks).subrange(0, spec_tracks_midi(tracks.subrange(0, j)).len() as int)
            == spec_tracks_midi(tracks.subrange(0, j)),
    decreases tracks.len() - j,
{
    let w = spec_tracks_midi(tracks);
    let p = spec_tracks_midi(tracks.subrange(0, j));
    if j == tracks.len() {
        assert(tracks.subrange(0, j) == tracks);
    } else {
        lemma_tracks_prefix_of(tracks, j + 1);
        lemma_tracks_prefix(tracks, j);
        let p1 = spec_tracks_midi(tracks.subrange(0, j + 1));
        assert(p1.subrange(0, p.len() as int) == p);
        assert(w.subrange(0, p.len() as int) == w.subrange(0, p1.len() as int).subrange(
            0,
            p.len() as int,
        ));
    }
}

/// Where the bytes of `tracks` stand in `v` from `start`, track `k` stands where the tracks
/// before it end.
proof fn lemma_track_at(v: Seq<u8>, start: int, tracks: Seq<Track>, k: int)
    requires
        0 <= start,
        start + spec_tracks_midi(tracks).len() <= v.len(),
        v.subrange(start, start + spec_tracks_midi(tracks).len()) == spec_tracks_midi(tracks),
        0 <= k < tracks.len(),
    ensures
        ({
            let p = start + spec_tracks_midi(tracks.subrange(0, k)).len();
            let p1 = start + spec_tracks_midi(tracks.subrange(0, k + 1)).len();
            &&& p1 == p + tracks[k].spec_midi().len()
            &&& p1 <= v.len()
            &&& v.subrange(p, p1) == tracks[k].spec_midi()
        }),
{
    let w = spec_tracks_midi(tracks);
    let pk = spec_tracks_midi(tracks.subrange(0, k));
    let pk1 = spec_tracks_midi(tracks.subrange(0, k + 1));
    lemma_tracks_prefix(tracks, k);
    lemma_tracks_prefix_of(tracks, k + 1);
    let p = start + pk.len();
    let p1 = start + pk1.len();
    assert(v.subrange(p, p1) == w.subrange(pk.len() as int, pk1.len() as int));
    assert(w.subrange(pk.len() as int, pk1.len() as int) == pk1.subrange(
        pk.len() as int,
        pk1.len() as int,
    ));
    assert(pk1.subrange(pk.len() as int, pk1.len() as int) == tracks[k].spec_midi());
}

/// Reading the tracks written from byte 14 finds the first `k` of them where they were written,
/// with the same events.
proof fn lemma_file_tracks_starts(
    v: Seq<u8>,
    tracks: Seq<Track>,
    tracks2: Seq<Track>,
    starts: Seq<int>,
    k: int,
)
    requires
        14 + spec_tracks_midi(tracks).len() <= v.len(),
        v.len() <= usize::MAX,
        v.len() == 14 + spec_tracks_midi(tracks).len(),
        v.subrange(14, 14 + spec_tracks_midi(tracks).len() as int) == spec_tracks_midi(tracks),
        forall|i: int| 0 <= i < tracks.len() ==> spec_file_track(#[trigger] tracks[i]),
        tracks2.len() <= tracks.len(),
        starts.len() == tracks2.len() + 1,
        starts[0] == 14,
        forall|i: int|
            0 <= i < tracks2.len() ==> spec_track_parsed(
                v,
                starts[i],
                #[trigger] tracks2[i],
                starts[i + 1],
            ),
        0 <= k <= tracks2.len(),
    ensures
        starts[k] == 14 + spec_tracks_midi(tracks.subrange(0, k)).len(),
        forall|j: int| 0 <= j < k ==> spec_same_track(tracks[j], #[trigger] tracks2[j]),
    decreases k,
{
    if k == 0 {
        assert(tracks.subrange(0, 0).len() == 0);
    } else {
        let j = k - 1;
        lemma_file_tracks_starts(v, tracks, tracks2, starts, j);
        lemma_track_at(v, 14, tracks, j);
        assert(spec_file_track(tracks[j]));
        assert(spec_track_parsed(v, starts[j], tracks2[j], starts[k]));
        let p1: int = 14 + spec_tracks_midi(tracks.subrange(0, k)).len() as int;
        assert(spec_no_velocity_follows(v.subrange(p1, v.len() as int))) by {
            if k < tracks.len() {
                lemma_track_at(v, 14, tracks, k);
                assert(spec_file_track(tracks[k]));
                let f = v.subrange(p1, v.len() as int);
                let tk = tracks[k].spec_midi();
                assert(tk[0] == 0x4D);
                assert(f[0] == v.subrange(p1, p1 + tk.len() as int)[0]);
            } else {
                assert(tracks.subrange(0, k) == tracks);
            }
        }
        lemma_file_track_read(v, starts[j], tracks[j], tracks2[j], starts[k]);
    }
}

/// Writes read back: a file whose tracks hold meta events that round trip and notes, pressures,
/// program changes and pitch bends with values in range, with a header that counts its tracks
/// and is read back as written (its ticks per quarter note leave the top bit clear), is read as
/// a file with the same header and tracks whose events carry the same delta times and messages.
pub proof fn lemma_file_round_trip(file: MidiFile, f2: MidiFile)
    requires
        (file.header.division matches Division::TicksPerQuarterNote(t) ==> t < 0x8000),
        file.header.num_tracks == file.tracks@.len(),
        forall|i: int| 0 <= i < file.tracks@.len() ==> spec_file_track(#[trigger] file.tracks@[i]),
        file.spec_midi().len() <= usize::MAX,
        Header::spec_from_midi(file.spec_midi()) == Ok::<Header, ParseError>(f2.header),
        f2.tracks@.len() == f2.header.num_tracks,
        spec_tracks_parsed(file.spec_midi(), f2.tracks@),
    ensures
        f2.header == file.header,
        f2.tracks@.len() == file.tracks@.len(),
        forall|i: int|
            0 <= i < file.tracks@.len() ==> spec_same_track(file.tracks@[i], #[trigger] f2.tracks@[i]),
{
    let v = file.spec_midi();
    let tracks = file.tracks@;
    let w = spec_tracks_midi(tracks);
    lemma_header_round_trip(file.header, w);
    assert(file.header.spec_midi().len() == 14);
    assert(v.subrange(14, 14 + w.len() as int) == w);
    let starts = choose|starts: Seq<int>|
        {
            &&& starts.len() == f2.tracks@.len() + 1
            &&& starts[0] == 14
            &&& forall|i: int|
                0 <= i < f2.tracks@.len() ==> spec_track_parsed(
                    v,
                    starts[i],
                    #[trigger] f2.tracks@[i],
                    starts[i + 1],
                )
        };
    lemma_file_tracks_starts(v, tracks, f2.tracks@, starts, tracks.len() as int);
}

/// Whether a channel voice message is read back from its bytes alone: a note, a pressure, a
/// program change or a pitch bend, with values that fit in their bytes.
pub open spec fn spec_simple_voice(msg: ChannelVoiceMsg) -> bool {
    match msg {
        ChannelVoiceMsg::NoteOff { note, velocity } | ChannelVoiceMsg::NoteOn { note, velocity } => {
            note <= 127 && velocity <= 127
        },
        ChannelVoiceMsg::PolyPressure { note, pressure } => note <= 127 && pressure <= 127,
        ChannelVoiceMsg::ProgramChange { program } => program <= 127,
        ChannelVoiceMsg::ChannelPressure { pressure } => pressure <= 127,
        ChannelVoiceMsg::PitchBend { bend } => bend <= 16383,
        _ => false,
    }
}

/// Whether the bytes `f` cannot begin the high resolution velocity that would extend a note:
/// they start with a data byte (a running status message of the note's kind), or hold a data
/// byte where the controller or its value would stand, or are too short.
pub open spec fn spec_no_velocity_follows(f: Seq<u8>) -> bool {
    f.len() < 3 || f[0] < 0x80 || f[1] >= 0x80 || f[2] >= 0x80
}

/// A simple channel voice message is read from its bytes, whatever follows them.
proof fn lemma_simple_voice_parsed(channel: Channel, msg: ChannelVoiceMsg, rest: Seq<u8>)
    requires
        spec_simple_voice(msg),
    ensures
        ({
            let m = MidiMsg::ChannelVoice { channel, msg }.spec_midi();
            &&& m[0] / 16 == msg.spec_status() / 16
            &&& m[0] % 16 == channel.spec_to_u8()
            &&& ChannelVoiceMsg::spec_from_midi(m + rest) == Ok::<(ChannelVoiceMsg, usize), ParseError>(
                (msg, m.len() as usize),
            )
        }),
{
    lemma_channel_round_trip(channel);
    let m = MidiMsg::ChannelVoice { channel, msg }.spec_midi();
    let v = m + rest;
    assert(v.subrange(1, v.len() as int) == msg.spec_midi_running() + rest);
    let r = v.subrange(1, v.len() as int);
    if r.len() > 1 {
        assert(r.subrange(1, r.len() as int)[0] == r[1]);
    }
    if let ChannelVoiceMsg::PitchBend { bend } = msg {
        assert(crate::util::spec_u14(crate::util::spec_u14_msb(bend), crate::util::spec_u14_lsb(bend))
            == bend);
    }
}

/// After a note, bytes that cannot begin its high resolution velocity do not extend it.
proof fn lemma_note_not_extended(
    f: Seq<u8>,
    c1: ReceiverContext,
    channel: Channel,
    msg: ChannelVoiceMsg,
)
    requires
        spec_simple_voice(msg),
        c1.previous_channel_message == Some(MidiMsg::ChannelVoice { channel, msg }),
        spec_no_velocity_follows(f),
    ensures
        MidiMsg::spec_next_voice(f, c1) matches Some((_, m2, _)) ==> !m2.spec_is_extension(),
{
    if f.len() > 0 && f[0] < 0x80 {
        if let Some((_, m2, _)) = MidiMsg::spec_next_voice(f, c1) {
            assert(m2.spec_status() == msg.spec_status());
        }
    }
    if f.len() >= 3 && f[0] >= 0x80 && f[0] / 16 == 0xB {
        assert(f.subrange(1, f.len() as int)[0] == f[1]);
        assert(f.subrange(1, f.len() as int)[1] == f[2]);
    }
}

/// A track event whose first byte after its delta time is a channel status is read as a
/// message from that byte on, with a receiver that does not read a system exclusive message
/// without its start flag.
#[verifier::rlimit(50)]
proof fn lemma_track_event_channel_branch(
    v: Seq<u8>,
    ctx: ReceiverContext,
    e2: TrackEvent,
    n: usize,
    ctx2: ReceiverContext,
    d: u32,
    off: usize,
)
    requires
        spec_read_vlq(v) == Ok::<(u32, usize), ParseError>((d, off)),
        off < v.len(),
        0x80 <= v[off as int] < 0xF0,
        spec_reads(v, ctx, e2, n, ctx2),
    ensures
        e2.delta_time == d,
        (exists|n2: usize|
            n == off + n2 && MidiMsg::spec_parsed(
                v.subrange(off as int, v.len() as int),
                ReceiverContext { is_smf_sysex: false, ..ctx },
                true,
                Ok((e2.event, n2)),
                ctx2,
            )),
{
    reveal(spec_reads);
}

/// The bytes of a channel voice message on a channel.
pub open spec fn spec_voice_midi(channel: Channel, msg: ChannelVoiceMsg) -> Seq<u8> {
    MidiMsg::ChannelVoice { channel, msg }.spec_midi()
}

/// A simple channel voice message is read back by any receiver, taking all of its bytes, when
/// the bytes that follow it cannot extend it.
#[verifier::rlimit(100)]
proof fn lemma_voice_read(
    channel: Channel,
    msg: ChannelVoiceMsg,
    rest: Seq<u8>,
    c: ReceiverContext,
    ev: MidiMsg,
    n2: usize,
    ctx2: ReceiverContext,
)
    requires
        spec_simple_voice(msg),
        spec_no_velocity_follows(rest),
        MidiMsg::spec_parsed(spec_voice_midi(channel, msg) + rest, c, true, Ok((ev, n2)), ctx2),
    ensures
        ev == (MidiMsg::ChannelVoice { channel, msg }),
        n2 == spec_voice_midi(channel, msg).len(),
{
    let mm = MidiMsg::ChannelVoice { channel, msg };
    let m = mm.spec_midi();
    let tail = m + rest;
    lemma_simple_voice_parsed(channel, msg, rest);
    let c1 = ReceiverContext { previous_channel_message: Some(mm), ..c };
    assert(tail[0] == m[0]);
    assert(MidiMsg::spec_parse_non_sysex(tail, c, true) == (
        Ok::<(MidiMsg, usize), ParseError>((mm, m.len() as usize)),
        c1,
    ));
    assert(tail.subrange(m.len() as int, tail.len() as int) == rest);
    lemma_note_not_extended(rest, c1, channel, msg);
    assert(MidiMsg::spec_extend_loop(tail, c1, channel, msg, m.len() as int) == (
        msg,
        m.len() as int,
    ));
}

/// A simple channel voice track event is read back, taking all of its bytes, when the bytes
/// that follow it cannot extend it, whatever the receiver.
proof fn lemma_voice_track_event_read(
    e: TrackEvent,
    rest: Seq<u8>,
    ctx: ReceiverContext,
    e2: TrackEvent,
    n: usize,
    ctx2: ReceiverContext,
)
    requires
        e.delta_time <= 0x0FFFFFFF,
        e.event matches MidiMsg::ChannelVoice { msg, .. } && spec_simple_voice(msg),
        spec_no_velocity_follows(rest),
        spec_reads(e.spec_midi() + rest, ctx, e2, n, ctx2),
    ensures
        e2 == e,
        n == e.spec_midi().len(),
{
    if let MidiMsg::ChannelVoice { channel, msg } = e.event {
        let q = spec_vlq(e.delta_time);
        let m = e.event.spec_midi();
        let v = e.spec_midi() + rest;
        assert(e.spec_midi() == q + m);
        lemma_vlq_round_trip(e.delta_time, m + rest);
        assert(v == q + (m + rest));
        let off = q.len() as usize;
        let tail = v.subrange(off as int, v.len() as int);
        assert(tail == m + rest);
        lemma_simple_voice_parsed(channel, msg, rest);
        assert(v[off as int] == m[0]);
        lemma_track_event_channel_branch(v, ctx, e2, n, ctx2, e.delta_time, off);
        let c = ReceiverContext { is_smf_sysex: false, ..ctx };
        let n2 = choose|n2: usize|
            n == off + n2 && MidiMsg::spec_parsed(tail, c, true, Ok((e2.event, n2)), ctx2);
        lemma_voice_read(channel, msg, rest, c, e2.event, n2, ctx2);
    }
}

/// The bytes of an event that is read back from a file, and whatever follows them, cannot begin
/// the velocity that would extend a note: after its delta time comes a status byte.
proof fn lemma_event_start(e: TrackEvent, tail: Seq<u8>)
    requires
        spec_file_event_round_trips(e),
    ensures
        spec_no_velocity_follows(e.spec_midi() + tail),
{
    let q = spec_vlq(e.delta_time);
    let f = e.spec_midi() + tail;
    match e.event {
        MidiMsg::Meta { msg } => {
            assert(e.spec_midi() == q + seq![0xFFu8] + msg.spec_midi());
            assert(f[q.len() as int] == 0xFF);
        },
        MidiMsg::ChannelVoice { channel, msg } => {
            assert(e.spec_midi() == q + e.event.spec_midi());
            lemma_simple_voice_parsed(channel, msg, tail);
            assert(f[q.len() as int] == e.event.spec_midi()[0]);
        },
        _ => {},
    }
    assert(q.len() >= 1);
    if q.len() >= 2 && f.len() >= 3 && f[0] >= 0x80 {
        assert(q[1] == f[1] && q.len() >= 2);
    }
}

/// An event that is read back from a file is read back, taking all of its bytes, when what
/// follows it cannot extend it.
proof fn lemma_track_event_read(
    e: TrackEvent,
    rest: Seq<u8>,
    ctx: ReceiverContext,
    e2: TrackEvent,
    n: usize,
    ctx2: ReceiverContext,
)
    requires
        spec_file_event_round_trips(e),
        spec_no_velocity_follows(rest),
        spec_reads(e.spec_midi() + rest, ctx, e2, n, ctx2),
    ensures
        spec_same_event(e, e2),
        n == e.spec_midi().len(),
{
    match e.event {
        MidiMsg::Meta { .. } => lemma_meta_track_event_read(e, rest, ctx, e2, n, ctx2),
        _ => lemma_voice_track_event_read(e, rest, ctx, e2, n, ctx2),
    }
}


/// A simple channel voice message cannot fail to be read from its bytes.
proof fn lemma_voice_not_error(
    channel: Channel,
    msg: ChannelVoiceMsg,
    rest: Seq<u8>,
    c: ReceiverContext,
    err: ParseError,
    c2: ReceiverContext,
)
    requires
        spec_simple_voice(msg),
    ensures
        !MidiMsg::spec_parsed(spec_voice_midi(channel, msg) + rest, c, true, Err(err), c2),
{
    let mm = MidiMsg::ChannelVoice { channel, msg };
    let m = mm.spec_midi();
    let tail = m + rest;
    lemma_simple_voice_parsed(channel, msg, rest);
    let c1 = ReceiverContext { previous_channel_message: Some(mm), ..c };
    assert(tail[0] == m[0]);
    assert(MidiMsg::spec_parse_non_sysex(tail, c, true) == (
        Ok::<(MidiMsg, usize), ParseError>((mm, m.len() as usize)),
        c1,
    ));
}

/// A meta event that round trips cannot fail to be read, whatever the receiver.
#[verifier::rlimit(100)]
proof fn lemma_meta_event_no_error(
    e: TrackEvent,
    rest: Seq<u8>,
    ctx: ReceiverContext,
    err: ParseError,
    c2: ReceiverContext,
)
    requires
        spec_meta_event_round_trips(e),
    ensures
        !TrackEvent::spec_parsed(e.spec_midi() + rest, ctx, Err(err), c2),
{
    if let MidiMsg::Meta { msg } = e.event {
        let q = spec_vlq(e.delta_time);
        let v = e.spec_midi() + rest;
        let m = msg.spec_midi();
        assert(e.spec_midi() == q + seq![0xFFu8] + m);
        lemma_vlq_round_trip(e.delta_time, seq![0xFFu8] + m + rest);
        assert(v == q + (seq![0xFFu8] + m + rest));
        assert(v[q.len() as int] == 0xFF);
        assert(v.subrange(q.len() as int + 1, v.len() as int) == m + rest);
        if TrackEvent::spec_parsed(v, ctx, Err(err), c2) {
            lemma_meta_round_trip(rest, msg, Err(err));
        }
    }
}

/// Whether reading a track event from `v` with the receiver `ctx` fails with `err`, leaving the
/// receiver `ctx2`.
#[verifier::opaque]
spec fn spec_read_fails(
    v: Seq<u8>,
    ctx: ReceiverContext,
    err: ParseError,
    ctx2: ReceiverContext,
) -> bool {
    TrackEvent::spec_parsed(v, ctx, Err(err), ctx2)
}

/// A track event whose first byte after its delta time is a channel status fails to be read
/// only as the message from that byte on does.
#[verifier::rlimit(50)]
proof fn lemma_track_event_channel_error(
    v: Seq<u8>,
    ctx: ReceiverContext,
    err: ParseError,
    ctx2: ReceiverContext,
    d: u32,
    off: usize,
)
    requires
        spec_read_vlq(v) == Ok::<(u32, usize), ParseError>((d, off)),
        off < v.len(),
        0x80 <= v[off as int] < 0xF0,
        spec_read_fails(v, ctx, err, ctx2),
    ensures
        MidiMsg::spec_parsed(
            v.subrange(off as int, v.len() as int),
            ReceiverContext { is_smf_sysex: false, ..ctx },
            true,
            Err(err),
            ctx2,
        ),
{
    reveal(spec_read_fails);
}

/// A simple channel voice track event cannot fail to be read, whatever the receiver.
proof fn lemma_voice_event_no_error(
    e: TrackEvent,
    rest: Seq<u8>,
    ctx: ReceiverContext,
    err: ParseError,
    c2: ReceiverContext,
)
    requires
        e.delta_time <= 0x0FFFFFFF,
        e.event matches MidiMsg::ChannelVoice { msg, .. } && spec_simple_voice(msg),
    ensures
        !spec_read_fails(e.spec_midi() + rest, ctx, err, c2),
{
    if let MidiMsg::ChannelVoice { channel, msg } = e.event {
        let q = spec_vlq(e.delta_time);
        let v = e.spec_midi() + rest;
        let m = e.event.spec_midi();
        assert(e.spec_midi() == q + m);
        lemma_vlq_round_trip(e.delta_time, m + rest);
        assert(v == q + (m + rest));
        let off = q.len() as usize;
        let tail = v.subrange(off as int, v.len() as int);
        assert(tail == m + rest);
        lemma_simple_voice_parsed(channel, msg, rest);
        assert(v[off as int] == m[0]);
        let c = ReceiverContext { is_smf_sysex: false, ..ctx };
        lemma_voice_not_error(channel, msg, rest, c, err, c2);
        if spec_read_fails(v, ctx, err, c2) {
            lemma_track_event_channel_error(v, ctx, err, c2, e.delta_time, off);
        }
    }
}

/// An event that is read back from a file cannot fail to be read, whatever the receiver.
proof fn lemma_track_event_no_error(
    e: TrackEvent,
    rest: Seq<u8>,
    ctx: ReceiverContext,
    err: ParseError,
    c2: ReceiverContext,
)
    requires
        spec_file_event_round_trips(e),
    ensures
        !TrackEvent::spec_parsed(e.spec_midi() + rest, ctx, Err(err), c2),
{
    match e.event {
        MidiMsg::Meta { .. } => lemma_meta_event_no_error(e, rest, ctx, err, c2),
        _ => {
            lemma_voice_event_no_error(e, rest, ctx, err, c2);
            reveal(spec_read_fails);
        },
    }
}

/// Reading the events written from `start`, up to where they end, does not fail.
#[verifier::rlimit(50)]
proof fn lemma_file_events_not_failed(
    v: Seq<u8>,
    start: int,
    events: Seq<TrackEvent>,
    events2: Seq<TrackEvent>,
    e: ParseError,
    at: int,
)
    requires
        0 <= start,
        start + spec_events_midi(events).len() <= v.len(),
        v.len() <= usize::MAX,
        v.subrange(start, start + spec_events_midi(events).len()) == spec_events_midi(events),
        spec_file_events(events),
        spec_no_velocity_follows(
            v.subrange(start + spec_events_midi(events).len(), v.len() as int),
        ),
    ensures
        !spec_events_failed(v, start, start + spec_events_midi(events).len(), events2, e, at),
{
    let n = events.len() as int;
    let end = start + spec_events_midi(events).len();
    if spec_events_failed(v, start, end, events2, e, at) {
        let (offs, ctxs) = choose|offs: Seq<int>, ctxs: Seq<ReceiverContext>|
            #[trigger] spec_events_begun_at(v, start, end, events2, offs, ctxs) && at == offs.last()
                && {
                ||| offs.last() > end && e == ParseError::Invalid(
                    "Track length exceeded the provided length",
                )
                ||| offs.last() < end && exists|c2: ReceiverContext|
                    #[trigger] spec_event_fails(v, offs.last(), ctxs.last(), e, c2)
            };
        assert(events.subrange(0, n) == events);
        if events2.len() > n {
            lemma_file_events_offsets(v, start, events, events2, offs, ctxs, n);
            assert(spec_event_step(v, end, events2, offs, ctxs, n));
            assert(false);
        }
        let m = events2.len() as int;
        lemma_file_events_offsets(v, start, events, events2, offs, ctxs, m);
        lemma_events_prefix_of(events, m);
        if offs.last() < end {
            assert(m < n);
            let c2 = choose|c2: ReceiverContext|
                #[trigger] spec_event_fails(v, offs.last(), ctxs.last(), e, c2);
            lemma_event_at(v, start, events, m);
            let p1 = start + spec_events_midi(events.subrange(0, m + 1)).len();
            assert(spec_file_event_round_trips(events[m]));
            reveal(spec_event_fails);
            assert(v.subrange(offs[m], v.len() as int) == events[m].spec_midi() + v.subrange(
                p1,
                v.len() as int,
            ));
            lemma_track_event_no_error(events[m], v.subrange(p1, v.len() as int), ctxs[m], e, c2);
            assert(false);
        }
    }
}

/// Reading a track that is read back, written at `s` and followed by bytes that cannot extend
/// its last event, does not fail.
proof fn lemma_file_track_not_failed(
    v: Seq<u8>,
    s: int,
    t: Track,
    e: ParseError,
    pushed: Seq<Track>,
    at: int,
)
    requires
        spec_file_track(t),
        0 <= s,
        s + t.spec_midi().len() <= v.len(),
        v.len() <= usize::MAX,
        v.subrange(s, s + t.spec_midi().len()) == t.spec_midi(),
        spec_no_velocity_follows(v.subrange(s + t.spec_midi().len(), v.len() as int)),
    ensures
        !spec_track_failed(v, s, e, pushed, at),
{
    if let Track::Midi(events) = t {
        let w = spec_events_midi(events@);
        let tm = t.spec_midi();
        assert(tm == spec_mtrk() + spec_u32_be(w.len() as u32) + w);
        let vt = v.subrange(s, s + tm.len());
        assert(v.subrange(s, s + 4) == vt.subrange(0, 4));
        assert(tm.subrange(0, 4) == spec_mtrk());
        assert(v.subrange(s + 4, s + 8) == vt.subrange(4, 8));
        assert(tm.subrange(4, 8) == spec_u32_be(w.len() as u32));
        lemma_u32_round_trip(w.len() as u32);
        assert(v.subrange(s + 8, s + 8 + w.len()) == vt.subrange(8, 8 + w.len() as int));
        assert(tm.subrange(8, 8 + w.len() as int) == w);
        if spec_track_failed(v, s, e, pushed, at) {
            if let Track::Midi(events2) = pushed[0] {
                lemma_file_events_not_failed(v, s + 8, events@, events2@, e, at);
            }
        }
    }
}

/// Writes read back, and the read succeeds: the header of a file as in
/// [`lemma_file_round_trip`] is read as written, and reading the chunks that it counts does not
/// fail, whatever error, tracks, place or label one asks about; so `MidiFile::from_midi` returns `Ok` on the
/// file's bytes.
#[verifier::rlimit(100)]
pub proof fn lemma_file_read_succeeds(
    file: MidiFile,
    e: ParseError,
    kept: Seq<Track>,
    at: int,
    label: Seq<char>,
)
    requires
        (file.header.division matches Division::TicksPerQuarterNote(t) ==> t < 0x8000),
        file.header.num_tracks == file.tracks@.len(),
        forall|i: int| 0 <= i < file.tracks@.len() ==> spec_file_track(#[trigger] file.tracks@[i]),
        file.spec_midi().len() <= usize::MAX,
    ensures
        Header::spec_from_midi(file.spec_midi()) == Ok::<Header, ParseError>(file.header),
        !spec_tracks_failed(file.spec_midi(), file.header.num_tracks as int, e, kept, at, label),
{
    let v = file.spec_midi();
    let tracks = file.tracks@;
    let w = spec_tracks_midi(tracks);
    lemma_header_round_trip(file.header, w);
    assert(file.header.spec_midi().len() == 14);
    assert(v.subrange(14, 14 + w.len() as int) == w);
    let n = file.header.num_tracks as int;
    if spec_tracks_failed(v, n, e, kept, at, label) {
        let (i, fs) = choose|i: int, starts: Seq<int>|
            0 <= i < n && i <= kept.len() && #[trigger] spec_tracks_parsed_at(
                v,
                kept.subrange(0, i),
                starts,
            ) && spec_track_failed(v, starts[i], e, kept.subrange(i, kept.len() as int), at)
                && label == spec_failed_label(
                v,
                starts[i],
                i as u16,
                kept.subrange(i, kept.len() as int),
                at,
                spec_label_before(i, kept),
            );
        let k2 = kept.subrange(0, i);
        lemma_file_tracks_starts(v, tracks, k2, fs, i);
        lemma_track_at(v, 14, tracks, i);
        assert(spec_file_track(tracks[i]));
        let p1: int = 14 + spec_tracks_midi(tracks.subrange(0, i + 1)).len() as int;
        assert(spec_no_velocity_follows(v.subrange(p1, v.len() as int))) by {
            if i + 1 < tracks.len() {
                lemma_track_at(v, 14, tracks, i + 1);
                assert(spec_file_track(tracks[i + 1]));
                let f = v.subrange(p1, v.len() as int);
                let tk = tracks[i + 1].spec_midi();
                assert(tk[0] == 0x4D);
                assert(f[0] == v.subrange(p1, p1 + tk.len() as int)[0]);
            } else {
                assert(tracks.subrange(0, i + 1) == tracks);
            }
        }
        lemma_file_track_not_failed(v, fs[i], tracks[i], e, kept.subrange(i, kept.len() as int), at);
    }
}

} // verus!
