# midi-msg (verified)

A typed representation of MIDI 1.0 messages and Standard MIDI Files, with serialization to bytes
and deserialization from bytes, written in Verus.

- `src/` — the library. Every encoder states the exact bytes it writes (`spec_midi`), every
  parser states what it reads (`spec_from_midi`, or a `spec_parsed` relation where the result
  carries decoded text or data). Laws:
  - `round_trip.rs`: messages are read back as written (channel voice in `message.rs`, by any
    receiver that does not combine them with the message it remembers; system common and
    real-time, system exclusive, meta events, time codes assembled from quarter frames);
  - `channel_voice.rs`: combining two control changes does not depend on their order;
    `system_exclusive/file_reference.rs`: a select map's length is the number of its bytes;
  - `file_round_trip.rs`: a Standard MIDI File of meta events and simple channel messages is
    read without error (`lemma_file_read_succeeds`), and what is read holds the header, tracks
    and events that were written (`lemma_file_round_trip`); `file.rs` states when reading a
    file succeeds (and, when it fails, where and while reading what) and proves that reading a
    file whose chunks all parse does not fail;
  - `well_formed.rs`: what is written is a status byte followed by data bytes, whatever the
    values (out of range values are clamped);
  - `util.rs`, `time_code.rs`, `file.rs`: variable length quantities, 7/14-bit values,
    checksums, time codes and file headers read back.
  - `parse_outcome.rs`: reading the same bytes in the same state always succeeds or fails alike,
    takes as many bytes and leaves the same receiver.
  The `ascii` and `bstr` string types are carried opaquely; `text.rs` holds the trusted
  declarations for them and for the UTF-8 decoding call.
- `app/` — what computes with floating point (frequencies, tunings, tempo conversions, GM2
  effect constructors) or needs outside derives (`strum` names of the General MIDI sounds,
  `Display` of the errors).
- `tests/` — the test suite.
