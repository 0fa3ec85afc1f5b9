use vstd::prelude::*;

use bstr::BString;

use super::DeviceID;
use crate::parse_error::ParseError;
use crate::text::{bstring_as_bytes, bstring_bytes};
use crate::util::{extend_from_slice, push_u28, spec_u28, spec_u7, to_u7};

verus! {

/// Used to transmit general file data.
/// Used by [`UniversalNonRealTimeMsg`](crate::UniversalNonRealTimeMsg).
#[derive(Debug, Clone, PartialEq, Eq)]
pub enum FileDumpMsg {
    /// Request that the file with `name` be sent.
    Request { requester_device: DeviceID, file_type: FileType, name: BString },
    /// The header of the file about to be sent.
    Header {
        sender_device: DeviceID,
        file_type: FileType,
        /// Actual (un-encoded) file length, 28 bits (0-2684354561)
        length: u32,
        name: BString,
    },
    /// A packet of the file being sent.
    ///
    /// Use `FileDumpMsg::packet` to construct
    Packet {
        /// Running packet count, 0-127. Wraps back to 0
        running_count: u8,
        /// Up to 112 bytes (full 8 bits may be used); only the first 112 are sent
        data: Vec<u8>,
    },
}

/// A four-character file type used by [`FileDumpMsg`].
#[derive(Debug, Copy, Clone, PartialEq, Eq)]
pub enum FileType {
    MIDI,
    MIEX,
    ESEQ,
    TEXT,
    BIN,
    MAC,
    Custom([u8; 4]),
}

/// The bytes of a file dump packet that at most 16 groups of 7 can carry.
pub open spec fn spec_encoded_len(data: Seq<u8>) -> int {
    if data.len() < 112 {
        data.len() as int
    } else {
        112
    }
}

/// The value of bit `6 - j` of a group's high-bit byte.
pub open spec fn spec_weight(j: int) -> int {
    if j == 0 {
        64
    } else if j == 1 {
        32
    } else if j == 2 {
        16
    } else if j == 3 {
        8
    } else if j == 4 {
        4
    } else if j == 5 {
        2
    } else if j == 6 {
        1
    } else {
        0
    }
}

/// The byte holding the high bits of `data[start..start + n]`, the first in bit 6.
pub open spec fn spec_high_bits(data: Seq<u8>, start: int, n: int) -> int
    decreases n,
{
    if n <= 0 {
        0
    } else {
        spec_high_bits(data, start, n - 1) + (data[start + n - 1] / 128) * spec_weight(n - 1)
    }
}

/// The 7-bit encoding of the data from `d` on: each group of (up to) 7 bytes becomes a byte of
/// their high bits followed by their low 7 bits, for the first 112 bytes.
pub open spec fn spec_encode_from(data: Seq<u8>, d: int) -> Seq<u8>
    decreases spec_encoded_len(data) - d,
{
    let total = spec_encoded_len(data);
    if d < 0 || d >= total {
        Seq::empty()
    } else {
        let n = if total - d < 7 { total - d } else { 7 };
        seq![spec_high_bits(data, d, n) as u8] + data.subrange(d, d + n).map_values(
            |b: u8| (b % 128) as u8,
        ) + spec_encode_from(data, d + n)
    }
}

/// The 7-bit encoding of file data.
pub open spec fn spec_encode_data(data: Seq<u8>) -> Seq<u8> {
    spec_encode_from(data, 0)
}

/// The count byte of a packet whose data is encoded in `n` bytes: `n - 1`, or 0 for no data.
pub open spec fn spec_count_byte(n: nat) -> u8 {
    if n == 0 {
        0
    } else {
        (n - 1) as u8
    }
}

/// Each group of up to 7 bytes is encoded in one byte more than it holds.
pub proof fn lemma_encoded_len(data: Seq<u8>, d: int)
    requires
        0 <= d <= spec_encoded_len(data),
    ensures
        spec_encode_from(data, d).len() == (spec_encoded_len(data) - d) + (spec_encoded_len(data)
            - d + 6) / 7,
        spec_encode_from(data, d).len() <= 128,
    decreases spec_encoded_len(data) - d,
{
    let total = spec_encoded_len(data);
    if d < total {
        let n = if total - d < 7 { total - d } else { 7 };
        lemma_encoded_len(data, d + n);
        assert(data.subrange(d, d + n).map_values(|b: u8| (b % 128) as u8).len() == n);
    }
}

impl FileType {
    /// The four characters of the file type.
    pub open spec fn spec_midi(self) -> Seq<u8> {
        match self {
            FileType::MIDI => seq![0x4Du8, 0x49, 0x44, 0x49],
            FileType::MIEX => seq![0x4Du8, 0x49, 0x45, 0x58],
            FileType::ESEQ => seq![0x45u8, 0x53, 0x45, 0x51],
            FileType::TEXT => seq![0x54u8, 0x45, 0x58, 0x54],
            FileType::BIN => seq![0x42u8, 0x49, 0x4E, 0x20],
            FileType::MAC => seq![0x4Du8, 0x41, 0x43, 0x20],
            FileType::Custom(chars) => chars@,
        }
    }

    /// Append the four characters of the file type.
    pub fn extend_midi(&self, v: &mut Vec<u8>)
        ensures
            final(v)@ == old(v)@ + self.spec_midi(),
    {
        let b: [u8; 4] = match self {
            FileType::MIDI => [0x4D, 0x49, 0x44, 0x49],
            FileType::MIEX => [0x4D, 0x49, 0x45, 0x58],
            FileType::ESEQ => [0x45, 0x53, 0x45, 0x51],
            FileType::TEXT => [0x54, 0x45, 0x58, 0x54],
            FileType::BIN => [0x42, 0x49, 0x4E, 0x20],
            FileType::MAC => [0x4D, 0x41, 0x43, 0x20],
            FileType::Custom(chars) => *chars,
        };
        v.push(b[0]);
        v.push(b[1]);
        v.push(b[2]);
        v.push(b[3]);
        assert(self.spec_midi() == seq![b[0], b[1], b[2], b[3]]);
    }
}

impl FileDumpMsg {
    /// The body of the message, after its sub-ID: the kind, then its fields; a packet's data
    /// is preceded by the length of its encoding less one (0 for no data), and its checksum is
    /// not part of it.
    pub open spec fn spec_midi(self) -> Seq<u8> {
        match self {
            FileDumpMsg::Header { sender_device, file_type, length, name } => seq![
                0x01u8,
                sender_device.spec_to_u8(),
            ] + file_type.spec_midi() + spec_u28(length).reverse() + bstring_bytes(name),
            FileDumpMsg::Packet { running_count, data } => seq![
                0x02u8,
                spec_u7(running_count as int),
                spec_count_byte(spec_encode_data(data@).len()),
            ] + spec_encode_data(data@),
            FileDumpMsg::Request { requester_device, file_type, name } => seq![
                0x03u8,
                requester_device.spec_to_u8(),
            ] + file_type.spec_midi() + bstring_bytes(name),
        }
    }

    /// Append the body of the message.
    pub fn extend_midi(&self, v: &mut Vec<u8>)
        ensures
            final(v)@ == old(v)@ + self.spec_midi(),
    {
        let ghost start = v@;
        match self {
            FileDumpMsg::Header { sender_device, file_type, length, name } => {
                v.push(0x01);
                v.push(sender_device.to_u8());
                file_type.extend_midi(v);
                push_u28(*length, v);
                extend_from_slice(v, bstring_as_bytes(name));
                assert(v@ == start + self.spec_midi());
            },
            FileDumpMsg::Packet { running_count, data } => {
                v.push(0x02);
                v.push(to_u7(*running_count));
                let e = FileDumpMsg::encode_data(data.as_slice());
                proof {
                    lemma_encoded_len(data@, 0);
                }
                let n: usize = e.len();
                v.push(if n == 0 { 0 } else { (n - 1) as u8 });
                extend_from_slice(v, e.as_slice());
                assert(v@ == start + self.spec_midi());
            },
            FileDumpMsg::Request { requester_device, file_type, name } => {
                v.push(0x03);
                v.push(requester_device.to_u8());
                file_type.extend_midi(v);
                extend_from_slice(v, bstring_as_bytes(name));
                assert(v@ == start + self.spec_midi());
            },
        }
    }

    /// Construct a packet of up to 112 (full) bytes.
    /// `num` is the number of this packet.
    pub fn packet(num: u32, data: Vec<u8>) -> (r: FileDumpMsg)
        ensures
            r == (FileDumpMsg::Packet { running_count: (num % 128) as u8, data }),
    {
        FileDumpMsg::Packet { running_count: (num % 128) as u8, data }
    }

    /// The high-bit byte of `n` bytes from `d`.
    fn high_bits(data: &[u8], d: usize, n: usize) -> (r: u8)
        requires
            n <= 7,
            d + n <= data.len(),
        ensures
            r == spec_high_bits(data@, d as int, n as int),
    {
        let mut h: u8 = 0;
        let mut w: u8 = 64;
        let mut j: usize = 0;
        while j < n
            invariant
                j <= n <= 7,
                d + n <= data.len(),
                h == spec_high_bits(data@, d as int, j as int),
                w == spec_weight(j as int),
                h + 2 * w <= 128,
            decreases n - j,
        {
            let b = data[d + j];
            assert(b / 128 <= 1);
            assert(w / 2 == spec_weight(j + 1) && 2 * (w / 2) <= w) by {
                assert(j < 7);
            }
            h = h + (b / 128) * w;
            w = w / 2;
            j = j + 1;
        }
        h
    }

    /// Encode file data 7 bits at a time: each group of 7 bytes is preceded by a byte holding
    /// their high bits. At most 112 bytes are encoded.
    pub fn encode_data(data: &[u8]) -> (r: Vec<u8>)
        ensures
            r@ == spec_encode_data(data@),
    {
        let total: usize = if data.len() < 112 {
            data.len()
        } else {
            112
        };
        let mut r: Vec<u8> = Vec::new();
        let mut d: usize = 0;
        while d < total
            invariant
                total == spec_encoded_len(data@),
                d <= total,
                r@ + spec_encode_from(data@, d as int) == spec_encode_data(data@),
            decreases total - d,
        {
            let n: usize = if total - d < 7 {
                total - d
            } else {
                7
            };
            let ghost before = r@;
            r.push(FileDumpMsg::high_bits(data, d, n));
            let mut j: usize = 0;
            while j < n
                invariant
                    j <= n,
                    d + n <= data.len(),
                    r@ == before + seq![spec_high_bits(data@, d as int, n as int) as u8]
                        + data@.subrange(d as int, d + j).map_values(|b: u8| (b % 128) as u8),
                decreases n - j,
            {
                assert(d + j < data.len());
                r.push(data[d + j] % 128);
                j = j + 1;
                assert(data@.subrange(d as int, d + j).map_values(|b: u8| (b % 128) as u8)
                    == data@.subrange(d as int, d + j - 1).map_values(|b: u8| (b % 128) as u8).push(
                    (data@[d + j - 1] % 128) as u8,
                ));
            }
            assert(spec_encode_from(data@, d as int) == seq![
                spec_high_bits(data@, d as int, n as int) as u8,
            ] + data@.subrange(d as int, d + n).map_values(|b: u8| (b % 128) as u8)
                + spec_encode_from(data@, d + n));
            d = d + n;
        }
        assert(r@ + spec_encode_from(data@, d as int) == r@);
        r
    }

    /// Parsing of file dump messages is not implemented: always an error.
    pub fn from_midi(_m: &[u8]) -> (r: Result<(FileDumpMsg, usize), ParseError>)
        ensures
            r matches Err(e) && e == ParseError::NotImplemented("FileDumpMsg"),
    {
        Err(ParseError::NotImplemented("FileDumpMsg"))
    }
}

} // verus!
