use vstd::prelude::*;

use ascii::AsciiString;

use crate::parse_error::ParseError;
use crate::text::{ascii_as_bytes, ascii_bytes};
use crate::util::{
    extend_from_slice, push_u14, push_u21, push_u28, push_u35, push_u7, spec_u14_bytes, spec_u21,
    spec_u28, spec_u35, spec_u7, to_u7,
};

verus! {

/// The sample dump messages described in the MIDI 1.0 Detailed Specification.
/// Used by [`UniversalNonRealTimeMsg::SampleDump`](crate::UniversalNonRealTimeMsg::SampleDump).
#[derive(Debug, Clone, PartialEq)]
pub enum SampleDumpMsg {
    Header {
        /// 0-16383
        sample_num: u16,
        /// # of significant bits from 8-28
        format: u8,
        /// Sample period (1/sample rate) in nanoseconds, 0-2097151
        period: u32,
        /// Sample length in words, 0-2097151
        length: u32,
        /// Sustain loop start point word number, 0-2097151
        sustain_loop_start: u32,
        /// Sustain loop end point word number, 0-2097151
        sustain_loop_end: u32,
        loop_type: LoopType,
    },
    /// Use `packet` to construct
    Packet {
        /// Running packet count, 0-127. Wraps back to 0
        running_count: u8,
        /// At most 120 7 bit words
        data: Vec<u8>,
    },
    Request { sample_num: u16 },
    MultipleLoopPoints {
        sample_num: u16,
        /// 0-126. 127 indicates "delete all loops"
        loop_num: LoopNumber,
        loop_type: LoopType,
        /// Loop start address (in samples)
        start_addr: u32,
        /// Loop end address (in samples)
        end_addr: u32,
    },
    LoopPointsRequest {
        sample_num: u16,
        /// 0-126. 127 indicates "request all loops"
        loop_num: LoopNumber,
    },
}

/// A loop addressed by a sample dump message.
#[derive(Debug, Copy, Clone, PartialEq)]
pub enum LoopNumber {
    RequestAll,
    DeleteAll,
    /// 0-16382
    Loop(u16),
}

/// How a sample loops.
#[derive(Debug, Copy, Clone, PartialEq)]
pub enum LoopType {
    Forward,
    BiDirectional,
    Off,
}

/// The extended sample dump messages described in CA-019
#[derive(Debug, Clone, PartialEq)]
pub enum ExtendedSampleDumpMsg {
    Header {
        /// 0-16383
        sample_num: u16,
        /// # of significant bits from 8-28
        format: u8,
        /// Integer part of the sample rate in Hz, 28 bits.
        sample_rate_integer: u32,
        /// Fractional part of the sample rate in units of 2^-28 Hz, 28 bits.
        sample_rate_fraction: u32,
        /// Sample length in words, 0-34359738368
        length: u64,
        /// Sustain loop start point word number, 0-34359738367
        sustain_loop_start: u64,
        /// Sustain loop end point word number, 0-34359738367
        sustain_loop_end: u64,
        loop_type: ExtendedLoopType,
        /// Number of audio channels, 0-127
        num_channels: u8,
    },
    MultipleLoopPoints {
        sample_num: u16,
        /// 0-126. 127 indicates "delete all loops"
        loop_num: LoopNumber,
        loop_type: ExtendedLoopType,
        /// Loop start address (in samples)
        start_addr: u64,
        /// Loop end address (in samples)
        end_addr: u64,
    },
    LoopPointsRequest { sample_num: u16, loop_num: LoopNumber },
    SampleName { sample_num: u16, name: AsciiString },
    SampleNameRequest { sample_num: u16 },
}

/// How a sample loops, per CA-019.
#[derive(Debug, Copy, Clone, PartialEq)]
pub enum ExtendedLoopType {
    Forward,
    BiDirectional,
    ForwardRelease,
    BiDirectionalRelease,
    Backward,
    BackwardBiDirectional,
    BackwardRelease,
    BackwardBiDirectionalRelease,
    BackwardOneShot,
    OneShot,
}

/// The sample format, clamped to 8-28 bits.
pub open spec fn spec_format(f: u8) -> u8 {
    if f > 28 {
        28
    } else if f < 8 {
        8
    } else {
        f
    }
}

/// The 120 data words of a sample dump packet: the given words clamped to 7 bits, the first
/// 120 of them, padded with zeros.
pub open spec fn spec_packet_words(data: Seq<u8>) -> Seq<u8> {
    Seq::new(120, |i: int| if i < data.len() { spec_u7(data[i] as int) } else { 0u8 })
}

pub open spec fn spec_min_u64(x: u64, m: u64) -> u64 {
    if x < m {
        x
    } else {
        m
    }
}

fn format_byte(f: u8) -> (r: u8)
    ensures
        r == spec_format(f),
{
    if f > 28 {
        28
    } else if f < 8 {
        8
    } else {
        f
    }
}

impl LoopType {
    pub open spec fn spec_to_u8(self) -> u8 {
        match self {
            LoopType::Forward => 0,
            LoopType::BiDirectional => 1,
            LoopType::Off => 127,
        }
    }

    /// The loop type byte.
    pub fn to_u8(&self) -> (r: u8)
        ensures
            r == self.spec_to_u8(),
    {
        match self {
            LoopType::Forward => 0,
            LoopType::BiDirectional => 1,
            LoopType::Off => 127,
        }
    }
}

impl ExtendedLoopType {
    pub open spec fn spec_to_u8(self) -> u8 {
        match self {
            ExtendedLoopType::Forward => 0x00,
            ExtendedLoopType::BiDirectional => 0x01,
            ExtendedLoopType::ForwardRelease => 0x02,
            ExtendedLoopType::BiDirectionalRelease => 0x03,
            ExtendedLoopType::Backward => 0x40,
            ExtendedLoopType::BackwardBiDirectional => 0x41,
            ExtendedLoopType::BackwardRelease => 0x42,
            ExtendedLoopType::BackwardBiDirectionalRelease => 0x43,
            ExtendedLoopType::BackwardOneShot => 0x7E,
            ExtendedLoopType::OneShot => 0x7F,
        }
    }

    /// The loop type byte.
    pub fn to_u8(&self) -> (r: u8)
        ensures
            r == self.spec_to_u8(),
    {
        match self {
            ExtendedLoopType::Forward => 0x00,
            ExtendedLoopType::BiDirectional => 0x01,
            ExtendedLoopType::ForwardRelease => 0x02,
            ExtendedLoopType::BiDirectionalRelease => 0x03,
            ExtendedLoopType::Backward => 0x40,
            ExtendedLoopType::BackwardBiDirectional => 0x41,
            ExtendedLoopType::BackwardRelease => 0x42,
            ExtendedLoopType::BackwardBiDirectionalRelease => 0x43,
            ExtendedLoopType::BackwardOneShot => 0x7E,
            ExtendedLoopType::OneShot => 0x7F,
        }
    }
}

impl LoopNumber {
    /// Both "all loops" numbers are sent as 0x7F 0x7F; a loop as its 14-bit number.
    pub open spec fn spec_midi(self) -> Seq<u8> {
        match self {
            LoopNumber::RequestAll | LoopNumber::DeleteAll => seq![0x7Fu8, 0x7F],
            LoopNumber::Loop(x) => spec_u14_bytes(x),
        }
    }

    /// Append the loop number.
    pub fn extend_midi(&self, v: &mut Vec<u8>)
        ensures
            final(v)@ == old(v)@ + self.spec_midi(),
    {
        match self {
            LoopNumber::RequestAll | LoopNumber::DeleteAll => {
                v.push(0x7F);
                v.push(0x7F);
            },
            LoopNumber::Loop(x) => push_u14(*x, v),
        }
    }
}

impl SampleDumpMsg {
    /// The body of the message, after its sub-ID. A packet ends with a zero that stands in for
    /// its checksum, which the enclosing message writes over.
    pub open spec fn spec_midi(self) -> Seq<u8> {
        match self {
            SampleDumpMsg::Header {
                sample_num,
                format,
                period,
                length,
                sustain_loop_start,
                sustain_loop_end,
                loop_type,
            } => spec_u14_bytes(sample_num) + seq![spec_format(format)] + spec_u21(
                period,
            ).reverse() + spec_u21(length).reverse() + spec_u21(sustain_loop_start).reverse()
                + spec_u21(sustain_loop_end).reverse() + seq![loop_type.spec_to_u8()],
            SampleDumpMsg::Packet { running_count, data } => seq![
                spec_u7(running_count as int),
            ] + spec_packet_words(data@) + seq![0u8],
            SampleDumpMsg::Request { sample_num } => spec_u14_bytes(sample_num),
            SampleDumpMsg::MultipleLoopPoints {
                sample_num,
                loop_num,
                loop_type,
                start_addr,
                end_addr,
            } => spec_u14_bytes(sample_num) + loop_num.spec_midi() + seq![loop_type.spec_to_u8()]
                + spec_u21(start_addr).reverse() + spec_u21(end_addr).reverse(),
            SampleDumpMsg::LoopPointsRequest { sample_num, loop_num } => spec_u14_bytes(sample_num)
                + loop_num.spec_midi(),
        }
    }

    /// Append the body of the message.
    pub fn extend_midi(&self, v: &mut Vec<u8>)
        ensures
            final(v)@ == old(v)@ + self.spec_midi(),
    {
        let ghost start = v@;
        match self {
            SampleDumpMsg::Header {
                sample_num,
                format,
                period,
                length,
                sustain_loop_start,
                sustain_loop_end,
                loop_type,
            } => {
                push_u14(*sample_num, v);
                v.push(format_byte(*format));
                push_u21(*period, v);
                push_u21(*length, v);
                push_u21(*sustain_loop_start, v);
                push_u21(*sustain_loop_end, v);
                v.push(loop_type.to_u8());
                assert(v@ == start + self.spec_midi());
            },
            SampleDumpMsg::Packet { running_count, data } => {
                push_u7(*running_count, v);
                let ghost mid = v@;
                let mut i: usize = 0;
                while i < 120
                    invariant
                        i <= 120,
                        v@ == mid + spec_packet_words(data@).subrange(0, i as int),
                    decreases 120 - i,
                {
                    if i < data.len() {
                        v.push(to_u7(data[i]));
                    } else {
                        v.push(0);
                    }
                    i = i + 1;
                    assert(spec_packet_words(data@).subrange(0, i as int) == spec_packet_words(
                        data@,
                    ).subrange(0, i - 1).push(spec_packet_words(data@)[i - 1]));
                }
                assert(spec_packet_words(data@).subrange(0, 120) == spec_packet_words(data@));
                v.push(0);
                assert(v@ == start + self.spec_midi());
            },
            SampleDumpMsg::Request { sample_num } => {
                push_u14(*sample_num, v);
            },
            SampleDumpMsg::MultipleLoopPoints {
                sample_num,
                loop_num,
                loop_type,
                start_addr,
                end_addr,
            } => {
                push_u14(*sample_num, v);
                loop_num.extend_midi(v);
                v.push(loop_type.to_u8());
                push_u21(*start_addr, v);
                push_u21(*end_addr, v);
                assert(v@ == start + self.spec_midi());
            },
            SampleDumpMsg::LoopPointsRequest { sample_num, loop_num } => {
                push_u14(*sample_num, v);
                loop_num.extend_midi(v);
                assert(v@ == start + self.spec_midi());
            },
        }
    }

    /// Construct a packet: `num` modulo 128 is its running count, the words are clamped to 7
    /// bits.
    pub fn packet(num: u32, data: [u8; 120]) -> (r: SampleDumpMsg)
        ensures
            r matches SampleDumpMsg::Packet { running_count, data: d } && running_count == num
                % 128 && d@ == data@.map_values(|b: u8| spec_u7(b as int)),
    {
        let mut d: Vec<u8> = Vec::new();
        let mut i: usize = 0;
        while i < 120
            invariant
                i <= 120,
                d@ == data@.subrange(0, i as int).map_values(|b: u8| spec_u7(b as int)),
            decreases 120 - i,
        {
            d.push(to_u7(data[i]));
            i = i + 1;
            assert(data@.subrange(0, i as int).map_values(|b: u8| spec_u7(b as int))
                == data@.subrange(0, i - 1).map_values(|b: u8| spec_u7(b as int)).push(
                spec_u7(data@[i - 1] as int),
            ));
        }
        assert(data@.subrange(0, 120) == data@);
        SampleDumpMsg::Packet { running_count: (num % 128) as u8, data: d }
    }

    /// Parsing of sample dump messages is not implemented: always an error.
    pub fn from_midi(_m: &[u8]) -> (r: Result<(SampleDumpMsg, usize), ParseError>)
        ensures
            r matches Err(e) && e == ParseError::NotImplemented("SampleDumpMsg"),
    {
        Err(ParseError::NotImplemented("SampleDumpMsg"))
    }
}

/// The first `min(len, 127)` bytes of a name, preceded by a zero language tag length and the
/// byte count.
pub open spec fn spec_sample_name(bytes: Seq<u8>) -> Seq<u8> {
    let len: int = if bytes.len() < 127 { bytes.len() as int } else { 127 };
    seq![0u8, len as u8] + bytes.subrange(0, len)
}

impl ExtendedSampleDumpMsg {
    /// The body of the message, after its sub-IDs.
    pub open spec fn spec_midi(self) -> Seq<u8> {
        match self {
            ExtendedSampleDumpMsg::Header {
                sample_num,
                format,
                sample_rate_integer,
                sample_rate_fraction,
                length,
                sustain_loop_start,
                sustain_loop_end,
                loop_type,
                num_channels,
            } => spec_u14_bytes(sample_num) + seq![spec_format(format)] + spec_u28(
                sample_rate_integer,
            ).reverse() + spec_u28(sample_rate_fraction).reverse() + spec_u35(
                spec_min_u64(length, 34359738368),
            ).reverse() + spec_u35(spec_min_u64(sustain_loop_start, 34359738367)).reverse()
                + spec_u35(spec_min_u64(sustain_loop_end, 34359738367)).reverse() + seq![
                loop_type.spec_to_u8(),
                spec_u7(num_channels as int),
            ],
            ExtendedSampleDumpMsg::MultipleLoopPoints {
                sample_num,
                loop_num,
                loop_type,
                start_addr,
                end_addr,
            } => spec_u14_bytes(sample_num) + loop_num.spec_midi() + seq![loop_type.spec_to_u8()]
                + spec_u35(start_addr).reverse() + spec_u35(end_addr).reverse(),
            ExtendedSampleDumpMsg::LoopPointsRequest { sample_num, loop_num } => spec_u14_bytes(
                sample_num,
            ) + loop_num.spec_midi(),
            ExtendedSampleDumpMsg::SampleName { sample_num, name } => spec_u14_bytes(sample_num)
                + spec_sample_name(ascii_bytes(name)),
            ExtendedSampleDumpMsg::SampleNameRequest { sample_num } => spec_u14_bytes(sample_num),
        }
    }

    /// Append the body of the message.
    pub fn extend_midi(&self, v: &mut Vec<u8>)
        ensures
            final(v)@ == old(v)@ + self.spec_midi(),
    {
        let ghost start = v@;
        match self {
            ExtendedSampleDumpMsg::Header {
                sample_num,
                format,
                sample_rate_integer,
                sample_rate_fraction,
                length,
                sustain_loop_start,
                sustain_loop_end,
                loop_type,
                num_channels,
            } => {
                push_u14(*sample_num, v);
                v.push(format_byte(*format));
                push_u28(*sample_rate_integer, v);
                push_u28(*sample_rate_fraction, v);
                push_u35(min_u64(*length, 34359738368), v);
                push_u35(min_u64(*sustain_loop_start, 34359738367), v);
                push_u35(min_u64(*sustain_loop_end, 34359738367), v);
                v.push(loop_type.to_u8());
                push_u7(*num_channels, v);
                assert(v@ == start + self.spec_midi());
            },
            ExtendedSampleDumpMsg::MultipleLoopPoints {
                sample_num,
                loop_num,
                loop_type,
                start_addr,
                end_addr,
            } => {
                push_u14(*sample_num, v);
                loop_num.extend_midi(v);
                v.push(loop_type.to_u8());
                push_u35(*start_addr, v);
                push_u35(*end_addr, v);
                assert(v@ == start + self.spec_midi());
            },
            ExtendedSampleDumpMsg::LoopPointsRequest { sample_num, loop_num } => {
                push_u14(*sample_num, v);
                loop_num.extend_midi(v);
            },
            ExtendedSampleDumpMsg::SampleName { sample_num, name } => {
                push_u14(*sample_num, v);
                let bytes = ascii_as_bytes(name);
                let len: usize = if bytes.len() < 127 {
                    bytes.len()
                } else {
                    127
                };
                v.push(0);
                v.push(len as u8);
                extend_from_slice(v, vstd::slice::slice_subrange(bytes, 0, len));
                assert(v@ == start + self.spec_midi());
            },
            ExtendedSampleDumpMsg::SampleNameRequest { sample_num } => {
                push_u14(*sample_num, v);
            },
        }
    }

    /// Parsing of extended sample dump messages is not implemented: always an error.
    pub fn from_midi(_m: &[u8]) -> (r: Result<(ExtendedSampleDumpMsg, usize), ParseError>)
        ensures
            r matches Err(e) && e == ParseError::NotImplemented("ExtendedSampleDumpMsg"),
    {
        Err(ParseError::NotImplemented("ExtendedSampleDumpMsg"))
    }
}

fn min_u64(x: u64, m: u64) -> (r: u64)
    ensures
        r == spec_min_u64(x, m),
{
    if x < m {
        x
    } else {
        m
    }
}

} // verus!
