use vstd::prelude::*;

use ascii::AsciiString;

use crate::parse_error::ParseError;
use crate::text::{ascii_as_bytes, ascii_bytes};
use crate::util::{
    extend_from_slice, i_to_u14, push_u14, push_u7, spec_i14_offset, spec_u14_bytes,
    spec_u14_lsb, spec_u14_msb, spec_u7,
};

verus! {

/// The set of messages used for accessing files on a shared file system or network
/// so they can be used to play sounds without transferring the file contents.
/// Used by [`UniversalNonRealTimeMsg::FileReference`](crate::UniversalNonRealTimeMsg::FileReference).
///
/// As defined in CA-018.
#[derive(Debug, Clone, PartialEq)]
pub enum FileReferenceMsg {
    /// Describe where a file is located for opening, but must be followed by a `SelectContents`
    /// message if any sounds are to play.
    Open {
        /// A number 0-16383 used to distinguish between multiple file operations on the same device
        ctx: u16,
        file_type: FileReferenceType,
        /// Max 260 character url.
        url: AsciiString,
    },
    /// Given the pointer to a file, prepare it so its sounds can be loaded.
    SelectContents {
        /// A number 0-16383 used to distinguish between multiple file operations on the same device
        ctx: u16,
        /// How to map the file's sounds onto MIDI banks/programs.
        map: SelectMap,
    },
    /// The equivalent of an `Open` and `SelectContents` messages in succession.
    OpenSelectContents {
        /// A number 0-16383 used to distinguish between multiple file operations on the same device
        ctx: u16,
        file_type: FileReferenceType,
        /// Max 260 character url.
        url: AsciiString,
        /// How to map the file's sounds onto MIDI banks/programs.
        map: SelectMap,
    },
    /// Close the file and deallocate the data related to it, such that its sounds should
    /// no longer play.
    Close {
        /// A number 0-16383 used to distinguish between multiple file operations on the same device
        ctx: u16,
    },
}

/// The file type of a given file, as used by [`FileReferenceMsg`].
#[derive(Debug, Copy, Clone, PartialEq)]
pub enum FileReferenceType {
    DLS,
    SF2,
    WAV,
}

/// How to map a `DLS` or `SF2` file for MIDI reference. Used by [`SelectMap`].
#[derive(Debug, Copy, Clone, PartialEq)]
pub struct SoundFileMap {
    /// MIDI bank number required to select sound for playing. 0-16383
    pub dst_bank: u16,
    /// MIDI program number required to select sound for playing. 0-127
    pub dst_prog: u8,
    /// MIDI bank number referenced in file's instrument header. 0-16383
    pub src_bank: u16,
    /// MIDI program number referenced in file's instrument header. 0-127
    pub src_prog: u8,
    /// The selected instrument is a drum instrument
    pub src_drum: bool,
    /// The selected instrument should be loaded as a drum instrument
    pub dst_drum: bool,
    /// Initial volume 0-127
    pub volume: u8,
}

/// How to map a `WAV` file for MIDI reference. Used by [`SelectMap`].
#[derive(Debug, Copy, Clone, PartialEq)]
pub struct WAVMap {
    /// MIDI bank number required to select sound for playing. 0-16383
    pub dst_bank: u16,
    /// MIDI program number required to select sound for playing. 0-127
    pub dst_prog: u8,
    /// MIDI note where sound plays at original pitch
    pub base: u8,
    /// Lowest MIDI note that plays
    pub lokey: u8,
    /// Highest MIDI note that plays
    pub hikey: u8,
    /// Fine tuning offset -8192-8191, representing the fractional cents to shift
    /// in 1/8192ths of a cent
    pub fine: i16,
    /// Initial volume 0-127
    pub volume: u8,
}

/// How to map a file for MIDI reference. Used by [`FileReferenceMsg::SelectContents`].
#[derive(Debug, Clone, PartialEq)]
pub enum SelectMap {
    /// Used for DLS or SF2 files. No more than 127 `SoundFileMap`s.
    ///
    /// 0 `SoundFileMap`s indicates "use the map provided in the file".
    SoundFile(Vec<SoundFileMap>),
    /// Used for WAV files.
    WAV(WAVMap),
    /// Used for DLS or SF2 files. Use the mapping provided by the file,
    /// but offset the given MIDI bank by `bank_offset`.
    ///
    /// Defined in CA-028
    SoundFileBankOffset {
        bank_offset: u16,
        /// The selected instrument is a drum instrument
        src_drum: bool,
    },
    /// Used for WAV files. Offset the dest MIDI bank by `bank_offset`.
    ///
    /// Defined in CA-028.
    WAVBankOffset {
        map: WAVMap,
        bank_offset: u16,
        /// The selected instrument is a drum instrument
        src_drum: bool,
    },
}

impl FileReferenceType {
    /// The four characters of the file type.
    pub open spec fn spec_midi(self) -> Seq<u8> {
        match self {
            FileReferenceType::DLS => seq![0x44u8, 0x4C, 0x53, 0x20],
            FileReferenceType::SF2 => seq![0x53u8, 0x46, 0x32, 0x20],
            FileReferenceType::WAV => seq![0x57u8, 0x41, 0x56, 0x20],
        }
    }

    /// Append the four characters of the file type.
    pub fn extend_midi(&self, v: &mut Vec<u8>)
        ensures
            final(v)@ == old(v)@ + self.spec_midi(),
    {
        let b: [u8; 4] = match self {
            FileReferenceType::DLS => [0x44, 0x4C, 0x53, 0x20],
            FileReferenceType::SF2 => [0x53, 0x46, 0x32, 0x20],
            FileReferenceType::WAV => [0x57, 0x41, 0x56, 0x20],
        };
        v.push(b[0]);
        v.push(b[1]);
        v.push(b[2]);
        v.push(b[3]);
        assert(self.spec_midi() == seq![b[0], b[1], b[2], b[3]]);
    }
}

impl Default for SoundFileMap {
    fn default() -> (r: Self)
        ensures
            r == (SoundFileMap {
                dst_bank: 0,
                dst_prog: 0,
                src_bank: 0,
                src_prog: 0,
                src_drum: false,
                dst_drum: false,
                volume: 0x7F,
            }),
    {
        SoundFileMap {
            dst_bank: 0,
            dst_prog: 0,
            src_bank: 0,
            src_prog: 0,
            src_drum: false,
            dst_drum: false,
            volume: 0x7F,
        }
    }
}

impl Default for WAVMap {
    fn default() -> (r: Self)
        ensures
            r == (WAVMap {
                dst_bank: 0,
                dst_prog: 0,
                base: 60,
                lokey: 0,
                hikey: 0x7F,
                fine: 0,
                volume: 0x7F,
            }),
    {
        WAVMap { dst_bank: 0, dst_prog: 0, base: 60, lokey: 0, hikey: 0x7F, fine: 0, volume: 0x7F }
    }
}

impl SoundFileMap {
    /// Eight bytes: destination bank and program, source bank and program, the drum flags
    /// (source in bit 0, destination in bit 1) and the volume.
    pub open spec fn spec_midi(self) -> Seq<u8> {
        spec_u14_bytes(self.dst_bank) + seq![spec_u7(self.dst_prog as int)] + spec_u14_bytes(
            self.src_bank,
        ) + seq![
            spec_u7(self.src_prog as int),
            ((if self.src_drum { 1int } else { 0 }) + (if self.dst_drum { 2int } else { 0 })) as u8,
            spec_u7(self.volume as int),
        ]
    }

    /// Append the map.
    pub fn extend_midi(&self, v: &mut Vec<u8>)
        ensures
            final(v)@ == old(v)@ + self.spec_midi(),
    {
        let ghost start = v@;
        push_u14(self.dst_bank, v);
        push_u7(self.dst_prog, v);
        push_u14(self.src_bank, v);
        push_u7(self.src_prog, v);
        let mut flags: u8 = 0;
        if self.src_drum {
            flags = flags + 1;
        }
        if self.dst_drum {
            flags = flags + 2;
        }
        v.push(flags);
        push_u7(self.volume, v);
        assert(v@ == start + self.spec_midi());
    }
}

impl WAVMap {
    /// Nine bytes: destination bank and program, base, lowest and highest key, the fine
    /// tuning offset by 8192 (lsb first) and the volume.
    pub open spec fn spec_midi(self) -> Seq<u8> {
        spec_u14_bytes(self.dst_bank) + seq![
            spec_u7(self.dst_prog as int),
            spec_u7(self.base as int),
            spec_u7(self.lokey as int),
            spec_u7(self.hikey as int),
            spec_u14_lsb(spec_i14_offset(self.fine)),
            spec_u14_msb(spec_i14_offset(self.fine)),
            spec_u7(self.volume as int),
        ]
    }

    /// Append the map.
    pub fn extend_midi(&self, v: &mut Vec<u8>)
        ensures
            final(v)@ == old(v)@ + self.spec_midi(),
    {
        let ghost start = v@;
        push_u14(self.dst_bank, v);
        push_u7(self.dst_prog, v);
        push_u7(self.base, v);
        push_u7(self.lokey, v);
        push_u7(self.hikey, v);
        let b = i_to_u14(self.fine);
        v.push(b[1]);
        v.push(b[0]);
        push_u7(self.volume, v);
        assert(v@ == start + self.spec_midi());
    }
}

/// The maps one after the other.
pub open spec fn spec_sound_file_maps(maps: Seq<SoundFileMap>) -> Seq<u8>
    decreases maps.len(),
{
    if maps.len() == 0 {
        Seq::empty()
    } else {
        spec_sound_file_maps(maps.drop_last()) + maps.last().spec_midi()
    }
}

/// The bank offset extension: a zero count, extension ID 0x00 0x01, its length 3, the bank
/// offset and the drum flag.
pub open spec fn spec_bank_offset(bank_offset: u16, src_drum: bool) -> Seq<u8> {
    seq![0u8, 0, 1, 3] + spec_u14_bytes(bank_offset) + seq![if src_drum { 1u8 } else { 0u8 }]
}

/// The number of maps sent: at most 127.
pub open spec fn spec_map_count(n: nat) -> int {
    if n < 127 {
        n as int
    } else {
        127
    }
}

fn extend_bank_offset(v: &mut Vec<u8>, bank_offset: u16, src_drum: bool)
    ensures
        final(v)@ == old(v)@ + spec_bank_offset(bank_offset, src_drum),
{
    let ghost start = v@;
    v.push(0);
    v.push(0);
    v.push(1);
    v.push(3);
    push_u14(bank_offset, v);
    push_u7(if src_drum { 1 } else { 0 }, v);
    assert(v@ == start + spec_bank_offset(bank_offset, src_drum));
}

impl SelectMap {
    /// The bytes of the map; a list of sound file maps is preceded by its count, and at most
    /// 127 of them are sent.
    pub open spec fn spec_midi(self) -> Seq<u8> {
        match self {
            SelectMap::WAV(m) => m.spec_midi(),
            SelectMap::WAVBankOffset { map, bank_offset, src_drum } => map.spec_midi()
                + spec_bank_offset(bank_offset, src_drum),
            SelectMap::SoundFileBankOffset { bank_offset, src_drum } => spec_bank_offset(
                bank_offset,
                src_drum,
            ),
            SelectMap::SoundFile(maps) => seq![spec_map_count(maps@.len()) as u8]
                + spec_sound_file_maps(maps@.subrange(0, spec_map_count(maps@.len()))),
        }
    }

    /// The number of bytes of the map.
    pub open spec fn spec_len(self) -> int {
        match self {
            SelectMap::WAV(_) => 9,
            SelectMap::WAVBankOffset { .. } => 16,
            SelectMap::SoundFileBankOffset { .. } => 7,
            SelectMap::SoundFile(maps) => 1 + spec_map_count(maps@.len()) * 8,
        }
    }

    /// Append the map.
    pub fn extend_midi(&self, v: &mut Vec<u8>)
        ensures
            final(v)@ == old(v)@ + self.spec_midi(),
    {
        let ghost start = v@;
        match self {
            SelectMap::WAV(m) => m.extend_midi(v),
            SelectMap::WAVBankOffset { map, bank_offset, src_drum } => {
                map.extend_midi(v);
                extend_bank_offset(v, *bank_offset, *src_drum);
                assert(v@ == start + self.spec_midi());
            },
            SelectMap::SoundFileBankOffset { bank_offset, src_drum } => {
                extend_bank_offset(v, *bank_offset, *src_drum);
            },
            SelectMap::SoundFile(maps) => {
                let count: usize = if maps.len() < 127 {
                    maps.len()
                } else {
                    127
                };
                v.push(count as u8);
                let ghost mid = v@;
                let mut i: usize = 0;
                while i < count
                    invariant
                        i <= count <= maps@.len(),
                        v@ == mid + spec_sound_file_maps(maps@.subrange(0, i as int)),
                    decreases count - i,
                {
                    maps[i].extend_midi(v);
                    i = i + 1;
                    assert(maps@.subrange(0, i as int).drop_last() == maps@.subrange(0, i - 1));
                }
                assert(v@ == start + self.spec_midi());
            },
        }
    }

    /// The number of bytes of the map.
    pub fn len(&self) -> (r: usize)
        ensures
            r == self.spec_len(),
    {
        match self {
            SelectMap::WAV(_) => 9,
            SelectMap::WAVBankOffset { .. } => 16,
            SelectMap::SoundFileBankOffset { .. } => 7,
            SelectMap::SoundFile(maps) => {
                let count: usize = if maps.len() < 127 {
                    maps.len()
                } else {
                    127
                };
                1 + count * 8
            },
        }
    }
}

/// The bytes of a URL that are sent: at most 260.
pub open spec fn spec_url(url: AsciiString) -> Seq<u8> {
    let b = ascii_bytes(url);
    b.subrange(0, if b.len() < 260 { b.len() as int } else { 260 })
}

fn url_len(url: &AsciiString) -> (n: usize)
    ensures
        n == spec_url(*url).len(),
        n <= 260,
{
    let bytes = ascii_as_bytes(url);
    if bytes.len() < 260 {
        bytes.len()
    } else {
        260
    }
}

fn extend_url(v: &mut Vec<u8>, url: &AsciiString)
    ensures
        final(v)@ == old(v)@ + spec_url(*url) + seq![0u8],
{
    let bytes = ascii_as_bytes(url);
    let n: usize = if bytes.len() < 260 {
        bytes.len()
    } else {
        260
    };
    extend_from_slice(v, vstd::slice::slice_subrange(bytes, 0, n));
    v.push(0);
}

impl FileReferenceMsg {
    /// The body of the message, after its sub-IDs: the context, the length of what follows,
    /// then the file type, the null-terminated URL and the map.
    pub open spec fn spec_midi(self) -> Seq<u8> {
        match self {
            FileReferenceMsg::Open { ctx, file_type, url } => spec_u14_bytes(ctx) + spec_u14_bytes(
                (4 + spec_url(url).len() + 1) as u16,
            ) + file_type.spec_midi() + spec_url(url) + seq![0u8],
            FileReferenceMsg::SelectContents { ctx, map } => spec_u14_bytes(ctx) + spec_u14_bytes(
                map.spec_len() as u16,
            ) + map.spec_midi(),
            FileReferenceMsg::OpenSelectContents { ctx, file_type, url, map } => spec_u14_bytes(
                ctx,
            ) + spec_u14_bytes((4 + spec_url(url).len() + 1 + map.spec_len()) as u16)
                + file_type.spec_midi() + spec_url(url) + seq![0u8] + map.spec_midi(),
            FileReferenceMsg::Close { ctx } => spec_u14_bytes(ctx) + seq![0u8, 0u8],
        }
    }

    /// Append the body of the message.
    pub fn extend_midi(&self, v: &mut Vec<u8>)
        ensures
            final(v)@ == old(v)@ + self.spec_midi(),
    {
        let ghost start = v@;
        match self {
            FileReferenceMsg::Open { ctx, file_type, url } => {
                push_u14(*ctx, v);
                let n = url_len(url);
                push_u14((4 + n + 1) as u16, v);
                file_type.extend_midi(v);
                extend_url(v, url);
                assert(v@ == start + self.spec_midi());
            },
            FileReferenceMsg::SelectContents { ctx, map } => {
                push_u14(*ctx, v);
                push_u14(map.len() as u16, v);
                map.extend_midi(v);
                assert(v@ == start + self.spec_midi());
            },
            FileReferenceMsg::OpenSelectContents { ctx, file_type, url, map } => {
                push_u14(*ctx, v);
                let n = url_len(url);
                push_u14((4 + n + 1 + map.len()) as u16, v);
                file_type.extend_midi(v);
                extend_url(v, url);
                map.extend_midi(v);
                assert(v@ == start + self.spec_midi());
            },
            FileReferenceMsg::Close { ctx } => {
                push_u14(*ctx, v);
                v.push(0);
                v.push(0);
                assert(v@ == start + self.spec_midi());
            },
        }
    }

    /// Parsing of file reference messages is not implemented: always an error.
    pub fn from_midi(_m: &[u8]) -> (r: Result<(FileReferenceMsg, usize), ParseError>)
        ensures
            r matches Err(e) && e == ParseError::NotImplemented("FileReferenceMsg"),
    {
        Err(ParseError::NotImplemented("FileReferenceMsg"))
    }
}

/// The maps take as many bytes each as they say.
proof fn lemma_sound_file_maps_len(maps: Seq<SoundFileMap>)
    ensures
        spec_sound_file_maps(maps).len() == maps.len() * 8,
    decreases maps.len(),
{
    if maps.len() > 0 {
        lemma_sound_file_maps_len(maps.drop_last());
    }
}

/// The length of a select map, which the message that carries it sends, is the number of
/// bytes that the map writes.
pub proof fn lemma_select_map_len(map: SelectMap)
    ensures
        map.spec_midi().len() == map.spec_len(),
{
    if let SelectMap::SoundFile(maps) = map {
        lemma_sound_file_maps_len(maps@.subrange(0, spec_map_count(maps@.len())));
    }
}

} // verus!
