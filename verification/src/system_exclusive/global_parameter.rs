use vstd::prelude::*;

use crate::parse_error::ParseError;
use crate::util::{spec_u7, to_u7};

verus! {

/// Global Parameter Control, to control parameters on a device that affect all sound.
/// E.g. a global reverb.
/// Used by [`UniversalRealTimeMsg::GlobalParameterControl`](crate::UniversalRealTimeMsg::GlobalParameterControl).
///
/// As defined in CA-024.
#[derive(Debug, Clone, PartialEq)]
pub struct GlobalParameterControl {
    /// Between 0 and 127 `SlotPath`s, with each successive path representing a child
    /// of the preceding value. No paths refers to the "top level"
    pub slot_paths: Vec<SlotPath>,
    /// The number of 7-bit bytes used by each parameter ID
    pub param_id_width: u8,
    /// The number of 7-bit bytes used by each value
    pub value_width: u8,
    /// Any number of parameter id/value pairs.
    pub params: Vec<GlobalParameter>,
}

/// The type of reverb, used by [`GlobalParameterControl::reverb`].
#[derive(Debug, Clone, Copy, PartialEq)]
pub enum ReverbType {
    SmallRoom,
    MediumRoom,
    LargeRoom,
    MediumHall,
    LargeHall,
    Plate,
}

/// The type of chorus, used by [`GlobalParameterControl::chorus`].
#[derive(Debug, Clone, Copy, PartialEq)]
pub enum ChorusType {
    Chorus1,
    Chorus2,
    Chorus3,
    Chorus4,
    FBChorus,
    Flanger,
}

/// The "slot" of the device being referred to by [`GlobalParameterControl`].
/// Values other than `Unregistered` come from the General MIDI 2 spec.
#[derive(Debug, Clone, Copy, PartialEq)]
pub enum SlotPath {
    Reverb,
    Chorus,
    /// A two-byte slot path: MSB, LSB.
    Unregistered(u8, u8),
}

/// An `id`:`value` pair that must line up with the [`GlobalParameterControl`] that it is placed in.
#[derive(Debug, Clone, PartialEq)]
pub struct GlobalParameter {
    /// The parameter ID, MSB first.
    pub id: Vec<u8>,
    /// The value, MSB first.
    pub value: Vec<u8>,
}

impl ReverbType {
    /// The number of the reverb type.
    pub open spec fn spec_to_u8(self) -> u8 {
        match self {
            ReverbType::SmallRoom => 0,
            ReverbType::MediumRoom => 1,
            ReverbType::LargeRoom => 2,
            ReverbType::MediumHall => 3,
            ReverbType::LargeHall => 4,
            ReverbType::Plate => 8,
        }
    }

    /// The number of the reverb type.
    pub fn to_u8(&self) -> (r: u8)
        ensures
            r == self.spec_to_u8(),
    {
        match self {
            ReverbType::SmallRoom => 0,
            ReverbType::MediumRoom => 1,
            ReverbType::LargeRoom => 2,
            ReverbType::MediumHall => 3,
            ReverbType::LargeHall => 4,
            ReverbType::Plate => 8,
        }
    }
}

impl ChorusType {
    /// The number of the chorus type.
    pub open spec fn spec_to_u8(self) -> u8 {
        match self {
            ChorusType::Chorus1 => 0,
            ChorusType::Chorus2 => 1,
            ChorusType::Chorus3 => 2,
            ChorusType::Chorus4 => 3,
            ChorusType::FBChorus => 4,
            ChorusType::Flanger => 5,
        }
    }

    /// The number of the chorus type.
    pub fn to_u8(&self) -> (r: u8)
        ensures
            r == self.spec_to_u8(),
    {
        match self {
            ChorusType::Chorus1 => 0,
            ChorusType::Chorus2 => 1,
            ChorusType::Chorus3 => 2,
            ChorusType::Chorus4 => 3,
            ChorusType::FBChorus => 4,
            ChorusType::Flanger => 5,
        }
    }
}

impl SlotPath {
    /// The two bytes of the slot path, MSB first.
    pub open spec fn spec_midi(self) -> Seq<u8> {
        match self {
            SlotPath::Reverb => seq![1u8, 1u8],
            SlotPath::Chorus => seq![1u8, 2u8],
            SlotPath::Unregistered(a, b) => seq![spec_u7(a as int), spec_u7(b as int)],
        }
    }

    /// Append the two bytes of the slot path.
    pub fn extend_midi(&self, v: &mut Vec<u8>)
        ensures
            final(v)@ == old(v)@ + self.spec_midi(),
    {
        match *self {
            SlotPath::Reverb => {
                v.push(1);
                v.push(1);
            },
            SlotPath::Chorus => {
                v.push(1);
                v.push(2);
            },
            SlotPath::Unregistered(a, b) => {
                v.push(to_u7(a));
                v.push(to_u7(b));
            },
        }
    }

    /// Parsing of slot paths is not implemented: always an error, which says so.
    pub fn from_midi(_m: &[u8]) -> (r: Result<(SlotPath, usize), ParseError>)
        ensures
            r matches Err(e) && e == ParseError::Invalid("TODO: Not implemented"),
    {
        Err(ParseError::Invalid("TODO: Not implemented"))
    }
}

/// The slot paths, each as its two bytes.
pub open spec fn spec_slot_paths_midi(s: Seq<SlotPath>) -> Seq<u8>
    decreases s.len(),
{
    if s.len() == 0 {
        Seq::empty()
    } else {
        spec_slot_paths_midi(s.drop_last()) + s.last().spec_midi()
    }
}

impl GlobalParameter {
    /// `param_id_width` id bytes, MSB first, followed by `value_width` value bytes, LSB first;
    /// missing bytes are 0 and surplus bytes are dropped.
    pub open spec fn spec_midi(self, param_id_width: u8, value_width: u8) -> Seq<u8> {
        Seq::new(
            param_id_width as nat,
            |i: int|
                if i < self.id@.len() {
                    spec_u7(self.id@[i] as int)
                } else {
                    0u8
                },
        ) + Seq::new(
            value_width as nat,
            |j: int|
                if value_width - 1 - j < self.value@.len() {
                    spec_u7(self.value@[value_width - 1 - j] as int)
                } else {
                    0u8
                },
        )
    }

    /// Append the parameter with the given widths.
    pub fn extend_midi_with_limits(&self, v: &mut Vec<u8>, param_id_width: u8, value_width: u8)
        ensures
            final(v)@ == old(v)@ + self.spec_midi(param_id_width, value_width),
    {
        let ghost start = v@;
        let ghost ids = Seq::new(
            param_id_width as nat,
            |i: int|
                if i < self.id@.len() {
                    spec_u7(self.id@[i] as int)
                } else {
                    0u8
                },
        );
        let ghost vals = Seq::new(
            value_width as nat,
            |j: int|
                if value_width - 1 - j < self.value@.len() {
                    spec_u7(self.value@[value_width - 1 - j] as int)
                } else {
                    0u8
                },
        );
        let mut i: u8 = 0;
        while i < param_id_width
            invariant
                i <= param_id_width,
                v@ == start + ids.take(i as int),
                ids == Seq::new(
                    param_id_width as nat,
                    |i: int|
                        if i < self.id@.len() {
                            spec_u7(self.id@[i] as int)
                        } else {
                            0u8
                        },
                ),
            decreases param_id_width - i,
        {
            if (i as usize) < self.id.len() {
                v.push(to_u7(self.id[i as usize]));
            } else {
                v.push(0);
            }
            i = i + 1;
            assert(ids.take(i as int) == ids.take(i - 1).push(ids[i - 1]));
        }
        assert(ids.take(param_id_width as int) == ids);
        let ghost mid = v@;
        let mut k: u8 = 0;
        while k < value_width
            invariant
                k <= value_width,
                v@ == mid + vals.take(k as int),
                mid == start + ids,
                vals == Seq::new(
                    value_width as nat,
                    |j: int|
                        if value_width - 1 - j < self.value@.len() {
                            spec_u7(self.value@[value_width - 1 - j] as int)
                        } else {
                            0u8
                        },
                ),
            decreases value_width - k,
        {
            let idx = value_width - 1 - k;
            if (idx as usize) < self.value.len() {
                v.push(to_u7(self.value[idx as usize]));
            } else {
                v.push(0);
            }
            k = k + 1;
            assert(vals.take(k as int) == vals.take(k - 1).push(vals[k - 1]));
        }
        assert(vals.take(value_width as int) == vals);
    }

    /// Parsing of global parameters is not implemented: always an error, which says so.
    pub fn from_midi(_m: &[u8]) -> (r: Result<(GlobalParameter, usize), ParseError>)
        ensures
            r matches Err(e) && e == ParseError::Invalid("TODO: Not implemented"),
    {
        Err(ParseError::Invalid("TODO: Not implemented"))
    }
}

/// The parameters, each with the given widths.
pub open spec fn spec_params_midi(s: Seq<GlobalParameter>, id_width: u8, value_width: u8) -> Seq<
    u8,
>
    decreases s.len(),
{
    if s.len() == 0 {
        Seq::empty()
    } else {
        spec_params_midi(s.drop_last(), id_width, value_width) + s.last().spec_midi(
            id_width,
            value_width,
        )
    }
}

impl GlobalParameterControl {
    /// The widths in use: at least 1.
    pub open spec fn spec_id_width(self) -> u8 {
        if self.param_id_width < 1 { 1 } else { self.param_id_width }
    }

    pub open spec fn spec_value_width(self) -> u8 {
        if self.value_width < 1 { 1 } else { self.value_width }
    }

    /// [slot path count (at most 127), id width, value width (7-bit)], the first 128 slot paths,
    /// then every parameter with the widths raised to at least 1.
    pub open spec fn spec_midi(self) -> Seq<u8> {
        let n = self.slot_paths@.len();
        seq![
            (if n > 127 { 127 } else { n }) as u8,
            spec_u7(self.param_id_width as int),
            spec_u7(self.value_width as int),
        ] + spec_slot_paths_midi(self.slot_paths@.take(if n > 128 { 128 } else { n as int }))
            + spec_params_midi(self.params@, self.spec_id_width(), self.spec_value_width())
    }

    /// Append the global parameter control.
    pub fn extend_midi(&self, v: &mut Vec<u8>)
        ensures
            final(v)@ == old(v)@ + self.spec_midi(),
    {
        let n = self.slot_paths.len();
        v.push(
            if n > 127 {
                127
            } else {
                n as u8
            },
        );
        v.push(to_u7(self.param_id_width));
        v.push(to_u7(self.value_width));
        let ghost head = v@;
        let limit = if n > 128 {
            128
        } else {
            n
        };
        let mut i: usize = 0;
        while i < limit
            invariant
                limit <= n,
                n == self.slot_paths@.len(),
                i <= limit,
                v@ == head + spec_slot_paths_midi(self.slot_paths@.take(i as int)),
            decreases limit - i,
        {
            self.slot_paths[i].extend_midi(v);
            i = i + 1;
            assert(self.slot_paths@.take(i as int).drop_last() == self.slot_paths@.take(i - 1));
        }
        let idw = if self.param_id_width < 1 {
            1
        } else {
            self.param_id_width
        };
        let vw = if self.value_width < 1 {
            1
        } else {
            self.value_width
        };
        let ghost mid = v@;
        let mut j: usize = 0;
        while j < self.params.len()
            invariant
                j <= self.params@.len(),
                idw == self.spec_id_width(),
                vw == self.spec_value_width(),
                v@ == mid + spec_params_midi(self.params@.take(j as int), idw, vw),
            decreases self.params@.len() - j,
        {
            self.params[j].extend_midi_with_limits(v, idw, vw);
            j = j + 1;
            assert(self.params@.take(j as int).drop_last() == self.params@.take(j - 1));
        }
        assert(self.params@.take(self.params@.len() as int) == self.params@);
    }

    /// Parsing of global parameter control is not implemented: always an error, which says so.
    pub fn from_midi(_m: &[u8]) -> (r: Result<(GlobalParameterControl, usize), ParseError>)
        ensures
            r matches Err(e) && e == ParseError::Invalid("TODO: Not implemented"),
    {
        Err(ParseError::Invalid("TODO: Not implemented"))
    }
}

} // verus!
