use vstd::prelude::*;

use crate::parse_error::ParseError;
use vstd::string::StringSliceAdditionalSpecFns;

verus! {

/// Used to turn General MIDI level 1 or 2 on, or turn them off.
///
/// Used in [`UniversalNonRealTimeMsg::GeneralMidi`](crate::UniversalNonRealTimeMsg::GeneralMidi)
#[derive(Debug, Clone, Copy, PartialEq, Eq)]
pub enum GeneralMidi {
    GM1,
    GM2,
    Off,
}

impl GeneralMidi {
    /// The number sent for the setting: 1 for GM1, 3 for GM2, 2 for off.
    pub open spec fn spec_to_u8(self) -> u8 {
        match self {
            GeneralMidi::GM1 => 1,
            GeneralMidi::GM2 => 3,
            GeneralMidi::Off => 2,
        }
    }

    /// The number sent for the setting.
    pub fn to_u8(&self) -> (r: u8)
        ensures
            r == self.spec_to_u8(),
    {
        match self {
            GeneralMidi::GM1 => 1,
            GeneralMidi::GM2 => 3,
            GeneralMidi::Off => 2,
        }
    }
}

/// Whether two byte strings are equal.
fn bytes_eq(a: &[u8], b: &[u8]) -> (r: bool)
    ensures
        r == (a@ == b@),
{
    if a.len() != b.len() {
        return false;
    }
    let mut i: usize = 0;
    while i < a.len()
        invariant
            a@.len() == b@.len(),
            i <= a@.len(),
            a@.subrange(0, i as int) == b@.subrange(0, i as int),
        decreases a@.len() - i,
    {
        if a[i] != b[i] {
            assert(a@.subrange(0, i + 1)[i as int] != b@.subrange(0, i + 1)[i as int]);
            return false;
        }
        i = i + 1;
        assert(a@.subrange(0, i as int) =~= b@.subrange(0, i as int));
    }
    assert(a@ =~= a@.subrange(0, a@.len() as int));
    assert(b@ =~= b@.subrange(0, b@.len() as int));
    true
}

/// The instrument that should be played when applying a [`ChannelVoiceMsg::ProgramChange`](crate::ChannelVoiceMsg::ProgramChange).
///
/// Use `GMSoundSet::Sound.to_u8()` (or `as u8`) as the program number.
///
/// Should not be used when targeting channel 10.
///
/// As defined in General MIDI System Level 1 (MMA0007 / RP003).
#[derive(Debug, Clone, Copy, PartialEq, Eq)]
pub enum GMSoundSet {
    AcousticGrandPiano,
    BrightAcousticPiano,
    ElectricGrandPiano,
    HonkytonkPiano,
    ElectricPiano1,
    ElectricPiano2,
    Harpsichord,
    Clavi,
    Celesta,
    Glockenspiel,
    MusicBox,
    Vibraphone,
    Marimba,
    Xylophone,
    TubularBells,
    Dulcimer,
    DrawbarOrgan,
    PercussiveOrgan,
    RockOrgan,
    ChurchOrgan,
    ReedOrgan,
    Accordion,
    Harmonica,
    TangoAccordion,
    AcousticGuitarNylon,
    AcousticGuitarSteel,
    ElectricGuitarJazz,
    ElectricGuitarClean,
    ElectricGuitarMuted,
    OverdrivenGuitar,
    DistortionGuitar,
    GuitarHarmonics,
    AcousticBass,
    ElectricBassFinger,
    ElectricBassPick,
    FretlessBass,
    SlapBass1,
    SlapBass2,
    SynthBass1,
    SynthBass2,
    Violin,
    Viola,
    Cello,
    Contrabass,
    TremoloStrings,
    PizzicatoStrings,
    OrchestralHarp,
    Timpani,
    StringEnsemble1,
    StringEnsemble2,
    SynthStrings1,
    SynthStrings2,
    ChoirAahs,
    VoiceOohs,
    SynthVoice,
    OrchestraHit,
    Trumpet,
    Trombone,
    Tuba,
    MutedTrumpet,
    FrenchHorn,
    BrassSection,
    SynthBrass1,
    SynthBrass2,
    SopranoSax,
    AltoSax,
    TenorSax,
    BaritoneSax,
    Oboe,
    EnglishHorn,
    Bassoon,
    Clarinet,
    Piccolo,
    Flute,
    Recorder,
    PanFlute,
    BlownBottle,
    Shakuhachi,
    Whistle,
    Ocarina,
    Lead1,
    Lead2,
    Lead3,
    Lead4,
    Lead5,
    Lead6,
    Lead7,
    Lead8,
    Pad1,
    Pad2,
    Pad3,
    Pad4,
    Pad5,
    Pad6,
    Pad7,
    Pad8,
    FX1,
    FX2,
    FX3,
    FX4,
    FX5,
    FX6,
    FX7,
    FX8,
    Sitar,
    Banjo,
    Shamisen,
    Koto,
    Kalimba,
    Bagpipe,
    Fiddle,
    Shanai,
    TinkleBell,
    Agogo,
    SteelDrums,
    Woodblock,
    TaikoDrum,
    MelodicTom,
    SynthDrum,
    ReverseCymbal,
    GuitarFretNoise,
    BreathNoise,
    Seashore,
    BirdTweet,
    TelephoneRing,
    Helicopter,
    Applause,
    Gunshot,
}

impl GMSoundSet {
    /// The number of the sound, 0-127.
    pub open spec fn spec_to_u8(self) -> u8 {
        match self {
            GMSoundSet::AcousticGrandPiano => 0,
            GMSoundSet::BrightAcousticPiano => 1,
            GMSoundSet::ElectricGrandPiano => 2,
            GMSoundSet::HonkytonkPiano => 3,
            GMSoundSet::ElectricPiano1 => 4,
            GMSoundSet::ElectricPiano2 => 5,
            GMSoundSet::Harpsichord => 6,
            GMSoundSet::Clavi => 7,
            GMSoundSet::Celesta => 8,
            GMSoundSet::Glockenspiel => 9,
            GMSoundSet::MusicBox => 10,
            GMSoundSet::Vibraphone => 11,
            GMSoundSet::Marimba => 12,
            GMSoundSet::Xylophone => 13,
            GMSoundSet::TubularBells => 14,
            GMSoundSet::Dulcimer => 15,
            GMSoundSet::DrawbarOrgan => 16,
            GMSoundSet::PercussiveOrgan => 17,
            GMSoundSet::RockOrgan => 18,
            GMSoundSet::ChurchOrgan => 19,
            GMSoundSet::ReedOrgan => 20,
            GMSoundSet::Accordion => 21,
            GMSoundSet::Harmonica => 22,
            GMSoundSet::TangoAccordion => 23,
            GMSoundSet::AcousticGuitarNylon => 24,
            GMSoundSet::AcousticGuitarSteel => 25,
            GMSoundSet::ElectricGuitarJazz => 26,
            GMSoundSet::ElectricGuitarClean => 27,
            GMSoundSet::ElectricGuitarMuted => 28,
            GMSoundSet::OverdrivenGuitar => 29,
            GMSoundSet::DistortionGuitar => 30,
            GMSoundSet::GuitarHarmonics => 31,
            GMSoundSet::AcousticBass => 32,
            GMSoundSet::ElectricBassFinger => 33,
            GMSoundSet::ElectricBassPick => 34,
            GMSoundSet::FretlessBass => 35,
            GMSoundSet::SlapBass1 => 36,
            GMSoundSet::SlapBass2 => 37,
            GMSoundSet::SynthBass1 => 38,
            GMSoundSet::SynthBass2 => 39,
            GMSoundSet::Violin => 40,
            GMSoundSet::Viola => 41,
            GMSoundSet::Cello => 42,
            GMSoundSet::Contrabass => 43,
            GMSoundSet::TremoloStrings => 44,
            GMSoundSet::PizzicatoStrings => 45,
            GMSoundSet::OrchestralHarp => 46,
            GMSoundSet::Timpani => 47,
            GMSoundSet::StringEnsemble1 => 48,
            GMSoundSet::StringEnsemble2 => 49,
            GMSoundSet::SynthStrings1 => 50,
            GMSoundSet::SynthStrings2 => 51,
            GMSoundSet::ChoirAahs => 52,
            GMSoundSet::VoiceOohs => 53,
            GMSoundSet::SynthVoice => 54,
            GMSoundSet::OrchestraHit => 55,
            GMSoundSet::Trumpet => 56,
            GMSoundSet::Trombone => 57,
            GMSoundSet::Tuba => 58,
            GMSoundSet::MutedTrumpet => 59,
            GMSoundSet::FrenchHorn => 60,
            GMSoundSet::BrassSection => 61,
            GMSoundSet::SynthBrass1 => 62,
            GMSoundSet::SynthBrass2 => 63,
            GMSoundSet::SopranoSax => 64,
            GMSoundSet::AltoSax => 65,
            GMSoundSet::TenorSax => 66,
            GMSoundSet::BaritoneSax => 67,
            GMSoundSet::Oboe => 68,
            GMSoundSet::EnglishHorn => 69,
            GMSoundSet::Bassoon => 70,
            GMSoundSet::Clarinet => 71,
            GMSoundSet::Piccolo => 72,
            GMSoundSet::Flute => 73,
            GMSoundSet::Recorder => 74,
            GMSoundSet::PanFlute => 75,
            GMSoundSet::BlownBottle => 76,
            GMSoundSet::Shakuhachi => 77,
            GMSoundSet::Whistle => 78,
            GMSoundSet::Ocarina => 79,
            GMSoundSet::Lead1 => 80,
            GMSoundSet::Lead2 => 81,
            GMSoundSet::Lead3 => 82,
            GMSoundSet::Lead4 => 83,
            GMSoundSet::Lead5 => 84,
            GMSoundSet::Lead6 => 85,
            GMSoundSet::Lead7 => 86,
            GMSoundSet::Lead8 => 87,
            GMSoundSet::Pad1 => 88,
            GMSoundSet::Pad2 => 89,
            GMSoundSet::Pad3 => 90,
            GMSoundSet::Pad4 => 91,
            GMSoundSet::Pad5 => 92,
            GMSoundSet::Pad6 => 93,
            GMSoundSet::Pad7 => 94,
            GMSoundSet::Pad8 => 95,
            GMSoundSet::FX1 => 96,
            GMSoundSet::FX2 => 97,
            GMSoundSet::FX3 => 98,
            GMSoundSet::FX4 => 99,
            GMSoundSet::FX5 => 100,
            GMSoundSet::FX6 => 101,
            GMSoundSet::FX7 => 102,
            GMSoundSet::FX8 => 103,
            GMSoundSet::Sitar => 104,
            GMSoundSet::Banjo => 105,
            GMSoundSet::Shamisen => 106,
            GMSoundSet::Koto => 107,
            GMSoundSet::Kalimba => 108,
            GMSoundSet::Bagpipe => 109,
            GMSoundSet::Fiddle => 110,
            GMSoundSet::Shanai => 111,
            GMSoundSet::TinkleBell => 112,
            GMSoundSet::Agogo => 113,
            GMSoundSet::SteelDrums => 114,
            GMSoundSet::Woodblock => 115,
            GMSoundSet::TaikoDrum => 116,
            GMSoundSet::MelodicTom => 117,
            GMSoundSet::SynthDrum => 118,
            GMSoundSet::ReverseCymbal => 119,
            GMSoundSet::GuitarFretNoise => 120,
            GMSoundSet::BreathNoise => 121,
            GMSoundSet::Seashore => 122,
            GMSoundSet::BirdTweet => 123,
            GMSoundSet::TelephoneRing => 124,
            GMSoundSet::Helicopter => 125,
            GMSoundSet::Applause => 126,
            GMSoundSet::Gunshot => 127,
        }
    }

    /// The name of the sound.
    pub open spec fn spec_name(self) -> &'static str {
        match self {
            GMSoundSet::AcousticGrandPiano => "AcousticGrandPiano",
            GMSoundSet::BrightAcousticPiano => "BrightAcousticPiano",
            GMSoundSet::ElectricGrandPiano => "ElectricGrandPiano",
            GMSoundSet::HonkytonkPiano => "HonkytonkPiano",
            GMSoundSet::ElectricPiano1 => "ElectricPiano1",
            GMSoundSet::ElectricPiano2 => "ElectricPiano2",
            GMSoundSet::Harpsichord => "Harpsichord",
            GMSoundSet::Clavi => "Clavi",
            GMSoundSet::Celesta => "Celesta",
            GMSoundSet::Glockenspiel => "Glockenspiel",
            GMSoundSet::MusicBox => "MusicBox",
            GMSoundSet::Vibraphone => "Vibraphone",
            GMSoundSet::Marimba => "Marimba",
            GMSoundSet::Xylophone => "Xylophone",
            GMSoundSet::TubularBells => "TubularBells",
            GMSoundSet::Dulcimer => "Dulcimer",
            GMSoundSet::DrawbarOrgan => "DrawbarOrgan",
            GMSoundSet::PercussiveOrgan => "PercussiveOrgan",
            GMSoundSet::RockOrgan => "RockOrgan",
            GMSoundSet::ChurchOrgan => "ChurchOrgan",
            GMSoundSet::ReedOrgan => "ReedOrgan",
            GMSoundSet::Accordion => "Accordion",
            GMSoundSet::Harmonica => "Harmonica",
            GMSoundSet::TangoAccordion => "TangoAccordion",
            GMSoundSet::AcousticGuitarNylon => "AcousticGuitarNylon",
            GMSoundSet::AcousticGuitarSteel => "AcousticGuitarSteel",
            GMSoundSet::ElectricGuitarJazz => "ElectricGuitarJazz",
            GMSoundSet::ElectricGuitarClean => "ElectricGuitarClean",
            GMSoundSet::ElectricGuitarMuted => "ElectricGuitarMuted",
            GMSoundSet::OverdrivenGuitar => "OverdrivenGuitar",
            GMSoundSet::DistortionGuitar => "DistortionGuitar",
            GMSoundSet::GuitarHarmonics => "GuitarHarmonics",
            GMSoundSet::AcousticBass => "AcousticBass",
            GMSoundSet::ElectricBassFinger => "ElectricBassFinger",
            GMSoundSet::ElectricBassPick => "ElectricBassPick",
            GMSoundSet::FretlessBass => "FretlessBass",
            GMSoundSet::SlapBass1 => "SlapBass1",
            GMSoundSet::SlapBass2 => "SlapBass2",
            GMSoundSet::SynthBass1 => "SynthBass1",
            GMSoundSet::SynthBass2 => "SynthBass2",
            GMSoundSet::Violin => "Violin",
            GMSoundSet::Viola => "Viola",
            GMSoundSet::Cello => "Cello",
            GMSoundSet::Contrabass => "Contrabass",
            GMSoundSet::TremoloStrings => "TremoloStrings",
            GMSoundSet::PizzicatoStrings => "PizzicatoStrings",
            GMSoundSet::OrchestralHarp => "OrchestralHarp",
            GMSoundSet::Timpani => "Timpani",
            GMSoundSet::StringEnsemble1 => "StringEnsemble1",
            GMSoundSet::StringEnsemble2 => "StringEnsemble2",
            GMSoundSet::SynthStrings1 => "SynthStrings1",
            GMSoundSet::SynthStrings2 => "SynthStrings2",
            GMSoundSet::ChoirAahs => "ChoirAahs",
            GMSoundSet::VoiceOohs => "VoiceOohs",
            GMSoundSet::SynthVoice => "SynthVoice",
            GMSoundSet::OrchestraHit => "OrchestraHit",
            GMSoundSet::Trumpet => "Trumpet",
            GMSoundSet::Trombone => "Trombone",
            GMSoundSet::Tuba => "Tuba",
            GMSoundSet::MutedTrumpet => "MutedTrumpet",
            GMSoundSet::FrenchHorn => "FrenchHorn",
            GMSoundSet::BrassSection => "BrassSection",
            GMSoundSet::SynthBrass1 => "SynthBrass1",
            GMSoundSet::SynthBrass2 => "SynthBrass2",
            GMSoundSet::SopranoSax => "SopranoSax",
            GMSoundSet::AltoSax => "AltoSax",
            GMSoundSet::TenorSax => "TenorSax",
            GMSoundSet::BaritoneSax => "BaritoneSax",
            GMSoundSet::Oboe => "Oboe",
            GMSoundSet::EnglishHorn => "EnglishHorn",
            GMSoundSet::Bassoon => "Bassoon",
            GMSoundSet::Clarinet => "Clarinet",
            GMSoundSet::Piccolo => "Piccolo",
            GMSoundSet::Flute => "Flute",
            GMSoundSet::Recorder => "Recorder",
            GMSoundSet::PanFlute => "PanFlute",
            GMSoundSet::BlownBottle => "BlownBottle",
            GMSoundSet::Shakuhachi => "Shakuhachi",
            GMSoundSet::Whistle => "Whistle",
            GMSoundSet::Ocarina => "Ocarina",
            GMSoundSet::Lead1 => "Lead1",
            GMSoundSet::Lead2 => "Lead2",
            GMSoundSet::Lead3 => "Lead3",
            GMSoundSet::Lead4 => "Lead4",
            GMSoundSet::Lead5 => "Lead5",
            GMSoundSet::Lead6 => "Lead6",
            GMSoundSet::Lead7 => "Lead7",
            GMSoundSet::Lead8 => "Lead8",
            GMSoundSet::Pad1 => "Pad1",
            GMSoundSet::Pad2 => "Pad2",
            GMSoundSet::Pad3 => "Pad3",
            GMSoundSet::Pad4 => "Pad4",
            GMSoundSet::Pad5 => "Pad5",
            GMSoundSet::Pad6 => "Pad6",
            GMSoundSet::Pad7 => "Pad7",
            GMSoundSet::Pad8 => "Pad8",
            GMSoundSet::FX1 => "FX1",
            GMSoundSet::FX2 => "FX2",
            GMSoundSet::FX3 => "FX3",
            GMSoundSet::FX4 => "FX4",
            GMSoundSet::FX5 => "FX5",
            GMSoundSet::FX6 => "FX6",
            GMSoundSet::FX7 => "FX7",
            GMSoundSet::FX8 => "FX8",
            GMSoundSet::Sitar => "Sitar",
            GMSoundSet::Banjo => "Banjo",
            GMSoundSet::Shamisen => "Shamisen",
            GMSoundSet::Koto => "Koto",
            GMSoundSet::Kalimba => "Kalimba",
            GMSoundSet::Bagpipe => "Bagpipe",
            GMSoundSet::Fiddle => "Fiddle",
            GMSoundSet::Shanai => "Shanai",
            GMSoundSet::TinkleBell => "TinkleBell",
            GMSoundSet::Agogo => "Agogo",
            GMSoundSet::SteelDrums => "SteelDrums",
            GMSoundSet::Woodblock => "Woodblock",
            GMSoundSet::TaikoDrum => "TaikoDrum",
            GMSoundSet::MelodicTom => "MelodicTom",
            GMSoundSet::SynthDrum => "SynthDrum",
            GMSoundSet::ReverseCymbal => "ReverseCymbal",
            GMSoundSet::GuitarFretNoise => "GuitarFretNoise",
            GMSoundSet::BreathNoise => "BreathNoise",
            GMSoundSet::Seashore => "Seashore",
            GMSoundSet::BirdTweet => "BirdTweet",
            GMSoundSet::TelephoneRing => "TelephoneRing",
            GMSoundSet::Helicopter => "Helicopter",
            GMSoundSet::Applause => "Applause",
            GMSoundSet::Gunshot => "Gunshot",
        }
    }

    /// The number of the sound, 0-127.
    pub fn to_u8(&self) -> (r: u8)
        ensures
            r == self.spec_to_u8(),
            0 <= r < 128,
    {
        match self {
            GMSoundSet::AcousticGrandPiano => 0,
            GMSoundSet::BrightAcousticPiano => 1,
            GMSoundSet::ElectricGrandPiano => 2,
            GMSoundSet::HonkytonkPiano => 3,
            GMSoundSet::ElectricPiano1 => 4,
            GMSoundSet::ElectricPiano2 => 5,
            GMSoundSet::Harpsichord => 6,
            GMSoundSet::Clavi => 7,
            GMSoundSet::Celesta => 8,
            GMSoundSet::Glockenspiel => 9,
            GMSoundSet::MusicBox => 10,
            GMSoundSet::Vibraphone => 11,
            GMSoundSet::Marimba => 12,
            GMSoundSet::Xylophone => 13,
            GMSoundSet::TubularBells => 14,
            GMSoundSet::Dulcimer => 15,
            GMSoundSet::DrawbarOrgan => 16,
            GMSoundSet::PercussiveOrgan => 17,
            GMSoundSet::RockOrgan => 18,
            GMSoundSet::ChurchOrgan => 19,
            GMSoundSet::ReedOrgan => 20,
            GMSoundSet::Accordion => 21,
            GMSoundSet::Harmonica => 22,
            GMSoundSet::TangoAccordion => 23,
            GMSoundSet::AcousticGuitarNylon => 24,
            GMSoundSet::AcousticGuitarSteel => 25,
            GMSoundSet::ElectricGuitarJazz => 26,
            GMSoundSet::ElectricGuitarClean => 27,
            GMSoundSet::ElectricGuitarMuted => 28,
            GMSoundSet::OverdrivenGuitar => 29,
            GMSoundSet::DistortionGuitar => 30,
            GMSoundSet::GuitarHarmonics => 31,
            GMSoundSet::AcousticBass => 32,
            GMSoundSet::ElectricBassFinger => 33,
            GMSoundSet::ElectricBassPick => 34,
            GMSoundSet::FretlessBass => 35,
            GMSoundSet::SlapBass1 => 36,
            GMSoundSet::SlapBass2 => 37,
            GMSoundSet::SynthBass1 => 38,
            GMSoundSet::SynthBass2 => 39,
            GMSoundSet::Violin => 40,
            GMSoundSet::Viola => 41,
            GMSoundSet::Cello => 42,
            GMSoundSet::Contrabass => 43,
            GMSoundSet::TremoloStrings => 44,
            GMSoundSet::PizzicatoStrings => 45,
            GMSoundSet::OrchestralHarp => 46,
            GMSoundSet::Timpani => 47,
            GMSoundSet::StringEnsemble1 => 48,
            GMSoundSet::StringEnsemble2 => 49,
            GMSoundSet::SynthStrings1 => 50,
            GMSoundSet::SynthStrings2 => 51,
            GMSoundSet::ChoirAahs => 52,
            GMSoundSet::VoiceOohs => 53,
            GMSoundSet::SynthVoice => 54,
            GMSoundSet::OrchestraHit => 55,
            GMSoundSet::Trumpet => 56,
            GMSoundSet::Trombone => 57,
            GMSoundSet::Tuba => 58,
            GMSoundSet::MutedTrumpet => 59,
            GMSoundSet::FrenchHorn => 60,
            GMSoundSet::BrassSection => 61,
            GMSoundSet::SynthBrass1 => 62,
            GMSoundSet::SynthBrass2 => 63,
            GMSoundSet::SopranoSax => 64,
            GMSoundSet::AltoSax => 65,
            GMSoundSet::TenorSax => 66,
            GMSoundSet::BaritoneSax => 67,
            GMSoundSet::Oboe => 68,
            GMSoundSet::EnglishHorn => 69,
            GMSoundSet::Bassoon => 70,
            GMSoundSet::Clarinet => 71,
            GMSoundSet::Piccolo => 72,
            GMSoundSet::Flute => 73,
            GMSoundSet::Recorder => 74,
            GMSoundSet::PanFlute => 75,
            GMSoundSet::BlownBottle => 76,
            GMSoundSet::Shakuhachi => 77,
            GMSoundSet::Whistle => 78,
            GMSoundSet::Ocarina => 79,
            GMSoundSet::Lead1 => 80,
            GMSoundSet::Lead2 => 81,
            GMSoundSet::Lead3 => 82,
            GMSoundSet::Lead4 => 83,
            GMSoundSet::Lead5 => 84,
            GMSoundSet::Lead6 => 85,
            GMSoundSet::Lead7 => 86,
            GMSoundSet::Lead8 => 87,
            GMSoundSet::Pad1 => 88,
            GMSoundSet::Pad2 => 89,
            GMSoundSet::Pad3 => 90,
            GMSoundSet::Pad4 => 91,
            GMSoundSet::Pad5 => 92,
            GMSoundSet::Pad6 => 93,
            GMSoundSet::Pad7 => 94,
            GMSoundSet::Pad8 => 95,
            GMSoundSet::FX1 => 96,
            GMSoundSet::FX2 => 97,
            GMSoundSet::FX3 => 98,
            GMSoundSet::FX4 => 99,
            GMSoundSet::FX5 => 100,
            GMSoundSet::FX6 => 101,
            GMSoundSet::FX7 => 102,
            GMSoundSet::FX8 => 103,
            GMSoundSet::Sitar => 104,
            GMSoundSet::Banjo => 105,
            GMSoundSet::Shamisen => 106,
            GMSoundSet::Koto => 107,
            GMSoundSet::Kalimba => 108,
            GMSoundSet::Bagpipe => 109,
            GMSoundSet::Fiddle => 110,
            GMSoundSet::Shanai => 111,
            GMSoundSet::TinkleBell => 112,
            GMSoundSet::Agogo => 113,
            GMSoundSet::SteelDrums => 114,
            GMSoundSet::Woodblock => 115,
            GMSoundSet::TaikoDrum => 116,
            GMSoundSet::MelodicTom => 117,
            GMSoundSet::SynthDrum => 118,
            GMSoundSet::ReverseCymbal => 119,
            GMSoundSet::GuitarFretNoise => 120,
            GMSoundSet::BreathNoise => 121,
            GMSoundSet::Seashore => 122,
            GMSoundSet::BirdTweet => 123,
            GMSoundSet::TelephoneRing => 124,
            GMSoundSet::Helicopter => 125,
            GMSoundSet::Applause => 126,
            GMSoundSet::Gunshot => 127,
        }
    }

    /// The name of the sound.
    pub fn name(&self) -> (r: &'static str)
        ensures
            r == self.spec_name(),
    {
        match self {
            GMSoundSet::AcousticGrandPiano => "AcousticGrandPiano",
            GMSoundSet::BrightAcousticPiano => "BrightAcousticPiano",
            GMSoundSet::ElectricGrandPiano => "ElectricGrandPiano",
            GMSoundSet::HonkytonkPiano => "HonkytonkPiano",
            GMSoundSet::ElectricPiano1 => "ElectricPiano1",
            GMSoundSet::ElectricPiano2 => "ElectricPiano2",
            GMSoundSet::Harpsichord => "Harpsichord",
            GMSoundSet::Clavi => "Clavi",
            GMSoundSet::Celesta => "Celesta",
            GMSoundSet::Glockenspiel => "Glockenspiel",
            GMSoundSet::MusicBox => "MusicBox",
            GMSoundSet::Vibraphone => "Vibraphone",
            GMSoundSet::Marimba => "Marimba",
            GMSoundSet::Xylophone => "Xylophone",
            GMSoundSet::TubularBells => "TubularBells",
            GMSoundSet::Dulcimer => "Dulcimer",
            GMSoundSet::DrawbarOrgan => "DrawbarOrgan",
            GMSoundSet::PercussiveOrgan => "PercussiveOrgan",
            GMSoundSet::RockOrgan => "RockOrgan",
            GMSoundSet::ChurchOrgan => "ChurchOrgan",
            GMSoundSet::ReedOrgan => "ReedOrgan",
            GMSoundSet::Accordion => "Accordion",
            GMSoundSet::Harmonica => "Harmonica",
            GMSoundSet::TangoAccordion => "TangoAccordion",
            GMSoundSet::AcousticGuitarNylon => "AcousticGuitarNylon",
            GMSoundSet::AcousticGuitarSteel => "AcousticGuitarSteel",
            GMSoundSet::ElectricGuitarJazz => "ElectricGuitarJazz",
            GMSoundSet::ElectricGuitarClean => "ElectricGuitarClean",
            GMSoundSet::ElectricGuitarMuted => "ElectricGuitarMuted",
            GMSoundSet::OverdrivenGuitar => "OverdrivenGuitar",
            GMSoundSet::DistortionGuitar => "DistortionGuitar",
            GMSoundSet::GuitarHarmonics => "GuitarHarmonics",
            GMSoundSet::AcousticBass => "AcousticBass",
            GMSoundSet::ElectricBassFinger => "ElectricBassFinger",
            GMSoundSet::ElectricBassPick => "ElectricBassPick",
            GMSoundSet::FretlessBass => "FretlessBass",
            GMSoundSet::SlapBass1 => "SlapBass1",
            GMSoundSet::SlapBass2 => "SlapBass2",
            GMSoundSet::SynthBass1 => "SynthBass1",
            GMSoundSet::SynthBass2 => "SynthBass2",
            GMSoundSet::Violin => "Violin",
            GMSoundSet::Viola => "Viola",
            GMSoundSet::Cello => "Cello",
            GMSoundSet::Contrabass => "Contrabass",
            GMSoundSet::TremoloStrings => "TremoloStrings",
            GMSoundSet::PizzicatoStrings => "PizzicatoStrings",
            GMSoundSet::OrchestralHarp => "OrchestralHarp",
            GMSoundSet::Timpani => "Timpani",
            GMSoundSet::StringEnsemble1 => "StringEnsemble1",
            GMSoundSet::StringEnsemble2 => "StringEnsemble2",
            GMSoundSet::SynthStrings1 => "SynthStrings1",
            GMSoundSet::SynthStrings2 => "SynthStrings2",
            GMSoundSet::ChoirAahs => "ChoirAahs",
            GMSoundSet::VoiceOohs => "VoiceOohs",
            GMSoundSet::SynthVoice => "SynthVoice",
            GMSoundSet::OrchestraHit => "OrchestraHit",
            GMSoundSet::Trumpet => "Trumpet",
            GMSoundSet::Trombone => "Trombone",
            GMSoundSet::Tuba => "Tuba",
            GMSoundSet::MutedTrumpet => "MutedTrumpet",
            GMSoundSet::FrenchHorn => "FrenchHorn",
            GMSoundSet::BrassSection => "BrassSection",
            GMSoundSet::SynthBrass1 => "SynthBrass1",
            GMSoundSet::SynthBrass2 => "SynthBrass2",
            GMSoundSet::SopranoSax => "SopranoSax",
            GMSoundSet::AltoSax => "AltoSax",
            GMSoundSet::TenorSax => "TenorSax",
            GMSoundSet::BaritoneSax => "BaritoneSax",
            GMSoundSet::Oboe => "Oboe",
            GMSoundSet::EnglishHorn => "EnglishHorn",
            GMSoundSet::Bassoon => "Bassoon",
            GMSoundSet::Clarinet => "Clarinet",
            GMSoundSet::Piccolo => "Piccolo",
            GMSoundSet::Flute => "Flute",
            GMSoundSet::Recorder => "Recorder",
            GMSoundSet::PanFlute => "PanFlute",
            GMSoundSet::BlownBottle => "BlownBottle",
            GMSoundSet::Shakuhachi => "Shakuhachi",
            GMSoundSet::Whistle => "Whistle",
            GMSoundSet::Ocarina => "Ocarina",
            GMSoundSet::Lead1 => "Lead1",
            GMSoundSet::Lead2 => "Lead2",
            GMSoundSet::Lead3 => "Lead3",
            GMSoundSet::Lead4 => "Lead4",
            GMSoundSet::Lead5 => "Lead5",
            GMSoundSet::Lead6 => "Lead6",
            GMSoundSet::Lead7 => "Lead7",
            GMSoundSet::Lead8 => "Lead8",
            GMSoundSet::Pad1 => "Pad1",
            GMSoundSet::Pad2 => "Pad2",
            GMSoundSet::Pad3 => "Pad3",
            GMSoundSet::Pad4 => "Pad4",
            GMSoundSet::Pad5 => "Pad5",
            GMSoundSet::Pad6 => "Pad6",
            GMSoundSet::Pad7 => "Pad7",
            GMSoundSet::Pad8 => "Pad8",
            GMSoundSet::FX1 => "FX1",
            GMSoundSet::FX2 => "FX2",
            GMSoundSet::FX3 => "FX3",
            GMSoundSet::FX4 => "FX4",
            GMSoundSet::FX5 => "FX5",
            GMSoundSet::FX6 => "FX6",
            GMSoundSet::FX7 => "FX7",
            GMSoundSet::FX8 => "FX8",
            GMSoundSet::Sitar => "Sitar",
            GMSoundSet::Banjo => "Banjo",
            GMSoundSet::Shamisen => "Shamisen",
            GMSoundSet::Koto => "Koto",
            GMSoundSet::Kalimba => "Kalimba",
            GMSoundSet::Bagpipe => "Bagpipe",
            GMSoundSet::Fiddle => "Fiddle",
            GMSoundSet::Shanai => "Shanai",
            GMSoundSet::TinkleBell => "TinkleBell",
            GMSoundSet::Agogo => "Agogo",
            GMSoundSet::SteelDrums => "SteelDrums",
            GMSoundSet::Woodblock => "Woodblock",
            GMSoundSet::TaikoDrum => "TaikoDrum",
            GMSoundSet::MelodicTom => "MelodicTom",
            GMSoundSet::SynthDrum => "SynthDrum",
            GMSoundSet::ReverseCymbal => "ReverseCymbal",
            GMSoundSet::GuitarFretNoise => "GuitarFretNoise",
            GMSoundSet::BreathNoise => "BreathNoise",
            GMSoundSet::Seashore => "Seashore",
            GMSoundSet::BirdTweet => "BirdTweet",
            GMSoundSet::TelephoneRing => "TelephoneRing",
            GMSoundSet::Helicopter => "Helicopter",
            GMSoundSet::Applause => "Applause",
            GMSoundSet::Gunshot => "Gunshot",
        }
    }

    /// The name of the sound, as an owned string.
    pub fn to_string(&self) -> (r: String)
        ensures
            r@ == self.spec_name()@,
    {
        self.name().to_owned()
    }

    /// The sound with number `x`, the last one above the range.
    pub open spec fn spec_from_number(x: u8) -> GMSoundSet {
        if x == 0 {
            GMSoundSet::AcousticGrandPiano
        } else if x == 1 {
            GMSoundSet::BrightAcousticPiano
        } else if x == 2 {
            GMSoundSet::ElectricGrandPiano
        } else if x == 3 {
            GMSoundSet::HonkytonkPiano
        } else if x == 4 {
            GMSoundSet::ElectricPiano1
        } else if x == 5 {
            GMSoundSet::ElectricPiano2
        } else if x == 6 {
            GMSoundSet::Harpsichord
        } else if x == 7 {
            GMSoundSet::Clavi
        } else if x == 8 {
            GMSoundSet::Celesta
        } else if x == 9 {
            GMSoundSet::Glockenspiel
        } else if x == 10 {
            GMSoundSet::MusicBox
        } else if x == 11 {
            GMSoundSet::Vibraphone
        } else if x == 12 {
            GMSoundSet::Marimba
        } else if x == 13 {
            GMSoundSet::Xylophone
        } else if x == 14 {
            GMSoundSet::TubularBells
        } else if x == 15 {
            GMSoundSet::Dulcimer
        } else if x == 16 {
            GMSoundSet::DrawbarOrgan
        } else if x == 17 {
            GMSoundSet::PercussiveOrgan
        } else if x == 18 {
            GMSoundSet::RockOrgan
        } else if x == 19 {
            GMSoundSet::ChurchOrgan
        } else if x == 20 {
            GMSoundSet::ReedOrgan
        } else if x == 21 {
            GMSoundSet::Accordion
        } else if x == 22 {
            GMSoundSet::Harmonica
        } else if x == 23 {
            GMSoundSet::TangoAccordion
        } else if x == 24 {
            GMSoundSet::AcousticGuitarNylon
        } else if x == 25 {
            GMSoundSet::AcousticGuitarSteel
        } else if x == 26 {
            GMSoundSet::ElectricGuitarJazz
        } else if x == 27 {
            GMSoundSet::ElectricGuitarClean
        } else if x == 28 {
            GMSoundSet::ElectricGuitarMuted
        } else if x == 29 {
            GMSoundSet::OverdrivenGuitar
        } else if x == 30 {
            GMSoundSet::DistortionGuitar
        } else if x == 31 {
            GMSoundSet::GuitarHarmonics
        } else if x == 32 {
            GMSoundSet::AcousticBass
        } else if x == 33 {
            GMSoundSet::ElectricBassFinger
        } else if x == 34 {
            GMSoundSet::ElectricBassPick
        } else if x == 35 {
            GMSoundSet::FretlessBass
        } else if x == 36 {
            GMSoundSet::SlapBass1
        } else if x == 37 {
            GMSoundSet::SlapBass2
        } else if x == 38 {
            GMSoundSet::SynthBass1
        } else if x == 39 {
            GMSoundSet::SynthBass2
        } else if x == 40 {
            GMSoundSet::Violin
        } else if x == 41 {
            GMSoundSet::Viola
        } else if x == 42 {
            GMSoundSet::Cello
        } else if x == 43 {
            GMSoundSet::Contrabass
        } else if x == 44 {
            GMSoundSet::TremoloStrings
        } else if x == 45 {
            GMSoundSet::PizzicatoStrings
        } else if x == 46 {
            GMSoundSet::OrchestralHarp
        } else if x == 47 {
            GMSoundSet::Timpani
        } else if x == 48 {
            GMSoundSet::StringEnsemble1
        } else if x == 49 {
            GMSoundSet::StringEnsemble2
        } else if x == 50 {
            GMSoundSet::SynthStrings1
        } else if x == 51 {
            GMSoundSet::SynthStrings2
        } else if x == 52 {
            GMSoundSet::ChoirAahs
        } else if x == 53 {
            GMSoundSet::VoiceOohs
        } else if x == 54 {
            GMSoundSet::SynthVoice
        } else if x == 55 {
            GMSoundSet::OrchestraHit
        } else if x == 56 {
            GMSoundSet::Trumpet
        } else if x == 57 {
            GMSoundSet::Trombone
        } else if x == 58 {
            GMSoundSet::Tuba
        } else if x == 59 {
            GMSoundSet::MutedTrumpet
        } else if x == 60 {
            GMSoundSet::FrenchHorn
        } else if x == 61 {
            GMSoundSet::BrassSection
        } else if x == 62 {
            GMSoundSet::SynthBrass1
        } else if x == 63 {
            GMSoundSet::SynthBrass2
        } else if x == 64 {
            GMSoundSet::SopranoSax
        } else if x == 65 {
            GMSoundSet::AltoSax
        } else if x == 66 {
            GMSoundSet::TenorSax
        } else if x == 67 {
            GMSoundSet::BaritoneSax
        } else if x == 68 {
            GMSoundSet::Oboe
        } else if x == 69 {
            GMSoundSet::EnglishHorn
        } else if x == 70 {
            GMSoundSet::Bassoon
        } else if x == 71 {
            GMSoundSet::Clarinet
        } else if x == 72 {
            GMSoundSet::Piccolo
        } else if x == 73 {
            GMSoundSet::Flute
        } else if x == 74 {
            GMSoundSet::Recorder
        } else if x == 75 {
            GMSoundSet::PanFlute
        } else if x == 76 {
            GMSoundSet::BlownBottle
        } else if x == 77 {
            GMSoundSet::Shakuhachi
        } else if x == 78 {
            GMSoundSet::Whistle
        } else if x == 79 {
            GMSoundSet::Ocarina
        } else if x == 80 {
            GMSoundSet::Lead1
        } else if x == 81 {
            GMSoundSet::Lead2
        } else if x == 82 {
            GMSoundSet::Lead3
        } else if x == 83 {
            GMSoundSet::Lead4
        } else if x == 84 {
            GMSoundSet::Lead5
        } else if x == 85 {
            GMSoundSet::Lead6
        } else if x == 86 {
            GMSoundSet::Lead7
        } else if x == 87 {
            GMSoundSet::Lead8
        } else if x == 88 {
            GMSoundSet::Pad1
        } else if x == 89 {
            GMSoundSet::Pad2
        } else if x == 90 {
            GMSoundSet::Pad3
        } else if x == 91 {
            GMSoundSet::Pad4
        } else if x == 92 {
            GMSoundSet::Pad5
        } else if x == 93 {
            GMSoundSet::Pad6
        } else if x == 94 {
            GMSoundSet::Pad7
        } else if x == 95 {
            GMSoundSet::Pad8
        } else if x == 96 {
            GMSoundSet::FX1
        } else if x == 97 {
            GMSoundSet::FX2
        } else if x == 98 {
            GMSoundSet::FX3
        } else if x == 99 {
            GMSoundSet::FX4
        } else if x == 100 {
            GMSoundSet::FX5
        } else if x == 101 {
            GMSoundSet::FX6
        } else if x == 102 {
            GMSoundSet::FX7
        } else if x == 103 {
            GMSoundSet::FX8
        } else if x == 104 {
            GMSoundSet::Sitar
        } else if x == 105 {
            GMSoundSet::Banjo
        } else if x == 106 {
            GMSoundSet::Shamisen
        } else if x == 107 {
            GMSoundSet::Koto
        } else if x == 108 {
            GMSoundSet::Kalimba
        } else if x == 109 {
            GMSoundSet::Bagpipe
        } else if x == 110 {
            GMSoundSet::Fiddle
        } else if x == 111 {
            GMSoundSet::Shanai
        } else if x == 112 {
            GMSoundSet::TinkleBell
        } else if x == 113 {
            GMSoundSet::Agogo
        } else if x == 114 {
            GMSoundSet::SteelDrums
        } else if x == 115 {
            GMSoundSet::Woodblock
        } else if x == 116 {
            GMSoundSet::TaikoDrum
        } else if x == 117 {
            GMSoundSet::MelodicTom
        } else if x == 118 {
            GMSoundSet::SynthDrum
        } else if x == 119 {
            GMSoundSet::ReverseCymbal
        } else if x == 120 {
            GMSoundSet::GuitarFretNoise
        } else if x == 121 {
            GMSoundSet::BreathNoise
        } else if x == 122 {
            GMSoundSet::Seashore
        } else if x == 123 {
            GMSoundSet::BirdTweet
        } else if x == 124 {
            GMSoundSet::TelephoneRing
        } else if x == 125 {
            GMSoundSet::Helicopter
        } else if x == 126 {
            GMSoundSet::Applause
        } else {
            GMSoundSet::Gunshot
        }
    }

    /// Each sound is the one its number gives.
    pub proof fn lemma_from_to_number(x: GMSoundSet)
        ensures
            GMSoundSet::spec_from_number(x.spec_to_u8()) == x,
    {
    }

    fn from_number(x: u8) -> (r: GMSoundSet)
        requires
            0 <= x < 128,
        ensures
            r.spec_to_u8() == x,
            r == GMSoundSet::spec_from_number(x),
    {
        if x == 0 {
            GMSoundSet::AcousticGrandPiano
        } else if x == 1 {
            GMSoundSet::BrightAcousticPiano
        } else if x == 2 {
            GMSoundSet::ElectricGrandPiano
        } else if x == 3 {
            GMSoundSet::HonkytonkPiano
        } else if x == 4 {
            GMSoundSet::ElectricPiano1
        } else if x == 5 {
            GMSoundSet::ElectricPiano2
        } else if x == 6 {
            GMSoundSet::Harpsichord
        } else if x == 7 {
            GMSoundSet::Clavi
        } else if x == 8 {
            GMSoundSet::Celesta
        } else if x == 9 {
            GMSoundSet::Glockenspiel
        } else if x == 10 {
            GMSoundSet::MusicBox
        } else if x == 11 {
            GMSoundSet::Vibraphone
        } else if x == 12 {
            GMSoundSet::Marimba
        } else if x == 13 {
            GMSoundSet::Xylophone
        } else if x == 14 {
            GMSoundSet::TubularBells
        } else if x == 15 {
            GMSoundSet::Dulcimer
        } else if x == 16 {
            GMSoundSet::DrawbarOrgan
        } else if x == 17 {
            GMSoundSet::PercussiveOrgan
        } else if x == 18 {
            GMSoundSet::RockOrgan
        } else if x == 19 {
            GMSoundSet::ChurchOrgan
        } else if x == 20 {
            GMSoundSet::ReedOrgan
        } else if x == 21 {
            GMSoundSet::Accordion
        } else if x == 22 {
            GMSoundSet::Harmonica
        } else if x == 23 {
            GMSoundSet::TangoAccordion
        } else if x == 24 {
            GMSoundSet::AcousticGuitarNylon
        } else if x == 25 {
            GMSoundSet::AcousticGuitarSteel
        } else if x == 26 {
            GMSoundSet::ElectricGuitarJazz
        } else if x == 27 {
            GMSoundSet::ElectricGuitarClean
        } else if x == 28 {
            GMSoundSet::ElectricGuitarMuted
        } else if x == 29 {
            GMSoundSet::OverdrivenGuitar
        } else if x == 30 {
            GMSoundSet::DistortionGuitar
        } else if x == 31 {
            GMSoundSet::GuitarHarmonics
        } else if x == 32 {
            GMSoundSet::AcousticBass
        } else if x == 33 {
            GMSoundSet::ElectricBassFinger
        } else if x == 34 {
            GMSoundSet::ElectricBassPick
        } else if x == 35 {
            GMSoundSet::FretlessBass
        } else if x == 36 {
            GMSoundSet::SlapBass1
        } else if x == 37 {
            GMSoundSet::SlapBass2
        } else if x == 38 {
            GMSoundSet::SynthBass1
        } else if x == 39 {
            GMSoundSet::SynthBass2
        } else if x == 40 {
            GMSoundSet::Violin
        } else if x == 41 {
            GMSoundSet::Viola
        } else if x == 42 {
            GMSoundSet::Cello
        } else if x == 43 {
            GMSoundSet::Contrabass
        } else if x == 44 {
            GMSoundSet::TremoloStrings
        } else if x == 45 {
            GMSoundSet::PizzicatoStrings
        } else if x == 46 {
            GMSoundSet::OrchestralHarp
        } else if x == 47 {
            GMSoundSet::Timpani
        } else if x == 48 {
            GMSoundSet::StringEnsemble1
        } else if x == 49 {
            GMSoundSet::StringEnsemble2
        } else if x == 50 {
            GMSoundSet::SynthStrings1
        } else if x == 51 {
            GMSoundSet::SynthStrings2
        } else if x == 52 {
            GMSoundSet::ChoirAahs
        } else if x == 53 {
            GMSoundSet::VoiceOohs
        } else if x == 54 {
            GMSoundSet::SynthVoice
        } else if x == 55 {
            GMSoundSet::OrchestraHit
        } else if x == 56 {
            GMSoundSet::Trumpet
        } else if x == 57 {
            GMSoundSet::Trombone
        } else if x == 58 {
            GMSoundSet::Tuba
        } else if x == 59 {
            GMSoundSet::MutedTrumpet
        } else if x == 60 {
            GMSoundSet::FrenchHorn
        } else if x == 61 {
            GMSoundSet::BrassSection
        } else if x == 62 {
            GMSoundSet::SynthBrass1
        } else if x == 63 {
            GMSoundSet::SynthBrass2
        } else if x == 64 {
            GMSoundSet::SopranoSax
        } else if x == 65 {
            GMSoundSet::AltoSax
        } else if x == 66 {
            GMSoundSet::TenorSax
        } else if x == 67 {
            GMSoundSet::BaritoneSax
        } else if x == 68 {
            GMSoundSet::Oboe
        } else if x == 69 {
            GMSoundSet::EnglishHorn
        } else if x == 70 {
            GMSoundSet::Bassoon
        } else if x == 71 {
            GMSoundSet::Clarinet
        } else if x == 72 {
            GMSoundSet::Piccolo
        } else if x == 73 {
            GMSoundSet::Flute
        } else if x == 74 {
            GMSoundSet::Recorder
        } else if x == 75 {
            GMSoundSet::PanFlute
        } else if x == 76 {
            GMSoundSet::BlownBottle
        } else if x == 77 {
            GMSoundSet::Shakuhachi
        } else if x == 78 {
            GMSoundSet::Whistle
        } else if x == 79 {
            GMSoundSet::Ocarina
        } else if x == 80 {
            GMSoundSet::Lead1
        } else if x == 81 {
            GMSoundSet::Lead2
        } else if x == 82 {
            GMSoundSet::Lead3
        } else if x == 83 {
            GMSoundSet::Lead4
        } else if x == 84 {
            GMSoundSet::Lead5
        } else if x == 85 {
            GMSoundSet::Lead6
        } else if x == 86 {
            GMSoundSet::Lead7
        } else if x == 87 {
            GMSoundSet::Lead8
        } else if x == 88 {
            GMSoundSet::Pad1
        } else if x == 89 {
            GMSoundSet::Pad2
        } else if x == 90 {
            GMSoundSet::Pad3
        } else if x == 91 {
            GMSoundSet::Pad4
        } else if x == 92 {
            GMSoundSet::Pad5
        } else if x == 93 {
            GMSoundSet::Pad6
        } else if x == 94 {
            GMSoundSet::Pad7
        } else if x == 95 {
            GMSoundSet::Pad8
        } else if x == 96 {
            GMSoundSet::FX1
        } else if x == 97 {
            GMSoundSet::FX2
        } else if x == 98 {
            GMSoundSet::FX3
        } else if x == 99 {
            GMSoundSet::FX4
        } else if x == 100 {
            GMSoundSet::FX5
        } else if x == 101 {
            GMSoundSet::FX6
        } else if x == 102 {
            GMSoundSet::FX7
        } else if x == 103 {
            GMSoundSet::FX8
        } else if x == 104 {
            GMSoundSet::Sitar
        } else if x == 105 {
            GMSoundSet::Banjo
        } else if x == 106 {
            GMSoundSet::Shamisen
        } else if x == 107 {
            GMSoundSet::Koto
        } else if x == 108 {
            GMSoundSet::Kalimba
        } else if x == 109 {
            GMSoundSet::Bagpipe
        } else if x == 110 {
            GMSoundSet::Fiddle
        } else if x == 111 {
            GMSoundSet::Shanai
        } else if x == 112 {
            GMSoundSet::TinkleBell
        } else if x == 113 {
            GMSoundSet::Agogo
        } else if x == 114 {
            GMSoundSet::SteelDrums
        } else if x == 115 {
            GMSoundSet::Woodblock
        } else if x == 116 {
            GMSoundSet::TaikoDrum
        } else if x == 117 {
            GMSoundSet::MelodicTom
        } else if x == 118 {
            GMSoundSet::SynthDrum
        } else if x == 119 {
            GMSoundSet::ReverseCymbal
        } else if x == 120 {
            GMSoundSet::GuitarFretNoise
        } else if x == 121 {
            GMSoundSet::BreathNoise
        } else if x == 122 {
            GMSoundSet::Seashore
        } else if x == 123 {
            GMSoundSet::BirdTweet
        } else if x == 124 {
            GMSoundSet::TelephoneRing
        } else if x == 125 {
            GMSoundSet::Helicopter
        } else if x == 126 {
            GMSoundSet::Applause
        } else {
            GMSoundSet::Gunshot
        }
    }

    /// The sound with number `x`, if there is one.
    pub fn from_repr(x: u8) -> (r: Option<GMSoundSet>)
        ensures
            r matches Some(s) ==> s.spec_to_u8() == x,
            r is None <==> !(0 <= x < 128),
    {
        if 0 <= x && x < 128 {
            Some(GMSoundSet::from_number(x))
        } else {
            None
        }
    }

    /// Every sound, in order of number.
    pub fn iter() -> (r: Vec<GMSoundSet>)
        ensures
            r@.len() == 128,
            forall|i: int| 0 <= i < 128 ==> #[trigger] r@[i].spec_to_u8() == i + 0,
            forall|i: int| 0 <= i < 128 ==> #[trigger] r@[i] == GMSoundSet::spec_from_number((i + 0) as u8),
    {
        let mut r: Vec<GMSoundSet> = Vec::new();
        let mut i: u8 = 0;
        while i < 128
            invariant
                i <= 128,
                r@.len() == i,
                forall|j: int| 0 <= j < i ==> #[trigger] r@[j].spec_to_u8() == j + 0,
                forall|j: int| 0 <= j < i ==> #[trigger] r@[j] == GMSoundSet::spec_from_number((j + 0) as u8),
            decreases 128 - i,
        {
            r.push(GMSoundSet::from_number(i + 0));
            i = i + 1;
        }
        r
    }

    /// The sound with the given name, if there is one.
    pub fn from_name(s: &str) -> (r: Option<GMSoundSet>)
        ensures
            r matches Some(x) ==> s.spec_bytes() == x.spec_name().spec_bytes(),
            r is None ==> forall|x: GMSoundSet| s.spec_bytes() != #[trigger] x.spec_name().spec_bytes(),
    {
        let b = s.as_bytes();
        let all = GMSoundSet::iter();
        let mut i: usize = 0;
        while i < all.len()
            invariant
                b@ == s.spec_bytes(),
                all@.len() == 128,
                forall|k: int| 0 <= k < 128 ==> #[trigger] all@[k] == GMSoundSet::spec_from_number((k + 0) as u8),
                i <= all@.len(),
                forall|j: int| 0 <= j < i ==> s.spec_bytes() != #[trigger] all@[j].spec_name().spec_bytes(),
            decreases all@.len() - i,
        {
            if bytes_eq(b, all[i].name().as_bytes()) {
                return Some(all[i]);
            }
            i = i + 1;
        }
        assert forall|x: GMSoundSet| s.spec_bytes() != #[trigger] x.spec_name().spec_bytes() by {
            GMSoundSet::lemma_from_to_number(x);
            assert(all@[x.spec_to_u8() - 0] == x);
        }
        None
    }
}

impl std::str::FromStr for GMSoundSet {
    type Err = ParseError;

    fn from_str(s: &str) -> (r: Result<GMSoundSet, ParseError>)
        ensures
            r matches Ok(x) ==> s.spec_bytes() == x.spec_name().spec_bytes(),
            r matches Err(e) ==> e == ParseError::Invalid("Unknown sound name") && forall|x: GMSoundSet|
                s.spec_bytes() != #[trigger] x.spec_name().spec_bytes(),
    {
        match GMSoundSet::from_name(s) {
            Some(x) => Ok(x),
            None => Err(ParseError::Invalid("Unknown sound name")),
        }
    }
}

/// The General MIDI percussion sound to play for a given note number when targeting
/// Channel 10. Use `GMPercussionMap::Sound.to_u8()` as the note number.
///
/// As defined in General MIDI System Level 1 (MMA0007 / RP003).
#[derive(Debug, Clone, Copy, PartialEq, Eq)]
pub enum GMPercussionMap {
    AcousticBassDrum,
    BassDrum1,
    SideStick,
    AcousticSnare,
    HandClap,
    ElectricSnare,
    LowFloorTom,
    ClosedHiHat,
    HighFloorTom,
    PedalHiHat,
    LowTom,
    OpenHiHat,
    LowMidTom,
    HiMidTom,
    CrashCymbal1,
    HighTom,
    RideCymbal1,
    ChineseCymbal,
    RideBell,
    Tambourine,
    SplashCymbal,
    Cowbell,
    CrashCymbal2,
    Vibraslap,
    RideCymbal2,
    HiBongo,
    LowBongo,
    MuteHiConga,
    OpenHiConga,
    LowConga,
    HighTimbale,
    LowTimbale,
    HighAgogo,
    LowAgogo,
    Cabasa,
    Maracas,
    ShortWhistle,
    LongWhistle,
    ShortGuiro,
    LongGuiro,
    Claves,
    HiWoodBlock,
    LowWoodBlock,
    MuteCuica,
    OpenCuica,
    MuteTriangle,
    OpenTriangle,
}

impl GMPercussionMap {
    /// The number of the sound, its note number 35-81.
    pub open spec fn spec_to_u8(self) -> u8 {
        match self {
            GMPercussionMap::AcousticBassDrum => 35,
            GMPercussionMap::BassDrum1 => 36,
            GMPercussionMap::SideStick => 37,
            GMPercussionMap::AcousticSnare => 38,
            GMPercussionMap::HandClap => 39,
            GMPercussionMap::ElectricSnare => 40,
            GMPercussionMap::LowFloorTom => 41,
            GMPercussionMap::ClosedHiHat => 42,
            GMPercussionMap::HighFloorTom => 43,
            GMPercussionMap::PedalHiHat => 44,
            GMPercussionMap::LowTom => 45,
            GMPercussionMap::OpenHiHat => 46,
            GMPercussionMap::LowMidTom => 47,
            GMPercussionMap::HiMidTom => 48,
            GMPercussionMap::CrashCymbal1 => 49,
            GMPercussionMap::HighTom => 50,
            GMPercussionMap::RideCymbal1 => 51,
            GMPercussionMap::ChineseCymbal => 52,
            GMPercussionMap::RideBell => 53,
            GMPercussionMap::Tambourine => 54,
            GMPercussionMap::SplashCymbal => 55,
            GMPercussionMap::Cowbell => 56,
            GMPercussionMap::CrashCymbal2 => 57,
            GMPercussionMap::Vibraslap => 58,
            GMPercussionMap::RideCymbal2 => 59,
            GMPercussionMap::HiBongo => 60,
            GMPercussionMap::LowBongo => 61,
            GMPercussionMap::MuteHiConga => 62,
            GMPercussionMap::OpenHiConga => 63,
            GMPercussionMap::LowConga => 64,
            GMPercussionMap::HighTimbale => 65,
            GMPercussionMap::LowTimbale => 66,
            GMPercussionMap::HighAgogo => 67,
            GMPercussionMap::LowAgogo => 68,
            GMPercussionMap::Cabasa => 69,
            GMPercussionMap::Maracas => 70,
            GMPercussionMap::ShortWhistle => 71,
            GMPercussionMap::LongWhistle => 72,
            GMPercussionMap::ShortGuiro => 73,
            GMPercussionMap::LongGuiro => 74,
            GMPercussionMap::Claves => 75,
            GMPercussionMap::HiWoodBlock => 76,
            GMPercussionMap::LowWoodBlock => 77,
            GMPercussionMap::MuteCuica => 78,
            GMPercussionMap::OpenCuica => 79,
            GMPercussionMap::MuteTriangle => 80,
            GMPercussionMap::OpenTriangle => 81,
        }
    }

    /// The name of the sound.
    pub open spec fn spec_name(self) -> &'static str {
        match self {
            GMPercussionMap::AcousticBassDrum => "AcousticBassDrum",
            GMPercussionMap::BassDrum1 => "BassDrum1",
            GMPercussionMap::SideStick => "SideStick",
            GMPercussionMap::AcousticSnare => "AcousticSnare",
            GMPercussionMap::HandClap => "HandClap",
            GMPercussionMap::ElectricSnare => "ElectricSnare",
            GMPercussionMap::LowFloorTom => "LowFloorTom",
            GMPercussionMap::ClosedHiHat => "ClosedHiHat",
            GMPercussionMap::HighFloorTom => "HighFloorTom",
            GMPercussionMap::PedalHiHat => "PedalHiHat",
            GMPercussionMap::LowTom => "LowTom",
            GMPercussionMap::OpenHiHat => "OpenHiHat",
            GMPercussionMap::LowMidTom => "LowMidTom",
            GMPercussionMap::HiMidTom => "HiMidTom",
            GMPercussionMap::CrashCymbal1 => "CrashCymbal1",
            GMPercussionMap::HighTom => "HighTom",
            GMPercussionMap::RideCymbal1 => "RideCymbal1",
            GMPercussionMap::ChineseCymbal => "ChineseCymbal",
            GMPercussionMap::RideBell => "RideBell",
            GMPercussionMap::Tambourine => "Tambourine",
            GMPercussionMap::SplashCymbal => "SplashCymbal",
            GMPercussionMap::Cowbell => "Cowbell",
            GMPercussionMap::CrashCymbal2 => "CrashCymbal2",
            GMPercussionMap::Vibraslap => "Vibraslap",
            GMPercussionMap::RideCymbal2 => "RideCymbal2",
            GMPercussionMap::HiBongo => "HiBongo",
            GMPercussionMap::LowBongo => "LowBongo",
            GMPercussionMap::MuteHiConga => "MuteHiConga",
            GMPercussionMap::OpenHiConga => "OpenHiConga",
            GMPercussionMap::LowConga => "LowConga",
            GMPercussionMap::HighTimbale => "HighTimbale",
            GMPercussionMap::LowTimbale => "LowTimbale",
            GMPercussionMap::HighAgogo => "HighAgogo",
            GMPercussionMap::LowAgogo => "LowAgogo",
            GMPercussionMap::Cabasa => "Cabasa",
            GMPercussionMap::Maracas => "Maracas",
            GMPercussionMap::ShortWhistle => "ShortWhistle",
            GMPercussionMap::LongWhistle => "LongWhistle",
            GMPercussionMap::ShortGuiro => "ShortGuiro",
            GMPercussionMap::LongGuiro => "LongGuiro",
            GMPercussionMap::Claves => "Claves",
            GMPercussionMap::HiWoodBlock => "HiWoodBlock",
            GMPercussionMap::LowWoodBlock => "LowWoodBlock",
            GMPercussionMap::MuteCuica => "MuteCuica",
            GMPercussionMap::OpenCuica => "OpenCuica",
            GMPercussionMap::MuteTriangle => "MuteTriangle",
            GMPercussionMap::OpenTriangle => "OpenTriangle",
        }
    }

    /// The number of the sound, its note number 35-81.
    pub fn to_u8(&self) -> (r: u8)
        ensures
            r == self.spec_to_u8(),
            35 <= r < 82,
    {
        match self {
            GMPercussionMap::AcousticBassDrum => 35,
            GMPercussionMap::BassDrum1 => 36,
            GMPercussionMap::SideStick => 37,
            GMPercussionMap::AcousticSnare => 38,
            GMPercussionMap::HandClap => 39,
            GMPercussionMap::ElectricSnare => 40,
            GMPercussionMap::LowFloorTom => 41,
            GMPercussionMap::ClosedHiHat => 42,
            GMPercussionMap::HighFloorTom => 43,
            GMPercussionMap::PedalHiHat => 44,
            GMPercussionMap::LowTom => 45,
            GMPercussionMap::OpenHiHat => 46,
            GMPercussionMap::LowMidTom => 47,
            GMPercussionMap::HiMidTom => 48,
            GMPercussionMap::CrashCymbal1 => 49,
            GMPercussionMap::HighTom => 50,
            GMPercussionMap::RideCymbal1 => 51,
            GMPercussionMap::ChineseCymbal => 52,
            GMPercussionMap::RideBell => 53,
            GMPercussionMap::Tambourine => 54,
            GMPercussionMap::SplashCymbal => 55,
            GMPercussionMap::Cowbell => 56,
            GMPercussionMap::CrashCymbal2 => 57,
            GMPercussionMap::Vibraslap => 58,
            GMPercussionMap::RideCymbal2 => 59,
            GMPercussionMap::HiBongo => 60,
            GMPercussionMap::LowBongo => 61,
            GMPercussionMap::MuteHiConga => 62,
            GMPercussionMap::OpenHiConga => 63,
            GMPercussionMap::LowConga => 64,
            GMPercussionMap::HighTimbale => 65,
            GMPercussionMap::LowTimbale => 66,
            GMPercussionMap::HighAgogo => 67,
            GMPercussionMap::LowAgogo => 68,
            GMPercussionMap::Cabasa => 69,
            GMPercussionMap::Maracas => 70,
            GMPercussionMap::ShortWhistle => 71,
            GMPercussionMap::LongWhistle => 72,
            GMPercussionMap::ShortGuiro => 73,
            GMPercussionMap::LongGuiro => 74,
            GMPercussionMap::Claves => 75,
            GMPercussionMap::HiWoodBlock => 76,
            GMPercussionMap::LowWoodBlock => 77,
            GMPercussionMap::MuteCuica => 78,
            GMPercussionMap::OpenCuica => 79,
            GMPercussionMap::MuteTriangle => 80,
            GMPercussionMap::OpenTriangle => 81,
        }
    }

    /// The name of the sound.
    pub fn name(&self) -> (r: &'static str)
        ensures
            r == self.spec_name(),
    {
        match self {
            GMPercussionMap::AcousticBassDrum => "AcousticBassDrum",
            GMPercussionMap::BassDrum1 => "BassDrum1",
            GMPercussionMap::SideStick => "SideStick",
            GMPercussionMap::AcousticSnare => "AcousticSnare",
            GMPercussionMap::HandClap => "HandClap",
            GMPercussionMap::ElectricSnare => "ElectricSnare",
            GMPercussionMap::LowFloorTom => "LowFloorTom",
            GMPercussionMap::ClosedHiHat => "ClosedHiHat",
            GMPercussionMap::HighFloorTom => "HighFloorTom",
            GMPercussionMap::PedalHiHat => "PedalHiHat",
            GMPercussionMap::LowTom => "LowTom",
            GMPercussionMap::OpenHiHat => "OpenHiHat",
            GMPercussionMap::LowMidTom => "LowMidTom",
            GMPercussionMap::HiMidTom => "HiMidTom",
            GMPercussionMap::CrashCymbal1 => "CrashCymbal1",
            GMPercussionMap::HighTom => "HighTom",
            GMPercussionMap::RideCymbal1 => "RideCymbal1",
            GMPercussionMap::ChineseCymbal => "ChineseCymbal",
            GMPercussionMap::RideBell => "RideBell",
            GMPercussionMap::Tambourine => "Tambourine",
            GMPercussionMap::SplashCymbal => "SplashCymbal",
            GMPercussionMap::Cowbell => "Cowbell",
            GMPercussionMap::CrashCymbal2 => "CrashCymbal2",
            GMPercussionMap::Vibraslap => "Vibraslap",
            GMPercussionMap::RideCymbal2 => "RideCymbal2",
            GMPercussionMap::HiBongo => "HiBongo",
            GMPercussionMap::LowBongo => "LowBongo",
            GMPercussionMap::MuteHiConga => "MuteHiConga",
            GMPercussionMap::OpenHiConga => "OpenHiConga",
            GMPercussionMap::LowConga => "LowConga",
            GMPercussionMap::HighTimbale => "HighTimbale",
            GMPercussionMap::LowTimbale => "LowTimbale",
            GMPercussionMap::HighAgogo => "HighAgogo",
            GMPercussionMap::LowAgogo => "LowAgogo",
            GMPercussionMap::Cabasa => "Cabasa",
            GMPercussionMap::Maracas => "Maracas",
            GMPercussionMap::ShortWhistle => "ShortWhistle",
            GMPercussionMap::LongWhistle => "LongWhistle",
            GMPercussionMap::ShortGuiro => "ShortGuiro",
            GMPercussionMap::LongGuiro => "LongGuiro",
            GMPercussionMap::Claves => "Claves",
            GMPercussionMap::HiWoodBlock => "HiWoodBlock",
            GMPercussionMap::LowWoodBlock => "LowWoodBlock",
            GMPercussionMap::MuteCuica => "MuteCuica",
            GMPercussionMap::OpenCuica => "OpenCuica",
            GMPercussionMap::MuteTriangle => "MuteTriangle",
            GMPercussionMap::OpenTriangle => "OpenTriangle",
        }
    }

    /// The name of the sound, as an owned string.
    pub fn to_string(&self) -> (r: String)
        ensures
            r@ == self.spec_name()@,
    {
        self.name().to_owned()
    }

    /// The sound with number `x`, the last one above the range.
    pub open spec fn spec_from_number(x: u8) -> GMPercussionMap {
        if x == 35 {
            GMPercussionMap::AcousticBassDrum
        } else if x == 36 {
            GMPercussionMap::BassDrum1
        } else if x == 37 {
            GMPercussionMap::SideStick
        } else if x == 38 {
            GMPercussionMap::AcousticSnare
        } else if x == 39 {
            GMPercussionMap::HandClap
        } else if x == 40 {
            GMPercussionMap::ElectricSnare
        } else if x == 41 {
            GMPercussionMap::LowFloorTom
        } else if x == 42 {
            GMPercussionMap::ClosedHiHat
        } else if x == 43 {
            GMPercussionMap::HighFloorTom
        } else if x == 44 {
            GMPercussionMap::PedalHiHat
        } else if x == 45 {
            GMPercussionMap::LowTom
        } else if x == 46 {
            GMPercussionMap::OpenHiHat
        } else if x == 47 {
            GMPercussionMap::LowMidTom
        } else if x == 48 {
            GMPercussionMap::HiMidTom
        } else if x == 49 {
            GMPercussionMap::CrashCymbal1
        } else if x == 50 {
            GMPercussionMap::HighTom
        } else if x == 51 {
            GMPercussionMap::RideCymbal1
        } else if x == 52 {
            GMPercussionMap::ChineseCymbal
        } else if x == 53 {
            GMPercussionMap::RideBell
        } else if x == 54 {
            GMPercussionMap::Tambourine
        } else if x == 55 {
            GMPercussionMap::SplashCymbal
        } else if x == 56 {
            GMPercussionMap::Cowbell
        } else if x == 57 {
            GMPercussionMap::CrashCymbal2
        } else if x == 58 {
            GMPercussionMap::Vibraslap
        } else if x == 59 {
            GMPercussionMap::RideCymbal2
        } else if x == 60 {
            GMPercussionMap::HiBongo
        } else if x == 61 {
            GMPercussionMap::LowBongo
        } else if x == 62 {
            GMPercussionMap::MuteHiConga
        } else if x == 63 {
            GMPercussionMap::OpenHiConga
        } else if x == 64 {
            GMPercussionMap::LowConga
        } else if x == 65 {
            GMPercussionMap::HighTimbale
        } else if x == 66 {
            GMPercussionMap::LowTimbale
        } else if x == 67 {
            GMPercussionMap::HighAgogo
        } else if x == 68 {
            GMPercussionMap::LowAgogo
        } else if x == 69 {
            GMPercussionMap::Cabasa
        } else if x == 70 {
            GMPercussionMap::Maracas
        } else if x == 71 {
            GMPercussionMap::ShortWhistle
        } else if x == 72 {
            GMPercussionMap::LongWhistle
        } else if x == 73 {
            GMPercussionMap::ShortGuiro
        } else if x == 74 {
            GMPercussionMap::LongGuiro
        } else if x == 75 {
            GMPercussionMap::Claves
        } else if x == 76 {
            GMPercussionMap::HiWoodBlock
        } else if x == 77 {
            GMPercussionMap::LowWoodBlock
        } else if x == 78 {
            GMPercussionMap::MuteCuica
        } else if x == 79 {
            GMPercussionMap::OpenCuica
        } else if x == 80 {
            GMPercussionMap::MuteTriangle
        } else {
            GMPercussionMap::OpenTriangle
        }
    }

    /// Each sound is the one its number gives.
    pub proof fn lemma_from_to_number(x: GMPercussionMap)
        ensures
            GMPercussionMap::spec_from_number(x.spec_to_u8()) == x,
    {
    }

    fn from_number(x: u8) -> (r: GMPercussionMap)
        requires
            35 <= x < 82,
        ensures
            r.spec_to_u8() == x,
            r == GMPercussionMap::spec_from_number(x),
    {
        if x == 35 {
            GMPercussionMap::AcousticBassDrum
        } else if x == 36 {
            GMPercussionMap::BassDrum1
        } else if x == 37 {
            GMPercussionMap::SideStick
        } else if x == 38 {
            GMPercussionMap::AcousticSnare
        } else if x == 39 {
            GMPercussionMap::HandClap
        } else if x == 40 {
            GMPercussionMap::ElectricSnare
        } else if x == 41 {
            GMPercussionMap::LowFloorTom
        } else if x == 42 {
            GMPercussionMap::ClosedHiHat
        } else if x == 43 {
            GMPercussionMap::HighFloorTom
        } else if x == 44 {
            GMPercussionMap::PedalHiHat
        } else if x == 45 {
            GMPercussionMap::LowTom
        } else if x == 46 {
            GMPercussionMap::OpenHiHat
        } else if x == 47 {
            GMPercussionMap::LowMidTom
        } else if x == 48 {
            GMPercussionMap::HiMidTom
        } else if x == 49 {
            GMPercussionMap::CrashCymbal1
        } else if x == 50 {
            GMPercussionMap::HighTom
        } else if x == 51 {
            GMPercussionMap::RideCymbal1
        } else if x == 52 {
            GMPercussionMap::ChineseCymbal
        } else if x == 53 {
            GMPercussionMap::RideBell
        } else if x == 54 {
            GMPercussionMap::Tambourine
        } else if x == 55 {
            GMPercussionMap::SplashCymbal
        } else if x == 56 {
            GMPercussionMap::Cowbell
        } else if x == 57 {
            GMPercussionMap::CrashCymbal2
        } else if x == 58 {
            GMPercussionMap::Vibraslap
        } else if x == 59 {
            GMPercussionMap::RideCymbal2
        } else if x == 60 {
            GMPercussionMap::HiBongo
        } else if x == 61 {
            GMPercussionMap::LowBongo
        } else if x == 62 {
            GMPercussionMap::MuteHiConga
        } else if x == 63 {
            GMPercussionMap::OpenHiConga
        } else if x == 64 {
            GMPercussionMap::LowConga
        } else if x == 65 {
            GMPercussionMap::HighTimbale
        } else if x == 66 {
            GMPercussionMap::LowTimbale
        } else if x == 67 {
            GMPercussionMap::HighAgogo
        } else if x == 68 {
            GMPercussionMap::LowAgogo
        } else if x == 69 {
            GMPercussionMap::Cabasa
        } else if x == 70 {
            GMPercussionMap::Maracas
        } else if x == 71 {
            GMPercussionMap::ShortWhistle
        } else if x == 72 {
            GMPercussionMap::LongWhistle
        } else if x == 73 {
            GMPercussionMap::ShortGuiro
        } else if x == 74 {
            GMPercussionMap::LongGuiro
        } else if x == 75 {
            GMPercussionMap::Claves
        } else if x == 76 {
            GMPercussionMap::HiWoodBlock
        } else if x == 77 {
            GMPercussionMap::LowWoodBlock
        } else if x == 78 {
            GMPercussionMap::MuteCuica
        } else if x == 79 {
            GMPercussionMap::OpenCuica
        } else if x == 80 {
            GMPercussionMap::MuteTriangle
        } else {
            GMPercussionMap::OpenTriangle
        }
    }

    /// The sound with number `x`, if there is one.
    pub fn from_repr(x: u8) -> (r: Option<GMPercussionMap>)
        ensures
            r matches Some(s) ==> s.spec_to_u8() == x,
            r is None <==> !(35 <= x < 82),
    {
        if 35 <= x && x < 82 {
            Some(GMPercussionMap::from_number(x))
        } else {
            None
        }
    }

    /// Every sound, in order of number.
    pub fn iter() -> (r: Vec<GMPercussionMap>)
        ensures
            r@.len() == 47,
            forall|i: int| 0 <= i < 47 ==> #[trigger] r@[i].spec_to_u8() == i + 35,
            forall|i: int| 0 <= i < 47 ==> #[trigger] r@[i] == GMPercussionMap::spec_from_number((i + 35) as u8),
    {
        let mut r: Vec<GMPercussionMap> = Vec::new();
        let mut i: u8 = 0;
        while i < 47
            invariant
                i <= 47,
                r@.len() == i,
                forall|j: int| 0 <= j < i ==> #[trigger] r@[j].spec_to_u8() == j + 35,
                forall|j: int| 0 <= j < i ==> #[trigger] r@[j] == GMPercussionMap::spec_from_number((j + 35) as u8),
            decreases 47 - i,
        {
            r.push(GMPercussionMap::from_number(i + 35));
            i = i + 1;
        }
        r
    }

    /// The sound with the given name, if there is one.
    pub fn from_name(s: &str) -> (r: Option<GMPercussionMap>)
        ensures
            r matches Some(x) ==> s.spec_bytes() == x.spec_name().spec_bytes(),
            r is None ==> forall|x: GMPercussionMap| s.spec_bytes() != #[trigger] x.spec_name().spec_bytes(),
    {
        let b = s.as_bytes();
        let all = GMPercussionMap::iter();
        let mut i: usize = 0;
        while i < all.len()
            invariant
                b@ == s.spec_bytes(),
                all@.len() == 47,
                forall|k: int| 0 <= k < 47 ==> #[trigger] all@[k] == GMPercussionMap::spec_from_number((k + 35) as u8),
                i <= all@.len(),
                forall|j: int| 0 <= j < i ==> s.spec_bytes() != #[trigger] all@[j].spec_name().spec_bytes(),
            decreases all@.len() - i,
        {
            if bytes_eq(b, all[i].name().as_bytes()) {
                return Some(all[i]);
            }
            i = i + 1;
        }
        assert forall|x: GMPercussionMap| s.spec_bytes() != #[trigger] x.spec_name().spec_bytes() by {
            GMPercussionMap::lemma_from_to_number(x);
            assert(all@[x.spec_to_u8() - 35] == x);
        }
        None
    }
}

impl std::str::FromStr for GMPercussionMap {
    type Err = ParseError;

    fn from_str(s: &str) -> (r: Result<GMPercussionMap, ParseError>)
        ensures
            r matches Ok(x) ==> s.spec_bytes() == x.spec_name().spec_bytes(),
            r matches Err(e) ==> e == ParseError::Invalid("Unknown sound name") && forall|x: GMPercussionMap|
                s.spec_bytes() != #[trigger] x.spec_name().spec_bytes(),
    {
        match GMPercussionMap::from_name(s) {
            Some(x) => Ok(x),
            None => Err(ParseError::Invalid("Unknown sound name")),
        }
    }
}

} // verus!
