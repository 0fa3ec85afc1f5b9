use midi_msg::{GMPercussionMap, GMSoundSet, ParseError};
use std::str::FromStr;

#[test]
fn gm_iter() {
    for (i, inst) in GMSoundSet::iter().into_iter().enumerate() {
        assert_eq!(inst as u8, i as u8);
        assert_eq!(inst.to_u8(), i as u8);
    }
}

#[test]
fn gm_from_string() {
    assert_eq!(GMSoundSet::TenorSax, GMSoundSet::from_str("TenorSax").unwrap());
}

#[test]
fn gm_display() {
    assert_eq!("TenorSax", format!("{}", GMSoundSet::TenorSax.to_string()));
}

#[test]
fn gm_tostring() {
    assert_eq!("TenorSax", GMSoundSet::TenorSax.to_string());
}

#[test]
fn gm_from_u8() {
    let inst: GMSoundSet = GMSoundSet::from_repr(0).unwrap();
    assert_eq!(GMSoundSet::AcousticGrandPiano, inst);

    let inst: GMSoundSet = GMSoundSet::from_repr(127).unwrap();
    assert_eq!(GMSoundSet::Gunshot, inst);
}

#[test]
fn gm_as_u8() {
    assert_eq!(0, GMSoundSet::AcousticGrandPiano as u8);

    assert_eq!(127, GMSoundSet::Gunshot as u8);
}

#[test]
fn percussion_iter() {
    for (i, perc) in GMPercussionMap::iter().into_iter().enumerate() {
        assert_eq!(perc.to_u8(), (i + 35) as u8);
    }
}

#[test]
fn gm_lookups_fail_outside_the_table() {
    assert_eq!(GMSoundSet::from_repr(128), None);
    assert_eq!(GMSoundSet::iter().len(), 128);
    assert_eq!(GMPercussionMap::iter().len(), 47);
    assert_eq!(GMPercussionMap::from_repr(34), None);
    assert_eq!(GMPercussionMap::from_repr(35), Some(GMPercussionMap::AcousticBassDrum));
    assert_eq!(GMPercussionMap::from_repr(81), Some(GMPercussionMap::OpenTriangle));
    assert_eq!(GMPercussionMap::from_repr(82), None);
    assert_eq!(
        GMSoundSet::from_str("NotAnInstrument"),
        Err(ParseError::Invalid("Unknown sound name"))
    );
    assert_eq!(GMPercussionMap::from_str("HighTom"), Ok(GMPercussionMap::HighTom));
    assert_eq!(GMPercussionMap::HighTom.to_string(), "HighTom");
}
