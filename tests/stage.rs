use windwaker::memory::MemoryError;
use windwaker::stage::{Caves, Interiors, NextStageName, Sea, StageId, StageName};

#[test]
fn decode_coded_bytes() {
    let expected = [
        StageId::Sea(Sea::Overworld),
        StageId::Sea(Sea::Alt),
        StageId::ForsakenFortress,
        StageId::DragonRoostCavern,
        StageId::ForbiddenWoods,
        StageId::TowerOfTheGods,
        StageId::EarthTemple,
        StageId::WindTemple,
        StageId::GanonsTower,
        StageId::Hyrule,
        StageId::Interiors(Interiors::Ships),
        StageId::Interiors(Interiors::Houses),
        StageId::Caves(Caves::Interiors),
        StageId::Caves(Caves::Alt),
    ];
    for (code, stage) in expected.iter().enumerate() {
        assert_eq!(StageId::new(code as u8), *stage);
    }
}

#[test]
fn decode_other_bytes_unknown() {
    for code in 14..=255u8 {
        assert_eq!(StageId::new(code), StageId::Unknown);
    }
}

#[test]
fn stage_default_is_unknown() {
    assert_eq!(StageId::default(), StageId::Unknown);
}

#[test]
fn stage_names() {
    assert_eq!(StageId::Sea(Sea::Overworld).name(), "Overworld");
    assert_eq!(StageId::Sea(Sea::Alt).name(), "Overworld (alt)");
    assert_eq!(StageId::Caves(Caves::Interiors).name(), "Caves (interior)");
    assert_eq!(StageId::TestMaps.name(), "Test Maps");
    assert_eq!(StageId::Unknown.name(), "Unknown");
}

#[test]
fn stage_read_decodes_or_keeps() {
    let mut stage = StageId::Hyrule;
    assert_eq!(stage.read(Ok(0)), Ok(StageId::Sea(Sea::Overworld)));
    assert_eq!(stage, StageId::Sea(Sea::Overworld));
    assert_eq!(stage.read(Err(MemoryError)), Err(MemoryError));
    assert_eq!(stage, StageId::Sea(Sea::Overworld));
}

#[test]
fn stage_name_read_trims_nul_padding() {
    let mut name = StageName::new("old");
    let got = name.read(Ok(String::from("sea\0\0\0\0\0"))).unwrap();
    assert_eq!(got.as_string(), "sea");
    assert_eq!(name.as_string(), "sea");
    assert!(name.read(Err(MemoryError)).is_err());
    assert_eq!(name.as_string(), "sea");
}

#[test]
fn next_stage_name_read_trims_both_ends() {
    let mut name = NextStageName::new("");
    let got = name.read(Ok(String::from("\0M_Dra09\0"))).unwrap();
    assert_eq!(got.as_string(), "M_Dra09");
    assert_eq!(name.as_string(), "M_Dra09");
}
