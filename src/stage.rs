use vstd::prelude::*;

use crate::memory::{settle_text, strip_nul, MemoryError};

verus! {

/// Console address of the byte that identifies the current stage.
pub const STAGE_ID: usize = 0x803C53A4;

/// Console address of the current stage name (8 bytes).
pub const STAGE_NAME: usize = 0x803C9D3C;

/// Console address of the name of the stage the player is about to enter (8 bytes).
pub const NEXT_STAGE_NAME: usize = 0x803C9D48;

/// Length in bytes of a stage name buffer.
pub const STAGE_NAME_LEN: usize = 8;

#[derive(Debug, Clone, Copy, PartialEq, Eq, Structural)]
pub enum Interiors {
    Ships,
    Houses,
}

#[derive(Debug, Clone, Copy, PartialEq, Eq, Structural)]
pub enum Sea {
    Overworld,
    Alt,
}

#[derive(Debug, Clone, Copy, PartialEq, Eq, Structural)]
pub enum Caves {
    Interiors,
    Alt,
}

/// Where the player is, at the coarse level the stage byte gives.
#[derive(Debug, Clone, Copy, PartialEq, Eq, Structural)]
pub enum StageId {
    Sea(Sea),
    ForsakenFortress,
    DragonRoostCavern,
    ForbiddenWoods,
    TowerOfTheGods,
    EarthTemple,
    WindTemple,
    GanonsTower,
    Hyrule,
    Interiors(Interiors),
    Caves(Caves),
    TestMaps,
    Unknown,
}

/// The stages that codes `0..14` stand for, in code order.
pub open spec fn coded_stages() -> Seq<StageId> {
    seq![
        StageId::Sea(Sea::Overworld),
        StageId::Sea(Sea::Alt),
        StageId::ForsakenFortress,
        StageId::DragonRoostCavern,
        StageId::ForbiddenWoods,
        StageId::TowerOfTheGods,
        StageId::EarthTemple,
        StageId::WindTemple,
        StageId::GanonsTower,
        StageId::Hyrule,
        StageId::Interiors(Interiors::Ships),
        StageId::Interiors(Interiors::Houses),
        StageId::Caves(Caves::Interiors),
        StageId::Caves(Caves::Alt),
    ]
}

/// The stage a code stands for: one of the coded stages, else `Unknown`.
pub open spec fn decode(code: u8) -> StageId {
    if (code as int) < coded_stages().len() {
        coded_stages()[code as int]
    } else {
        StageId::Unknown
    }
}

/// The name shown for a stage.
pub open spec fn stage_name(s: StageId) -> Seq<char> {
    match s {
        StageId::Sea(Sea::Overworld) => "Overworld"@,
        StageId::Sea(Sea::Alt) => "Overworld (alt)"@,
        StageId::ForsakenFortress => "Forsaken Fortress"@,
        StageId::DragonRoostCavern => "Dragon Roost Cavern"@,
        StageId::ForbiddenWoods => "Forbidden Woods"@,
        StageId::TowerOfTheGods => "Tower of the Gods"@,
        StageId::EarthTemple => "Earth Temple"@,
        StageId::WindTemple => "Wind Temple"@,
        StageId::GanonsTower => "Ganons Tower"@,
        StageId::Hyrule => "Hyrule"@,
        StageId::Interiors(Interiors::Houses) => "Interiors (houses)"@,
        StageId::Interiors(Interiors::Ships) => "Interiors (ships)"@,
        StageId::Caves(Caves::Interiors) => "Caves (interior)"@,
        StageId::Caves(Caves::Alt) => "Caves (alt)"@,
        StageId::TestMaps => "Test Maps"@,
        StageId::Unknown => "Unknown"@,
    }
}

impl StageId {
    /// Decodes a stage byte. Every byte gives exactly one stage; codes past
    /// the coded range, the reserved code 14 among them, give `Unknown`.
    pub fn new(id: u8) -> (r: Self)
        ensures
            r == decode(id),
            id < 14 ==> r == coded_stages()[id as int],
            id >= 14 ==> r == StageId::Unknown,
    {
        match id {
            0x0 => Self::Sea(Sea::Overworld),
            0x1 => Self::Sea(Sea::Alt),
            0x2 => Self::ForsakenFortress,
            0x3 => Self::DragonRoostCavern,
            0x4 => Self::ForbiddenWoods,
            0x5 => Self::TowerOfTheGods,
            0x6 => Self::EarthTemple,
            0x7 => Self::WindTemple,
            0x8 => Self::GanonsTower,
            0x9 => Self::Hyrule,
            0xA => Self::Interiors(Interiors::Ships),
            0xB => Self::Interiors(Interiors::Houses),
            0xC => Self::Caves(Caves::Interiors),
            0xD => Self::Caves(Caves::Alt),
            // reserved: kept apart from the catch-all so that it can gain a
            // meaning of its own later
            0xE => Self::Unknown,
            _ => Self::Unknown,
        }
    }

    /// Takes in what a read of the stage byte gave: on success the decoded
    /// stage replaces this one and is handed back; a failure is handed back
    /// with this stage untouched.
    pub fn read(&mut self, raw: Result<u8, MemoryError>) -> (r: Result<StageId, MemoryError>)
        ensures
            raw is Ok ==> *final(self) == decode(raw->Ok_0) && r == Ok::<StageId, MemoryError>(
                *final(self),
            ),
            raw is Err ==> *final(self) == *old(self) && r == Err::<StageId, MemoryError>(
                raw->Err_0,
            ),
    {
        match raw {
            Ok(id) => {
                *self = Self::new(id);
                Ok(*self)
            },
            Err(e) => Err(e),
        }
    }

    /// Whether this is one of the two overworld sea stages, the only ones
    /// laid out on the sea chart.
    pub open spec fn is_sea(self) -> bool {
        self is Sea
    }

    /// The name shown for this stage.
    pub fn name(&self) -> (r: &'static str)
        ensures
            r@ == stage_name(*self),
    {
        match self {
            Self::Sea(sea) => match *sea {
                Sea::Overworld => "Overworld",
                Sea::Alt => "Overworld (alt)",
            },
            Self::ForsakenFortress => "Forsaken Fortress",
            Self::DragonRoostCavern => "Dragon Roost Cavern",
            Self::ForbiddenWoods => "Forbidden Woods",
            Self::TowerOfTheGods => "Tower of the Gods",
            Self::EarthTemple => "Earth Temple",
            Self::WindTemple => "Wind Temple",
            Self::GanonsTower => "Ganons Tower",
            Self::Hyrule => "Hyrule",
            Self::Interiors(interiors) => match *interiors {
                Interiors::Houses => "Interiors (houses)",
                Interiors::Ships => "Interiors (ships)",
            },
            Self::Caves(caves) => match *caves {
                Caves::Interiors => "Caves (interior)",
                Caves::Alt => "Caves (alt)",
            },
            Self::TestMaps => "Test Maps",
            Self::Unknown => "Unknown",
        }
    }
}

impl Default for StageId {
    fn default() -> (r: Self)
        ensures
            r == StageId::Unknown,
    {
        StageId::Unknown
    }
}

/// The name of the current stage, without padding.
#[derive(Debug, Clone, Default)]
pub struct StageName(pub String);

impl StageName {
    pub fn new(raw: &str) -> (r: Self)
        ensures
            r.0@ == raw@,
    {
        StageName(raw.to_owned())
    }

    /// Takes in what a read of the stage name buffer gave; see [`settle_text`].
    pub fn read(&mut self, raw: Result<String, MemoryError>) -> (r: Result<StageName, MemoryError>)
        ensures
            raw is Ok ==> final(self).0@ == strip_nul(raw->Ok_0@) && r is Ok && r->Ok_0.0@
                == final(self).0@,
            raw is Err ==> final(self).0 == old(self).0 && r == Err::<StageName, MemoryError>(
                raw->Err_0,
            ),
    {
        match settle_text(&mut self.0, raw) {
            Ok(text) => Ok(StageName(text)),
            Err(e) => Err(e),
        }
    }

    /// The name as text.
    pub fn as_string(&self) -> (r: String)
        ensures
            r@ == self.0@,
    {
        self.0.clone()
    }
}

/// The name of the stage the player is about to enter, without padding.
#[derive(Debug, Clone, Default)]
pub struct NextStageName(pub String);

impl NextStageName {
    pub fn new(raw: &str) -> (r: Self)
        ensures
            r.0@ == raw@,
    {
        NextStageName(raw.to_owned())
    }

    /// Takes in what a read of the next stage name buffer gave; see
    /// [`settle_text`].
    pub fn read(&mut self, raw: Result<String, MemoryError>) -> (r: Result<NextStageName, MemoryError>)
        ensures
            raw is Ok ==> final(self).0@ == strip_nul(raw->Ok_0@) && r is Ok && r->Ok_0.0@
                == final(self).0@,
            raw is Err ==> final(self).0 == old(self).0 && r == Err::<NextStageName, MemoryError>(
                raw->Err_0,
            ),
    {
        match settle_text(&mut self.0, raw) {
            Ok(text) => Ok(NextStageName(text)),
            Err(e) => Err(e),
        }
    }

    /// The name as text.
    pub fn as_string(&self) -> (r: String)
        ensures
            r@ == self.0@,
    {
        self.0.clone()
    }
}

} // verus!
