use vstd::prelude::*;

use crate::player::{Coord, Position};
use crate::stage::StageId;

verus! {

/// Squares along each side of the sea chart.
pub const MAP_CELLS: usize = 7;

/// Lowest world coordinate on the chart, along x and along z.
pub const MAP_MIN: i32 = -350000;

/// Highest world coordinate on the chart, along x and along z.
pub const MAP_MAX: i32 = 350000;

/// Side of one square of the chart, in world units.
pub const QUADRANT_SIZE: i32 = 100000;

/// The named squares of the sea chart, row by row from the north-west
/// corner, and `Unknown` for anywhere else.
#[derive(Debug, Clone, Copy, PartialEq, Eq, Structural)]
pub enum Quadrant {
    // first row
    ForsakenFortress,
    StarIsland,
    NorthernFairyIsland,
    GaleIsle,
    CresentMoonIsland,
    SevenStarIsles,
    OverlookIsland,

    // second row
    FourEyeReef,
    MotherAndChildIsles,
    SpectacleIsland,
    WindfallIsland,
    PawprintIsle,
    DragonRoostIsland,
    FlightControlPlatform,

    // third row
    WesternFairyIsland,
    RockSpireIsle,
    TingleIsland,
    NorthernTriangleIsle,
    EasternFairyIsland,
    FireMountain,
    StarBeltArchipelago,

    // fourth row
    ThreeEyeRoof,
    GreatfishIsle,
    CyclopsReef,
    SixEyeReef,
    TowerOfTheGods,
    EasternTriangleIsland,
    ThornedFairyIsland,

    // fifth row
    NeedleRockIsle,
    IsletOfSteel,
    StoneWatcherIsland,
    SouthernTriangleIsland,
    PrivateOasis,
    BombIsland,
    BirdsPeakRock,

    // sixth row
    DiamondSteppeIsland,
    FiveEyeReef,
    SharkIsland,
    SouthernFairyIsland,
    IceRingIsle,
    ForestHaven,
    CliffPlateauIsles,

    // seventh row
    HorseshoeIsland,
    OutsetIsland,
    HeadstoneIsland,
    TwoEyeReef,
    AngularIsles,
    BoatingCourse,
    FiveStarIsles,

    Unknown,
}

/// The whole chart, row by row from the north-west corner.
pub open spec fn chart() -> Seq<Seq<Quadrant>> {
    seq![
        seq![
            Quadrant::ForsakenFortress,
            Quadrant::StarIsland,
            Quadrant::NorthernFairyIsland,
            Quadrant::GaleIsle,
            Quadrant::CresentMoonIsland,
            Quadrant::SevenStarIsles,
            Quadrant::OverlookIsland,
        ],
        seq![
            Quadrant::FourEyeReef,
            Quadrant::MotherAndChildIsles,
            Quadrant::SpectacleIsland,
            Quadrant::WindfallIsland,
            Quadrant::PawprintIsle,
            Quadrant::DragonRoostIsland,
            Quadrant::FlightControlPlatform,
        ],
        seq![
            Quadrant::WesternFairyIsland,
            Quadrant::RockSpireIsle,
            Quadrant::TingleIsland,
            Quadrant::NorthernTriangleIsle,
            Quadrant::EasternFairyIsland,
            Quadrant::FireMountain,
            Quadrant::StarBeltArchipelago,
        ],
        seq![
            Quadrant::ThreeEyeRoof,
            Quadrant::GreatfishIsle,
            Quadrant::CyclopsReef,
            Quadrant::SixEyeReef,
            Quadrant::TowerOfTheGods,
            Quadrant::EasternTriangleIsland,
            Quadrant::ThornedFairyIsland,
        ],
        seq![
            Quadrant::NeedleRockIsle,
            Quadrant::IsletOfSteel,
            Quadrant::StoneWatcherIsland,
            Quadrant::SouthernTriangleIsland,
            Quadrant::PrivateOasis,
            Quadrant::BombIsland,
            Quadrant::BirdsPeakRock,
        ],
        seq![
            Quadrant::DiamondSteppeIsland,
            Quadrant::FiveEyeReef,
            Quadrant::SharkIsland,
            Quadrant::SouthernFairyIsland,
            Quadrant::IceRingIsle,
            Quadrant::ForestHaven,
            Quadrant::CliffPlateauIsles,
        ],
        seq![
            Quadrant::HorseshoeIsland,
            Quadrant::OutsetIsland,
            Quadrant::HeadstoneIsland,
            Quadrant::TwoEyeReef,
            Quadrant::AngularIsles,
            Quadrant::BoatingCourse,
            Quadrant::FiveStarIsles,
        ],
    ]
}

/// The square at `(row, col)` of the chart; `Unknown` off the 7×7 index space.
pub open spec fn quadrant_at(row: int, col: int) -> Quadrant {
    if 0 <= row < 7 && 0 <= col < 7 {
        chart()[row][col]
    } else {
        Quadrant::Unknown
    }
}

/// The name shown for a square.
pub open spec fn quadrant_name(q: Quadrant) -> Seq<char> {
    match q {
        Quadrant::ForsakenFortress => "Forsaken Fortress"@,
        Quadrant::StarIsland => "Star Island"@,
        Quadrant::NorthernFairyIsland => "Northern Fairy Island"@,
        Quadrant::GaleIsle => "Gale Island"@,
        Quadrant::CresentMoonIsland => "Crescent Moon Island"@,
        Quadrant::SevenStarIsles => "Seven-Star Island"@,
        Quadrant::OverlookIsland => "Overlook Island"@,
        Quadrant::FourEyeReef => "Four-Eye Reef"@,
        Quadrant::MotherAndChildIsles => "Mother & Child Isles"@,
        Quadrant::SpectacleIsland => "Spectacle Island"@,
        Quadrant::WindfallIsland => "Windfall Island"@,
        Quadrant::PawprintIsle => "Pawprint Island"@,
        Quadrant::DragonRoostIsland => "Dragon Roost Island"@,
        Quadrant::FlightControlPlatform => "Flight Control Platform"@,
        Quadrant::WesternFairyIsland => "Western Fairy Island"@,
        Quadrant::RockSpireIsle => "Rock Spire Isle"@,
        Quadrant::TingleIsland => "Tingle Island"@,
        Quadrant::NorthernTriangleIsle => "Northern Triangle Isle"@,
        Quadrant::EasternFairyIsland => "Eastern Fairy Island"@,
        Quadrant::FireMountain => "Fire Mountain"@,
        Quadrant::StarBeltArchipelago => "Star Belt Archipelago"@,
        Quadrant::ThreeEyeRoof => "Three-Eye Reef"@,
        Quadrant::GreatfishIsle => "Greatfish Isle"@,
        Quadrant::CyclopsReef => "Cyclops Reef"@,
        Quadrant::SixEyeReef => "Six-Eye Reef"@,
        Quadrant::TowerOfTheGods => "Tower of the Gods"@,
        Quadrant::EasternTriangleIsland => "Eastern Triangle Island"@,
        Quadrant::ThornedFairyIsland => "Thorned Fairy Island"@,
        Quadrant::NeedleRockIsle => "Needle rock Isle"@,
        Quadrant::IsletOfSteel => "Islet of Steel"@,
        Quadrant::StoneWatcherIsland => "Stone Watcher Island"@,
        Quadrant::SouthernTriangleIsland => "Southern Triangle Island"@,
        Quadrant::PrivateOasis => "Private Oasis"@,
        Quadrant::BombIsland => "Bomb Island"@,
        Quadrant::BirdsPeakRock => "Birds Peak Rock"@,
        Quadrant::DiamondSteppeIsland => "Diamond Steppe Island"@,
        Quadrant::FiveEyeReef => "Five-Eye Reef"@,
        Quadrant::SharkIsland => "Shark Island"@,
        Quadrant::SouthernFairyIsland => "Southern Fairy Island"@,
        Quadrant::IceRingIsle => "Ice Ring Isle"@,
        Quadrant::ForestHaven => "Forest Haven"@,
        Quadrant::CliffPlateauIsles => "Cliff Plateau Isles"@,
        Quadrant::HorseshoeIsland => "Horseshoe Island"@,
        Quadrant::OutsetIsland => "Outset Island"@,
        Quadrant::HeadstoneIsland => "Headstone Island"@,
        Quadrant::TwoEyeReef => "Two-Eye Reef"@,
        Quadrant::AngularIsles => "Angular Isles"@,
        Quadrant::BoatingCourse => "Boating Course"@,
        Quadrant::FiveStarIsles => "Five-Star Isles"@,
        Quadrant::Unknown => "Unknown"@,
    }
}

impl Quadrant {
    /// The square at `(row, col)`; `Unknown` off the chart.
    pub fn new(position: (usize, usize)) -> (r: Self)
        ensures
            r == quadrant_at(position.0 as int, position.1 as int),
    {
        match position {
            // first row
            (0, 0) => Self::ForsakenFortress,
            (0, 1) => Self::StarIsland,
            (0, 2) => Self::NorthernFairyIsland,
            (0, 3) => Self::GaleIsle,
            (0, 4) => Self::CresentMoonIsland,
            (0, 5) => Self::SevenStarIsles,
            (0, 6) => Self::OverlookIsland,

            // second row
            (1, 0) => Self::FourEyeReef,
            (1, 1) => Self::MotherAndChildIsles,
            (1, 2) => Self::SpectacleIsland,
            (1, 3) => Self::WindfallIsland,
            (1, 4) => Self::PawprintIsle,
            (1, 5) => Self::DragonRoostIsland,
            (1, 6) => Self::FlightControlPlatform,

            // third row
            (2, 0) => Self::WesternFairyIsland,
            (2, 1) => Self::RockSpireIsle,
            (2, 2) => Self::TingleIsland,
            (2, 3) => Self::NorthernTriangleIsle,
            (2, 4) => Self::EasternFairyIsland,
            (2, 5) => Self::FireMountain,
            (2, 6) => Self::StarBeltArchipelago,

            // fourth row
            (3, 0) => Self::ThreeEyeRoof,
            (3, 1) => Self::GreatfishIsle,
            (3, 2) => Self::CyclopsReef,
            (3, 3) => Self::SixEyeReef,
            (3, 4) => Self::TowerOfTheGods,
            (3, 5) => Self::EasternTriangleIsland,
            (3, 6) => Self::ThornedFairyIsland,

            // fifth row
            (4, 0) => Self::NeedleRockIsle,
            (4, 1) => Self::IsletOfSteel,
            (4, 2) => Self::StoneWatcherIsland,
            (4, 3) => Self::SouthernTriangleIsland,
            (4, 4) => Self::PrivateOasis,
            (4, 5) => Self::BombIsland,
            (4, 6) => Self::BirdsPeakRock,

            // sixth row
            (5, 0) => Self::DiamondSteppeIsland,
            (5, 1) => Self::FiveEyeReef,
            (5, 2) => Self::SharkIsland,
            (5, 3) => Self::SouthernFairyIsland,
            (5, 4) => Self::IceRingIsle,
            (5, 5) => Self::ForestHaven,
            (5, 6) => Self::CliffPlateauIsles,

            // seventh row
            (6, 0) => Self::HorseshoeIsland,
            (6, 1) => Self::OutsetIsland,
            (6, 2) => Self::HeadstoneIsland,
            (6, 3) => Self::TwoEyeReef,
            (6, 4) => Self::AngularIsles,
            (6, 5) => Self::BoatingCourse,
            (6, 6) => Self::FiveStarIsles,

            _ => Self::Unknown,
        }
    }

    /// The name shown for this square.
    pub fn name(&self) -> (r: &'static str)
        ensures
            r@ == quadrant_name(*self),
    {
        match *self {
            // first row
            Self::ForsakenFortress => "Forsaken Fortress",
            Self::StarIsland => "Star Island",
            Self::NorthernFairyIsland => "Northern Fairy Island",
            Self::GaleIsle => "Gale Island",
            Self::CresentMoonIsland => "Crescent Moon Island",
            Self::SevenStarIsles => "Seven-Star Island",
            Self::OverlookIsland => "Overlook Island",

            // second row
            Self::FourEyeReef => "Four-Eye Reef",
            Self::MotherAndChildIsles => "Mother & Child Isles",
            Self::SpectacleIsland => "Spectacle Island",
            Self::WindfallIsland => "Windfall Island",
            Self::PawprintIsle => "Pawprint Island",
            Self::DragonRoostIsland => "Dragon Roost Island",
            Self::FlightControlPlatform => "Flight Control Platform",

            // third row
            Self::WesternFairyIsland => "Western Fairy Island",
            Self::RockSpireIsle => "Rock Spire Isle",
            Self::TingleIsland => "Tingle Island",
            Self::NorthernTriangleIsle => "Northern Triangle Isle",
            Self::EasternFairyIsland => "Eastern Fairy Island",
            Self::FireMountain => "Fire Mountain",
            Self::StarBeltArchipelago => "Star Belt Archipelago",

            // fourth row
            Self::ThreeEyeRoof => "Three-Eye Reef",
            Self::GreatfishIsle => "Greatfish Isle",
            Self::CyclopsReef => "Cyclops Reef",
            Self::SixEyeReef => "Six-Eye Reef",
            Self::TowerOfTheGods => "Tower of the Gods",
            Self::EasternTriangleIsland => "Eastern Triangle Island",
            Self::ThornedFairyIsland => "Thorned Fairy Island",

            // fifth row
            Self::NeedleRockIsle => "Needle rock Isle",
            Self::IsletOfSteel => "Islet of Steel",
            Self::StoneWatcherIsland => "Stone Watcher Island",
            Self::SouthernTriangleIsland => "Southern Triangle Island",
            Self::PrivateOasis => "Private Oasis",
            Self::BombIsland => "Bomb Island",
            Self::BirdsPeakRock => "Birds Peak Rock",

            // sixth row
            Self::DiamondSteppeIsland => "Diamond Steppe Island",
            Self::FiveEyeReef => "Five-Eye Reef",
            Self::SharkIsland => "Shark Island",
            Self::SouthernFairyIsland => "Southern Fairy Island",
            Self::IceRingIsle => "Ice Ring Isle",
            Self::ForestHaven => "Forest Haven",
            Self::CliffPlateauIsles => "Cliff Plateau Isles",

            // seventh row
            Self::HorseshoeIsland => "Horseshoe Island",
            Self::OutsetIsland => "Outset Island",
            Self::HeadstoneIsland => "Headstone Island",
            Self::TwoEyeReef => "Two-Eye Reef",
            Self::AngularIsles => "Angular Isles",
            Self::BoatingCourse => "Boating Course",
            Self::FiveStarIsles => "Five-Star Isles",

            Self::Unknown => "Unknown",
        }
    }
}
/// Lower edge of band `i` of the chart: column `i` along x, row `i` along z.
pub open spec fn band_lo(i: int) -> int {
    MAP_MIN + i * QUADRANT_SIZE
}

/// Upper edge of band `i` of the chart.
pub open spec fn band_hi(i: int) -> int {
    band_lo(i) + QUADRANT_SIZE
}

/// Both x and z lie within the chart's range, edges included.
pub open spec fn on_chart(p: Position) -> bool {
    &&& p.x.at_least(MAP_MIN as int)
    &&& p.x.at_most(MAP_MAX as int)
    &&& p.z.at_least(MAP_MIN as int)
    &&& p.z.at_most(MAP_MAX as int)
}

/// `p` lies in the closed square at `(row, col)`.
pub open spec fn in_square(p: Position, row: int, col: int) -> bool {
    &&& p.x.at_least(band_lo(col))
    &&& p.x.at_most(band_hi(col))
    &&& p.z.at_least(band_lo(row))
    &&& p.z.at_most(band_hi(row))
}

/// The first square, visiting row-major indices `k`, `k + 1`, ... up to 48,
/// whose closed area holds `p`; `Unknown` if none does. Adjacent squares share
/// their edges, so a point on an edge goes to the lower row, then the lower
/// column.
pub open spec fn first_square_from(p: Position, k: int) -> Quadrant
    decreases 49 - k,
{
    if 0 <= k < 49 {
        if in_square(p, k / 7, k % 7) {
            quadrant_at(k / 7, k % 7)
        } else {
            first_square_from(p, k + 1)
        }
    } else {
        Quadrant::Unknown
    }
}

/// The square of the chart where `p` lies during `stage`: only the sea stages
/// are charted, and only positions on the chart have a square.
pub open spec fn locate(stage: StageId, p: Position) -> Quadrant {
    if !stage.is_sea() {
        Quadrant::Unknown
    } else if !on_chart(p) {
        Quadrant::Unknown
    } else {
        first_square_from(p, 0)
    }
}

/// The area of one square, with the square it belongs to.
#[derive(Debug, Clone, Copy)]
struct Rect {
    quadrant: Quadrant,
    from: (i32, i32),
    to: (i32, i32),
}

/// `r` is the square of row-major index `k`, as (x, z) corners.
spec fn is_rect_of(r: Rect, k: int) -> bool {
    &&& r.quadrant == quadrant_at(k / 7, k % 7)
    &&& r.from.0 == band_lo(k % 7)
    &&& r.from.1 == band_lo(k / 7)
    &&& r.to.0 == band_hi(k % 7)
    &&& r.to.1 == band_hi(k / 7)
}

/// The sea chart: a fixed 7×7 table of squares, built once.
#[derive(Debug)]
pub struct QuadrantGrid {
    grid: Vec<Vec<Quadrant>>,
}

impl QuadrantGrid {
    /// The table of squares, row by row.
    pub closed spec fn cells(self) -> Seq<Seq<Quadrant>> {
        self.grid@.map_values(|line: Vec<Quadrant>| line@)
    }

    #[verifier::type_invariant]
    spec fn is_chart(self) -> bool {
        &&& self.grid@.len() == 7
        &&& forall|row: int| 0 <= row < 7 ==> #[trigger] self.grid@[row]@.len() == 7
        &&& forall|row: int, col: int|
            0 <= row < 7 && 0 <= col < 7 ==> #[trigger] self.grid@[row]@[col] == quadrant_at(row, col)
    }

    /// Builds the chart.
    pub fn new() -> (r: Self)
        ensures
            r.cells() == chart(),
    {
        let mut grid: Vec<Vec<Quadrant>> = Vec::new();
        let mut row: usize = 0;
        while row < MAP_CELLS
            invariant
                row <= 7,
                grid@.len() == row,
                forall|i: int| 0 <= i < row ==> #[trigger] grid@[i]@.len() == 7,
                forall|i: int, j: int|
                    0 <= i < row && 0 <= j < 7 ==> #[trigger] grid@[i]@[j] == quadrant_at(i, j),
            decreases 7 - row,
        {
            let mut line: Vec<Quadrant> = Vec::new();
            let mut col: usize = 0;
            while col < MAP_CELLS
                invariant
                    row < 7,
                    col <= 7,
                    line@.len() == col,
                    forall|j: int| 0 <= j < col ==> #[trigger] line@[j] == quadrant_at(row as int, j),
                decreases 7 - col,
            {
                line.push(Quadrant::new((row, col)));
                col += 1;
            }
            grid.push(line);
            row += 1;
        }
        let r = QuadrantGrid { grid };
        assert(r.cells() =~~= chart());
        r
    }

    /// The square at `(row, col)`; `Unknown` off the chart.
    pub fn quadrant(&self, row: usize, col: usize) -> (r: Quadrant)
        ensures
            r == quadrant_at(row as int, col as int),
            row < 7 && col < 7 ==> r == self.cells()[row as int][col as int],
    {
        proof {
            use_type_invariant(self);
        }
        if row < self.grid.len() && col < self.grid[row].len() {
            self.grid[row][col]
        } else {
            Quadrant::Unknown
        }
    }

    /// The square where `position` lies during `stage_id`; `Unknown` off the
    /// sea stages and off the chart.
    pub fn current_quadrant(&self, stage_id: &StageId, position: &Position) -> (r: Quadrant)
        ensures
            r == locate(*stage_id, *position),
    {
        match stage_id {
            StageId::Sea(_) => {},
            _ => return Quadrant::Unknown,
        }

        if !position.x.is_at_least(MAP_MIN) || !position.x.is_at_most(MAP_MAX)
            || !position.z.is_at_least(MAP_MIN) || !position.z.is_at_most(MAP_MAX) {
            return Quadrant::Unknown;
        }

        let rects = self.quadrant_rects();
        let mut k: usize = 0;
        while k < rects.len()
            invariant
                rects@.len() == 49,
                forall|i: int| 0 <= i < 49 ==> #[trigger] is_rect_of(rects@[i], i),
                k <= 49,
                locate(*stage_id, *position) == first_square_from(*position, 0),
                first_square_from(*position, 0) == first_square_from(*position, k as int),
            decreases 49 - k,
        {
            let rect = rects[k];
            assert(is_rect_of(rects@[k as int], k as int));
            if position.x.is_at_least(rect.from.0) && position.x.is_at_most(rect.to.0)
                && position.z.is_at_least(rect.from.1) && position.z.is_at_most(rect.to.1) {
                return rect.quadrant;
            }
            k += 1;
        }
        Quadrant::Unknown
    }

    /// The 49 squares with their areas, in row-major order.
    fn quadrant_rects(&self) -> (r: Vec<Rect>)
        ensures
            r@.len() == 49,
            forall|k: int| 0 <= k < 49 ==> #[trigger] is_rect_of(r@[k], k),
    {
        proof {
            use_type_invariant(self);
        }
        let mut rects: Vec<Rect> = Vec::new();
        let mut row: usize = 0;
        while row < self.grid.len()
            invariant
                self.grid@.len() == 7,
                forall|i: int| 0 <= i < 7 ==> #[trigger] self.grid@[i]@.len() == 7,
                forall|i: int, j: int|
                    0 <= i < 7 && 0 <= j < 7 ==> #[trigger] self.grid@[i]@[j] == quadrant_at(i, j),
                row <= 7,
                rects@.len() == row * 7,
                forall|k: int| 0 <= k < row * 7 ==> #[trigger] is_rect_of(rects@[k], k),
            decreases 7 - row,
        {
            let line = &self.grid[row];
            let mut col: usize = 0;
            while col < line.len()
                invariant
                    row < 7,
                    line@.len() == 7,
                    forall|j: int| 0 <= j < 7 ==> #[trigger] line@[j] == quadrant_at(row as int, j),
                    col <= 7,
                    rects@.len() == row * 7 + col,
                    forall|k: int| 0 <= k < row * 7 + col ==> #[trigger] is_rect_of(rects@[k], k),
                decreases 7 - col,
            {
                let from = (
                    MAP_MIN + col as i32 * QUADRANT_SIZE,
                    MAP_MIN + row as i32 * QUADRANT_SIZE,
                );
                let to = (from.0 + QUADRANT_SIZE, from.1 + QUADRANT_SIZE);
                let ghost k = row * 7 + col;
                assert(k / 7 == row && k % 7 == col);
                rects.push(Rect { quadrant: line[col], from, to });
                col += 1;
            }
            row += 1;
        }
        rects
    }
}

/// Two builds of the chart assign the same square to every `(row, col)`.
pub proof fn lemma_build_deterministic(a: QuadrantGrid, b: QuadrantGrid)
    requires
        a.cells() == chart(),
        b.cells() == chart(),
    ensures
        a.cells() == b.cells(),
        forall|row: int, col: int|
            0 <= row < 7 && 0 <= col < 7 ==> #[trigger] a.cells()[row][col] == b.cells()[row][col],
{
}

/// Off the sea stages no position has a square, wherever it lies.
pub proof fn lemma_off_sea_unknown(stage: StageId, p: Position)
    requires
        !stage.is_sea(),
    ensures
        locate(stage, p) == Quadrant::Unknown,
{
}

/// Every square of the chart is named.
proof fn lemma_chart_named(row: int, col: int)
    requires
        0 <= row < 7,
        0 <= col < 7,
    ensures
        quadrant_at(row, col) != Quadrant::Unknown,
{
    assert(chart().len() == 7);
    assert(row == 0 || row == 1 || row == 2 || row == 3 || row == 4 || row == 5 || row == 6);
    assert(col == 0 || col == 1 || col == 2 || col == 3 || col == 4 || col == 5 || col == 6);
}

/// The band, of seven, that holds a coordinate within the chart's range.
spec fn band_of(c: Coord) -> int {
    if c.whole >= MAP_MAX {
        6
    } else {
        (c.whole - MAP_MIN) / QUADRANT_SIZE as int
    }
}

proof fn lemma_band_of(c: Coord)
    requires
        c.at_least(MAP_MIN as int),
        c.at_most(MAP_MAX as int),
    ensures
        0 <= band_of(c) < 7,
        c.at_least(band_lo(band_of(c))),
        c.at_most(band_hi(band_of(c))),
{
}

/// The scan from `k` on meets a square whenever one at or after `k` holds `p`.
proof fn lemma_scan_finds(p: Position, k: int, hit: int)
    requires
        0 <= k <= hit < 49,
        in_square(p, hit / 7, hit % 7),
    ensures
        first_square_from(p, k) != Quadrant::Unknown,
    decreases hit - k,
{
    lemma_chart_named(k / 7, k % 7);
    if !in_square(p, k / 7, k % 7) {
        lemma_scan_finds(p, k + 1, hit);
    }
}

/// On a sea stage, every position within the chart's range, edges included,
/// lies in a named square: the scan never runs off its end.
pub proof fn lemma_on_chart_named(stage: StageId, p: Position)
    requires
        stage.is_sea(),
        on_chart(p),
    ensures
        locate(stage, p) != Quadrant::Unknown,
{
    lemma_band_of(p.x);
    lemma_band_of(p.z);
    let row = band_of(p.z);
    let col = band_of(p.x);
    let hit = row * 7 + col;
    assert(hit / 7 == row && hit % 7 == col);
    lemma_scan_finds(p, 0, hit);
}

} // verus!
