use windwaker::player::{Coord, Position};
use windwaker::stage::{Caves, Interiors, Sea, StageId};
use windwaker::world::{Quadrant, QuadrantGrid};

fn at(x: i32, z: i32) -> Position {
    Position::new(Coord::whole(x), Coord::whole(0), Coord::whole(z))
}

#[test]
fn build_is_deterministic() {
    let a = QuadrantGrid::new();
    let b = QuadrantGrid::new();
    for row in 0..7 {
        for col in 0..7 {
            assert_eq!(a.quadrant(row, col), b.quadrant(row, col));
            assert_eq!(a.quadrant(row, col), Quadrant::new((row, col)));
        }
    }
}

#[test]
fn quadrant_table_corners() {
    assert_eq!(Quadrant::new((0, 0)), Quadrant::ForsakenFortress);
    assert_eq!(Quadrant::new((0, 6)), Quadrant::OverlookIsland);
    assert_eq!(Quadrant::new((3, 3)), Quadrant::SixEyeReef);
    assert_eq!(Quadrant::new((6, 0)), Quadrant::HorseshoeIsland);
    assert_eq!(Quadrant::new((6, 6)), Quadrant::FiveStarIsles);
    assert_eq!(Quadrant::new((7, 0)), Quadrant::Unknown);
    assert_eq!(Quadrant::new((0, 7)), Quadrant::Unknown);
}

#[test]
fn quadrant_names() {
    assert_eq!(Quadrant::ForsakenFortress.name(), "Forsaken Fortress");
    assert_eq!(Quadrant::MotherAndChildIsles.name(), "Mother & Child Isles");
    assert_eq!(Quadrant::FiveStarIsles.name(), "Five-Star Isles");
    assert_eq!(Quadrant::Unknown.name(), "Unknown");
}

#[test]
fn corners_of_the_chart() {
    let grid = QuadrantGrid::new();
    let sea = StageId::Sea(Sea::Overworld);
    let first = grid.current_quadrant(&sea, &at(-350000, -350000));
    assert_eq!(first, Quadrant::ForsakenFortress);
    assert_eq!(first.name(), "Forsaken Fortress");
    let last = grid.current_quadrant(&sea, &at(350000, 350000));
    assert_eq!(last, Quadrant::FiveStarIsles);
    assert_eq!(last.name(), "Five-Star Isles");
}

#[test]
fn shared_edge_goes_to_lower_column() {
    let grid = QuadrantGrid::new();
    let sea = StageId::Sea(Sea::Overworld);
    assert_eq!(grid.current_quadrant(&sea, &at(-250000, -350000)), Quadrant::ForsakenFortress);
}

#[test]
fn shared_edge_goes_to_lower_row() {
    let grid = QuadrantGrid::new();
    let sea = StageId::Sea(Sea::Alt);
    assert_eq!(grid.current_quadrant(&sea, &at(-300000, -250000)), Quadrant::ForsakenFortress);
    assert_eq!(grid.current_quadrant(&sea, &at(-250000, -250000)), Quadrant::ForsakenFortress);
}

#[test]
fn fraction_past_an_edge_moves_on() {
    let grid = QuadrantGrid::new();
    let sea = StageId::Sea(Sea::Overworld);
    let just_past = Position::new(Coord::new(-250000, true), Coord::whole(0), Coord::whole(-350000));
    assert_eq!(grid.current_quadrant(&sea, &just_past), Quadrant::StarIsland);
    let just_before = Position::new(Coord::new(-250001, true), Coord::whole(0), Coord::whole(-350000));
    assert_eq!(grid.current_quadrant(&sea, &just_before), Quadrant::ForsakenFortress);
}

#[test]
fn centre_square() {
    let grid = QuadrantGrid::new();
    let sea = StageId::Sea(Sea::Overworld);
    assert_eq!(grid.current_quadrant(&sea, &at(0, 0)), Quadrant::SixEyeReef);
    assert_eq!(grid.current_quadrant(&sea, &at(120000, -160000)), Quadrant::PawprintIsle);
}

#[test]
fn off_sea_stages_are_unknown() {
    let grid = QuadrantGrid::new();
    let stages = [
        StageId::ForsakenFortress,
        StageId::Hyrule,
        StageId::TowerOfTheGods,
        StageId::Interiors(Interiors::Houses),
        StageId::Caves(Caves::Alt),
        StageId::TestMaps,
        StageId::Unknown,
    ];
    for stage in stages.iter() {
        assert_eq!(grid.current_quadrant(stage, &at(0, 0)), Quadrant::Unknown);
        assert_eq!(grid.current_quadrant(stage, &at(-350000, -350000)), Quadrant::Unknown);
    }
}

#[test]
fn off_chart_is_unknown() {
    let grid = QuadrantGrid::new();
    let sea = StageId::Sea(Sea::Alt);
    assert_eq!(grid.current_quadrant(&sea, &at(400000, 0)), Quadrant::Unknown);
    assert_eq!(grid.current_quadrant(&sea, &at(0, -350001)), Quadrant::Unknown);
    let past_edge = Position::new(Coord::new(350000, true), Coord::whole(0), Coord::whole(0));
    assert_eq!(grid.current_quadrant(&sea, &past_edge), Quadrant::Unknown);
}
