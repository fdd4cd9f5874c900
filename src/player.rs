use vstd::prelude::*;

use crate::memory::MemoryError;

verus! {

/// Console address of the rupee count (u16).
pub const RUPEES: usize = 0x803c4c0c;

/// Pointer to the character the player is controlling: Link, Medli, Makar,
/// a tower servant or a seagull, while controlled.
pub const PLAYER_PTR: usize = 0x803ca410;

/// Pointer that always leads to Link.
pub const LINK_PTR: usize = 0x803CA754;

pub const PLAYER_X: usize = 0x803E440C;
pub const PLAYER_Y: usize = 0x803E4410;
pub const PLAYER_Z: usize = 0x803E4414;

/// Offset of the speed within the controlled character.
pub const PLAYER_SPEED_OFFSET: usize = 0x35bc;

pub const PLAYER_SPEED_MAX: usize = 0x8035CEEC;

pub const PLAYER_HP: usize = 0x803C4C0A;
pub const PLAYER_HP_MAX: usize = 0x803C4C08;
pub const PLAYER_MP: usize = 0x803C4C1C;
pub const PLAYER_MP_MAX: usize = 0x803C4C1B;

/// A world coordinate as the sea chart reads it: its whole part, rounded
/// toward negative infinity, and whether a fractional part remains above it.
/// Against any whole-unit boundary it orders exactly as the coordinate does.
#[derive(Debug, Clone, Copy, PartialEq, Eq, Structural)]
pub struct Coord {
    pub whole: i32,
    pub fractional: bool,
}

impl Coord {
    /// The coordinate lies at or below the whole value `k`.
    pub open spec fn at_most(self, k: int) -> bool {
        self.whole < k || (self.whole == k && !self.fractional)
    }

    /// The coordinate lies at or above the whole value `k`.
    pub open spec fn at_least(self, k: int) -> bool {
        self.whole >= k
    }

    pub fn new(whole: i32, fractional: bool) -> (r: Self)
        ensures
            r.whole == whole,
            r.fractional == fractional,
    {
        Coord { whole, fractional }
    }

    /// A coordinate with no fractional part.
    pub fn whole(n: i32) -> (r: Self)
        ensures
            r.whole == n,
            !r.fractional,
    {
        Coord { whole: n, fractional: false }
    }

    pub fn is_at_most(&self, k: i32) -> (r: bool)
        ensures
            r == self.at_most(k as int),
    {
        self.whole < k || (self.whole == k && !self.fractional)
    }

    pub fn is_at_least(&self, k: i32) -> (r: bool)
        ensures
            r == self.at_least(k as int),
    {
        self.whole >= k
    }
}

/// The player's position in the world.
#[derive(Debug, Clone, Copy, PartialEq, Eq, Structural)]
pub struct Position {
    pub x: Coord,
    pub y: Coord,
    pub z: Coord,
}

impl Position {
    pub fn new(x: Coord, y: Coord, z: Coord) -> (r: Self)
        ensures
            r == (Position { x, y, z }),
    {
        Self { x, y, z }
    }
}

/// The rupees in the wallet.
#[derive(Debug, Clone, Copy, Default, PartialEq, Eq, Structural)]
pub struct Rupees(pub u16);

impl Rupees {
    pub fn new(n: u16) -> (r: Self)
        ensures
            r.0 == n,
    {
        Rupees(n)
    }

    /// Takes in what a read of the rupee count gave: on success the count
    /// replaces this one and is handed back; a failure is handed back with the
    /// count untouched.
    pub fn read(&mut self, raw: Result<u16, MemoryError>) -> (r: Result<Rupees, MemoryError>)
        ensures
            raw is Ok ==> final(self).0 == raw->Ok_0 && r == Ok::<Rupees, MemoryError>(*final(self)),
            raw is Err ==> *final(self) == *old(self) && r == Err::<Rupees, MemoryError>(raw->Err_0),
    {
        match raw {
            Ok(n) => {
                self.0 = n;
                Ok(*self)
            },
            Err(e) => Err(e),
        }
    }

    /// The count.
    pub fn count(&self) -> (r: u16)
        ensures
            r == self.0,
    {
        self.0
    }
}

/// Health, current and maximum, in quarter hearts.
#[derive(Debug, Clone, Copy, Default, PartialEq, Eq, Structural)]
pub struct Hp {
    pub current: u16,
    pub max: u16,
}

impl Hp {
    pub fn new(current: u16, max: u16) -> (r: Self)
        ensures
            r == (Hp { current, max }),
    {
        Self { current, max }
    }

    /// Takes in what the reads of the current and the maximum health gave, in
    /// that order. Each value read replaces its own; the first failure is
    /// handed back, and the maximum is kept when the current failed.
    pub fn read(&mut self, current: Result<u16, MemoryError>, max: Result<u16, MemoryError>) -> (r:
        Result<Hp, MemoryError>)
        ensures
            current is Err ==> *final(self) == *old(self) && r == Err::<Hp, MemoryError>(
                current->Err_0,
            ),
            current is Ok && max is Err ==> *final(self) == (Hp {
                current: current->Ok_0,
                max: old(self).max,
            }) && r == Err::<Hp, MemoryError>(max->Err_0),
            current is Ok && max is Ok ==> *final(self) == (Hp {
                current: current->Ok_0,
                max: max->Ok_0,
            }) && r == Ok::<Hp, MemoryError>(*final(self)),
    {
        match current {
            Ok(c) => self.current = c,
            Err(e) => return Err(e),
        }
        match max {
            Ok(m) => self.max = m,
            Err(e) => return Err(e),
        }
        Ok(*self)
    }
}

/// Magic, current and maximum.
#[derive(Debug, Clone, Copy, Default, PartialEq, Eq, Structural)]
pub struct Mp {
    pub current: u8,
    pub max: u8,
}

impl Mp {
    pub fn new(current: u8, max: u8) -> (r: Self)
        ensures
            r == (Mp { current, max }),
    {
        Self { current, max }
    }

    /// Takes in what the reads of the current and the maximum magic gave, in
    /// that order. Each value read replaces its own; the first failure is
    /// handed back, and the maximum is kept when the current failed.
    pub fn read(&mut self, current: Result<u8, MemoryError>, max: Result<u8, MemoryError>) -> (r:
        Result<Mp, MemoryError>)
        ensures
            current is Err ==> *final(self) == *old(self) && r == Err::<Mp, MemoryError>(
                current->Err_0,
            ),
            current is Ok && max is Err ==> *final(self) == (Mp {
                current: current->Ok_0,
                max: old(self).max,
            }) && r == Err::<Mp, MemoryError>(max->Err_0),
            current is Ok && max is Ok ==> *final(self) == (Mp {
                current: current->Ok_0,
                max: max->Ok_0,
            }) && r == Ok::<Mp, MemoryError>(*final(self)),
    {
        match current {
            Ok(c) => self.current = c,
            Err(e) => return Err(e),
        }
        match max {
            Ok(m) => self.max = m,
            Err(e) => return Err(e),
        }
        Ok(*self)
    }

    /// Takes in what a write of `current` as the current magic gave: on
    /// success it becomes the current magic and the new state is handed back;
    /// a failure is handed back with the state untouched.
    pub fn write_current(&mut self, current: u8, outcome: Result<(), MemoryError>) -> (r: Result<
        Mp,
        MemoryError,
    >)
        ensures
            outcome is Ok ==> *final(self) == (Mp { current, max: old(self).max })
                && r == Ok::<Mp, MemoryError>(*final(self)),
            outcome is Err ==> *final(self) == *old(self) && r == Err::<Mp, MemoryError>(
                outcome->Err_0,
            ),
    {
        match outcome {
            Ok(()) => {
                self.current = current;
                Ok(*self)
            },
            Err(e) => Err(e),
        }
    }
}

} // verus!
