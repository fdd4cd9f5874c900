use vstd::prelude::*;

use crate::memory::{settle_text, strip_nul, MemoryError};

verus! {

/// Console address of the disc header, which opens with the game id.
pub const HEADER: usize = 0x80000000;

/// Length in bytes of the game id.
pub const GAME_ID_LEN: usize = 6;

/// Game id of the North American release.
pub const GAME_ID_NA: &'static str = "GZLEO1";

/// Game id of the North American debug build.
pub const GAME_ID_NA_DEBUG: &'static str = "GZLE99";

/// The game ids this library knows the memory layout of.
pub open spec fn is_supported_id(id: Seq<char>) -> bool {
    id == GAME_ID_NA@ || id == GAME_ID_NA_DEBUG@
}

/// The id of the running game, without padding.
#[derive(Debug, Clone, Default)]
pub struct GameId(pub String);

impl GameId {
    pub fn new(raw: &str) -> (r: Self)
        ensures
            r.0@ == raw@,
    {
        GameId(raw.to_owned())
    }

    /// Takes in what a read of the game id buffer gave; see [`settle_text`].
    pub fn read(&mut self, raw: Result<String, MemoryError>) -> (r: Result<GameId, MemoryError>)
        ensures
            raw is Ok ==> final(self).0@ == strip_nul(raw->Ok_0@) && r is Ok && r->Ok_0.0@
                == final(self).0@,
            raw is Err ==> final(self).0 == old(self).0 && r == Err::<GameId, MemoryError>(
                raw->Err_0,
            ),
    {
        match settle_text(&mut self.0, raw) {
            Ok(text) => Ok(GameId(text)),
            Err(e) => Err(e),
        }
    }

    /// The id as text.
    pub fn as_string(&self) -> (r: String)
        ensures
            r@ == self.0@,
    {
        self.0.clone()
    }
}

/// Whether the game id read from the header names a supported release of
/// The Wind Waker; a failed read names none.
pub fn is_supported_wind_waker(game_id: &Result<GameId, MemoryError>) -> (r: bool)
    ensures
        r == (game_id is Ok && is_supported_id(game_id->Ok_0.0@)),
{
    match game_id {
        Ok(id) => id.0.eq(&GAME_ID_NA.to_owned()) || id.0.eq(&GAME_ID_NA_DEBUG.to_owned()),
        Err(_) => false,
    }
}

} // verus!
