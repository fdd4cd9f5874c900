//! A typed view of a running Wind Waker session: memory fields that turn raw
//! reads and writes into domain values, the stage taxonomy decoded from the
//! stage byte, and the sea chart that places a position in one of its 49
//! named squares.

pub mod gcm;
pub mod input;
pub mod memory;
pub mod player;
pub mod stage;
pub mod world;
