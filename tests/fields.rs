use windwaker::gcm::{is_supported_wind_waker, GameId};
use windwaker::input::Inputs;
use windwaker::memory::{settle_text, MemoryError};
use windwaker::player::{Hp, Mp, Rupees};

#[test]
fn game_id_read_trims_padding() {
    let mut id = GameId::new("");
    let got = id.read(Ok(String::from("GZLEO1"))).unwrap();
    assert_eq!(got.as_string(), "GZLEO1");
    let got = id.read(Ok(String::from("\0GZLE99\0"))).unwrap();
    assert_eq!(got.as_string(), "GZLE99");
    assert!(id.read(Err(MemoryError)).is_err());
    assert_eq!(id.as_string(), "GZLE99");
}

#[test]
fn supported_game_ids() {
    assert!(is_supported_wind_waker(&Ok(GameId::new("GZLEO1"))));
    assert!(is_supported_wind_waker(&Ok(GameId::new("GZLE99"))));
    assert!(!is_supported_wind_waker(&Ok(GameId::new("GZLP01"))));
    assert!(!is_supported_wind_waker(&Ok(GameId::new(""))));
    assert!(!is_supported_wind_waker(&Err(MemoryError)));
}

#[test]
fn text_settle_strips_only_the_ends() {
    let mut slot = String::from("x");
    assert_eq!(settle_text(&mut slot, Ok(String::from("\0\0a\0b\0"))), Ok(String::from("a\0b")));
    assert_eq!(slot, "a\0b");
    assert_eq!(settle_text(&mut slot, Ok(String::from("\0\0\0"))), Ok(String::new()));
    assert_eq!(slot, "");
}

#[test]
fn inputs_decode_top_bit() {
    let mut inputs = Inputs::default();
    assert_eq!(inputs.read(Ok(0x8000_0000)).unwrap().dpad_left_just_pressed, true);
    assert_eq!(inputs.read(Ok(0x7FFF_FFFF)).unwrap().dpad_left_just_pressed, false);
    assert!(inputs.read(Ok(0x8000_0000)).is_ok());
    assert!(inputs.read(Err(MemoryError)).is_err());
    assert!(inputs.dpad_left_just_pressed);
}

#[test]
fn rupees_read() {
    let mut rupees = Rupees::new(5);
    assert_eq!(rupees.read(Ok(200)), Ok(Rupees::new(200)));
    assert_eq!(rupees.read(Err(MemoryError)), Err(MemoryError));
    assert_eq!(rupees.count(), 200);
}

#[test]
fn hp_read_stops_at_first_failure() {
    let mut hp = Hp::new(12, 20);
    assert_eq!(hp.read(Err(MemoryError), Ok(40)), Err(MemoryError));
    assert_eq!(hp, Hp::new(12, 20));
    assert_eq!(hp.read(Ok(8), Err(MemoryError)), Err(MemoryError));
    assert_eq!(hp, Hp::new(8, 20));
    assert_eq!(hp.read(Ok(16), Ok(24)), Ok(Hp::new(16, 24)));
}

#[test]
fn mp_read_and_write() {
    let mut mp = Mp::new(0, 0);
    assert_eq!(mp.read(Ok(10), Ok(32)), Ok(Mp::new(10, 32)));
    assert_eq!(mp.write_current(32, Err(MemoryError)), Err(MemoryError));
    assert_eq!(mp, Mp::new(10, 32));
    assert_eq!(mp.write_current(32, Ok(())), Ok(Mp::new(32, 32)));
}
