//! Tests of the random-number state machine and its derived draws.

use rpg_growth::rand::{Rng, State};

#[test]
fn test_rand() {
    let mut rng = Rng::default();

    assert_eq!(rng.state(), State::new(0xaae21259));
    assert_eq!(rng.rand(), 0xc7);
    assert_eq!(rng.state(), State::new(0xe21259c7));
}

#[test]
fn test_second_draw_scaled() {
    let mut rng = Rng::default();

    assert_eq!(rng.rand(), 0xc7);
    assert_eq!(rng.rand_by_multiply(16) as u32, 0x0a * 17 / 256);
    assert_eq!(rng.state(), State::new(0x1259c70a));
}

#[test]
fn test_state_format() {
    let rng = Rng::default();

    assert_eq!(rng.state().hex_string(), "0xaae21259");
    assert_eq!(State::new(0x1259).hex_string(), "0x1259");
    assert_eq!(State::new(0).hex_string(), "0x0");
}

#[test]
fn test_rng_clone() {
    let rng = Rng::default();
    let mut rng_tmp = rng.clone();

    assert_eq!(rng_tmp.state(), State::new(0xaae21259));
    rng_tmp.transit();
    assert_eq!(rng_tmp.state(), State::new(0xe21259c7));
    assert_eq!(rng.state(), State::new(0xaae21259));
}

#[test]
fn test_rand_by_multiply() {
    let mut rng = Rng::default();
    let upper: u8 = 16;

    assert_eq!(rng.state(), State::new(0xaae21259));
    assert_eq!(rng.rand_by_multiply(upper), 13_u8);
    assert_eq!(rng.state(), State::new(0xe21259c7));
}

#[test]
fn test_rand_by_mask() {
    let mut rng = Rng::default();
    let mask: u8 = 31;
    let offset: u8 = 136;

    assert_eq!(rng.state(), State::new(0xaae21259));
    assert_eq!(rng.rand_multinomial(offset, mask), 173);
    assert_eq!(rng.state(), State::new(0x593af063));
}

#[test]
fn test_multinomial_checked_bad_mask() {
    let mut rng = Rng::default();

    // a mask of 30 is not of the form 2^k - 1, so the draw is refused
    assert_eq!(rng.rand_multinomial_checked(0, 30), None);
    assert_eq!(rng.state(), State::new(0xaae21259));
    assert_eq!(rng.rand_multinomial_checked(136, 31), Some(173));
    assert_eq!(rng.state(), State::new(0x593af063));
}

#[test]
fn test_set_state_and_init() {
    let mut rng = Rng::default();
    rng.set_state(State::new(0xdeadbeef));
    assert_eq!(rng.state(), State::new(0xdeadbeef));
    rng.init();
    assert_eq!(rng.state(), State::init());
}
