use wangan_arcade_loader::jamma::{
    set_gear_bits, JammaInputs, JammaState, BRAKE_BIT, GAS_BIT, GEAR_DOWN, GEAR_LEFT, GEAR_RIGHT,
    GEAR_UP, INTRUDE_BIT, PERSPECTIVE_BIT, QUIT_BIT, SERVICE_BIT, TEST_BIT,
};

fn idle() -> JammaInputs {
    JammaInputs {
        test: false,
        service: false,
        quit: false,
        perspective: false,
        intrude: false,
        brake: false,
        gas: false,
        gear_next: false,
        gear_previous: false,
        gear_neutral: false,
        gear_first: false,
        gear_second: false,
        gear_third: false,
        gear_fourth: false,
        gear_fifth: false,
        gear_sixth: false,
        gear_up: false,
        gear_left: false,
        gear_down: false,
        gear_right: false,
    }
}

#[test]
fn gear_bits_follow_the_h_pattern() {
    assert_eq!(set_gear_bits(0), 0);
    assert_eq!(set_gear_bits(1), GEAR_LEFT | GEAR_UP);
    assert_eq!(set_gear_bits(2), GEAR_LEFT | GEAR_DOWN);
    assert_eq!(set_gear_bits(3), GEAR_UP);
    assert_eq!(set_gear_bits(4), GEAR_DOWN);
    assert_eq!(set_gear_bits(5), GEAR_RIGHT | GEAR_UP);
    assert_eq!(set_gear_bits(6), GEAR_RIGHT | GEAR_DOWN);
    assert_eq!(set_gear_bits(7), 0);
    assert_eq!(set_gear_bits(255), 0);
    assert_eq!(set_gear_bits(1), 5);
    assert_eq!(set_gear_bits(6), 10);
}

#[test]
fn idle_frame_reports_nothing() {
    let mut s = JammaState::new();
    assert_eq!(s.handle_inputs(&idle()), 0);
    assert_eq!(s.gear_index(), 0);
}

#[test]
fn buttons_set_their_bits() {
    let mut s = JammaState::new();
    let mut i = idle();
    i.test = true;
    i.service = true;
    i.quit = true;
    i.perspective = true;
    i.intrude = true;
    i.brake = true;
    i.gas = true;
    let bits = s.handle_inputs(&i);
    assert_eq!(
        bits,
        TEST_BIT | SERVICE_BIT | QUIT_BIT | PERSPECTIVE_BIT | INTRUDE_BIT | BRAKE_BIT | GAS_BIT
    );
    assert_eq!(bits, 0xA002_00F0);
    let mut g = idle();
    g.gas = true;
    assert_eq!(JammaState::new().handle_inputs(&g), 0x10);
}

#[test]
fn sequential_shifting_stops_at_the_ends() {
    let mut s = JammaState::new();
    let mut up = idle();
    up.gear_next = true;
    let mut down = idle();
    down.gear_previous = true;
    assert_eq!(s.handle_inputs(&down), 0);
    assert_eq!(s.gear_index(), 0);
    for expected in 1..=6u8 {
        let bits = s.handle_inputs(&up);
        assert_eq!(s.gear_index(), expected);
        assert_eq!(bits, set_gear_bits(expected));
    }
    assert_eq!(s.handle_inputs(&up), GEAR_RIGHT | GEAR_DOWN);
    assert_eq!(s.gear_index(), 6);
    assert_eq!(s.handle_inputs(&down), GEAR_RIGHT | GEAR_UP);
    assert_eq!(s.gear_index(), 5);
}

#[test]
fn shift_up_then_down_returns() {
    let mut s = JammaState::new();
    let mut third = idle();
    third.gear_third = true;
    s.handle_inputs(&third);
    let mut up = idle();
    up.gear_next = true;
    let mut down = idle();
    down.gear_previous = true;
    s.handle_inputs(&up);
    assert_eq!(s.gear_index(), 4);
    s.handle_inputs(&down);
    assert_eq!(s.gear_index(), 3);
}

#[test]
fn first_tapped_selector_wins() {
    let mut s = JammaState::new();
    let mut i = idle();
    i.gear_second = true;
    i.gear_fifth = true;
    assert_eq!(s.handle_inputs(&i), GEAR_LEFT | GEAR_DOWN);
    assert_eq!(s.gear_index(), 2);
    let mut n = idle();
    n.gear_neutral = true;
    n.gear_sixth = true;
    assert_eq!(s.handle_inputs(&n), 0);
    assert_eq!(s.gear_index(), 0);
    let mut next_and_sixth = idle();
    next_and_sixth.gear_next = true;
    next_and_sixth.gear_sixth = true;
    s.handle_inputs(&next_and_sixth);
    assert_eq!(s.gear_index(), 1);
}

#[test]
fn held_direction_overrides_and_resets_the_gear() {
    let mut s = JammaState::new();
    let mut fourth = idle();
    fourth.gear_fourth = true;
    s.handle_inputs(&fourth);
    assert_eq!(s.gear_index(), 4);
    let mut dir = idle();
    dir.gear_left = true;
    dir.gear_up = true;
    let bits = s.handle_inputs(&dir);
    assert_eq!(bits, GEAR_DOWN | GEAR_LEFT | GEAR_UP);
    assert_eq!(s.gear_index(), 0);
    assert_eq!(s.handle_inputs(&idle()), 0);
}
