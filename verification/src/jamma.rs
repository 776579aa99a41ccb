//! The JAMMA input board: shifter position and the switch word that the game
//! polls every frame.
use vstd::prelude::*;

verus! {

/// Shifter pushed to the left column.
pub const GEAR_LEFT: u32 = 1;
/// Shifter pushed to the right column.
pub const GEAR_RIGHT: u32 = 2;
/// Shifter pushed up.
pub const GEAR_UP: u32 = 4;
/// Shifter pushed down.
pub const GEAR_DOWN: u32 = 8;

/// Switch word bit of the test button.
pub const TEST_BIT: u32 = 0x2000_0000;
/// Switch word bit of the service button.
pub const SERVICE_BIT: u32 = 0x8000_0000;
/// Switch word bit of the quit button.
pub const QUIT_BIT: u32 = 0x2_0000;
/// Switch word bit of the perspective (view change) button.
pub const PERSPECTIVE_BIT: u32 = 0x40;
/// Switch word bit of the intrude button.
pub const INTRUDE_BIT: u32 = 0x80;
/// Switch word bit of the brake pedal.
pub const BRAKE_BIT: u32 = 0x20;
/// Switch word bit of the gas pedal.
pub const GAS_BIT: u32 = 0x10;

/// The highest gear of the six-speed shifter; gear 0 is neutral.
pub const TOP_GEAR: u8 = 6;

/// Shifter bits of a gear of the H pattern: gears 1 and 2 in the left column,
/// 3 and 4 in the middle, 5 and 6 in the right one; odd gears up, even gears
/// down; neutral and anything else leaves the shifter centred.
pub open spec fn gear_bits(index: u8) -> u32 {
    if index == 1 {
        GEAR_LEFT | GEAR_UP
    } else if index == 2 {
        GEAR_LEFT | GEAR_DOWN
    } else if index == 3 {
        GEAR_UP
    } else if index == 4 {
        GEAR_DOWN
    } else if index == 5 {
        GEAR_RIGHT | GEAR_UP
    } else if index == 6 {
        GEAR_RIGHT | GEAR_DOWN
    } else {
        0
    }
}

/// The shifter bits for gear `index`.
pub fn set_gear_bits(index: u8) -> (bits: u32)
    ensures
        bits == gear_bits(index),
        index == 0 ==> bits == 0,
        index == 1 ==> bits == 5,
        index == 2 ==> bits == 9,
        index == 3 ==> bits == 4,
        index == 4 ==> bits == 8,
        index == 5 ==> bits == 6,
        index == 6 ==> bits == 10,
        index > 6 ==> bits == 0,
{
    assert(1u32 | 4u32 == 5u32 && 1u32 | 8u32 == 9u32 && 2u32 | 4u32 == 6u32 && 2u32 | 8u32
        == 10u32) by (bit_vector);
    match index {
        0 => 0,
        1 => GEAR_LEFT | GEAR_UP,
        2 => GEAR_LEFT | GEAR_DOWN,
        3 => GEAR_UP,
        4 => GEAR_DOWN,
        5 => GEAR_RIGHT | GEAR_UP,
        6 => GEAR_RIGHT | GEAR_DOWN,
        _ => 0,
    }
}

/// What the player does with the cabinet's controls during one frame: for
/// buttons and pedals whether they are held, for the sequential and direct
/// gear selectors whether they were just tapped, for the four shifter
/// directions whether they are held.
#[derive(Clone, Copy, Debug, PartialEq, Eq)]
pub struct JammaInputs {
    pub test: bool,
    pub service: bool,
    pub quit: bool,
    pub perspective: bool,
    pub intrude: bool,
    pub brake: bool,
    pub gas: bool,
    pub gear_next: bool,
    pub gear_previous: bool,
    pub gear_neutral: bool,
    pub gear_first: bool,
    pub gear_second: bool,
    pub gear_third: bool,
    pub gear_fourth: bool,
    pub gear_fifth: bool,
    pub gear_sixth: bool,
    pub gear_up: bool,
    pub gear_left: bool,
    pub gear_down: bool,
    pub gear_right: bool,
}

/// The gear after the taps of one frame: the first of next, previous,
/// neutral and first to sixth that was tapped decides; next and previous
/// stop at the ends of the range.
pub open spec fn tapped_gear(gear: u8, i: JammaInputs) -> u8 {
    if i.gear_next {
        if gear < TOP_GEAR { (gear + 1) as u8 } else { gear }
    } else if i.gear_previous {
        if gear > 0 { (gear - 1) as u8 } else { gear }
    } else if i.gear_neutral {
        0
    } else if i.gear_first {
        1
    } else if i.gear_second {
        2
    } else if i.gear_third {
        3
    } else if i.gear_fourth {
        4
    } else if i.gear_fifth {
        5
    } else if i.gear_sixth {
        6
    } else {
        gear
    }
}

/// Whether the shifter is driven directly by one of its four directions.
pub open spec fn shifter_held(i: JammaInputs) -> bool {
    i.gear_up || i.gear_left || i.gear_down || i.gear_right
}

/// The gear at the end of the frame: holding a shifter direction returns the
/// sequential shifter to neutral.
pub open spec fn next_gear(gear: u8, i: JammaInputs) -> u8 {
    if shifter_held(i) { 0 } else { tapped_gear(gear, i) }
}

/// `bits` with `flag` added when `cond` holds.
pub open spec fn or_if(bits: u32, cond: bool, flag: u32) -> u32 {
    if cond { bits | flag } else { bits }
}

/// The switch bits of the buttons and pedals.
pub open spec fn button_bits(i: JammaInputs) -> u32 {
    or_if(or_if(or_if(or_if(or_if(or_if(or_if(0, i.test, TEST_BIT), i.service, SERVICE_BIT), i.quit, QUIT_BIT),
        i.perspective, PERSPECTIVE_BIT), i.intrude, INTRUDE_BIT), i.brake, BRAKE_BIT), i.gas, GAS_BIT)
}

/// The whole switch word of a frame: buttons and pedals, then the bits of the
/// gear that the taps selected, then the directions held on the shifter.
pub open spec fn switch_word(gear: u8, i: JammaInputs) -> u32 {
    or_if(or_if(or_if(or_if(button_bits(i) | gear_bits(tapped_gear(gear, i)), i.gear_up, GEAR_UP),
        i.gear_left, GEAR_LEFT), i.gear_down, GEAR_DOWN), i.gear_right, GEAR_RIGHT)
}

/// Law of the switch word: every button and pedal bit is set exactly when
/// that control is held, and the shifter nibble is the nibble of the tapped
/// gear with the held directions added; no other bit is ever set.
pub proof fn lemma_switch_word_bits(gear: u8, i: JammaInputs)
    ensures
        (switch_word(gear, i) & TEST_BIT != 0) == i.test,
        (switch_word(gear, i) & SERVICE_BIT != 0) == i.service,
        (switch_word(gear, i) & QUIT_BIT != 0) == i.quit,
        (switch_word(gear, i) & PERSPECTIVE_BIT != 0) == i.perspective,
        (switch_word(gear, i) & INTRUDE_BIT != 0) == i.intrude,
        (switch_word(gear, i) & BRAKE_BIT != 0) == i.brake,
        (switch_word(gear, i) & GAS_BIT != 0) == i.gas,
        switch_word(gear, i) & 0xF == or_if(or_if(or_if(or_if(gear_bits(tapped_gear(gear, i)),
            i.gear_up, GEAR_UP), i.gear_left, GEAR_LEFT), i.gear_down, GEAR_DOWN), i.gear_right,
            GEAR_RIGHT),
        switch_word(gear, i) & !0xA002_00FFu32 == 0,
{
    let g = gear_bits(tapped_gear(gear, i));
    assert(1u32 | 4u32 == 5u32 && 1u32 | 8u32 == 9u32 && 2u32 | 4u32 == 6u32 && 2u32 | 8u32
        == 10u32) by (bit_vector);
    assert(g & 0xF == g) by (bit_vector)
        requires
            g == 0 || g == 5 || g == 9 || g == 4 || g == 8 || g == 6 || g == 10,
    ;
    let (t, s, q, p, n, b, a) = (i.test, i.service, i.quit, i.perspective, i.intrude, i.brake, i.gas);
    let (u, l, d, r) = (i.gear_up, i.gear_left, i.gear_down, i.gear_right);
    let w = switch_word(gear, i);
    assert({
        let bb = or_if(or_if(or_if(or_if(or_if(or_if(or_if(0, t, TEST_BIT), s, SERVICE_BIT), q, QUIT_BIT),
            p, PERSPECTIVE_BIT), n, INTRUDE_BIT), b, BRAKE_BIT), a, GAS_BIT);
        let ww = or_if(or_if(or_if(or_if(bb | g, u, GEAR_UP), l, GEAR_LEFT), d, GEAR_DOWN), r, GEAR_RIGHT);
        &&& (ww & TEST_BIT != 0) == t
        &&& (ww & SERVICE_BIT != 0) == s
        &&& (ww & QUIT_BIT != 0) == q
        &&& (ww & PERSPECTIVE_BIT != 0) == p
        &&& (ww & INTRUDE_BIT != 0) == n
        &&& (ww & BRAKE_BIT != 0) == b
        &&& (ww & GAS_BIT != 0) == a
        &&& ww & 0xF == or_if(or_if(or_if(or_if(g, u, GEAR_UP), l, GEAR_LEFT), d, GEAR_DOWN), r, GEAR_RIGHT)
        &&& ww & !0xA002_00FFu32 == 0
    }) by (bit_vector)
        requires
            g & 0xF == g,
    ;
}

/// Law of the sequential shifter: shifting up and then down returns to the
/// starting gear below the top gear, and the shifter stays within neutral and
/// the top gear, stopping at both ends.
pub proof fn lemma_shift_up_then_down(gear: u8, up: JammaInputs, down: JammaInputs)
    requires
        gear <= TOP_GEAR,
        up.gear_next,
        !shifter_held(up),
        down.gear_previous,
        !down.gear_next,
        !shifter_held(down),
    ensures
        gear < TOP_GEAR ==> next_gear(next_gear(gear, up), down) == gear,
        gear == TOP_GEAR ==> next_gear(gear, up) == TOP_GEAR,
        next_gear(0, down) == 0,
        next_gear(gear, up) <= TOP_GEAR,
        next_gear(gear, down) <= TOP_GEAR,
{
}

/// Whether the only gear key of a frame is the direct selector of gear `k`
/// (0 for neutral, 1 to 6 for the gears), with no sequential key tapped and
/// no shifter direction held.
pub open spec fn only_selector(i: JammaInputs, k: u8) -> bool {
    &&& !i.gear_next && !i.gear_previous
    &&& !i.gear_up && !i.gear_left && !i.gear_down && !i.gear_right
    &&& i.gear_neutral == (k == 0)
    &&& i.gear_first == (k == 1)
    &&& i.gear_second == (k == 2)
    &&& i.gear_third == (k == 3)
    &&& i.gear_fourth == (k == 4)
    &&& i.gear_fifth == (k == 5)
    &&& i.gear_sixth == (k == 6)
}

/// Law of direct selection: tapping only the selector of gear `k` puts the
/// shifter in gear `k`, whatever gear it was in, and the shifter nibble of
/// the switch word is that gear's H-pattern position: neutral centred,
/// gears 1 and 2 left, 5 and 6 right, odd gears up, even gears down.
pub proof fn lemma_direct_selection(gear: u8, i: JammaInputs, k: u8)
    requires
        k <= 6,
        only_selector(i, k),
    ensures
        next_gear(gear, i) == k,
        k == 0 ==> switch_word(gear, i) & 0xF == 0,
        k == 1 ==> switch_word(gear, i) & 0xF == 5,
        k == 2 ==> switch_word(gear, i) & 0xF == 9,
        k == 3 ==> switch_word(gear, i) & 0xF == 4,
        k == 4 ==> switch_word(gear, i) & 0xF == 8,
        k == 5 ==> switch_word(gear, i) & 0xF == 6,
        k == 6 ==> switch_word(gear, i) & 0xF == 10,
        (switch_word(gear, i) & 0xF) & GEAR_LEFT != 0 <==> (k == 1 || k == 2),
        (switch_word(gear, i) & 0xF) & GEAR_RIGHT != 0 <==> (k == 5 || k == 6),
        (switch_word(gear, i) & 0xF) & GEAR_UP != 0 <==> (k == 1 || k == 3 || k == 5),
        (switch_word(gear, i) & 0xF) & GEAR_DOWN != 0 <==> (k == 2 || k == 4 || k == 6),
{
    lemma_switch_word_bits(gear, i);
    let n = switch_word(gear, i) & 0xF;
    assert(n == gear_bits(k));
    assert(1u32 | 4u32 == 5u32 && 1u32 | 8u32 == 9u32 && 2u32 | 4u32 == 6u32 && 2u32 | 8u32
        == 10u32) by (bit_vector);
    assert(0u32 & 1u32 == 0 && 0u32 & 2u32 == 0 && 0u32 & 4u32 == 0 && 0u32 & 8u32 == 0
        && 5u32 & 1u32 != 0 && 5u32 & 2u32 == 0 && 5u32 & 4u32 != 0 && 5u32 & 8u32 == 0
        && 9u32 & 1u32 != 0 && 9u32 & 2u32 == 0 && 9u32 & 4u32 == 0 && 9u32 & 8u32 != 0
        && 4u32 & 1u32 == 0 && 4u32 & 2u32 == 0 && 4u32 & 4u32 != 0 && 4u32 & 8u32 == 0
        && 8u32 & 1u32 == 0 && 8u32 & 2u32 == 0 && 8u32 & 4u32 == 0 && 8u32 & 8u32 != 0
        && 6u32 & 1u32 == 0 && 6u32 & 2u32 != 0 && 6u32 & 4u32 != 0 && 6u32 & 8u32 == 0
        && 10u32 & 1u32 == 0 && 10u32 & 2u32 != 0 && 10u32 & 4u32 == 0 && 10u32 & 8u32 != 0)
        by (bit_vector);
}

/// The state that the input board keeps from frame to frame: the gear of the
/// sequential shifter.
pub struct JammaState {
    gear_index: u8,
}

impl JammaState {
    /// The gear index, 0 for neutral.
    pub closed spec fn gear(&self) -> u8 {
        self.gear_index
    }

    /// A valid state has its gear within neutral and the top gear.
    pub open spec fn wf(&self) -> bool {
        self.gear() <= TOP_GEAR
    }

    /// A board in neutral.
    pub fn new() -> (s: Self)
        ensures
            s.gear() == 0,
            s.wf(),
    {
        JammaState { gear_index: 0 }
    }

    /// The current gear index.
    pub fn gear_index(&self) -> (g: u8)
        ensures
            g == self.gear(),
    {
        self.gear_index
    }

    /// Handles one frame of input: updates the gear and returns the switch
    /// word for the game.
    pub fn handle_inputs(&mut self, inputs: &JammaInputs) -> (bits: u32)
        ensures
            final(self).gear() == next_gear(old(self).gear(), *inputs),
            bits == switch_word(old(self).gear(), *inputs),
            old(self).wf() ==> final(self).wf(),
    {
        let mut bits: u32 = 0;
        if inputs.test {
            bits = bits | TEST_BIT;
        }
        if inputs.service {
            bits = bits | SERVICE_BIT;
        }
        if inputs.quit {
            bits = bits | QUIT_BIT;
        }
        if inputs.perspective {
            bits = bits | PERSPECTIVE_BIT;
        }
        if inputs.intrude {
            bits = bits | INTRUDE_BIT;
        }
        if inputs.brake {
            bits = bits | BRAKE_BIT;
        }
        if inputs.gas {
            bits = bits | GAS_BIT;
        }
        if inputs.gear_next {
            if self.gear_index < TOP_GEAR {
                self.gear_index = self.gear_index + 1;
            }
        } else if inputs.gear_previous {
            if self.gear_index > 0 {
                self.gear_index = self.gear_index - 1;
            }
        } else if inputs.gear_neutral {
            self.gear_index = 0;
        } else if inputs.gear_first {
            self.gear_index = 1;
        } else if inputs.gear_second {
            self.gear_index = 2;
        } else if inputs.gear_third {
            self.gear_index = 3;
        } else if inputs.gear_fourth {
            self.gear_index = 4;
        } else if inputs.gear_fifth {
            self.gear_index = 5;
        } else if inputs.gear_sixth {
            self.gear_index = 6;
        }
        bits = bits | set_gear_bits(self.gear_index);
        if inputs.gear_up {
            self.gear_index = 0;
            bits = bits | GEAR_UP;
        }
        if inputs.gear_left {
            self.gear_index = 0;
            bits = bits | GEAR_LEFT;
        }
        if inputs.gear_down {
            self.gear_index = 0;
            bits = bits | GEAR_DOWN;
        }
        if inputs.gear_right {
            self.gear_index = 0;
            bits = bits | GEAR_RIGHT;
        }
        bits
    }
}

} // verus!
