//! The four indicator LEDs of the board: one light that runs to and fro.

use vstd::prelude::*;

verus! {

/// The physical address of the LED register.
pub const LED_ADDRESS: usize = 0x4120_0000;

/// Direction flag: the light moves towards the higher LEDs.
pub const UPWARD: u8 = 1;

/// Direction flag: the light moves towards the lower LEDs.
pub const DOWNWARD: u8 = 0;

/// The LED pattern and direction that follow `led` and `dir`. A dark row
/// lights the lowest LED. Otherwise the pattern moves one place in its
/// direction, and turns round once it has reached the fourth LED or the
/// first.
pub open spec fn blink(led: u8, dir: u8) -> (u8, u8) {
    if led == 0 {
        (1u8, dir)
    } else if dir == UPWARD {
        (
            ((2 * led) % 256) as u8,
            if 2 * led > 7 {
                DOWNWARD
            } else {
                dir
            },
        )
    } else {
        (
            (led / 2) as u8,
            if led / 2 <= 1 {
                UPWARD
            } else {
                dir
            },
        )
    }
}

/// Whether `(led, dir)` is one of the six states of the running light.
pub open spec fn running(led: u8, dir: u8) -> bool {
    ||| (dir == UPWARD && (led == 1 || led == 2 || led == 4))
    ||| (dir == DOWNWARD && (led == 8 || led == 4 || led == 2))
}

/// Moves the light of the indicator LEDs on by one step: takes the value of
/// the LED register and the direction flag, returns what to store in both.
pub fn blinker(led: u8, dir: u8) -> (next: (u8, u8))
    ensures
        next == blink(led, dir),
        running(led, dir) ==> running(next.0, next.1),
{
    if led == 0 {
        return (1, dir);
    }
    if dir == UPWARD {
        let moved: u8 = led << 1;
        assert(moved == (2 * led) % 256) by (bit_vector)
            requires
                moved == led << 1u8,
        ;
        if led > 3 {
            (moved, DOWNWARD)
        } else {
            (moved, dir)
        }
    } else {
        let moved: u8 = led >> 1;
        assert(moved == led / 2) by (bit_vector)
            requires
                moved == led >> 1u8,
        ;
        if moved <= 1 {
            (moved, UPWARD)
        } else {
            (moved, dir)
        }
    }
}

} // verus!
