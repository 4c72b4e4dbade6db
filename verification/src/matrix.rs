//! The display driver: the operations that bring the LED driver chip up and
//! that feed it one line of the framebuffer at a time.
//!
//! A line is the eight cells that share an `x`. Its colours travel over a
//! serial link, one bit per clock pulse, and take effect on a latch pulse.
//! While the bits travel the line select is blank, so that the matrix shows
//! nothing of a half-shifted line.

use vstd::prelude::*;
use crate::pixel::{Framebuffer, Pixel, cell, lemma_frame_len};
use crate::port::{CLOCK, DATA, ENABLE, LATCH, RESET, Register, Signal};

verus! {

/// Microseconds between the steps of the chip's reset.
pub const RESET_DELAY: u32 = 500;

/// Clock pulses that fill the chip's 6-bit correction registers: 6 bits for
/// each of 24 outputs.
pub const PRELOAD_PULSES: usize = 144;

/// Bits in one line: 8 cells of 3 planes of 8 bits.
pub const LINE_BITS: usize = 192;

/// Pattern shown on the indicator LEDs while the chip is brought up.
pub const SETUP_MARK: u8 = 0b011011;

/// A line number that selects no line.
pub const NO_LINE: u8 = 99;

/// Whether bit `k` (0 the lowest) is set in `value`.
pub open spec fn bit_set(value: u8, k: u8) -> bool {
    (value >> k) & 1 == 1
}

/// The value of the line-select register that lights line `i`: bit `i` alone
/// for a line of the matrix, no bit for any other number.
pub open spec fn line_mask(i: u8) -> u8 {
    if i < 8 {
        1u8 << i
    } else {
        0u8
    }
}

/// The operation that selects line `i`, or blanks the matrix where `i` is no
/// line.
pub open spec fn select_signal(i: u8) -> Signal {
    Signal::Write { register: Register::Channel, value: line_mask(i) }
}

/// Selects line `i` of the matrix; any `i` above 7 blanks all lines.
pub fn open_line(i: u8) -> (signal: Signal)
    ensures
        signal == select_signal(i),
        forall|k: u8| k < 8 ==> (bit_set(signal->Write_value, k) <==> k == i),
{
    proof {
        lemma_line_mask_one_hot(i);
    }
    let value: u8 = match i {
        0 => 0b00000001,
        1 => 0b00000010,
        2 => 0b00000100,
        3 => 0b00001000,
        4 => 0b00010000,
        5 => 0b00100000,
        6 => 0b01000000,
        7 => 0b10000000,
        _ => 0,
    };
    assert(value == line_mask(i)) by (bit_vector)
        requires
            value == (if i == 0 {
                1u8
            } else if i == 1 {
                2u8
            } else if i == 2 {
                4u8
            } else if i == 3 {
                8u8
            } else if i == 4 {
                16u8
            } else if i == 5 {
                32u8
            } else if i == 6 {
                64u8
            } else if i == 7 {
                128u8
            } else {
                0u8
            }),
    ;
    Signal::Write { register: Register::Channel, value }
}

/// The line-select value for a line of the matrix has exactly the bit of that
/// line set; for any other number it has no bit set.
pub proof fn lemma_line_mask_one_hot(i: u8)
    ensures
        forall|k: u8| k < 8 ==> (bit_set(line_mask(i), k) <==> k == i),
        i >= 8 ==> line_mask(i) == 0,
{
    assert forall|k: u8| k < 8 implies (bit_set(line_mask(i), k) <==> k == i) by {
        let m = line_mask(i);
        assert(((m >> k) & 1 == 1) <==> k == i) by (bit_vector)
            requires
                k < 8,
                m == (if i < 8 {
                    1u8 << i
                } else {
                    0u8
                }),
        ;
    }
}

/// The intensity that a colour has in plane `k`, in the order in which the
/// planes are sent: blue, green, red.
pub open spec fn plane(colour: Pixel, k: int) -> u8 {
    if k == 0 {
        colour.b
    } else if k == 1 {
        colour.g
    } else {
        colour.r
    }
}

/// Bit `n` of `value`, counted from the highest bit.
pub open spec fn bit_from_top(value: u8, n: u8) -> bool {
    value & (0x80u8 >> n) != 0
}

/// The 192 bits of line `line`, in the order in which they are sent: the
/// cells by rising `y`; of each cell blue, then green, then red; of each
/// intensity the highest bit first.
pub open spec fn line_bits(frame: Seq<Pixel>, line: int) -> Seq<bool> {
    Seq::new(
        LINE_BITS as nat,
        |n: int| bit_from_top(plane(cell(frame, line, n / 24), (n % 24) / 8), (n % 8) as u8),
    )
}

/// The operation that puts the data line at `bit`.
pub open spec fn data_signal(bit: bool) -> Signal {
    if bit {
        Signal::Raise { register: Register::Control, mask: DATA }
    } else {
        Signal::Clear { register: Register::Control, mask: DATA }
    }
}

/// A pulse on the control line `mask`: up, then down again.
pub open spec fn pulse(mask: u8) -> Seq<Signal> {
    seq![
        Signal::Raise { register: Register::Control, mask },
        Signal::Toggle { register: Register::Control, mask },
    ]
}

/// The operations that send `bits`: for each bit the data line is set, then
/// the clock is pulsed once.
pub open spec fn shift_signals(bits: Seq<bool>) -> Seq<Signal>
    decreases bits.len(),
{
    if bits.len() == 0 {
        Seq::<Signal>::empty()
    } else {
        shift_signals(bits.drop_last()) + seq![data_signal(bits.last())] + pulse(CLOCK)
    }
}

/// The operations that send line `line` of `frame` to the chip and commit
/// it: latch low, the bits of the line, a latch pulse, clock low.
pub open spec fn run_signals(frame: Seq<Pixel>, line: int) -> Seq<Signal> {
    seq![Signal::Clear { register: Register::Control, mask: LATCH }] + shift_signals(
        line_bits(frame, line),
    ) + pulse(LATCH) + seq![Signal::Clear { register: Register::Control, mask: CLOCK }]
}

/// The operations of one refresh of line `line`: blank the matrix, send and
/// commit the line, select the line.
pub open spec fn refresh_signals(frame: Seq<Pixel>, line: int) -> Seq<Signal> {
    seq![select_signal(NO_LINE)] + run_signals(frame, line) + seq![select_signal(line as u8)]
}

/// `count` clock pulses in a row.
pub open spec fn clock_pulses(count: nat) -> Seq<Signal>
    decreases count,
{
    if count == 0 {
        Seq::<Signal>::empty()
    } else {
        clock_pulses((count - 1) as nat) + pulse(CLOCK)
    }
}

/// The operations that bring the chip up: all lines blank and all control
/// lines low, a reset pulse with its delays, 144 one-bits for the correction
/// registers, a flash of the indicator LEDs, and the switch to the 8-bit
/// register.
pub open spec fn setup_signals() -> Seq<Signal> {
    seq![
        Signal::Write { register: Register::Channel, value: 0 },
        Signal::Write { register: Register::Control, value: 0 },
        Signal::Pause { micros: RESET_DELAY },
        Signal::Write { register: Register::Control, value: RESET },
        Signal::Pause { micros: RESET_DELAY },
        Signal::Write { register: Register::Control, value: 0 },
        Signal::Pause { micros: RESET_DELAY },
        Signal::Write { register: Register::Control, value: RESET },
        Signal::Raise { register: Register::Control, mask: DATA },
    ] + clock_pulses(PRELOAD_PULSES as nat) + seq![
        Signal::Write { register: Register::Rgb, value: SETUP_MARK },
        Signal::Pause { micros: RESET_DELAY },
        Signal::Write { register: Register::Rgb, value: 0 },
        Signal::Raise { register: Register::Control, mask: ENABLE },
    ]
}

/// Appends a pulse on the control line `mask`.
fn push_pulse(out: &mut Vec<Signal>, mask: u8)
    ensures
        final(out)@ == old(out)@ + pulse(mask),
{
    out.push(Signal::Raise { register: Register::Control, mask });
    out.push(Signal::Toggle { register: Register::Control, mask });
    assert(out@ =~= old(out)@ + pulse(mask));
}

/// Appends the latch pulse that commits the bits shifted so far.
fn latch(out: &mut Vec<Signal>)
    ensures
        final(out)@ == old(out)@ + pulse(LATCH),
{
    push_pulse(out, LATCH);
}

/// The operations that bring the LED driver chip up. They are to be
/// performed once, before the first refresh.
pub fn setup_led_matrix() -> (signals: Vec<Signal>)
    ensures
        signals@ == setup_signals(),
{
    let mut out: Vec<Signal> = Vec::new();
    out.push(Signal::Write { register: Register::Channel, value: 0 });
    out.push(Signal::Write { register: Register::Control, value: 0 });
    out.push(Signal::Pause { micros: RESET_DELAY });
    out.push(Signal::Write { register: Register::Control, value: RESET });
    out.push(Signal::Pause { micros: RESET_DELAY });
    out.push(Signal::Write { register: Register::Control, value: 0 });
    out.push(Signal::Pause { micros: RESET_DELAY });
    out.push(Signal::Write { register: Register::Control, value: RESET });
    out.push(Signal::Raise { register: Register::Control, mask: DATA });
    let ghost head = out@;
    let mut i: usize = 0;
    while i < 6
        invariant
            i <= 6,
            out@ == head + clock_pulses((i * 24) as nat),
        decreases 6 - i,
    {
        let mut j: usize = 0;
        while j < 24
            invariant
                i < 6,
                j <= 24,
                out@ == head + clock_pulses((i * 24 + j) as nat),
            decreases 24 - j,
        {
            push_pulse(&mut out, CLOCK);
            assert(out@ =~= head + clock_pulses((i * 24 + j + 1) as nat));
            j += 1;
        }
        i += 1;
    }
    out.push(Signal::Write { register: Register::Rgb, value: SETUP_MARK });
    out.push(Signal::Pause { micros: RESET_DELAY });
    out.push(Signal::Write { register: Register::Rgb, value: 0 });
    out.push(Signal::Raise { register: Register::Control, mask: ENABLE });
    assert(out@ =~= setup_signals());
    out
}

/// Appends the operations that send the eight bits of `value`, highest bit
/// first.
fn shift_byte(out: &mut Vec<Signal>, value: u8, Ghost(sent): Ghost<Seq<bool>>, Ghost(head): Ghost<
    Seq<Signal>,
>) -> (now: Ghost<Seq<bool>>)
    requires
        old(out)@ == head + shift_signals(sent),
    ensures
        now@ == sent + Seq::new(8, |k: int| bit_from_top(value, k as u8)),
        final(out)@ == head + shift_signals(now@),
{
    let mut dot: u8 = value;
    let ghost mut bits = sent;
    let mut k: u8 = 0;
    assert(value == value << 0u8) by (bit_vector);
    assert(bits =~= sent + Seq::new(0, |n: int| bit_from_top(value, n as u8)));
    while k < 8
        invariant
            k <= 8,
            dot == value << k,
            bits == sent + Seq::new(k as nat, |n: int| bit_from_top(value, n as u8)),
            out@ == head + shift_signals(bits),
        decreases 8 - k,
    {
        let high = dot & 0b10000000 != 0;
        assert(high == bit_from_top(value, k)) by (bit_vector)
            requires
                k < 8,
                dot == value << k,
                high == (dot & 0x80u8 != 0),
        ;
        if high {
            out.push(Signal::Raise { register: Register::Control, mask: DATA });
        } else {
            out.push(Signal::Clear { register: Register::Control, mask: DATA });
        }
        push_pulse(out, CLOCK);
        let ghost longer = bits.push(high);
        proof {
            assert(longer.drop_last() =~= bits);
            assert(out@ =~= head + shift_signals(longer));
            assert(longer =~= sent + Seq::new((k + 1) as nat, |n: int| bit_from_top(value, n as u8)));
            bits = longer;
        }
        let next: u8 = dot << 1;
        assert(next == value << ((k + 1) as u8)) by (bit_vector)
            requires
                k < 8,
                dot == value << k,
                next == dot << 1u8,
        ;
        dot = next;
        k += 1;
    }
    Ghost(bits)
}

/// The operations that send line `c` of the framebuffer to the chip and
/// commit it.
pub fn run(dots: &Framebuffer, c: usize) -> (signals: Vec<Signal>)
    requires
        c < 8,
    ensures
        signals@ == run_signals(dots@, c as int),
{
    broadcast use lemma_frame_len;

    let mut out: Vec<Signal> = Vec::new();
    out.push(Signal::Clear { register: Register::Control, mask: LATCH });
    let ghost head = out@;
    let ghost all = line_bits(dots@, c as int);
    let ghost mut sent = Seq::<bool>::empty();
    assert(out@ =~= head + shift_signals(sent));
    let mut i: usize = 0;
    while i < 8
        invariant
            i <= 8,
            c < 8,
            all == line_bits(dots@, c as int),
            sent == all.take(24 * i as int),
            out@ == head + shift_signals(sent),
        decreases 8 - i,
    {
        let colour = match dots.get_pixel(c, i) {
            Some(colour) => colour,
            None => Pixel { r: 0, g: 0, b: 0 },
        };
        let Ghost(blue) = shift_byte(&mut out, colour.b, Ghost(sent), Ghost(head));
        let Ghost(green) = shift_byte(&mut out, colour.g, Ghost(blue), Ghost(head));
        let Ghost(red) = shift_byte(&mut out, colour.r, Ghost(green), Ghost(head));
        proof {
            assert(colour == cell(dots@, c as int, i as int));
            assert(red =~= all.take(24 * (i + 1) as int)) by {
                assert forall|n: int| 0 <= n < 24 * (i + 1) implies red[n] == all[n] by {
                    if n >= 24 * i {
                        let m = n - 24 * i;
                        assert(n / 24 == i as int);
                        assert(n % 24 == m);
                        assert(n % 8 == m % 8);
                    }
                }
            }
            sent = red;
        }
        i += 1;
    }
    assert(sent =~= all);
    latch(&mut out);
    out.push(Signal::Clear { register: Register::Control, mask: CLOCK });
    assert(out@ =~= run_signals(dots@, c as int));
    out
}

} // verus!
