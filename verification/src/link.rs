//! What the LED driver chip receives when the driver's operations are
//! performed: the bits of a line in order, one latch, and a line select that
//! stays blank until the line is committed.

use vstd::prelude::*;
use crate::pixel::Pixel;
use crate::port::{CLOCK, DATA, ENABLE, LATCH, RESET, Event, Port, Register, Signal, line_high,
    lemma_events_concat};
use crate::matrix::{NO_LINE, clock_pulses, data_signal, line_bits, line_mask, pulse,
    refresh_signals, run_signals, select_signal, setup_signals, shift_signals};

verus! {

/// The control value `control` with the line `mask` put high or low.
pub open spec fn with_line(control: u8, mask: u8, high: bool) -> u8 {
    if high {
        control | mask
    } else {
        control & !mask
    }
}

/// The events of `bits` being shifted in, one after the other.
pub open spec fn shifted(bits: Seq<bool>) -> Seq<Event> {
    Seq::new(bits.len(), |n: int| Event::Shift { bit: bits[n] })
}

/// The control value that a run over `bits` leaves behind, when it started
/// from `control`: latch and clock low, the data line at the last bit sent.
pub open spec fn control_after_run(control: u8, bits: Seq<bool>) -> u8 {
    let low = control & !LATCH;
    if bits.len() == 0 {
        low
    } else {
        with_line(low, DATA, bits.last())
    }
}

proof fn lemma_other_lines(c: u8, m: u8, n: u8)
    by (bit_vector)
    requires
        m & n == 0,
    ensures
        (c | m) & n == c & n,
        (c ^ m) & n == c & n,
        (c & !m) & n == c & n,
{
}

proof fn lemma_own_line(c: u8, m: u8)
    by (bit_vector)
    ensures
        (c | m) & m == m,
        (c & !m) & m == 0,
        c & m == 0 ==> (c | m) ^ m == c,
        c & m == 0 ==> c & !m == c,
        (c | m) | m == c | m,
        (c | m) & !m == c & !m,
        (c & !m) | m == c | m,
        (c & !m) & !m == c & !m,
{
}

proof fn lemma_masks()
    ensures
        CLOCK & DATA == 0,
        DATA & CLOCK == 0,
        CLOCK & LATCH == 0,
        LATCH & CLOCK == 0,
        DATA & LATCH == 0,
        LATCH & DATA == 0,
{
    assert(0x08u8 & 0x10u8 == 0 && 0x10u8 & 0x08u8 == 0 && 0x08u8 & 0x02u8 == 0 && 0x02u8 & 0x08u8
        == 0 && 0x10u8 & 0x02u8 == 0 && 0x02u8 & 0x10u8 == 0) by (bit_vector);
}

/// Performing one more operation adds what is noticed of it.
pub proof fn lemma_events_push(port: Port, signals: Seq<Signal>, next: Signal)
    ensures
        port.replay(signals.push(next)) == port.replay(signals).after(next),
        port.events(signals.push(next)) == port.events(signals) + port.replay(signals).edges(next),
{
    assert(signals.push(next).drop_last() =~= signals);
}

/// A pulse on a control line that is low is noticed as one rising edge and
/// leaves the registers as they were.
proof fn lemma_clock_pulse(port: Port)
    requires
        !line_high(port.control, CLOCK),
    ensures
        port.replay(pulse(CLOCK)) == port,
        port.events(pulse(CLOCK)) == seq![Event::Shift { bit: line_high(port.control, DATA) }],
{
    let up = Signal::Raise { register: Register::Control, mask: CLOCK };
    let down = Signal::Toggle { register: Register::Control, mask: CLOCK };
    let none = Seq::<Signal>::empty();
    lemma_events_push(port, none, up);
    lemma_events_push(port, none.push(up), down);
    assert(pulse(CLOCK) =~= none.push(up).push(down));
    let c = port.control;
    lemma_own_line(c, CLOCK);
    lemma_masks();
    lemma_other_lines(c, CLOCK, DATA);
    lemma_other_lines(c, CLOCK, LATCH);
    lemma_other_lines(c | CLOCK, CLOCK, LATCH);
    assert(port.events(pulse(CLOCK)) =~= seq![Event::Shift { bit: line_high(port.control, DATA) }]);
}

/// A latch pulse on a low latch is noticed as one commit and leaves the
/// registers as they were.
proof fn lemma_latch_pulse(port: Port)
    requires
        !line_high(port.control, LATCH),
    ensures
        port.replay(pulse(LATCH)) == port,
        port.events(pulse(LATCH)) == seq![Event::Latch],
{
    let up = Signal::Raise { register: Register::Control, mask: LATCH };
    let down = Signal::Toggle { register: Register::Control, mask: LATCH };
    let none = Seq::<Signal>::empty();
    lemma_events_push(port, none, up);
    lemma_events_push(port, none.push(up), down);
    assert(pulse(LATCH) =~= none.push(up).push(down));
    let c = port.control;
    lemma_own_line(c, LATCH);
    lemma_masks();
    lemma_other_lines(c, LATCH, CLOCK);
    lemma_other_lines(c | LATCH, LATCH, CLOCK);
    assert(port.events(pulse(LATCH)) =~= seq![Event::Latch]);
}

/// Setting the data line is noticed by nobody and changes that line alone.
proof fn lemma_data(port: Port, bit: bool)
    ensures
        port.replay(seq![data_signal(bit)]) == (Port {
            control: with_line(port.control, DATA, bit),
            ..port
        }),
        port.events(seq![data_signal(bit)]) == Seq::<Event>::empty(),
        line_high(with_line(port.control, DATA, bit), DATA) == bit,
        line_high(with_line(port.control, DATA, bit), CLOCK) == line_high(port.control, CLOCK),
        line_high(with_line(port.control, DATA, bit), LATCH) == line_high(port.control, LATCH),
{
    let none = Seq::<Signal>::empty();
    lemma_events_push(port, none, data_signal(bit));
    assert(seq![data_signal(bit)] =~= none.push(data_signal(bit)));
    let c = port.control;
    lemma_own_line(c, DATA);
    lemma_masks();
    lemma_other_lines(c, DATA, CLOCK);
    lemma_other_lines(c, DATA, LATCH);
    assert(DATA != 0);
    assert(port.events(seq![data_signal(bit)]) =~= Seq::<Event>::empty());
}

/// Sending `bits` with the clock low at the start shifts exactly those bits
/// in, in order, and changes nothing but the data line.
pub proof fn lemma_shift(port: Port, bits: Seq<bool>)
    requires
        !line_high(port.control, CLOCK),
    ensures
        port.events(shift_signals(bits)) == shifted(bits),
        port.replay(shift_signals(bits)) == (Port {
            control: if bits.len() == 0 {
                port.control
            } else {
                with_line(port.control, DATA, bits.last())
            },
            ..port
        }),
        !line_high(port.replay(shift_signals(bits)).control, CLOCK),
        line_high(port.replay(shift_signals(bits)).control, LATCH) == line_high(
            port.control,
            LATCH,
        ),
    decreases bits.len(),
{
    if bits.len() == 0 {
        assert(port.events(shift_signals(bits)) =~= shifted(bits));
    } else {
        let front = bits.drop_last();
        let bit = bits.last();
        lemma_shift(port, front);
        let mid = port.replay(shift_signals(front));
        lemma_data(mid, bit);
        let set = mid.replay(seq![data_signal(bit)]);
        lemma_clock_pulse(set);
        lemma_events_concat(port, shift_signals(front), seq![data_signal(bit)]);
        lemma_events_concat(port, shift_signals(front) + seq![data_signal(bit)], pulse(CLOCK));
        lemma_own_line(port.control, DATA);
        assert(port.events(shift_signals(bits)) =~= shifted(bits));
    }
}

/// Sending a line with the clock low at the start shifts in exactly the bits
/// of that line, in order, and commits them once, after the last bit. The
/// line select is not touched, and latch and clock are low at the end.
pub proof fn lemma_run(port: Port, frame: Seq<Pixel>, line: int)
    requires
        !line_high(port.control, CLOCK),
    ensures
        port.events(run_signals(frame, line)) == shifted(line_bits(frame, line)) + seq![
            Event::Latch,
        ],
        port.replay(run_signals(frame, line)) == (Port {
            control: control_after_run(port.control, line_bits(frame, line)),
            ..port
        }),
        !line_high(control_after_run(port.control, line_bits(frame, line)), CLOCK),
        !line_high(control_after_run(port.control, line_bits(frame, line)), LATCH),
{
    let bits = line_bits(frame, line);
    let lower = Signal::Clear { register: Register::Control, mask: LATCH };
    let rest = Signal::Clear { register: Register::Control, mask: CLOCK };
    let none = Seq::<Signal>::empty();
    let c = port.control;
    lemma_masks();
    lemma_own_line(c, LATCH);
    lemma_other_lines(c, LATCH, CLOCK);

    // latch low
    lemma_events_push(port, none, lower);
    assert(seq![lower] =~= none.push(lower));
    let lowered = port.replay(seq![lower]);
    assert(lowered == Port { control: c & !LATCH, ..port });
    assert(port.events(seq![lower]) =~= Seq::<Event>::empty());

    // the bits
    lemma_shift(lowered, bits);
    let sent = lowered.replay(shift_signals(bits));
    lemma_events_concat(port, seq![lower], shift_signals(bits));
    assert(sent.control == control_after_run(c, bits));

    // latch pulse
    lemma_latch_pulse(sent);
    lemma_events_concat(port, seq![lower] + shift_signals(bits), pulse(LATCH));

    // clock low
    lemma_own_line(sent.control, CLOCK);
    lemma_events_push(sent, none, rest);
    assert(seq![rest] =~= none.push(rest));
    assert(sent.replay(seq![rest]) == sent);
    assert(sent.events(seq![rest]) =~= Seq::<Event>::empty());
    lemma_events_concat(port, seq![lower] + shift_signals(bits) + pulse(LATCH), seq![rest]);
    assert(port.events(run_signals(frame, line)) =~= shifted(bits) + seq![Event::Latch]);
}

/// What one refresh of a line lets the hardware see, and in which order: the
/// matrix goes blank, the 192 bits of the line are shifted in, the latch
/// commits them, and only then the line is selected. Afterwards exactly that
/// line is selected and the clock is low again, ready for the next refresh.
pub proof fn lemma_refresh(port: Port, frame: Seq<Pixel>, line: int)
    requires
        0 <= line < 8,
        !line_high(port.control, CLOCK),
    ensures
        port.events(refresh_signals(frame, line)) == seq![Event::Select { channel: 0 }] + shifted(
            line_bits(frame, line),
        ) + seq![Event::Latch, Event::Select { channel: line_mask(line as u8) }],
        port.replay(refresh_signals(frame, line)) == (Port {
            channel: line_mask(line as u8),
            control: control_after_run(port.control, line_bits(frame, line)),
            rgb: port.rgb,
        }),
        !line_high(port.replay(refresh_signals(frame, line)).control, CLOCK),
{
    let none = Seq::<Signal>::empty();
    let blank = select_signal(NO_LINE);
    let light = select_signal(line as u8);
    lemma_events_push(port, none, blank);
    assert(seq![blank] =~= none.push(blank));
    let blanked = port.replay(seq![blank]);
    assert(blanked == Port { channel: 0, ..port });
    assert(port.events(seq![blank]) =~= seq![Event::Select { channel: 0 }]);
    lemma_run(blanked, frame, line);
    let committed = blanked.replay(run_signals(frame, line));
    lemma_events_concat(port, seq![blank], run_signals(frame, line));
    lemma_events_push(committed, none, light);
    assert(seq![light] =~= none.push(light));
    assert(committed.events(seq![light]) =~= seq![Event::Select { channel: line_mask(line as u8) }]);
    lemma_events_concat(port, seq![blank] + run_signals(frame, line), seq![light]);
    assert(port.events(refresh_signals(frame, line)) =~= seq![Event::Select { channel: 0 }]
        + shifted(line_bits(frame, line)) + seq![
        Event::Latch,
        Event::Select { channel: line_mask(line as u8) },
    ]);
}

/// A run of clock pulses with the clock low at the start shifts the level of
/// the data line in once per pulse and leaves the registers as they were.
proof fn lemma_clock_pulses(port: Port, count: nat)
    requires
        !line_high(port.control, CLOCK),
    ensures
        port.replay(clock_pulses(count)) == port,
        port.events(clock_pulses(count)) == Seq::new(
            count,
            |n: int| Event::Shift { bit: line_high(port.control, DATA) },
        ),
    decreases count,
{
    if count == 0 {
        assert(port.events(clock_pulses(count)) =~= Seq::new(
            count,
            |n: int| Event::Shift { bit: line_high(port.control, DATA) },
        ));
    } else {
        lemma_clock_pulses(port, (count - 1) as nat);
        lemma_clock_pulse(port);
        lemma_events_concat(port, clock_pulses((count - 1) as nat), pulse(CLOCK));
        assert(port.events(clock_pulses(count)) =~= Seq::new(
            count,
            |n: int| Event::Shift { bit: line_high(port.control, DATA) },
        ));
    }
}

/// Whatever the registers held before, bringing the chip up blanks the
/// matrix, shifts 144 one-bits in, and leaves the line select and the
/// indicator LEDs at zero and the control lines at reset, data and enable
/// high with clock and latch low.
pub proof fn lemma_setup(port: Port)
    ensures
        port.events(setup_signals()) == seq![Event::Select { channel: 0 }] + Seq::new(
            144,
            |n: int| Event::Shift { bit: true },
        ),
        port.replay(setup_signals()) == (Port { channel: 0, control: 0x15, rgb: 0 }),
        !line_high(0x15, CLOCK),
        !line_high(0x15, LATCH),
{
    let none = Seq::<Signal>::empty();
    let s0 = Signal::Write { register: Register::Channel, value: 0 };
    let s1 = Signal::Write { register: Register::Control, value: 0 };
    let s2 = Signal::Pause { micros: 500 };
    let s3 = Signal::Write { register: Register::Control, value: RESET };
    let s8 = Signal::Raise { register: Register::Control, mask: DATA };
    let head = seq![s0, s1, s2, s3, s2, s1, s2, s3, s8];
    let t0 = Signal::Write { register: Register::Rgb, value: 0b011011 };
    let t2 = Signal::Write { register: Register::Rgb, value: 0 };
    let t3 = Signal::Raise { register: Register::Control, mask: ENABLE };
    let tail = seq![t0, s2, t2, t3];
    assert(0u8 & 0x08u8 == 0 && 0u8 & 0x02u8 == 0 && 1u8 & 0x08u8 == 0 && 1u8 & 0x02u8 == 0 && 1u8
        | 0x10u8 == 0x11 && 0x11u8 & 0x08u8 == 0 && 0x11u8 & 0x02u8 == 0 && 0x11u8 & 0x10u8 != 0
        && 0x11u8 | 0x04u8 == 0x15 && 0x15u8 & 0x08u8 == 0 && 0x15u8 & 0x02u8 == 0)
        by (bit_vector);

    let h1 = none.push(s0);
    let h2 = h1.push(s1);
    let h3 = h2.push(s2);
    let h4 = h3.push(s3);
    let h5 = h4.push(s2);
    let h6 = h5.push(s1);
    let h7 = h6.push(s2);
    let h8 = h7.push(s3);
    let h9 = h8.push(s8);
    lemma_events_push(port, none, s0);
    lemma_events_push(port, h1, s1);
    lemma_events_push(port, h2, s2);
    lemma_events_push(port, h3, s3);
    lemma_events_push(port, h4, s2);
    lemma_events_push(port, h5, s1);
    lemma_events_push(port, h6, s2);
    lemma_events_push(port, h7, s3);
    lemma_events_push(port, h8, s8);
    assert(head =~= h9);
    let ready = port.replay(head);
    assert(ready == Port { channel: 0, control: 0x11, rgb: port.rgb });
    assert(port.events(head) =~= seq![Event::Select { channel: 0 }]);

    lemma_clock_pulses(ready, 144);
    lemma_events_concat(port, head, clock_pulses(144));

    let u1 = none.push(t0);
    let u2 = u1.push(s2);
    let u3 = u2.push(t2);
    let u4 = u3.push(t3);
    lemma_events_push(ready, none, t0);
    lemma_events_push(ready, u1, s2);
    lemma_events_push(ready, u2, t2);
    lemma_events_push(ready, u3, t3);
    assert(tail =~= u4);
    assert(ready.replay(tail) == Port { channel: 0, control: 0x15, rgb: 0 });
    assert(ready.events(tail) =~= Seq::<Event>::empty());
    lemma_events_concat(port, head + clock_pulses(144), tail);
    assert(setup_signals() =~= head + clock_pulses(144) + tail);
    assert(port.events(setup_signals()) =~= seq![Event::Select { channel: 0 }] + Seq::new(
        144,
        |n: int| Event::Shift { bit: true },
    ));
}

} // verus!
