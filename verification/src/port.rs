//! The memory-mapped registers of the matrix shield, the operations that the
//! display driver performs on them, and what the LED driver chip sees of those
//! operations.

use vstd::prelude::*;

verus! {

/// Control line: reset of the LED driver chip.
pub const RESET: u8 = 0x01;

/// Control line: latch, whose rising edge commits the bits shifted so far.
pub const LATCH: u8 = 0x02;

/// Control line: bank select, high for transmission to the 8-bit register.
pub const ENABLE: u8 = 0x04;

/// Control line: serial clock, whose rising edge shifts one bit in.
pub const CLOCK: u8 = 0x08;

/// Control line: serial data.
pub const DATA: u8 = 0x10;

/// An 8-bit register that the display driver writes.
#[derive(Clone, Copy, Debug, PartialEq, Eq, Structural)]
pub enum Register {
    /// One-hot line select of the matrix.
    Channel,
    /// The control lines of the LED driver chip.
    Control,
    /// The stand-alone indicator LEDs.
    Rgb,
}

/// One operation on the registers, to be performed in order by whoever owns
/// the hardware.
#[derive(Clone, Copy, Debug, PartialEq, Eq, Structural)]
pub enum Signal {
    /// Store `value` in the register.
    Write { register: Register, value: u8 },
    /// Read the register, set the bits of `mask`, store the result.
    Raise { register: Register, mask: u8 },
    /// Read the register, flip the bits of `mask`, store the result.
    Toggle { register: Register, mask: u8 },
    /// Read the register, clear the bits of `mask`, store the result.
    Clear { register: Register, mask: u8 },
    /// Wait for the given number of microseconds.
    Pause { micros: u32 },
}

/// What the matrix hardware notices of an operation.
#[derive(Clone, Copy, Debug, PartialEq, Eq, Structural)]
pub enum Event {
    /// The line-select register received `channel`.
    Select { channel: u8 },
    /// The clock rose while the data line was at `bit`.
    Shift { bit: bool },
    /// The latch rose.
    Latch,
}

/// The values held by the three registers.
#[derive(Clone, Copy, Debug, PartialEq, Eq, Structural)]
pub struct Port {
    pub channel: u8,
    pub control: u8,
    pub rgb: u8,
}

/// Whether a line of `mask` is high in the control value.
pub open spec fn line_high(control: u8, mask: u8) -> bool {
    control & mask != 0
}

impl Signal {
    /// The register that the operation stores to, if any.
    pub open spec fn target(self) -> Option<Register> {
        match self {
            Signal::Write { register, .. } => Some(register),
            Signal::Raise { register, .. } => Some(register),
            Signal::Toggle { register, .. } => Some(register),
            Signal::Clear { register, .. } => Some(register),
            Signal::Pause { .. } => None,
        }
    }

    /// The value that the operation stores, given the value `held` by its
    /// register.
    pub open spec fn result(self, held: u8) -> u8 {
        match self {
            Signal::Write { value, .. } => value,
            Signal::Raise { mask, .. } => held | mask,
            Signal::Toggle { mask, .. } => held ^ mask,
            Signal::Clear { mask, .. } => held & !mask,
            Signal::Pause { .. } => held,
        }
    }
}

impl Port {
    /// The value held by `register`.
    pub open spec fn read(self, register: Register) -> u8 {
        match register {
            Register::Channel => self.channel,
            Register::Control => self.control,
            Register::Rgb => self.rgb,
        }
    }

    /// The registers after `value` was stored in `register`.
    pub open spec fn stored(self, register: Register, value: u8) -> Port {
        match register {
            Register::Channel => Port { channel: value, ..self },
            Register::Control => Port { control: value, ..self },
            Register::Rgb => Port { rgb: value, ..self },
        }
    }

    /// The registers after one operation.
    pub open spec fn after(self, signal: Signal) -> Port {
        match signal.target() {
            Some(register) => self.stored(register, signal.result(self.read(register))),
            None => self,
        }
    }

    /// The registers after the operations of `signals`, performed in order.
    pub open spec fn replay(self, signals: Seq<Signal>) -> Port
        decreases signals.len(),
    {
        if signals.len() == 0 {
            self
        } else {
            self.replay(signals.drop_last()).after(signals.last())
        }
    }

    /// What the hardware notices when `signal` is performed on these
    /// registers: a rising clock shifts the data line in, a rising latch
    /// commits, and a store to the line select takes effect.
    pub open spec fn edges(self, signal: Signal) -> Seq<Event> {
        let next = self.after(signal);
        let shift = if !line_high(self.control, CLOCK) && line_high(next.control, CLOCK) {
            seq![Event::Shift { bit: line_high(next.control, DATA) }]
        } else {
            Seq::<Event>::empty()
        };
        let latch = if !line_high(self.control, LATCH) && line_high(next.control, LATCH) {
            seq![Event::Latch]
        } else {
            Seq::<Event>::empty()
        };
        let select = if signal.target() == Some(Register::Channel) {
            seq![Event::Select { channel: next.channel }]
        } else {
            Seq::<Event>::empty()
        };
        shift + latch + select
    }

    /// Everything the hardware notices while `signals` are performed in
    /// order, starting from these registers.
    pub open spec fn events(self, signals: Seq<Signal>) -> Seq<Event>
        decreases signals.len(),
    {
        if signals.len() == 0 {
            Seq::<Event>::empty()
        } else {
            self.events(signals.drop_last()) + self.replay(signals.drop_last()).edges(
                signals.last(),
            )
        }
    }

    /// Performs one operation on the registers and reports what the hardware
    /// notices of it.
    pub fn apply(&mut self, signal: Signal) -> (seen: Vec<Event>)
        ensures
            *final(self) == old(self).after(signal),
            seen@ == old(self).edges(signal),
    {
        let clock_was = self.control & CLOCK != 0;
        let latch_was = self.control & LATCH != 0;
        let mut selects = false;
        match signal {
            Signal::Write { register, value } => {
                selects = self.store(register, value);
            },
            Signal::Raise { register, mask } => {
                let held: u8 = self.load(register);
                selects = self.store(register, held | mask);
            },
            Signal::Toggle { register, mask } => {
                let held: u8 = self.load(register);
                selects = self.store(register, held ^ mask);
            },
            Signal::Clear { register, mask } => {
                let held: u8 = self.load(register);
                selects = self.store(register, held & !mask);
            },
            Signal::Pause { .. } => {},
        }
        let mut seen: Vec<Event> = Vec::new();
        if !clock_was && self.control & CLOCK != 0 {
            seen.push(Event::Shift { bit: self.control & DATA != 0 });
        }
        if !latch_was && self.control & LATCH != 0 {
            seen.push(Event::Latch);
        }
        if selects {
            seen.push(Event::Select { channel: self.channel });
        }
        assert(seen@ =~= old(self).edges(signal));
        seen
    }

    /// Performs `signals` in order and reports everything the hardware
    /// notices.
    pub fn observe(&mut self, signals: &Vec<Signal>) -> (seen: Vec<Event>)
        ensures
            *final(self) == old(self).replay(signals@),
            seen@ == old(self).events(signals@),
    {
        let mut seen: Vec<Event> = Vec::new();
        let mut i: usize = 0;
        while i < signals.len()
            invariant
                i <= signals.len(),
                *self == old(self).replay(signals@.take(i as int)),
                seen@ == old(self).events(signals@.take(i as int)),
            decreases signals.len() - i,
        {
            let mut step = self.apply(signals[i]);
            seen.append(&mut step);
            proof {
                let upto = signals@.take(i + 1);
                assert(upto.drop_last() =~= signals@.take(i as int));
                assert(upto.last() == signals@[i as int]);
            }
            i += 1;
        }
        assert(signals@.take(i as int) =~= signals@);
        seen
    }

    fn load(&self, register: Register) -> (held: u8)
        ensures
            held == self.read(register),
    {
        match register {
            Register::Channel => self.channel,
            Register::Control => self.control,
            Register::Rgb => self.rgb,
        }
    }

    fn store(&mut self, register: Register, value: u8) -> (selects: bool)
        ensures
            *final(self) == old(self).stored(register, value),
            selects == (register == Register::Channel),
    {
        match register {
            Register::Channel => {
                self.channel = value;
                true
            },
            Register::Control => {
                self.control = value;
                false
            },
            Register::Rgb => {
                self.rgb = value;
                false
            },
        }
    }
}

impl Register {
    /// The physical address of the register.
    pub fn address(self) -> (at: usize)
        ensures
            at == match self {
                Register::Channel => 0x4122_0000usize,
                Register::Control => 0x4122_0008usize,
                Register::Rgb => 0x4124_0000usize,
            },
    {
        match self {
            Register::Channel => 0x4122_0000,
            Register::Control => 0x4122_0008,
            Register::Rgb => 0x4124_0000,
        }
    }
}

/// What is noticed of two runs of operations performed one after the other
/// is what is noticed of the first, followed by what is noticed of the second
/// from where the first left the registers.
pub proof fn lemma_events_concat(port: Port, first: Seq<Signal>, second: Seq<Signal>)
    ensures
        port.replay(first + second) == port.replay(first).replay(second),
        port.events(first + second) == port.events(first) + port.replay(first).events(second),
    decreases second.len(),
{
    if second.len() == 0 {
        assert(first + second =~= first);
        assert(port.events(first) + Seq::<Event>::empty() =~= port.events(first));
    } else {
        let whole = first + second;
        assert(whole.drop_last() =~= first + second.drop_last());
        assert(whole.last() == second.last());
        lemma_events_concat(port, first, second.drop_last());
        let mid = port.replay(first);
        assert(port.events(whole) =~= port.events(first) + mid.events(second));
    }
}

} // verus!
