//! The timer: the divider (DIV, 0xFF04), the counter (TIMA, 0xFF05), the modulo
//! (TMA, 0xFF06) and the control register (TAC, 0xFF07).
use vstd::prelude::*;
use crate::soc::peripheral::nvic::{Nvic, InterruptSources, source_mask};

verus! {

/// Clock ticks per machine cycle.
pub const CLOCK_TICK_PER_MACHINE_CYCLE: u8 = 4;

#[derive(Copy, Clone, PartialEq, Eq, Debug, Structural)]
pub enum Frequency {
    F4096,
    F16384,
    F262144,
    F65536,
}

/// The number of clock ticks (4194304 per second) per tick of a counter at this frequency.
pub open spec fn ticks_per_count(frequency: Frequency) -> usize {
    match frequency {
        Frequency::F4096 => 1024,
        Frequency::F16384 => 256,
        Frequency::F262144 => 16,
        Frequency::F65536 => 64,
    }
}

impl Frequency {
    pub fn cycles_per_tick(&self) -> (ticks: usize)
        ensures
            ticks == ticks_per_count(*self),
    {
        match self {
            Frequency::F4096 => 1024,
            Frequency::F16384 => 256,
            Frequency::F262144 => 16,
            Frequency::F65536 => 64,
        }
    }
}

#[derive(Copy, Clone, PartialEq, Eq, Debug, Structural)]
pub struct Timer {
    // internal counters, in clock ticks
    pub main_timer_cycles: usize,
    pub divider_timer_cycles: usize,
    pub tima_overflow: bool,
    // DIV / TIMA / TMA registers
    pub divider: u8,
    pub value: u8,
    pub modulo: u8,
    // TAC register
    pub main_timer_frequency: Frequency,
    pub divider_timer_frequency: Frequency,
    pub enabled: bool,
}

/// The pending overflow of TIMA is delivered once a whole machine cycle has passed:
/// TIMA is reloaded from TMA and the timer interrupt is requested.
pub open spec fn deliver_overflow(t: Timer, n: Nvic) -> (Timer, Nvic) {
    if t.tima_overflow && t.main_timer_cycles / (CLOCK_TICK_PER_MACHINE_CYCLE as usize) > 0 {
        (Timer { tima_overflow: false, value: t.modulo, ..t }, n.with_request(InterruptSources::TIMER))
    } else {
        (t, n)
    }
}

/// TIMA counts the whole periods of its frequency held in the main counter; the
/// remainder stays. On wrapping past 0xFF it reads 0 and an overflow becomes pending.
pub open spec fn count_main(t: Timer, n: Nvic) -> (Timer, Nvic) {
    let period = ticks_per_count(t.main_timer_frequency);
    if t.main_timer_cycles > period {
        let add = ((t.main_timer_cycles / period) % 256) as u8;
        let sum = t.value + add;
        let counted = if sum > 255 {
            Timer { main_timer_cycles: t.main_timer_cycles % period, value: 0, tima_overflow: true, ..t }
        } else {
            Timer { main_timer_cycles: t.main_timer_cycles % period, value: sum as u8, ..t }
        };
        deliver_overflow(counted, n)
    } else {
        (t, n)
    }
}

/// DIV counts the whole periods of its frequency held in the divider counter, modulo 256.
pub open spec fn count_divider(t: Timer) -> Timer {
    let period = ticks_per_count(t.divider_timer_frequency);
    if t.divider_timer_cycles > period {
        let add = (t.divider_timer_cycles / period) % 256;
        Timer {
            divider_timer_cycles: t.divider_timer_cycles % period,
            divider: ((t.divider + add) % 256) as u8,
            ..t
        }
    } else {
        t
    }
}

/// The timer and interrupt controller after `cycles` clock ticks.
pub open spec fn timer_run(t: Timer, n: Nvic, cycles: u8) -> (Timer, Nvic) {
    if !t.enabled {
        (t, n)
    } else {
        let started = Timer {
            main_timer_cycles: (t.main_timer_cycles + cycles) as usize,
            divider_timer_cycles: (t.divider_timer_cycles + cycles) as usize,
            ..t
        };
        let (t1, n1) = deliver_overflow(started, n);
        let (t2, n2) = count_main(t1, n1);
        (count_divider(t2), n2)
    }
}

/// The timer settings that a byte written to TAC selects. Bit 2 enables the timer; the
/// two low bits select the frequency: 0 gives 4096 Hz, 1 gives 262144 Hz, the
/// others 16384 Hz.
pub open spec fn tac_frequency(data: u8) -> Frequency {
    if data % 4 == 0 {
        Frequency::F4096
    } else if data % 4 == 1 {
        Frequency::F262144
    } else {
        Frequency::F16384
    }
}

impl Timer {
    /// The internal counters never hold more than a period of the slowest frequency.
    pub open spec fn wf(&self) -> bool {
        &&& self.main_timer_cycles <= 1024
        &&& self.divider_timer_cycles <= 1024
    }

    pub fn new() -> (timer: Timer)
        ensures
            timer == (Timer {
                main_timer_cycles: 0,
                divider_timer_cycles: 0,
                tima_overflow: false,
                divider: 0,
                value: 0,
                modulo: 0,
                main_timer_frequency: Frequency::F4096,
                divider_timer_frequency: Frequency::F16384,
                enabled: false,
            }),
            timer.wf(),
    {
        Timer {
            main_timer_cycles: 0,
            divider_timer_cycles: 0,
            tima_overflow: false,
            divider: 0,
            value: 0,
            modulo: 0,
            main_timer_frequency: Frequency::F4096,
            divider_timer_frequency: Frequency::F16384,
            enabled: false,
        }
    }

    fn deliver_pending_overflow(&mut self, nvic: &mut Nvic)
        ensures
            (*final(self), *final(nvic)) == deliver_overflow(*old(self), *old(nvic)),
    {
        if self.tima_overflow && self.has_timer_passed_1_cycle() {
            self.tima_overflow = false;
            nvic.set_interrupt(InterruptSources::TIMER);
            self.value = self.modulo;
        }
    }

    pub fn run(&mut self, cycles: u8, nvic: &mut Nvic)
        requires
            old(self).wf(),
        ensures
            final(self).wf(),
            (*final(self), *final(nvic)) == timer_run(*old(self), *old(nvic), cycles),
    {
        if self.enabled {
            // update internal timer clock
            self.main_timer_cycles = self.main_timer_cycles + cycles as usize;
            self.divider_timer_cycles = self.divider_timer_cycles + cycles as usize;

            // delay interrupt by 1 machine cycle / 4 clocks
            self.deliver_pending_overflow(nvic);

            // divide the main cpu clock
            let main_cycles_per_tick = self.main_timer_frequency.cycles_per_tick();
            if self.main_timer_cycles > main_cycles_per_tick {
                let add_timer = ((self.main_timer_cycles / main_cycles_per_tick) % 256) as u8;
                self.main_timer_cycles = self.main_timer_cycles % main_cycles_per_tick;

                // TIMA wraps to 0 and reloads one machine cycle later
                // see https://gbdev.io/pandocs/Timer_Obscure_Behaviour.html
                let sum = self.value as u16 + add_timer as u16;
                if sum > 255 {
                    self.tima_overflow = true;
                    self.value = 0;
                } else {
                    self.value = sum as u8;
                }
                self.deliver_pending_overflow(nvic);
            }

            // divide the divider clock
            let divider_cycles_per_tick = self.divider_timer_frequency.cycles_per_tick();
            if self.divider_timer_cycles > divider_cycles_per_tick {
                let add_divider = (self.divider_timer_cycles / divider_cycles_per_tick) % 256;
                self.divider_timer_cycles = self.divider_timer_cycles % divider_cycles_per_tick;
                self.divider = ((self.divider as usize + add_divider) % 256) as u8;
            }
        }
    }

    pub fn has_timer_passed_1_cycle(&self) -> (passed: bool)
        ensures
            passed == (self.main_timer_cycles / (CLOCK_TICK_PER_MACHINE_CYCLE as usize) > 0),
    {
        self.main_timer_cycles / CLOCK_TICK_PER_MACHINE_CYCLE as usize > 0
    }

    pub fn set_divider(&mut self)
        ensures
            *final(self) == (Timer { divider: 0, ..*old(self) }),
    {
        self.divider = 0;
    }

    pub fn get_divider(&self) -> (divider: u8)
        ensures
            divider == self.divider,
    {
        self.divider
    }

    pub fn set_value(&mut self, data: u8)
        ensures
            *final(self) == (Timer { value: data, ..*old(self) }),
    {
        self.value = data;
    }

    pub fn get_value(&self) -> (value: u8)
        ensures
            value == self.value,
    {
        self.value
    }

    pub fn set_modulo(&mut self, data: u8)
        ensures
            *final(self) == (Timer { modulo: data, ..*old(self) }),
    {
        self.modulo = data;
    }

    pub fn get_modulo(&self) -> (modulo: u8)
        ensures
            modulo == self.modulo,
    {
        self.modulo
    }

    pub fn settings_from_byte(&mut self, data: u8)
        ensures
            *final(self) == (Timer {
                enabled: (data / 4) % 2 == 1,
                main_timer_frequency: tac_frequency(data),
                ..*old(self)
            }),
    {
        // timer enable
        self.enabled = (data / 4) % 2 == 1;

        // main timer frequency
        self.main_timer_frequency = match data % 4 {
            0 => Frequency::F4096,
            1 => Frequency::F262144,
            _ => Frequency::F16384,
        };
    }
}

/// The clock ticks per TIMA increment that a TAC byte selects: 1024 (4096 Hz) for low
/// bits 00, 16 (262144 Hz) for 01, and 256 (16384 Hz) for 10 and 11.
pub open spec fn tac_period(data: u8) -> int {
    if data % 4 == 0 {
        1024
    } else if data % 4 == 1 {
        16
    } else {
        256
    }
}

/// The TAC byte sets the counting period of TIMA: `settings_from_byte` leaves a timer whose
/// main counter advances once per `tac_period(data)` clock ticks.
pub proof fn lemma_tac_period(data: u8)
    ensures
        ticks_per_count(tac_frequency(data)) == tac_period(data),
{
}

/// How TIMA counts: a running timer set up by a TAC byte, with no overflow pending, adds
/// one to TIMA for each whole period of `tac_period` ticks that its counter holds once it
/// exceeds a period, and keeps the remainder; below that, TIMA stays.
pub proof fn lemma_timer_counts(t: Timer, n: Nvic, cycles: u8, data: u8)
    requires
        t.wf(),
        t.enabled,
        !t.tima_overflow,
        t.main_timer_frequency == tac_frequency(data),
    ensures
        ({
            let period = tac_period(data);
            let total = t.main_timer_cycles + cycles;
            let after = timer_run(t, n, cycles).0;
            &&& total <= period ==> after.value == t.value && after.main_timer_cycles == total
            &&& total > period && t.value + total / period <= 255 ==> after.value == t.value + total
                / period && after.main_timer_cycles == total % period
        }),
{
    let total = t.main_timer_cycles + cycles;
    if data % 4 == 0 {
        assert(total / 1024 <= 1);
    } else if data % 4 == 1 {
        assert(total / 16 <= 80);
    } else {
        assert(total / 256 <= 5);
    }
}

/// TIMA overflow: a count that carries TIMA past 0xFF leaves it at 0 with the overflow
/// pending and no interrupt yet, as long as less than a machine cycle (4 ticks) is held
/// in the counter.
pub proof fn lemma_overflow_waits(t: Timer, n: Nvic, cycles: u8, data: u8)
    requires
        t.wf(),
        t.enabled,
        !t.tima_overflow,
        t.main_timer_frequency == tac_frequency(data),
        t.main_timer_cycles + cycles > tac_period(data),
        t.value + (t.main_timer_cycles + cycles) / tac_period(data) > 255,
        (t.main_timer_cycles + cycles) % tac_period(data) < 4,
    ensures
        ({
            let (after, m) = timer_run(t, n, cycles);
            &&& after.value == 0
            &&& after.tima_overflow
            &&& m == n
        }),
{
    let total = t.main_timer_cycles + cycles;
    let period = tac_period(data);
    assert(ticks_per_count(t.main_timer_frequency) == period);
    assert(total / period <= 80) by {
        if data % 4 == 0 {
            assert(total / 1024 <= 1);
        } else if data % 4 == 1 {
            assert(total / 16 <= 80);
        } else {
            assert(total / 256 <= 5);
        }
    }
    let started = Timer {
        main_timer_cycles: total as usize,
        divider_timer_cycles: (t.divider_timer_cycles + cycles) as usize,
        ..t
    };
    assert(deliver_overflow(started, n) == (started, n));
    assert(((total / period) % 256) == total / period);
    assert((total % period) / 4 == 0);
}

/// TIMA reload: once an overflow is pending, the next step that leaves a machine cycle
/// (4 ticks) or more in the counter reloads TIMA from TMA and requests the timer
/// interrupt (bit 2 of IF); the other requests stay.
pub proof fn lemma_overflow_reloads(t: Timer, n: Nvic, cycles: u8, data: u8)
    requires
        t.wf(),
        t.enabled,
        t.tima_overflow,
        t.main_timer_frequency == tac_frequency(data),
        t.main_timer_cycles + cycles >= 4,
        t.main_timer_cycles + cycles <= tac_period(data),
    ensures
        ({
            let (after, m) = timer_run(t, n, cycles);
            &&& after.value == t.modulo
            &&& !after.tima_overflow
            &&& m.interrupt_flag & 0x04 != 0
            &&& m.interrupt_flag & n.interrupt_flag == n.interrupt_flag
            &&& m.interrupt_enable == n.interrupt_enable
        }),
{
    let flag = n.interrupt_flag;
    assert((flag | 0x04) & 0x04 != 0 && (flag | 0x04) & flag == flag) by (bit_vector);
    let total = t.main_timer_cycles + cycles;
    assert(ticks_per_count(t.main_timer_frequency) == tac_period(data));
    assert(total / 4 > 0);
    assert(source_mask(InterruptSources::TIMER) == 0x04) by {
        crate::soc::peripheral::nvic::lemma_source_masks();
    }
}

/// A stopped timer does not move, whatever the number of cycles.
pub proof fn lemma_disabled_timer_is_still(t: Timer, n: Nvic, cycles: u8)
    requires
        !t.enabled,
    ensures
        timer_run(t, n, cycles) == (t, n),
{
}

/// While running, the counters stay within one period of the slowest frequency.
pub proof fn lemma_run_keeps_counters_bounded(t: Timer, n: Nvic, cycles: u8)
    requires
        t.wf(),
    ensures
        timer_run(t, n, cycles).0.wf(),
{
}

} // verus!
