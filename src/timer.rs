use vstd::prelude::*;

verus! {

/// CPU cycles per DIV increment.
pub const DIV_PERIOD: u64 = 256;

/// The largest cycle count that the timer may be pumped to.
pub const TIMER_CYCLE_LIMIT: u64 = 0x4000_0000_0000_0000;

/// CPU cycles per TIMA increment for the clock select bits of TAC: 4096 Hz,
/// 262144 Hz, 65536 Hz or 16384 Hz.
pub open spec fn tima_period(tac: u8) -> u64 {
    let s = tac & 3;
    if s == 0 {
        1024
    } else if s == 1 {
        16
    } else if s == 2 {
        64
    } else {
        256
    }
}

pub open spec fn tima_enabled(tac: u8) -> bool {
    tac & 0b100 != 0
}

/// The divider and the programmable counter.
pub struct TimerUnit {
    pub div: u8,
    pub tima: u8,
    pub tma: u8,
    pub tac: u8,
    /// Cycles counted towards the next DIV increment.
    pub div_acc: u64,
    /// Cycles counted towards the next TIMA increment.
    pub tima_acc: u64,
    /// The cycle up to which the counters have been advanced.
    pub last_cycle: u64,
}

impl TimerUnit {
    pub open spec fn wf(&self) -> bool {
        &&& self.div_acc < DIV_PERIOD
        &&& self.tima_acc < tima_period(self.tac)
        &&& self.last_cycle <= TIMER_CYCLE_LIMIT
    }

    pub fn new() -> (r: TimerUnit)
        ensures
            r.wf(),
            r.div == 0 && r.tima == 0 && r.tma == 0 && r.tac == 0,
            r.last_cycle == 0,
    {
        TimerUnit { div: 0, tima: 0, tma: 0, tac: 0, div_acc: 0, tima_acc: 0, last_cycle: 0 }
    }

    fn period_of(tac: u8) -> (r: u64)
        ensures
            r == tima_period(tac),
    {
        let s = tac & 3;
        if s == 0 {
            1024
        } else if s == 1 {
            16
        } else if s == 2 {
            64
        } else {
            256
        }
    }

    /// Advances both counters to `cycle`. DIV counts every 256 cycles and wraps;
    /// while enabled, TIMA counts at the rate TAC selects, and each time it passes
    /// 0xFF it is reloaded from TMA. Returns whether TIMA overflowed.
    pub fn pump_cycle(&mut self, cycle: u64) -> (r: bool)
        requires
            old(self).wf(),
            old(self).last_cycle <= cycle,
            cycle <= TIMER_CYCLE_LIMIT,
        ensures
            final(self).wf(),
            final(self).last_cycle == cycle,
            final(self).tma == old(self).tma,
            final(self).tac == old(self).tac,
            ({
                let e = cycle - old(self).last_cycle;
                let d = old(self).div_acc + e;
                &&& final(self).div == (old(self).div + d / 256) % 256
                &&& final(self).div_acc == d % 256
            }),
            !tima_enabled(old(self).tac) ==> !r && final(self).tima == old(self).tima && final(self).tima_acc
                == old(self).tima_acc,
            tima_enabled(old(self).tac) ==> ({
                let e = cycle - old(self).last_cycle;
                let p = tima_period(old(self).tac);
                let t = (old(self).tima_acc + e) / p as int;
                let first = 256 - old(self).tima;
                &&& final(self).tima_acc == (old(self).tima_acc + e) % p as int
                &&& r == (t >= first)
                &&& t < first ==> final(self).tima == old(self).tima + t
                &&& t >= first ==> final(self).tima == old(self).tma + (t - first) % (256 - old(self).tma)
            }),
    {
        let e = cycle - self.last_cycle;
        let d = self.div_acc + e;
        self.div = ((self.div as u64 + d / DIV_PERIOD) % 256) as u8;
        self.div_acc = d % DIV_PERIOD;
        self.last_cycle = cycle;
        if self.tac & 0b100 == 0 {
            return false;
        }
        let p = Self::period_of(self.tac);
        let total = self.tima_acc + e;
        let t = total / p;
        self.tima_acc = total % p;
        let first: u64 = 256 - self.tima as u64;
        if t < first {
            self.tima = (self.tima as u64 + t) as u8;
            false
        } else {
            let span: u64 = 256 - self.tma as u64;
            self.tima = (self.tma as u64 + (t - first) % span) as u8;
            true
        }
    }

    /// The cycle at which TIMA next overflows, if it is running.
    pub fn next_overflow_cycle(&self) -> (r: Option<u64>)
        requires
            self.wf(),
        ensures
            !tima_enabled(self.tac) ==> r is None,
            tima_enabled(self.tac) ==> r == Some(
                (self.last_cycle + (256 - self.tima) * tima_period(self.tac) - self.tima_acc) as u64,
            ),
    {
        if self.tac & 0b100 == 0 {
            return None;
        }
        let p = Self::period_of(self.tac);
        let n: u64 = 256 - self.tima as u64;
        assert(n * p <= 256 * 1024) by (nonlinear_arith)
            requires
                n <= 256,
                p <= 1024,
        ;
        assert(n * p >= p) by (nonlinear_arith)
            requires
                n >= 1,
        ;
        Some(self.last_cycle + n * p - self.tima_acc)
    }

    /// What a read of timer register `index` (0 DIV, 1 TIMA, 2 TMA, 3 TAC) gives.
    pub open spec fn spec_read(&self, index: u16) -> u8 {
        if index == 0 {
            self.div
        } else if index == 1 {
            self.tima
        } else if index == 2 {
            self.tma
        } else {
            self.tac
        }
    }

    pub fn read(&self, index: u16) -> (r: u8)
        ensures
            r == self.spec_read(index),
    {
        if index == 0 {
            self.div
        } else if index == 1 {
            self.tima
        } else if index == 2 {
            self.tma
        } else {
            self.tac
        }
    }

    /// Writes timer register `index`: DIV is cleared whatever is written; a write
    /// to TAC restarts the TIMA step count.
    pub fn write(&mut self, index: u16, v: u8)
        requires
            old(self).wf(),
        ensures
            final(self).wf(),
            final(self).last_cycle == old(self).last_cycle,
            index == 0 ==> final(self).div == 0 && final(self).div_acc == 0 && final(self).tima == old(self).tima
                && final(self).tma == old(self).tma && final(self).tac == old(self).tac,
            index == 1 ==> *final(self) == (TimerUnit { tima: v, ..*old(self) }),
            index == 2 ==> *final(self) == (TimerUnit { tma: v, ..*old(self) }),
            index >= 3 ==> *final(self) == (TimerUnit { tac: v & 0b111, tima_acc: 0, ..*old(self) }),
    {
        if index == 0 {
            self.div = 0;
            self.div_acc = 0;
        } else if index == 1 {
            self.tima = v;
        } else if index == 2 {
            self.tma = v;
        } else {
            self.tac = v & 0b111;
            self.tima_acc = 0;
        }
    }
}

} // verus!
