use vstd::prelude::*;
use crate::timing::{
    clock_period_of, clock_view, new_clock, new_timer, reset_clock, tick_clock, timer_period,
    timer_start, timer_stop, timer_view, update_timer,
};

verus! {

/// The largest CPU cycle at which a channel may be sampled.
pub const CYCLE_LIMIT: u64 = 0x4000_0000_0000_0000;

/// The four duty patterns, as the sign (+1 or -1) of each of their eight steps.
pub open spec fn duty_sign(pattern: u8, step: int) -> int {
    if pattern == 0 {
        if step == 7 { 1 } else { -1 }
    } else if pattern == 1 {
        if step == 0 || step == 7 { 1 } else { -1 }
    } else if pattern == 2 {
        if step == 0 || step >= 5 { 1 } else { -1 }
    } else {
        if step == 0 || step == 7 { -1 } else { 1 }
    }
}

/// The period, in CPU cycles per duty step, of an 11-bit frequency.
pub open spec fn period_of(f: u64) -> u64 {
    (4 * (2048 - f)) as u64
}

/// A frequency of 2048 gives a period of 0, and a channel with period 0 is
/// silent whatever else it holds.
pub proof fn lemma_frequency_2048_silences()
    ensures
        period_of(2048) == 0,
        forall|c: SquareChannel| c.period == 0 ==> !c.sounds(),
{
}

/// One of the two square-wave channels.
pub struct SquareChannel {
    pub period: u64,
    pub duty_cycle: u8,
    pub use_len: bool,
    pub len: u8,
    pub last_cpu_cycle: u64,
    pub duty_cycle_step: usize,
    pub duty_cycle_step_timer: j2ds::Timer,
    pub duty_cycle_step_timer_offset: u64,
    pub vol: u8,
    pub vol_orig: u8,
    pub vol_env_increment: bool,
    pub vol_counter: j2ds::Clock,
    pub frequency: u64,
    pub frequency_shift: u8,
    pub frequency_increment: bool,
    pub frequency_sweep_counter: j2ds::Clock,
}

pub open spec fn clock_wf(c: j2ds::Clock) -> bool {
    clock_view(c).0 < clock_view(c).1 || clock_view(c) == (0u64, 0u64)
}

impl SquareChannel {
    pub open spec fn wf(&self) -> bool {
        &&& self.duty_cycle < 4
        &&& self.duty_cycle_step < 8
        &&& self.len <= 64
        &&& self.vol <= 15
        &&& self.vol_orig <= 15
        &&& self.frequency <= 2049
        &&& self.frequency_shift < 64
        &&& self.period <= 8192
        &&& self.frequency <= 2048 ==> self.period == period_of(self.frequency)
        &&& clock_wf(self.vol_counter)
        &&& clock_wf(self.frequency_sweep_counter)
        &&& self.period > 0 ==> self.timer_wf()
    }

    /// The duty-step timer fires once per period, on multiples of the period.
    pub open spec fn timer_wf(&self) -> bool {
        let t = self.duty_cycle_step_timer;
        &&& timer_period(t) == self.period
        &&& timer_start(t) == timer_stop(t)
        &&& timer_start(t) % self.period == 0
        &&& timer_start(t) >= self.period
        &&& timer_start(t) <= CYCLE_LIMIT + self.period
    }

    /// Whether sampling gives the duty pattern rather than silence.
    pub open spec fn sounds(&self) -> bool {
        self.period != 0 && self.frequency <= 2048 && self.spec_is_active()
    }

    pub open spec fn spec_is_active(&self) -> bool {
        !self.use_len || self.len > 0
    }

    /// The next offset-relative cycle at which the duty step advances.
    pub open spec fn next_step_at(&self) -> u64 {
        timer_start(self.duty_cycle_step_timer)
    }

    pub fn new() -> (r: SquareChannel)
        ensures
            r.wf(),
            r.period == period_of(0),
            r.frequency == 0,
            r.vol == 0,
            r.vol_orig == 0,
            r.len == 0,
            !r.use_len,
            r.duty_cycle == 0,
            r.duty_cycle_step == 0,
            r.last_cpu_cycle == 0,
            r.duty_cycle_step_timer_offset == 0,
            timer_view(r.duty_cycle_step_timer) == (8192u64, 8192u64, 8192u64),
            clock_view(r.vol_counter) == (0u64, 0u64),
            clock_view(r.frequency_sweep_counter) == (0u64, 0u64),
    {
        let mut t = new_timer(8192, 0, 0);
        let _ = update_timer(&mut t, 0);
        proof {
            vstd::arithmetic::div_mod::lemma_mod_self_0(8192);
        }
        SquareChannel {
            period: 8192,
            duty_cycle: 0,
            duty_cycle_step: 0,
            duty_cycle_step_timer: t,
            duty_cycle_step_timer_offset: 0,
            use_len: false,
            len: 0,
            last_cpu_cycle: 0,
            vol: 0,
            vol_orig: 0,
            vol_env_increment: false,
            vol_counter: new_clock(0),
            frequency: 0,
            frequency_shift: 0,
            frequency_increment: false,
            frequency_sweep_counter: new_clock(0),
        }
    }

    /// Restarts the channel: envelope and sweep counts go to zero, an expired
    /// length is reloaded with 64, and the volume returns to its set value.
    pub fn reset(&mut self)
        requires
            old(self).wf(),
        ensures
            final(self).wf(),
            final(self).len == if old(self).len == 0 { 64 } else { old(self).len },
            final(self).vol == old(self).vol_orig,
            clock_view(final(self).vol_counter) == (0u64, clock_view(old(self).vol_counter).1),
            clock_view(final(self).frequency_sweep_counter) == (0u64, clock_view(
                old(self).frequency_sweep_counter,
            ).1),
            final(self).frequency == old(self).frequency,
            final(self).period == old(self).period,
            final(self).use_len == old(self).use_len,
    {
        reset_clock(&mut self.frequency_sweep_counter);
        reset_clock(&mut self.vol_counter);
        if self.len == 0 {
            self.len = 64;
        }
        self.vol = self.vol_orig;
    }

    /// Sets the volume and the value that a restart returns to.
    pub fn set_volume(&mut self, vol: u8)
        requires
            old(self).wf(),
            vol <= 15,
        ensures
            final(self).wf(),
            *final(self) == (SquareChannel { vol, vol_orig: vol, ..*old(self) }),
    {
        self.vol = vol;
        self.vol_orig = vol;
    }

    /// Sets how many envelope ticks pass between volume steps (0 stops the envelope).
    pub fn set_vol_env_period(&mut self, p: u8)
        requires
            old(self).wf(),
        ensures
            final(self).wf(),
            clock_view(final(self).vol_counter) == (0u64, p as u64),
            *final(self) == (SquareChannel { vol_counter: final(self).vol_counter, ..*old(self) }),
    {
        self.vol_counter = new_clock(p as u64);
    }

    /// Sets whether the envelope raises (true) or lowers the volume.
    pub fn increment_vol_env(&mut self, inc: bool)
        requires
            old(self).wf(),
        ensures
            final(self).wf(),
            *final(self) == (SquareChannel { vol_env_increment: inc, ..*old(self) }),
    {
        self.vol_env_increment = inc;
    }

    /// Configures the frequency sweep: its period in sweep ticks, its shift and its direction.
    pub fn set_freqeuncy_sweepers(
        &mut self,
        freqeuncy_period: u8,
        freqeuncy_shift: u8,
        freqeuncy_increment: bool,
    )
        requires
            old(self).wf(),
            freqeuncy_shift < 64,
        ensures
            final(self).wf(),
            clock_view(final(self).frequency_sweep_counter) == (0u64, freqeuncy_period as u64),
            *final(self) == (SquareChannel {
                frequency_sweep_counter: final(self).frequency_sweep_counter,
                frequency_shift: freqeuncy_shift,
                frequency_increment: freqeuncy_increment,
                ..*old(self)
            }),
    {
        self.frequency_sweep_counter = new_clock(freqeuncy_period as u64);
        self.frequency_shift = freqeuncy_shift;
        self.frequency_increment = freqeuncy_increment;
    }

    /// One sweep tick: every period-th tick the frequency moves by `f >> shift`,
    /// up (clamped to 2049) or down (not below zero, and not at all with shift 0).
    pub fn freq_sweep_update(&mut self)
        requires
            old(self).wf(),
        ensures
            final(self).wf(),
            ({
                let c = clock_view(old(self).frequency_sweep_counter);
                let f = old(self).frequency;
                let operand = f >> old(self).frequency_shift;
                let fires = c.1 != 0 && c.0 + 1 >= c.1;
                let nf = if !fires {
                    f
                } else if old(self).frequency_increment {
                    if f + operand > 2049 { 2049 } else { (f + operand) as u64 }
                } else if old(self).frequency_shift != 0 && f >= operand {
                    (f - operand) as u64
                } else {
                    f
                };
                &&& clock_view(final(self).frequency_sweep_counter) == if c.1 == 0 {
                    c
                } else if fires {
                    (0u64, c.1)
                } else {
                    ((c.0 + 1) as u64, c.1)
                }
                &&& final(self).frequency == nf
                &&& fires && nf <= 2048 ==> final(self).period == period_of(nf)
                &&& !(fires && nf <= 2048) ==> final(self).period == old(self).period
            }),
            final(self).vol == old(self).vol,
            final(self).len == old(self).len,
            final(self).use_len == old(self).use_len,
    {
        if clock_period_of(&self.frequency_sweep_counter) == 0 {
            return;
        }
        if tick_clock(&mut self.frequency_sweep_counter) {
            let operand = self.frequency >> self.frequency_shift;
            proof {
                let f = self.frequency;
                let s = self.frequency_shift as u64;
                assert(f >> s <= f) by (bit_vector);
            }
            let mut new_f = self.frequency;
            if self.frequency_increment {
                new_f = new_f + operand;
                if new_f > 2049 {
                    new_f = 2049;
                }
            } else if self.frequency_shift != 0 && new_f >= operand {
                new_f = new_f - operand;
            }
            self.update_from_frequency(new_f);
        }
    }

    /// Sets the 11-bit frequency from the high (3 bits used) and low register bytes.
    pub fn set_frequency_from_bits(&mut self, hi: u8, lo: u8)
        requires
            old(self).wf(),
        ensures
            final(self).wf(),
            final(self).frequency == (hi as u64 % 8) * 256 + lo as u64,
            final(self).period == period_of(final(self).frequency),
            final(self).restarted_from(*old(self)),
    {
        self.update_from_frequency((hi as u64 % 8) * 256 + lo as u64);
    }

    /// The duty-step timer restarted for the current period from the last
    /// sampled cycle, everything else but frequency and period as in `o`.
    pub open spec fn restarted_from(&self, o: SquareChannel) -> bool {
        &&& *self == (SquareChannel {
            frequency: self.frequency,
            period: self.period,
            duty_cycle_step_timer: self.duty_cycle_step_timer,
            duty_cycle_step_timer_offset: self.duty_cycle_step_timer_offset,
            ..o
        })
        &&& self.period > 0 ==> timer_view(self.duty_cycle_step_timer) == (self.period, self.period, self.period)
            && self.duty_cycle_step_timer_offset == o.last_cpu_cycle
        &&& self.period == 0 ==> self.duty_cycle_step_timer == o.duty_cycle_step_timer
            && self.duty_cycle_step_timer_offset == o.duty_cycle_step_timer_offset
    }

    /// Sets the frequency. At or below 2048 the period follows it and the
    /// duty-step timer restarts from the last sampled cycle (a period of 0, at
    /// 2048, silences the channel); above 2048 the period is kept.
    fn update_from_frequency(&mut self, f: u64)
        requires
            old(self).wf(),
            f <= 2049,
        ensures
            final(self).wf(),
            final(self).frequency == f,
            f <= 2048 ==> final(self).period == period_of(f) && final(self).restarted_from(*old(self)),
            f == 2048 ==> final(self).period == 0,
            f > 2048 ==> *final(self) == (SquareChannel { frequency: f, ..*old(self) }),
    {
        self.frequency = f;
        if f <= 2048 {
            self.period = 4 * (2048 - f);
            if self.period > 0 {
                let mut t = new_timer(self.period, 0, 0);
                let _ = update_timer(&mut t, 0);
                proof {
                    vstd::arithmetic::div_mod::lemma_mod_self_0(self.period as int);
                }
                self.duty_cycle_step_timer = t;
                self.duty_cycle_step_timer_offset = self.last_cpu_cycle;
            }
        }
    }

    pub fn set_duty_cycle(&mut self, duty_cycle: u8)
        requires
            old(self).wf(),
            duty_cycle < 4,
        ensures
            final(self).wf(),
            *final(self) == (SquareChannel { duty_cycle, ..*old(self) }),
    {
        self.duty_cycle = duty_cycle;
    }

    /// One length tick: the length counts down to zero and stays there.
    pub fn decrement_length(&mut self)
        requires
            old(self).wf(),
        ensures
            final(self).wf(),
            *final(self) == (SquareChannel { len: if old(self).len > 0 { (old(self).len - 1) as u8 } else { 0 }, ..*old(self) }),
    {
        if self.len > 0 {
            self.len = self.len - 1;
        }
    }

    /// Loads the length counter with `64 - len`.
    pub fn update_length(&mut self, len: u8)
        requires
            old(self).wf(),
            len <= 64,
        ensures
            final(self).wf(),
            *final(self) == (SquareChannel { len: (64 - len) as u8, ..*old(self) }),
    {
        self.len = 64 - len;
    }

    pub fn use_length_counter(&mut self, use_len: bool)
        requires
            old(self).wf(),
        ensures
            final(self).wf(),
            *final(self) == (SquareChannel { use_len, ..*old(self) }),
    {
        self.use_len = use_len;
    }

    /// One envelope tick: every period-th tick the volume moves one step up or
    /// down, saturating at 15 and at 0.
    pub fn volume_env_update(&mut self)
        requires
            old(self).wf(),
        ensures
            final(self).wf(),
            ({
                let c = clock_view(old(self).vol_counter);
                let v = old(self).vol;
                let fires = c.1 != 0 && c.0 + 1 >= c.1;
                &&& clock_view(final(self).vol_counter) == if c.1 == 0 {
                    c
                } else if fires {
                    (0u64, c.1)
                } else {
                    ((c.0 + 1) as u64, c.1)
                }
                &&& final(self).vol == if !fires {
                    v
                } else if old(self).vol_env_increment {
                    if v < 15 { (v + 1) as u8 } else { 15 }
                } else {
                    if v > 0 { (v - 1) as u8 } else { 0 }
                }
            }),
            *final(self) == (SquareChannel { vol: final(self).vol, vol_counter: final(self).vol_counter, ..*old(self) }),
    {
        if clock_period_of(&self.vol_counter) == 0 {
            return;
        }
        if tick_clock(&mut self.vol_counter) {
            if self.vol_env_increment {
                if self.vol < 15 {
                    self.vol = self.vol + 1;
                }
            } else if self.vol > 0 {
                self.vol = self.vol - 1;
            }
        }
    }

    /// The signed level at `cpu_cycle`: the duty pattern's sign at the current step
    /// times the volume, or 0 while the channel is silent. The duty step first moves
    /// one position for every period that has passed since the last one.
    pub fn sample(&mut self, cpu_cycle: u64) -> (r: i16)
        requires
            old(self).wf(),
            cpu_cycle <= CYCLE_LIMIT,
        ensures
            final(self).wf(),
            !old(self).sounds() ==> r == 0 && *final(self) == *old(self),
            old(self).sounds() ==> ({
                let p = old(self).period;
                let ns = old(self).next_step_at();
                let ns2 = final(self).next_step_at();
                &&& *final(self) == (SquareChannel {
                    last_cpu_cycle: cpu_cycle,
                    duty_cycle_step: final(self).duty_cycle_step,
                    duty_cycle_step_timer: final(self).duty_cycle_step_timer,
                    ..*old(self)
                })
                &&& timer_period(final(self).duty_cycle_step_timer) == p
                &&& ns2 % p == 0
                &&& (cpu_cycle < old(self).duty_cycle_step_timer_offset ==> ns2 == ns)
                &&& (cpu_cycle >= old(self).duty_cycle_step_timer_offset ==> {
                    let d = cpu_cycle - old(self).duty_cycle_step_timer_offset;
                    &&& ns2 > d
                    &&& (ns2 == ns || ns2 <= d + p)
                })
                &&& (exists|k: nat|
                    ns2 == ns + #[trigger] (k * p) && final(self).duty_cycle_step == (old(self).duty_cycle_step + k)
                        % 8)
                &&& r == duty_sign(old(self).duty_cycle, final(self).duty_cycle_step as int) * (
                old(self).vol as int)
            }),
            final(self).duty_cycle == old(self).duty_cycle,
            final(self).vol == old(self).vol,
            final(self).frequency == old(self).frequency,
            final(self).len == old(self).len,
            final(self).use_len == old(self).use_len,
    {
        if self.period == 0 || self.frequency > 2048 || !self.is_active() {
            return 0;
        }
        self.last_cpu_cycle = cpu_cycle;
        let ghost ns0 = self.next_step_at();
        let ghost step0 = self.duty_cycle_step;
        let ghost mut k: nat = 0;
        if cpu_cycle >= self.duty_cycle_step_timer_offset {
            let d = cpu_cycle - self.duty_cycle_step_timer_offset;
            loop
                invariant
                    self.wf(),
                    self.period > 0,
                    d <= CYCLE_LIMIT,
                    *self == (SquareChannel {
                        last_cpu_cycle: cpu_cycle,
                        duty_cycle_step: self.duty_cycle_step,
                        duty_cycle_step_timer: self.duty_cycle_step_timer,
                        ..*old(self)
                    }),
                    self.next_step_at() == ns0 + k * self.period,
                    self.duty_cycle_step == (step0 + k) % 8,
                    k > 0 ==> self.next_step_at() <= d + self.period,
                ensures
                    self.wf(),
                    *self == (SquareChannel {
                        last_cpu_cycle: cpu_cycle,
                        duty_cycle_step: self.duty_cycle_step,
                        duty_cycle_step_timer: self.duty_cycle_step_timer,
                        ..*old(self)
                    }),
                    self.next_step_at() == ns0 + k * self.period,
                    self.duty_cycle_step == (step0 + k) % 8,
                    k > 0 ==> self.next_step_at() <= d + self.period,
                    self.next_step_at() > d,
                decreases d + self.period - self.next_step_at(),
            {
                let ghost before = self.next_step_at();
                let e = update_timer(&mut self.duty_cycle_step_timer, d);
                match e {
                    Some(_) => {
                        proof {
                            k = k + 1;
                            assert(ns0 + k * self.period == ns0 + (k - 1) * self.period + self.period)
                                by (nonlinear_arith);
                            assert((before + self.period) % (self.period as int) == 0) by {
                                vstd::arithmetic::div_mod::lemma_mod_add_multiples_vanish(
                                    before as int,
                                    self.period as int,
                                );
                            }
                        }
                        self.duty_cycle_step = (self.duty_cycle_step + 1) % 8;
                    },
                    None => {
                        break;
                    },
                }
            }
        }
        assert(self.next_step_at() == ns0 + #[trigger] (k * self.period) && self.duty_cycle_step
            == (step0 + k) % 8);
        let level: i16 = self.vol as i16;
        let step = self.duty_cycle_step;
        let pattern = self.duty_cycle;
        let positive = if pattern == 0 {
            step == 7
        } else if pattern == 1 {
            step == 0 || step == 7
        } else if pattern == 2 {
            step == 0 || step >= 5
        } else {
            !(step == 0 || step == 7)
        };
        if positive {
            level
        } else {
            -level
        }
    }

    /// Whether the channel sounds: its length counter is off or has not run out.
    pub fn is_active(&self) -> (r: bool)
        ensures
            r == self.spec_is_active(),
    {
        !self.use_len || self.len > 0
    }
}

impl Default for SquareChannel {
    fn default() -> (r: SquareChannel)
        ensures
            r.wf(),
            r.period == period_of(0),
            r.frequency == 0,
            r.vol == 0,
            !r.use_len,
    {
        SquareChannel::new()
    }
}

} // verus!
