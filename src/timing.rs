use vstd::prelude::*;

verus! {

#[verifier::external_type_specification]
#[verifier::external_body]
pub struct ExTimer(j2ds::Timer);

#[verifier::external_type_specification]
#[verifier::external_body]
pub struct ExClock(j2ds::Clock);

/// What a periodic edge timer holds: (period, next rising edge, next falling edge).
pub uninterp spec fn timer_view(t: j2ds::Timer) -> (u64, u64, u64);

/// What a tick clock holds: (count, period).
pub uninterp spec fn clock_view(c: j2ds::Clock) -> (u64, u64);

/// The edge that a timer update reports.
#[derive(Copy, Clone, Debug, PartialEq, Eq, Structural)]
pub enum Edge {
    Rising,
    Falling,
}

pub open spec fn timer_period(t: j2ds::Timer) -> u64 {
    timer_view(t).0
}

pub open spec fn timer_start(t: j2ds::Timer) -> u64 {
    timer_view(t).1
}

pub open spec fn timer_stop(t: j2ds::Timer) -> u64 {
    timer_view(t).2
}

/// The next time at which a timer reports any edge.
pub open spec fn timer_next_event(t: j2ds::Timer) -> u64 {
    if timer_start(t) < timer_stop(t) {
        timer_start(t)
    } else {
        timer_stop(t)
    }
}

/// The effect of one `update(time)` on a timer, with the edge it reports.
pub open spec fn timer_step(t: (u64, u64, u64), time: u64) -> ((u64, u64, u64), Option<Edge>) {
    let (p, s, e) = t;
    if s <= e && s <= time {
        ((p, (s + p) as u64, if e == s { (e + p) as u64 } else { e }), Some(Edge::Rising))
    } else if e <= time {
        ((p, s, (e + p) as u64), Some(Edge::Falling))
    } else {
        (t, None)
    }
}

pub open spec fn min_u64(a: u64, b: u64) -> u64 {
    if a < b {
        a
    } else {
        b
    }
}

/// Relies on j2ds::Timer::new: period, first rising edge at `offset`, falling edge
/// `duration` later; it panics unless `offset` and `duration` are below `period`.
#[verifier::external_body]
pub(crate) fn new_timer(period: u64, offset: u64, duration: u64) -> (r: j2ds::Timer)
    requires
        offset < period,
        duration < period,
        offset + duration <= u64::MAX,
    ensures
        timer_view(r) == (period, offset, (offset + duration) as u64),
{
    j2ds::Timer::new(period, offset, duration)
}

/// Relies on j2ds::Timer::update: reports at most one edge at or before `time`
/// and moves that edge one period on.
#[verifier::external_body]
pub(crate) fn update_timer(t: &mut j2ds::Timer, time: u64) -> (r: Option<Edge>)
    requires
        timer_start(*old(t)) + timer_period(*old(t)) <= u64::MAX,
        timer_stop(*old(t)) + timer_period(*old(t)) <= u64::MAX,
    ensures
        (timer_view(*final(t)), r) == timer_step(timer_view(*old(t)), time),
{
    match t.update(time) {
        Some(j2ds::TimerEvent::RisingEdge) => Some(Edge::Rising),
        Some(j2ds::TimerEvent::FallingEdge) => Some(Edge::Falling),
        None => None,
    }
}

/// Relies on j2ds::next_timer_event: the least next-event time of the timers given.
#[verifier::external_body]
pub(crate) fn next_event_of_three(a: &j2ds::Timer, b: &j2ds::Timer, c: &j2ds::Timer) -> (r: u64)
    ensures
        r == min_u64(min_u64(timer_next_event(*a), timer_next_event(*b)), timer_next_event(*c)),
{
    j2ds::next_timer_event(&[*a, *b, *c])
}

/// Relies on j2ds::Clock::new: a clock at count zero with the given period.
#[verifier::external_body]
pub(crate) fn new_clock(period: u64) -> (r: j2ds::Clock)
    ensures
        clock_view(r) == (0u64, period),
{
    j2ds::Clock::new(period)
}

/// Relies on j2ds::Clock::tick: counts one up and wraps to zero on reaching the
/// period, reporting the wrap; it panics when the count would pass the period.
#[verifier::external_body]
pub(crate) fn tick_clock(c: &mut j2ds::Clock) -> (r: bool)
    requires
        clock_view(*old(c)).0 < clock_view(*old(c)).1,
    ensures
        clock_view(*final(c)).1 == clock_view(*old(c)).1,
        r == (clock_view(*old(c)).0 + 1 >= clock_view(*old(c)).1),
        clock_view(*final(c)).0 == if r { 0 } else { clock_view(*old(c)).0 + 1 },
{
    c.tick()
}

/// Relies on j2ds::Clock::reset: the count goes back to zero.
#[verifier::external_body]
pub(crate) fn reset_clock(c: &mut j2ds::Clock)
    ensures
        clock_view(*final(c)) == (0u64, clock_view(*old(c)).1),
{
    c.reset()
}

/// Relies on j2ds::Clock::period: the period the clock was made with.
#[verifier::external_body]
pub(crate) fn clock_period_of(c: &j2ds::Clock) -> (r: u64)
    ensures
        r == clock_view(*c).1,
{
    c.period()
}

} // verus!
