//! The clock peripheral: a real-time register and two free-running counters.
//!
//! The registers are computed from a reading of the host's clocks. The
//! counters count the host's tick counter, which comes with each access. The
//! real-time register counts seconds, which the device reads from the
//! monotonic clock itself; `read_at` and `write_at` take the seconds as well
//! and say what an access does for every reading.

use std::time::{Duration, Instant};
use vstd::prelude::*;

verus! {

/// A point on the host's monotonic clock. Nothing is known of its value.
#[verifier::external_type_specification]
#[verifier::external_body]
pub struct ExInstant(Instant);

/// `Instant::now`: the present point on the host's monotonic clock. Nothing
/// is claimed of it.
#[verifier::external_body]
fn instant_now() -> Instant {
    Instant::now()
}

/// `Instant::saturating_duration_since`: the time that has passed from
/// `earlier` to `later`, or none if `earlier` is the later of the two. The
/// call does not fail. Nothing is claimed of the length.
#[verifier::external_body]
fn instant_since(later: &Instant, earlier: &Instant) -> Duration {
    later.saturating_duration_since(*earlier)
}

/// `Duration::as_secs`: the whole seconds of a duration. Nothing is claimed
/// of the number.
#[verifier::external_body]
fn duration_secs(duration: &Duration) -> u64 {
    duration.as_secs()
}

/// Size of the clock's register window in bytes.
pub const CLOCK_MEM_SIZE: u32 = 4096;

pub const REG_STATUS: u32 = 0x00;
pub const REG_DT: u32 = 0x01;
pub const REG_CTR0LO: u32 = 0x02;
pub const REG_CTR0HI: u32 = 0x03;
pub const REG_CTR1LO: u32 = 0x04;
pub const REG_CTR1HI: u32 = 0x05;
pub const REG_CTR0P: u32 = 0x06;
pub const REG_CTR1P: u32 = 0x07;

pub const STATUSBIT_RTC_EN: u32 = 1;
pub const STATUSBIT_CTR0_EN: u32 = 2;
pub const STATUSBIT_CTR1_EN: u32 = 4;
pub const STATUSBIT_CTR0_RESET: u32 = 8;
pub const STATUSBIT_CTR1_RESET: u32 = 16;
pub const STATUSBIT_CTR0_INTR: u32 = 32;
pub const STATUSBIT_CTR1_INTR: u32 = 64;

/// The bits of the status register that are flags: all but the two reset
/// bits.
pub const STATUS_FLAGS: u32 = 0x67;

/// The rate of the counters, in ticks per second.
pub const REF_FREQ: u64 = 1000000;

/// A reading of the host's clocks.
#[derive(Clone, Copy, Debug, PartialEq, Eq, Structural)]
pub struct HostTime {
    /// The host's tick counter, in ticks of `REF_FREQ`.
    pub ticks: u64,
    /// Whole seconds since the clock device was made.
    pub secs: u64,
}

/// `x` reduced to the range of `u64`.
pub open spec fn wrap_u64(x: int) -> u64 {
    (x % 0x1_0000_0000_0000_0000) as u64
}

/// `x` reduced to the range of `u32`.
pub open spec fn wrap_u32(x: int) -> u32 {
    (x % 0x1_0000_0000) as u32
}

/// `x` reduced to the range of `i64`, in two's complement.
pub open spec fn wrap_i64(x: int) -> i64 {
    let r = x % 0x1_0000_0000_0000_0000;
    if r >= 0x8000_0000_0000_0000 {
        (r - 0x1_0000_0000_0000_0000) as i64
    } else {
        r as i64
    }
}

/// The host's raw counter brought to ticks of `REF_FREQ`, where the counter
/// runs at `frequency` per second. A counter slower than `REF_FREQ` cannot
/// be brought to that rate.
pub open spec fn scaled_ticks(counter: u64, frequency: u64) -> Option<u64> {
    if frequency / REF_FREQ == 0 {
        None
    } else {
        Some(counter / (frequency / REF_FREQ))
    }
}

/// Brings a reading of the host's raw counter to ticks of `REF_FREQ`.
pub fn ticks_from_counter(counter: u64, frequency: u64) -> (ticks: Option<u64>)
    ensures
        ticks == scaled_ticks(counter, frequency),
{
    let div: u64 = frequency / REF_FREQ;
    if div == 0 {
        None
    } else {
        Some(counter / div)
    }
}

/// One free-running counter.
#[derive(Clone, Copy, Debug, PartialEq, Eq, Structural)]
pub struct Counter {
    pub enabled: bool,
    /// Whether the guest has asked for the counter's interrupt.
    pub interrupt: bool,
    /// The interrupt period that the guest has programmed.
    pub period: u32,
    /// The value that the guest last saw, or 0 after a restart.
    pub value: u64,
    /// The host tick at which the counter would have read 0.
    pub base: u64,
}

impl Counter {
    /// The counter after its value was sampled at host tick `ticks`.
    ///
    /// A running counter shows the ticks since its base. A stopped counter
    /// keeps its value and moves its base, so that it goes on from that value
    /// when it runs again.
    pub open spec fn sampled(self, ticks: u64) -> Counter {
        if self.enabled {
            Counter { value: wrap_u64(ticks - self.base), ..self }
        } else {
            Counter { base: wrap_u64(ticks - self.value), ..self }
        }
    }

    /// The counter after a restart at host tick `ticks`.
    pub open spec fn restarted(self, ticks: u64) -> Counter {
        Counter { value: 0, base: ticks, ..self }
    }

    /// The low 32 bits of the counter's value.
    pub open spec fn low_word(self) -> u32 {
        (self.value % 0x1_0000_0000) as u32
    }

    /// The high 32 bits of the counter's value.
    pub open spec fn high_word(self) -> u32 {
        (self.value / 0x1_0000_0000) as u32
    }

    /// A stopped counter that reads 0 at host tick `ticks`.
    pub fn new(ticks: u64) -> (c: Counter)
        ensures
            c == (Counter { enabled: false, interrupt: false, period: 0, value: 0, base: ticks }),
    {
        Counter { enabled: false, interrupt: false, period: 0, value: 0, base: ticks }
    }

    /// Samples the counter at host tick `ticks`.
    pub fn sample(&mut self, ticks: u64)
        ensures
            *final(self) == old(self).sampled(ticks),
    {
        if self.enabled {
            self.value = ticks.wrapping_sub(self.base);
        } else {
            self.base = ticks.wrapping_sub(self.value);
        }
    }

    /// Restarts the counter from 0 at host tick `ticks`.
    pub fn restart(&mut self, ticks: u64)
        ensures
            *final(self) == old(self).restarted(ticks),
    {
        self.base = ticks;
        self.value = 0;
    }

    /// The low word of the value as of the last sample.
    pub fn lo(&self) -> (w: u32)
        ensures
            w == self.low_word(),
    {
        let v: u64 = self.value;
        assert(v & 0xFFFF_FFFF == v % 0x1_0000_0000) by (bit_vector);
        (v & 0xFFFF_FFFF) as u32
    }

    /// The high word of the value as of the last sample.
    pub fn hi(&self) -> (w: u32)
        ensures
            w == self.high_word(),
    {
        let v: u64 = self.value;
        assert(v >> 32 == v / 0x1_0000_0000) by (bit_vector);
        (v >> 32) as u32
    }
}

/// The guest-visible time at `secs` seconds of host time under the given
/// adjustment: their sum, in 32 bits.
pub open spec fn timestamp_at(secs: u64, dt_adjust: i64) -> u32 {
    wrap_u32(secs + dt_adjust)
}

/// The adjustment under which the guest-visible time at `secs` seconds of
/// host time is `desired`.
pub open spec fn adjust_for(desired: u32, secs: u64) -> i64 {
    wrap_i64(desired - secs)
}

fn compute_timestamp(secs: u64, dt_adjust: i64) -> (t: u32)
    ensures
        t == timestamp_at(secs, dt_adjust),
{
    let sum: u64 = secs.wrapping_add_signed(dt_adjust);
    (sum % 0x1_0000_0000) as u32
}

fn compute_adjust(desired: u32, secs: u64) -> (a: i64)
    ensures
        a == adjust_for(desired, secs),
{
    let diff: u64 = (desired as u64).wrapping_sub(secs);
    if diff >= 0x8000_0000_0000_0000 {
        -((u64::MAX - diff) as i64) - 1
    } else {
        diff as i64
    }
}

/// The state of the clock as contracts see it.
pub struct ClockState {
    pub rtc_en: bool,
    /// The guest-visible time as of the last access that computed it.
    pub timestamp: u32,
    /// What is added to the host's seconds to get the guest-visible time.
    pub dt_adjust: i64,
    pub ctr0: Counter,
    pub ctr1: Counter,
}

/// What a read of the status register returns.
pub open spec fn status_word(s: ClockState) -> u32 {
    (if s.rtc_en { STATUSBIT_RTC_EN } else { 0 })
    | (if s.ctr0.enabled { STATUSBIT_CTR0_EN } else { 0 })
    | (if s.ctr1.enabled { STATUSBIT_CTR1_EN } else { 0 })
    | (if s.ctr0.interrupt { STATUSBIT_CTR0_INTR } else { 0 })
    | (if s.ctr1.interrupt { STATUSBIT_CTR1_INTR } else { 0 })
}

/// The real-time register after a read at `secs` seconds of host time.
///
/// While the clock runs, the time is computed from the host's. While it is
/// stopped, the time stays and the adjustment follows the host's time.
pub open spec fn dt_read(s: ClockState, secs: u64) -> ClockState {
    if s.rtc_en {
        ClockState { timestamp: timestamp_at(secs, s.dt_adjust), ..s }
    } else {
        ClockState { dt_adjust: adjust_for(s.timestamp, secs), ..s }
    }
}

/// A guest read of register `addr` at host time `now`: the state after it
/// and the value read.
pub open spec fn read_reg(s: ClockState, addr: u32, now: HostTime) -> (ClockState, u32) {
    if addr == REG_STATUS {
        (s, status_word(s))
    } else if addr == REG_DT {
        (dt_read(s, now.secs), dt_read(s, now.secs).timestamp)
    } else if addr == REG_CTR0LO {
        (ClockState { ctr0: s.ctr0.sampled(now.ticks), ..s }, s.ctr0.sampled(now.ticks).low_word())
    } else if addr == REG_CTR0HI {
        (s, s.ctr0.high_word())
    } else if addr == REG_CTR1LO {
        (ClockState { ctr1: s.ctr1.sampled(now.ticks), ..s }, s.ctr1.sampled(now.ticks).low_word())
    } else if addr == REG_CTR1HI {
        (s, s.ctr1.high_word())
    } else if addr == REG_CTR0P {
        (s, s.ctr0.period)
    } else if addr == REG_CTR1P {
        (s, s.ctr1.period)
    } else {
        (s, 0)
    }
}

/// A counter after a write of `val` to the status register at host tick
/// `ticks`, where `enable`, `interrupt` and `reset` are the counter's bits.
pub open spec fn counter_configured(
    c: Counter,
    val: u32,
    enable: u32,
    interrupt: u32,
    reset: u32,
    ticks: u64,
) -> Counter {
    let flagged = Counter { enabled: val & enable != 0, interrupt: val & interrupt != 0, ..c };
    if val & reset != 0 {
        flagged.restarted(ticks)
    } else {
        flagged
    }
}

/// The state after a write of `val` to the status register at host time `now`.
pub open spec fn status_write(s: ClockState, val: u32, now: HostTime) -> ClockState {
    ClockState {
        rtc_en: val & STATUSBIT_RTC_EN != 0,
        timestamp: timestamp_at(now.secs, s.dt_adjust),
        dt_adjust: s.dt_adjust,
        ctr0: counter_configured(
            s.ctr0,
            val,
            STATUSBIT_CTR0_EN,
            STATUSBIT_CTR0_INTR,
            STATUSBIT_CTR0_RESET,
            now.ticks,
        ),
        ctr1: counter_configured(
            s.ctr1,
            val,
            STATUSBIT_CTR1_EN,
            STATUSBIT_CTR1_INTR,
            STATUSBIT_CTR1_RESET,
            now.ticks,
        ),
    }
}

/// The state after a guest write of `val` to register `addr` at host time
/// `now`.
///
/// A write to the real-time register counts only while the clock is
/// stopped: it sets the time to `val`. The two period registers store `val`.
/// The counter registers cannot be written, and a write to a register that
/// does not exist is ignored.
pub open spec fn write_reg(s: ClockState, addr: u32, val: u32, now: HostTime) -> ClockState {
    if addr == REG_STATUS {
        status_write(s, val, now)
    } else if addr == REG_DT {
        if s.rtc_en {
            s
        } else {
            ClockState { timestamp: val, dt_adjust: adjust_for(val, now.secs), ..s }
        }
    } else if addr == REG_CTR0P {
        ClockState { ctr0: Counter { period: val, ..s.ctr0 }, ..s }
    } else if addr == REG_CTR1P {
        ClockState { ctr1: Counter { period: val, ..s.ctr1 }, ..s }
    } else {
        s
    }
}

/// The state of a clock that has just been made at host tick `ctr_base`:
/// the real-time register and both counters stopped and at 0.
pub open spec fn initial_state(ctr_base: u64) -> ClockState {
    ClockState {
        rtc_en: false,
        timestamp: 0,
        dt_adjust: 0,
        ctr0: Counter { enabled: false, interrupt: false, period: 0, value: 0, base: ctr_base },
        ctr1: Counter { enabled: false, interrupt: false, period: 0, value: 0, base: ctr_base },
    }
}

/// The clock peripheral.
pub struct Clock {
    /// When the device was made: the real-time register counts from here.
    time_start: Instant,
    rtc_en: bool,
    timestamp: u32,
    dt_adjust: i64,
    ctr0: Counter,
    ctr1: Counter,
}

impl View for Clock {
    type V = ClockState;

    closed spec fn view(&self) -> ClockState {
        ClockState {
            rtc_en: self.rtc_en,
            timestamp: self.timestamp,
            dt_adjust: self.dt_adjust,
            ctr0: self.ctr0,
            ctr1: self.ctr1,
        }
    }
}

impl Clock {
    /// A clock with everything stopped, made now, at host tick `ctr_base`.
    pub fn new(ctr_base: u64) -> (clock: Clock)
        ensures
            clock@ == initial_state(ctr_base),
    {
        Clock {
            time_start: instant_now(),
            rtc_en: false,
            timestamp: 0,
            dt_adjust: 0,
            ctr0: Counter::new(ctr_base),
            ctr1: Counter::new(ctr_base),
        }
    }

    /// Reads the host's clocks: the seconds since the device was made, beside
    /// the host's tick counter, which the caller has read.
    pub fn host_time(&self, ticks: u64) -> (now: HostTime)
        ensures
            now.ticks == ticks,
    {
        let present = instant_now();
        let elapsed = instant_since(&present, &self.time_start);
        HostTime { ticks, secs: duration_secs(&elapsed) }
    }

    /// A guest read of register `addr`, made now, at host tick `ticks`. It is
    /// the read that `read_at` makes at some reading of the seconds.
    pub fn read(&mut self, addr: u32, ticks: u64) -> (value: u32)
        ensures
            exists|secs: u64|
                (final(self)@, value) == #[trigger] read_reg(
                    old(self)@,
                    addr,
                    HostTime { ticks, secs },
                ),
    {
        let now = self.host_time(ticks);
        let value = self.read_at(addr, now);
        assert((self@, value) == read_reg(old(self)@, addr, HostTime { ticks, secs: now.secs }));
        value
    }

    /// A guest write of `val` to register `addr`, made now, at host tick
    /// `ticks`. It is the write that `write_at` makes at some reading of the
    /// seconds.
    pub fn write(&mut self, addr: u32, val: u32, ticks: u64)
        ensures
            exists|secs: u64|
                final(self)@ == #[trigger] write_reg(
                    old(self)@,
                    addr,
                    val,
                    HostTime { ticks, secs },
                ),
    {
        let now = self.host_time(ticks);
        self.write_at(addr, val, now);
        assert(self@ == write_reg(old(self)@, addr, val, HostTime { ticks, secs: now.secs }));
    }

    /// A guest read of register `addr` at host time `now`.
    pub fn read_at(&mut self, addr: u32, now: HostTime) -> (value: u32)
        ensures
            (final(self)@, value) == read_reg(old(self)@, addr, now),
    {
        if addr == REG_STATUS {
            (if self.rtc_en { STATUSBIT_RTC_EN } else { 0 })
            | (if self.ctr0.enabled { STATUSBIT_CTR0_EN } else { 0 })
            | (if self.ctr1.enabled { STATUSBIT_CTR1_EN } else { 0 })
            | (if self.ctr0.interrupt { STATUSBIT_CTR0_INTR } else { 0 })
            | (if self.ctr1.interrupt { STATUSBIT_CTR1_INTR } else { 0 })
        } else if addr == REG_DT {
            if self.rtc_en {
                self.timestamp = compute_timestamp(now.secs, self.dt_adjust);
            } else {
                self.dt_adjust = compute_adjust(self.timestamp, now.secs);
            }
            self.timestamp
        } else if addr == REG_CTR0LO {
            self.ctr0.sample(now.ticks);
            self.ctr0.lo()
        } else if addr == REG_CTR0HI {
            self.ctr0.hi()
        } else if addr == REG_CTR1LO {
            self.ctr1.sample(now.ticks);
            self.ctr1.lo()
        } else if addr == REG_CTR1HI {
            self.ctr1.hi()
        } else if addr == REG_CTR0P {
            self.ctr0.period
        } else if addr == REG_CTR1P {
            self.ctr1.period
        } else {
            0
        }
    }

    /// A guest write of `val` to register `addr` at host time `now`.
    pub fn write_at(&mut self, addr: u32, val: u32, now: HostTime)
        ensures
            final(self)@ == write_reg(old(self)@, addr, val, now),
    {
        if addr == REG_STATUS {
            self.rtc_en = (val & STATUSBIT_RTC_EN) != 0;
            self.ctr0.enabled = (val & STATUSBIT_CTR0_EN) != 0;
            self.ctr1.enabled = (val & STATUSBIT_CTR1_EN) != 0;
            self.ctr0.interrupt = (val & STATUSBIT_CTR0_INTR) != 0;
            self.ctr1.interrupt = (val & STATUSBIT_CTR1_INTR) != 0;
            if (val & STATUSBIT_CTR0_RESET) != 0 {
                self.ctr0.restart(now.ticks);
            }
            if (val & STATUSBIT_CTR1_RESET) != 0 {
                self.ctr1.restart(now.ticks);
            }
            self.timestamp = compute_timestamp(now.secs, self.dt_adjust);
        } else if addr == REG_DT {
            if !self.rtc_en {
                self.dt_adjust = compute_adjust(val, now.secs);
                self.timestamp = val;
            }
        } else if addr == REG_CTR0P {
            self.ctr0.period = val;
        } else if addr == REG_CTR1P {
            self.ctr1.period = val;
        }
    }
    pub fn rtc_enabled(&self) -> (on: bool)
        ensures
            on == self@.rtc_en,
    {
        self.rtc_en
    }

    /// The guest-visible time as of the last access that computed it.
    pub fn timestamp(&self) -> (t: u32)
        ensures
            t == self@.timestamp,
    {
        self.timestamp
    }

    pub fn dt_adjust(&self) -> (a: i64)
        ensures
            a == self@.dt_adjust,
    {
        self.dt_adjust
    }

    pub fn counter0(&self) -> (c: Counter)
        ensures
            c == self@.ctr0,
    {
        self.ctr0
    }

    pub fn counter1(&self) -> (c: Counter)
        ensures
            c == self@.ctr1,
    {
        self.ctr1
    }
}

/// One guest access to the clock.
pub enum Access {
    Read { addr: u32 },
    Write { addr: u32, val: u32 },
}

/// A guest access together with the host time at which it is made.
pub struct TimedAccess {
    pub access: Access,
    pub now: HostTime,
}

/// The state after one access.
pub open spec fn after(s: ClockState, a: TimedAccess) -> ClockState {
    match a.access {
        Access::Read { addr } => read_reg(s, addr, a.now).0,
        Access::Write { addr, val } => write_reg(s, addr, val, a.now),
    }
}

/// The state after the accesses of `trace`, made in order.
pub open spec fn after_all(s: ClockState, trace: Seq<TimedAccess>) -> ClockState
    decreases trace.len(),
{
    if trace.len() == 0 {
        s
    } else {
        after(after_all(s, trace.drop_last()), trace.last())
    }
}

/// Counter 0 of the clock for `index` 0, counter 1 for any other.
pub open spec fn counter_of(s: ClockState, index: int) -> Counter {
    if index == 0 {
        s.ctr0
    } else {
        s.ctr1
    }
}

/// Whether the access restarts the counter: a write to the status register
/// with the counter's reset bit.
pub open spec fn restarts(a: TimedAccess, index: int) -> bool {
    match a.access {
        Access::Read { addr } => false,
        Access::Write { addr, val } => addr == REG_STATUS && val & (if index == 0 {
            STATUSBIT_CTR0_RESET
        } else {
            STATUSBIT_CTR1_RESET
        }) != 0,
    }
}

/// Whether the host's ticks never go back along `trace`, starting at `from`.
pub open spec fn ticks_ordered(from: u64, trace: Seq<TimedAccess>) -> bool {
    &&& forall|i: int| 0 <= i < trace.len() ==> from <= (#[trigger] trace[i]).now.ticks
    &&& forall|i: int, j: int|
        0 <= i <= j < trace.len() ==> (#[trigger] trace[i]).now.ticks <= (#[trigger] trace[j]).now.ticks
}

/// The host tick of the last of the first `n` accesses of `trace`, or `from`
/// if `n` is 0.
pub open spec fn tick_after(from: u64, trace: Seq<TimedAccess>, n: int) -> u64 {
    if n <= 0 {
        from
    } else {
        trace[n - 1].now.ticks
    }
}

impl Counter {
    /// Whether the counter is not ahead of the host at tick `ticks`: a
    /// counter that has run since its base cannot show more than the ticks
    /// that have passed since then.
    pub open spec fn in_step(self, ticks: u64) -> bool {
        self.value + self.base <= ticks
    }

    /// Sampling a counter that is in step with the host, at a tick that is
    /// not earlier, never lowers its value, leaves the value of a stopped
    /// counter as it is, and leaves the counter in step.
    pub proof fn lemma_sample(self, at: u64, ticks: u64)
        requires
            self.in_step(at),
            at <= ticks,
        ensures
            self.sampled(ticks).value >= self.value,
            !self.enabled ==> self.sampled(ticks).value == self.value,
            self.enabled ==> self.sampled(ticks).value == ticks - self.base,
            self.sampled(ticks).in_step(ticks),
            self.sampled(ticks).enabled == self.enabled,
    {
    }

    /// Stopping a counter and starting it again loses nothing: whatever the
    /// host ticks at which it is sampled while stopped, a counter that is
    /// started again goes on from the value at which it was stopped.
    pub proof fn lemma_stop_and_go(self, at: u64, stopped: u64, resumed: u64)
        requires
            self.in_step(at),
            at <= stopped <= resumed,
            !self.enabled,
        ensures
            (Counter { enabled: true, ..self.sampled(stopped) }).sampled(resumed).value
                == self.value + (resumed - stopped),
    {
    }
}

proof fn lemma_after_all_step(s: ClockState, trace: Seq<TimedAccess>, n: int)
    requires
        0 <= n < trace.len(),
    ensures
        after_all(s, trace.take(n + 1)) == after(after_all(s, trace.take(n)), trace[n]),
{
    assert(trace.take(n + 1).drop_last() =~= trace.take(n));
}

proof fn lemma_ticks_go_on(from: u64, trace: Seq<TimedAccess>, n: int)
    requires
        ticks_ordered(from, trace),
        0 <= n < trace.len(),
    ensures
        tick_after(from, trace, n) <= trace[n].now.ticks,
{
    if n > 0 {
        assert(trace[n - 1].now.ticks <= trace[n].now.ticks);
    }
}

proof fn lemma_counter_step(s: ClockState, a: TimedAccess, index: int, at: u64)
    requires
        counter_of(s, index).in_step(at),
        at <= a.now.ticks,
        !restarts(a, index),
    ensures
        counter_of(after(s, a), index).value >= counter_of(s, index).value,
        counter_of(after(s, a), index).in_step(a.now.ticks),
        !counter_of(s, index).enabled ==> counter_of(after(s, a), index).value == counter_of(
            s,
            index,
        ).value,
{
    counter_of(s, index).lemma_sample(at, a.now.ticks);
}

/// A counter stays in step with the host. A new clock is in step with the
/// tick at which it was made, and whatever access is made to a clock whose
/// counter is in step, at a tick that is not earlier, leaves the counter in
/// step with the tick of the access; a restart too.
pub proof fn lemma_counter_stays_in_step(s: ClockState, a: TimedAccess, index: int, at: u64)
    requires
        counter_of(s, index).in_step(at),
        at <= a.now.ticks,
    ensures
        counter_of(after(s, a), index).in_step(a.now.ticks),
        forall|ctr_base: u64| #[trigger] counter_of(initial_state(ctr_base), index).in_step(ctr_base),
{
    if !restarts(a, index) {
        lemma_counter_step(s, a, index, at);
    }
}

proof fn lemma_counter_in_step(
    s: ClockState,
    from: u64,
    trace: Seq<TimedAccess>,
    index: int,
    n: int,
)
    requires
        counter_of(s, index).in_step(from),
        ticks_ordered(from, trace),
        forall|i: int| 0 <= i < trace.len() ==> !restarts(#[trigger] trace[i], index),
        0 <= n <= trace.len(),
    ensures
        counter_of(after_all(s, trace.take(n)), index).in_step(tick_after(from, trace, n)),
        counter_of(after_all(s, trace.take(n)), index).value >= counter_of(s, index).value,
    decreases n,
{
    if n > 0 {
        lemma_counter_in_step(s, from, trace, index, n - 1);
        lemma_after_all_step(s, trace, n - 1);
        lemma_ticks_go_on(from, trace, n - 1);
        lemma_counter_step(
            after_all(s, trace.take(n - 1)),
            trace[n - 1],
            index,
            tick_after(from, trace, n - 1),
        );
    }
}

/// A counter never runs backwards.
///
/// Take a clock whose counter `index` is in step with the host at tick
/// `from`, and any accesses after that, made at host ticks that never go
/// back, none of which restarts the counter. Then, however the accesses
/// start and stop the counter, its value after the first `j` of them is not
/// below its value after the first `i` of them, for `i <= j`.
pub proof fn lemma_counter_never_runs_backwards(
    s: ClockState,
    from: u64,
    trace: Seq<TimedAccess>,
    index: int,
    i: int,
    j: int,
)
    requires
        counter_of(s, index).in_step(from),
        ticks_ordered(from, trace),
        forall|k: int| 0 <= k < trace.len() ==> !restarts(#[trigger] trace[k], index),
        0 <= i <= j <= trace.len(),
    ensures
        counter_of(after_all(s, trace.take(i)), index).value <= counter_of(
            after_all(s, trace.take(j)),
            index,
        ).value,
    decreases j - i,
{
    if i < j {
        lemma_counter_never_runs_backwards(s, from, trace, index, i, j - 1);
        lemma_counter_in_step(s, from, trace, index, j - 1);
        lemma_after_all_step(s, trace, j - 1);
        lemma_ticks_go_on(from, trace, j - 1);
        lemma_counter_step(
            after_all(s, trace.take(j - 1)),
            trace[j - 1],
            index,
            tick_after(from, trace, j - 1),
        );
    }
}

/// A stopped counter is frozen: no access to the clock changes the value of
/// a counter that is stopped when the access is made, unless it restarts
/// the counter. This holds at any host time.
pub proof fn lemma_stopped_counter_is_frozen(s: ClockState, a: TimedAccess, index: int)
    requires
        !counter_of(s, index).enabled,
        !restarts(a, index),
    ensures
        counter_of(after(s, a), index).value == counter_of(s, index).value,
{
}

/// Starting or stopping a counter changes neither its value nor its base: a
/// write to the status register without the counter's reset bit sets the
/// counter's two flags from `val` and leaves the rest of it alone.
pub proof fn lemma_toggle_keeps_count(s: ClockState, val: u32, now: HostTime, index: int)
    requires
        val & (if index == 0 {
            STATUSBIT_CTR0_RESET
        } else {
            STATUSBIT_CTR1_RESET
        }) == 0,
    ensures
        counter_of(write_reg(s, REG_STATUS, val, now), index).value == counter_of(s, index).value,
        counter_of(write_reg(s, REG_STATUS, val, now), index).base == counter_of(s, index).base,
        counter_of(write_reg(s, REG_STATUS, val, now), index).period == counter_of(s, index).period,
{
}

/// A time that is written to the real-time register while the clock is
/// stopped is what the next read of the register returns, whatever the host
/// times of the write and of the read; and the read leaves the clock stopped
/// at that time.
pub proof fn lemma_written_time_reads_back(
    s: ClockState,
    val: u32,
    written: HostTime,
    read: HostTime,
)
    requires
        !s.rtc_en,
    ensures
        read_reg(write_reg(s, REG_DT, val, written), REG_DT, read).1 == val,
        read_reg(write_reg(s, REG_DT, val, written), REG_DT, read).0.timestamp == val,
        !read_reg(write_reg(s, REG_DT, val, written), REG_DT, read).0.rtc_en,
{
}

/// A clock that is set while stopped goes on from the time it was set to:
/// under the adjustment made for `val` at `set` seconds of host time, the
/// guest-visible time at `later` seconds is `val` plus the seconds that have
/// passed, in 32 bits.
pub proof fn lemma_time_resumes_from_set_value(val: u32, set: u64, later: u64)
    ensures
        timestamp_at(later, adjust_for(val, set)) == wrap_u32(val + (later - set)),
        timestamp_at(set, adjust_for(val, set)) == val,
{
}

/// The status register shows each flag in its own bit and nothing else.
pub proof fn lemma_status_bits(s: ClockState)
    ensures
        status_word(s) & STATUSBIT_RTC_EN != 0 <==> s.rtc_en,
        status_word(s) & STATUSBIT_CTR0_EN != 0 <==> s.ctr0.enabled,
        status_word(s) & STATUSBIT_CTR1_EN != 0 <==> s.ctr1.enabled,
        status_word(s) & STATUSBIT_CTR0_INTR != 0 <==> s.ctr0.interrupt,
        status_word(s) & STATUSBIT_CTR1_INTR != 0 <==> s.ctr1.interrupt,
        status_word(s) & !STATUS_FLAGS == 0,
{
    let a: u32 = if s.rtc_en { 1 } else { 0 };
    let b: u32 = if s.ctr0.enabled { 2 } else { 0 };
    let c: u32 = if s.ctr1.enabled { 4 } else { 0 };
    let d: u32 = if s.ctr0.interrupt { 32 } else { 0 };
    let e: u32 = if s.ctr1.interrupt { 64 } else { 0 };
    assert({
        &&& ((a | b | c | d | e) & 1 != 0 <==> a != 0)
        &&& ((a | b | c | d | e) & 2 != 0 <==> b != 0)
        &&& ((a | b | c | d | e) & 4 != 0 <==> c != 0)
        &&& ((a | b | c | d | e) & 32 != 0 <==> d != 0)
        &&& ((a | b | c | d | e) & 64 != 0 <==> e != 0)
        &&& (a | b | c | d | e) & !0x67u32 == 0
    }) by (bit_vector)
        requires
            a == 0 || a == 1,
            b == 0 || b == 2,
            c == 0 || c == 4,
            d == 0 || d == 32,
            e == 0 || e == 64,
    ;
}

/// The status register reads back the flags that were written to it: after
/// a write of `val`, a read returns the flag bits of `val`. The two reset
/// bits act once and are not stored.
pub proof fn lemma_status_reads_back(s: ClockState, val: u32, written: HostTime, read: HostTime)
    ensures
        read_reg(write_reg(s, REG_STATUS, val, written), REG_STATUS, read).1 == val & STATUS_FLAGS,
{
    let a: u32 = if val & 1 != 0 { 1 } else { 0 };
    let b: u32 = if val & 2 != 0 { 2 } else { 0 };
    let c: u32 = if val & 4 != 0 { 4 } else { 0 };
    let d: u32 = if val & 32 != 0 { 32 } else { 0 };
    let e: u32 = if val & 64 != 0 { 64 } else { 0 };
    assert((a | b | c | d | e) == val & 0x67) by (bit_vector)
        requires
            a == (if val & 1 != 0 { 1u32 } else { 0 }),
            b == (if val & 2 != 0 { 2u32 } else { 0 }),
            c == (if val & 4 != 0 { 4u32 } else { 0 }),
            d == (if val & 32 != 0 { 32u32 } else { 0 }),
            e == (if val & 64 != 0 { 64u32 } else { 0 }),
    ;
}

} // verus!
