use vstd::prelude::*;

use crate::duration::{Duration, MAX_NANOS};

verus! {

/// The elapsed time and the number of reported periods after a reset, over
/// the elapsed time `timer`, the waiting flag and a period of `period`
/// nanoseconds. Every whole period is taken off and reported, except while
/// waiting: then at most one period passes, and where it does the timer
/// starts again from zero.
pub open spec fn reset_timer_and_count(timer: nat, waiting: bool, period: nat) -> (nat, nat) {
    if waiting && timer / period > 0 {
        (0, 1)
    } else {
        (timer % period, timer / period)
    }
}

/// What `Cooldown::reset` leaves behind: the new elapsed time, the waiting
/// flag, which a reset always clears, and the number of reported periods.
pub open spec fn reset_outcome(timer: nat, waiting: bool, period: nat) -> (nat, bool, nat) {
    let (t, c) = reset_timer_and_count(timer, waiting, period);
    (t, false, c)
}

/// What `Cooldown::reset_and_wait` leaves behind: the same as a reset,
/// except that the cooldown is left waiting.
pub open spec fn reset_and_wait_outcome(timer: nat, waiting: bool, period: nat) -> (nat, bool, nat) {
    let (t, c) = reset_timer_and_count(timer, waiting, period);
    (t, true, c)
}

/// Timer for events that have some minimal waiting period between occurrences.
/// It scales to any length of period: `reset` reports how many periods have
/// passed, so that short periods can trigger several occurrences at once.
/// In the waiting state at most one period is reported.
#[derive(Clone, Copy, Debug)]
pub struct Cooldown {
    timer: Duration,
    waiting: bool,
}

impl View for Cooldown {
    /// The elapsed time in nanoseconds, and whether the cooldown is waiting.
    type V = (nat, bool);

    closed spec fn view(&self) -> (nat, bool) {
        (self.timer@, self.waiting)
    }
}

impl Default for Cooldown {
    /// A cooldown with no elapsed time that is not waiting.
    fn default() -> (cd: Cooldown)
        ensures
            cd@ == (0nat, false),
    {
        Cooldown { timer: Duration::zero(), waiting: false }
    }
}

proof fn lemma_multiple_below(a: int, p: int, x: int)
    requires
        0 <= a,
        0 < p,
        a * p <= x,
    ensures
        a <= x / p,
{
    vstd::arithmetic::div_mod::lemma_div_is_ordered(a * p, x, p);
    vstd::arithmetic::mul::lemma_mul_is_commutative(a, p);
    vstd::arithmetic::div_mod::lemma_div_multiples_vanish(a, p);
}

impl Cooldown {
    /// A cooldown with no elapsed time that is waiting.
    pub fn waiting() -> (cd: Cooldown)
        ensures
            cd@ == (0nat, true),
    {
        Cooldown { timer: Duration::zero(), waiting: true }
    }

    /// Takes every whole period of `period_length` off the elapsed time and
    /// returns how many there were.
    fn drain_periods(&mut self, period_length: Duration) -> (count: u32)
        requires
            period_length@ > 0,
            old(self)@.0 / period_length@ <= u32::MAX,
        ensures
            count == old(self)@.0 / period_length@,
            final(self)@.0 == old(self)@.0 % period_length@,
            final(self)@.1 == old(self)@.1,
    {
        let ghost start: int = self.timer@ as int;
        let ghost p: int = period_length@ as int;
        let mut count: u32 = 0;
        while period_length.as_nanos() <= self.timer.as_nanos()
            invariant
                p == period_length@,
                p > 0,
                start / p <= u32::MAX,
                start == count * p + self.timer@,
                self.waiting == old(self).waiting,
            decreases self.timer@,
        {
            proof {
                assert((count + 1) * p == count * p + p) by (nonlinear_arith);
                lemma_multiple_below(count + 1, p, start);
            }
            self.timer = self.timer.sub(period_length);
            count = count + 1;
        }
        proof {
            vstd::arithmetic::div_mod::lemma_fundamental_div_mod_converse(
                start,
                p,
                count as int,
                self.timer@ as int,
            );
        }
        count
    }

    /// Resets the cooldown with `period_length` waiting time per period and
    /// returns the number of periods elapsed. Also resets the waiting status.
    /// When waiting, only one cooldown period can pass, and then the timer
    /// starts again from zero.
    pub fn reset(&mut self, period_length: Duration) -> (count: u32)
        requires
            period_length@ > 0,
            old(self)@.0 / period_length@ <= u32::MAX,
        ensures
            (final(self)@.0, final(self)@.1, count as nat) == reset_outcome(
                old(self)@.0,
                old(self)@.1,
                period_length@,
            ),
    {
        let count = self.drain_periods(period_length);
        let waited = self.waiting;
        self.waiting = false;
        if waited && 0 < count {
            self.timer = Duration::zero();
            1
        } else {
            count
        }
    }

    /// Same as `reset`, except that it leaves the cooldown waiting.
    pub fn reset_and_wait(&mut self, period_length: Duration) -> (count: u32)
        requires
            period_length@ > 0,
            old(self)@.0 / period_length@ <= u32::MAX,
        ensures
            (final(self)@.0, final(self)@.1, count as nat) == reset_and_wait_outcome(
                old(self)@.0,
                old(self)@.1,
                period_length@,
            ),
    {
        let count = self.drain_periods(period_length);
        let waited = self.waiting;
        self.wait();
        if waited && 0 < count {
            self.timer = Duration::zero();
            1
        } else {
            count
        }
    }

    /// Sets the cooldown to the waiting status.
    pub fn wait(&mut self)
        ensures
            final(self)@ == (old(self)@.0, true),
    {
        self.waiting = true;
    }

    /// Lets `delta` pass on the cooldown.
    pub fn tick(&mut self, delta: Duration)
        requires
            old(self)@.0 + delta@ <= MAX_NANOS,
        ensures
            final(self)@ == (old(self)@.0 + delta@, old(self)@.1),
    {
        self.timer = self.timer.add(delta);
    }

    /// Whether at least one period of `period_length` has passed.
    pub fn is_ready(&self, period_length: Duration) -> (ready: bool)
        ensures
            ready == (period_length@ <= self@.0),
    {
        period_length.as_nanos() <= self.timer.as_nanos()
    }
}

/// Time left before an entity disappears.
#[derive(Clone, Copy, Debug)]
pub struct LifeTime(pub Duration);

impl LifeTime {
    /// Takes `by` off the time left where that much is left, and says whether
    /// it was.
    pub fn try_decrease(&mut self, by: Duration) -> (alive: bool)
        ensures
            alive == (by@ <= old(self).0@),
            alive ==> final(self).0@ == old(self).0@ - by@,
            !alive ==> final(self).0@ == old(self).0@,
    {
        match self.0.checked_sub(by) {
            Some(dur) => {
                self.0 = dur;
                true
            },
            None => false,
        }
    }
}

/// Lets `delta` pass on every lifetime and says, per entity, whether its
/// lifetime ran out (then the entity is removed and its lifetime is left
/// as it was).
pub fn handle_lifetime(lifetimes: &mut Vec<LifeTime>, delta: Duration) -> (expired: Vec<bool>)
    ensures
        final(lifetimes).len() == old(lifetimes).len(),
        expired.len() == old(lifetimes).len(),
        forall|i: int|
            0 <= i < expired.len() ==> {
                &&& expired[i] == (delta@ > old(lifetimes)[i].0@)
                &&& !expired[i] ==> final(lifetimes)[i].0@ == old(lifetimes)[i].0@ - delta@
                &&& expired[i] ==> final(lifetimes)[i].0@ == old(lifetimes)[i].0@
            },
{
    let mut expired: Vec<bool> = Vec::new();
    let mut i: usize = 0;
    while i < lifetimes.len()
        invariant
            0 <= i <= lifetimes.len(),
            lifetimes.len() == old(lifetimes).len(),
            expired.len() == i,
            forall|j: int| i <= j < lifetimes.len() ==> lifetimes[j] == old(lifetimes)[j],
            forall|j: int|
                0 <= j < i ==> {
                    &&& expired[j] == (delta@ > old(lifetimes)[j].0@)
                    &&& !expired[j] ==> lifetimes[j].0@ == old(lifetimes)[j].0@ - delta@
                    &&& expired[j] ==> lifetimes[j].0@ == old(lifetimes)[j].0@
                },
        decreases lifetimes.len() - i,
    {
        let mut lt = lifetimes[i];
        let alive = lt.try_decrease(delta);
        lifetimes.set(i, lt);
        expired.push(!alive);
        i = i + 1;
    }
    expired
}

/// Law: a reset leaves less than one period on the cooldown, so that it is
/// no longer ready for that period.
pub proof fn lemma_reset_leaves_cooldown_unready(timer: nat, waiting: bool, period: nat)
    requires
        period > 0,
    ensures
        reset_outcome(timer, waiting, period).0 < period,
        reset_and_wait_outcome(timer, waiting, period).0 < period,
{
}

/// Law: outside the waiting state no time is lost by a reset: the elapsed
/// time is the reported periods plus what is left.
pub proof fn lemma_reset_conserves_time(timer: nat, period: nat)
    requires
        period > 0,
    ensures
        ({
            let (left, _, count) = reset_outcome(timer, false, period);
            timer == count * period + left
        }),
{
    vstd::arithmetic::div_mod::lemma_fundamental_div_mod(timer as int, period as int);
    vstd::arithmetic::mul::lemma_mul_is_commutative((timer / period) as int, period as int);
}

/// Law: a ready cooldown reports at least one period on a reset, and a
/// waiting one reports at most one.
pub proof fn lemma_reset_reports_ready_period(timer: nat, waiting: bool, period: nat)
    requires
        period > 0,
    ensures
        period <= timer ==> reset_outcome(timer, waiting, period).2 >= 1,
        waiting ==> reset_outcome(timer, waiting, period).2 <= 1,
        waiting ==> reset_and_wait_outcome(timer, waiting, period).2 <= 1,
{
    if period <= timer {
        vstd::arithmetic::div_mod::lemma_div_is_ordered(period as int, timer as int, period as int);
        vstd::arithmetic::div_mod::lemma_div_by_self(period as int);
    }
}

/// A reset always leaves the cooldown not waiting, and `reset_and_wait`
/// always leaves it waiting. Before a period has passed neither reports a
/// period or changes the elapsed time; once one has, a waiting cooldown
/// reports exactly one period and starts again from zero.
pub proof fn lemma_reset_waiting_state(timer: nat, waiting: bool, period: nat)
    requires
        period > 0,
    ensures
        !reset_outcome(timer, waiting, period).1,
        reset_and_wait_outcome(timer, waiting, period).1,
        timer < period ==> reset_outcome(timer, waiting, period) == (timer, false, 0nat),
        timer < period ==> reset_and_wait_outcome(timer, waiting, period) == (timer, true, 0nat),
        waiting && period <= timer ==> reset_outcome(timer, waiting, period) == (0nat, false, 1nat),
        waiting && period <= timer ==> reset_and_wait_outcome(timer, waiting, period) == (
            0nat,
            true,
            1nat,
        ),
{
    if timer < period {
        vstd::arithmetic::div_mod::lemma_basic_div_specific_divisor(period as int);
        vstd::arithmetic::div_mod::lemma_small_mod(timer, period);
        assert(timer / period == 0);
    } else {
        vstd::arithmetic::div_mod::lemma_div_is_ordered(period as int, timer as int, period as int);
        vstd::arithmetic::div_mod::lemma_div_by_self(period as int);
    }
}

} // verus!
