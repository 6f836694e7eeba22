//! Timers that convert deadlines into dispatch triggers. Time is a plain
//! `u64` count of nanoseconds on a monotonic clock supplied by the caller;
//! events are plain `u64` tokens.
//!
//! A timer check fires every timer whose deadline has passed, in the order
//! the timers were scheduled. A repeating timer's next deadline advances by
//! its interval from the old deadline — not from the moment of the check —
//! so a late check does not drift the schedule; a check that stays more
//! than one interval late fires only once per check and catches up one
//! interval at a time. A one-shot timer is removed once fired.

use vstd::prelude::*;

verus! {

/// A scheduled trigger: an event token to issue once `deadline` has passed.
#[derive(Clone, Copy, PartialEq, Eq, Structural, Debug)]
pub struct Timer {
    /// The moment (nanoseconds) after which the timer fires.
    pub deadline: u64,
    /// For repeating timers, the distance between deadlines.
    pub interval: u64,
    /// The event token handed to the dispatcher when the timer fires.
    pub event: u64,
    /// Whether the timer re-arms after firing.
    pub repeat: bool,
}

/// Whether a timer is due at time `now`: its deadline lies strictly in the
/// past.
pub open spec fn timer_due(t: Timer, now: u64) -> bool {
    t.deadline < now
}

/// The event tokens of the timers from position `i` on that are due at
/// `now`, in schedule order.
pub open spec fn due_events(timers: Seq<Timer>, now: u64, i: int) -> Seq<u64>
    decreases timers.len() - i,
{
    if i < 0 || i >= timers.len() {
        Seq::empty()
    } else {
        let rest = due_events(timers, now, i + 1);
        if timer_due(timers[i], now) {
            seq![timers[i].event] + rest
        } else {
            rest
        }
    }
}

/// The timer list after a check at `now`, from position `i` on: a due
/// repeating timer advances its deadline by its interval (saturating at the
/// largest representable time), a due one-shot timer is removed, and every
/// other timer is kept as it is, in order.
pub open spec fn advanced_timers(timers: Seq<Timer>, now: u64, i: int) -> Seq<Timer>
    decreases timers.len() - i,
{
    if i < 0 || i >= timers.len() {
        Seq::empty()
    } else {
        let rest = advanced_timers(timers, now, i + 1);
        let t = timers[i];
        if timer_due(t, now) {
            if t.repeat {
                seq![
                    Timer {
                        deadline: if t.deadline + t.interval <= u64::MAX {
                            (t.deadline + t.interval) as u64
                        } else {
                            u64::MAX
                        },
                        ..t
                    },
                ] + rest
            } else {
                rest
            }
        } else {
            seq![t] + rest
        }
    }
}

/// The wall-clock half of the dispatch loop: a list of timers, checked once
/// per loop iteration against the current time.
pub struct EventChannel {
    timers: Vec<Timer>,
}

impl EventChannel {
    /// The scheduled timers, in schedule order.
    pub closed spec fn timer_seq(self) -> Seq<Timer> {
        self.timers@
    }

    /// No timers scheduled.
    pub fn new() -> (c: Self)
        ensures
            c.timer_seq() == Seq::<Timer>::empty(),
    {
        EventChannel { timers: Vec::new() }
    }

    /// Schedules `event` to fire once `interval` nanoseconds have passed
    /// from `now`, and — when `repeat` holds — every `interval` after that.
    /// A deadline past the largest representable time saturates there.
    pub fn schedule(&mut self, event: u64, now: u64, interval: u64, repeat: bool)
        ensures
            final(self).timer_seq() == old(self).timer_seq().push(
                Timer {
                    deadline: if now + interval <= u64::MAX {
                        (now + interval) as u64
                    } else {
                        u64::MAX
                    },
                    interval,
                    event,
                    repeat,
                },
            ),
    {
        let deadline = if now <= u64::MAX - interval {
            now + interval
        } else {
            u64::MAX
        };
        self.timers.push(Timer { deadline, interval, event, repeat });
    }

    /// Schedules `event` to fire at the very next timer check: a one-shot
    /// timer whose deadline has already arrived.
    pub fn issue(&mut self, event: u64, now: u64)
        ensures
            final(self).timer_seq() == old(self).timer_seq().push(
                Timer { deadline: now, interval: 0, event, repeat: false },
            ),
    {
        self.timers.push(Timer { deadline: now, interval: 0, event, repeat: false });
    }

    /// How many timers are scheduled.
    pub fn timer_count(&self) -> (n: usize)
        ensures
            n == self.timer_seq().len(),
    {
        self.timers.len()
    }

    /// The timer at a position, in schedule order.
    pub fn timer_at(&self, i: usize) -> (t: Timer)
        requires
            i < self.timer_seq().len(),
        ensures
            t == self.timer_seq()[i as int],
    {
        self.timers[i]
    }

    /// One timer check at time `now`: returns the event tokens of every due
    /// timer, in schedule order; re-arms due repeating timers one interval
    /// past their old deadline; and removes due one-shot timers.
    pub fn update_timers(&mut self, now: u64) -> (fired: Vec<u64>)
        ensures
            fired@ == due_events(old(self).timer_seq(), now, 0),
            final(self).timer_seq() == advanced_timers(old(self).timer_seq(), now, 0),
    {
        let n = self.timers.len();
        let mut fired: Vec<u64> = Vec::new();
        let mut kept: Vec<Timer> = Vec::new();
        let mut i: usize = 0;
        proof {
            assert(fired@ + due_events(self.timers@, now, 0) =~= due_events(self.timers@, now, 0));
            assert(kept@ + advanced_timers(self.timers@, now, 0) =~= advanced_timers(
                self.timers@,
                now,
                0,
            ));
        }
        while i < n
            invariant
                n == self.timers@.len(),
                0 <= i <= n,
                *self == *old(self),
                fired@ + due_events(self.timers@, now, i as int) == due_events(
                    self.timers@,
                    now,
                    0,
                ),
                kept@ + advanced_timers(self.timers@, now, i as int) == advanced_timers(
                    self.timers@,
                    now,
                    0,
                ),
            decreases n - i,
        {
            let t = self.timers[i];
            let ghost pre_fired = fired@;
            let ghost pre_kept = kept@;
            if t.deadline < now {
                fired.push(t.event);
                proof {
                    assert(due_events(self.timers@, now, i as int) == seq![t.event] + due_events(
                        self.timers@,
                        now,
                        i + 1,
                    ));
                    assert(fired@ + due_events(self.timers@, now, i + 1) =~= pre_fired
                        + due_events(self.timers@, now, i as int));
                }
                if t.repeat {
                    let next = if t.deadline <= u64::MAX - t.interval {
                        t.deadline + t.interval
                    } else {
                        u64::MAX
                    };
                    kept.push(Timer { deadline: next, ..t });
                    proof {
                        assert(advanced_timers(self.timers@, now, i as int) == seq![
                            Timer { deadline: next, ..t },
                        ] + advanced_timers(self.timers@, now, i + 1));
                        assert(kept@ + advanced_timers(self.timers@, now, i + 1) =~= pre_kept
                            + advanced_timers(self.timers@, now, i as int));
                    }
                } else {
                    proof {
                        assert(advanced_timers(self.timers@, now, i as int) == advanced_timers(
                            self.timers@,
                            now,
                            i + 1,
                        ));
                    }
                }
            } else {
                kept.push(t);
                proof {
                    assert(due_events(self.timers@, now, i as int) == due_events(
                        self.timers@,
                        now,
                        i + 1,
                    ));
                    assert(advanced_timers(self.timers@, now, i as int) == seq![t]
                        + advanced_timers(self.timers@, now, i + 1));
                    assert(kept@ + advanced_timers(self.timers@, now, i + 1) =~= pre_kept
                        + advanced_timers(self.timers@, now, i as int));
                }
            }
            i += 1;
        }
        proof {
            assert(due_events(self.timers@, now, n as int) =~= Seq::<u64>::empty());
            assert(advanced_timers(self.timers@, now, n as int) =~= Seq::<Timer>::empty());
            assert(fired@ + Seq::<u64>::empty() =~= fired@);
            assert(kept@ + Seq::<Timer>::empty() =~= kept@);
        }
        self.timers = kept;
        fired
    }
}

} // verus!
