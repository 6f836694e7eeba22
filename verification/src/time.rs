//! Frame timing: a fixed-capacity ring buffer of recent frame durations and
//! the per-frame tick that feeds it. Durations are plain `u64` counts of
//! nanoseconds; the current time is supplied by the caller from a monotonic
//! clock.

use vstd::prelude::*;

verus! {

/// How many frame durations the log keeps.
pub const TIME_LOG_FRAMES: usize = 200;

/// The duration every slot of a fresh log starts with: one frame at a
/// common display rate, in nanoseconds.
pub const INITIAL_FRAME_NANOS: u64 = 16_000_000;

/// A fixed-capacity ring buffer. `push` overwrites the oldest slot once the
/// buffer has gone around; until then, reads cover only the slots written
/// so far (plus the initial fill value in slot zero).
pub struct LogBuffer<T> {
    head: usize,
    size: usize,
    samples: usize,
    contents: Vec<T>,
}

impl<T: Copy> LogBuffer<T> {
    /// The buffer's fixed capacity.
    pub closed spec fn cap(self) -> int {
        self.contents@.len() as int
    }

    /// The stored slots, oldest data overwritten in ring order.
    pub closed spec fn slots(self) -> Seq<T> {
        self.contents@
    }

    /// The slot most recently written.
    pub closed spec fn head_pos(self) -> int {
        self.head as int
    }

    /// One more than the number of pushes so far.
    pub closed spec fn sample_count(self) -> int {
        self.samples as int
    }

    /// The saturation bound of the ring: reads never cover more slots.
    pub closed spec fn size_bound(self) -> int {
        self.size as int
    }

    /// Capacity is fixed and at least one; the head and the bounds stay in
    /// range.
    pub closed spec fn wf(self) -> bool {
        &&& self.cap() >= 1
        &&& 0 <= self.head_pos() < self.cap()
        &&& 1 <= self.size_bound() <= self.cap()
        &&& self.sample_count() >= 1
    }

    /// The readable window: the whole buffer once it has gone around, and
    /// only the slots written so far before that.
    pub open spec fn window(self) -> Seq<T> {
        if self.sample_count() > self.size_bound() {
            self.slots()
        } else {
            self.slots().subrange(0, self.sample_count())
        }
    }

    /// A buffer of `size` slots, all holding `init_val`.
    pub fn new(size: usize, init_val: T) -> (b: Self)
        requires
            size >= 1,
        ensures
            b.wf(),
            b.cap() == size,
            b.size_bound() == size,
            b.sample_count() == 1,
            b.head_pos() == 0,
            b.slots() == Seq::new(size as nat, |i: int| init_val),
    {
        let mut contents: Vec<T> = Vec::new();
        let mut i: usize = 0;
        while i < size
            invariant
                0 <= i <= size,
                contents@.len() == i as int,
                forall|k: int| 0 <= k < i ==> contents@[k] == init_val,
            decreases size - i,
        {
            contents.push(init_val);
            i += 1;
        }
        let b = LogBuffer { head: 0, size, samples: 1, contents };
        proof {
            assert(b.contents@ =~= Seq::new(size as nat, |k: int| init_val));
        }
        b
    }

    /// Writes `item` over the slot after the head; the count of samples
    /// grows by one (saturating), and the read bound stays at the capacity.
    pub fn push(&mut self, item: T)
        requires
            old(self).wf(),
        ensures
            final(self).wf(),
            final(self).cap() == old(self).cap(),
            final(self).head_pos() == (old(self).head_pos() + 1) % old(self).cap(),
            final(self).slots() == old(self).slots().update(final(self).head_pos(), item),
            final(self).size_bound() == if old(self).size_bound() + 1 <= old(self).cap() {
                old(self).size_bound() + 1
            } else {
                old(self).cap()
            },
            final(self).sample_count() == if old(self).sample_count() < usize::MAX {
                old(self).sample_count() + 1
            } else {
                old(self).sample_count()
            },
    {
        let len = self.contents.len();
        self.head = (self.head + 1) % len;
        self.contents[self.head] = item;
        if self.size < len {
            self.size = self.size + 1;
        }
        if self.samples < usize::MAX {
            self.samples = self.samples + 1;
        }
    }

    /// The most recently written slot (the initial fill value before any
    /// push).
    pub fn latest(&self) -> (r: T)
        requires
            self.wf(),
        ensures
            r == self.slots()[self.head_pos()],
    {
        self.contents[self.head]
    }

    /// How many slots a read covers.
    pub fn window_len(&self) -> (n: usize)
        requires
            self.wf(),
        ensures
            n == self.window().len(),
            n >= 1,
    {
        if self.samples > self.size {
            self.contents.len()
        } else {
            self.samples
        }
    }

    /// A copy of the readable window, oldest-overwritten ring order.
    pub fn contents(&self) -> (r: Vec<T>)
        requires
            self.wf(),
        ensures
            r@ == self.window(),
    {
        let n = self.window_len();
        let mut r: Vec<T> = Vec::new();
        let mut i: usize = 0;
        while i < n
            invariant
                self.wf(),
                n == self.window().len(),
                0 <= i <= n,
                r@ == self.window().subrange(0, i as int),
            decreases n - i,
        {
            let x = self.window_at(i);
            r.push(x);
            proof {
                assert(r@ =~= self.window().subrange(0, i + 1));
            }
            i += 1;
        }
        proof {
            assert(self.window().subrange(0, n as int) =~= self.window());
        }
        r
    }

    /// The readable slot at a position.
    pub fn window_at(&self, i: usize) -> (r: T)
        requires
            self.wf(),
            (i as int) < self.window().len(),
        ensures
            r == self.window()[i as int],
    {
        self.contents[i]
    }
}

/// The sum of the elements of `s` from position `i` on.
pub open spec fn nanos_sum(s: Seq<u64>, i: int) -> int
    decreases s.len() - i,
{
    if i < 0 || i >= s.len() {
        0
    } else {
        s[i] + nanos_sum(s, i + 1)
    }
}

/// Per-frame timing: the last tick's moment, a ring of recent frame
/// durations, the accumulated un-simulated time, and the frame counter.
pub struct TimeContext {
    last_now: u64,
    frame_durations: LogBuffer<u64>,
    residual_update_dt: u64,
    frame_count: u64,
}

impl TimeContext {
    /// The ring of recent frame durations.
    pub closed spec fn durations(self) -> LogBuffer<u64> {
        self.frame_durations
    }

    /// The moment of the last tick.
    pub closed spec fn last_tick(self) -> u64 {
        self.last_now
    }

    /// Time ticked but not yet consumed by fixed-step simulation.
    pub closed spec fn residual(self) -> u64 {
        self.residual_update_dt
    }

    /// How many ticks have happened.
    pub closed spec fn frames(self) -> u64 {
        self.frame_count
    }

    /// The ring is well formed and holds the fixed number of slots.
    pub open spec fn wf(self) -> bool {
        self.durations().wf() && self.durations().cap() == TIME_LOG_FRAMES as int
    }

    /// A fresh context at time `now`, with every duration slot primed to the
    /// initial frame duration.
    pub fn new(now: u64) -> (t: Self)
        ensures
            t.wf(),
            t.last_tick() == now,
            t.residual() == 0,
            t.frames() == 0,
            t.durations().sample_count() == 1,
            t.durations().slots() == Seq::new(
                TIME_LOG_FRAMES as nat,
                |i: int| INITIAL_FRAME_NANOS,
            ),
    {
        TimeContext {
            last_now: now,
            frame_durations: LogBuffer::new(TIME_LOG_FRAMES, INITIAL_FRAME_NANOS),
            residual_update_dt: 0,
            frame_count: 0,
        }
    }

    /// The duration a tick at `now` records: the time since the last tick,
    /// or zero if the supplied clock ran backwards.
    pub open spec fn tick_delta(self, now: u64) -> u64 {
        if now >= self.last_tick() {
            (now - self.last_tick()) as u64
        } else {
            0
        }
    }

    /// Marks the end of a frame at time `now`: records the time since the
    /// last tick in the duration ring, accumulates it into the residual
    /// (saturating), and counts the frame (saturating).
    pub fn tick(&mut self, now: u64)
        requires
            old(self).wf(),
        ensures
            final(self).wf(),
            final(self).last_tick() == now,
            final(self).durations().head_pos() == (old(self).durations().head_pos() + 1) % (
            TIME_LOG_FRAMES as int),
            final(self).durations().slots() == old(self).durations().slots().update(
                final(self).durations().head_pos(),
                old(self).tick_delta(now),
            ),
            final(self).durations().sample_count() == if old(self).durations().sample_count()
                < usize::MAX {
                old(self).durations().sample_count() + 1
            } else {
                old(self).durations().sample_count()
            },
            final(self).residual() == if old(self).residual() + old(self).tick_delta(now)
                <= u64::MAX {
                (old(self).residual() + old(self).tick_delta(now)) as u64
            } else {
                u64::MAX
            },
            final(self).frames() == if old(self).frames() < u64::MAX {
                (old(self).frames() + 1) as u64
            } else {
                old(self).frames()
            },
    {
        let dt = if now >= self.last_now {
            now - self.last_now
        } else {
            0
        };
        self.frame_durations.push(dt);
        self.last_now = now;
        if self.frame_count < u64::MAX {
            self.frame_count = self.frame_count + 1;
        }
        if self.residual_update_dt <= u64::MAX - dt {
            self.residual_update_dt = self.residual_update_dt + dt;
        } else {
            self.residual_update_dt = u64::MAX;
        }
    }

    /// The duration recorded by the most recent tick.
    pub fn delta(&self) -> (r: u64)
        requires
            self.wf(),
        ensures
            r == self.durations().slots()[self.durations().head_pos()],
    {
        self.frame_durations.latest()
    }
}

/// The mean of the recorded frame durations: the sum of the readable window
/// divided by its length.
pub fn average_delta(tc: &TimeContext) -> (r: u64)
    requires
        tc.wf(),
    ensures
        r as int == nanos_sum(tc.durations().window(), 0) / (tc.durations().window().len() as int),
{
    let n = tc.frame_durations.window_len();
    let ghost win = tc.durations().window();
    let mut acc: u128 = 0;
    let mut i: usize = 0;
    proof {
        assert(nanos_sum(win, 0) - nanos_sum(win, 0) == 0);
    }
    while i < n
        invariant
            tc.wf(),
            n == win.len(),
            win == tc.durations().window(),
            0 <= i <= n,
            acc as int == nanos_sum(win, 0) - nanos_sum(win, i as int),
            acc as int <= i * (u64::MAX as int),
        decreases n - i,
    {
        let x = tc.frame_durations.window_at(i);
        proof {
            assert(nanos_sum(win, i as int) == win[i as int] + nanos_sum(win, i + 1));
            assert(acc as int + x as int <= i * (u64::MAX as int) + (u64::MAX as int));
            assert(i * (u64::MAX as int) + (u64::MAX as int) == (i + 1) * (u64::MAX as int))
                by (nonlinear_arith);
        }
        acc = acc + (x as u128);
        i += 1;
    }
    proof {
        assert(nanos_sum(win, n as int) == 0);
        assert(acc as int == nanos_sum(win, 0));
        assert(acc as int <= n * (u64::MAX as int));
        vstd::arithmetic::div_mod::lemma_div_is_ordered(
            acc as int,
            n * (u64::MAX as int),
            n as int,
        );
        vstd::arithmetic::div_mod::lemma_div_by_multiple(u64::MAX as int, n as int);
        assert((n * (u64::MAX as int)) / (n as int) == u64::MAX as int) by {
            assert(n * (u64::MAX as int) == (u64::MAX as int) * (n as int)) by (nonlinear_arith);
        }
    }
    let avg = acc / (n as u128);
    proof {
        assert(avg as int == acc as int / (n as int));
        assert(avg <= u64::MAX as u128);
    }
    avg as u64
}

} // verus!
