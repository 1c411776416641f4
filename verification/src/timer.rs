use vstd::prelude::*;

verus! {

/// `std::time::Instant`, carried opaquely.
#[verifier::external_type_specification]
#[verifier::external_body]
pub struct ExInstant(std::time::Instant);

/// `Instant::now`: the current instant. Nothing is stated of it: it is
/// whatever the system clock gives.
#[verifier::external_body]
fn instant_now() -> (t: std::time::Instant) {
    std::time::Instant::now()
}

/// `Instant::elapsed`: the time since `origin`. Nothing is stated of it: it
/// depends on the system clock.
#[verifier::external_body]
fn elapsed_since(origin: &std::time::Instant) -> (d: std::time::Duration) {
    origin.elapsed()
}

/// `Duration::as_nanos`: the whole nanoseconds of a duration. The duration
/// is opaque here, so nothing is stated of the number.
#[verifier::external_body]
fn whole_nanos(d: &std::time::Duration) -> (ns: u128) {
    d.as_nanos()
}

/// `a + b` in nanoseconds, held at the largest value instead of overflowing.
pub open spec fn later(a: u128, b: u128) -> u128 {
    if a + b <= u128::MAX {
        (a + b) as u128
    } else {
        u128::MAX
    }
}

/// What `check_tick` does at time `now` to a timer whose deadline is
/// `deadline`: whether it goes off, and the deadline after.
pub open spec fn tick_outcome(deadline: u128, tick_len: u128, now: u128) -> (bool, u128) {
    if now >= deadline {
        (true, later(deadline, tick_len))
    } else {
        (false, deadline)
    }
}

/// Timer that remembers when it is supposed to go off. Times are whole
/// nanoseconds since the timer was made.
pub struct Timer {
    origin: std::time::Instant,
    next_tick_at: u128,
    tick_len: u128,
    last_reading: u128,
}

impl Timer {
    /// When the timer goes off next, in nanoseconds since it was made.
    pub closed spec fn deadline(&self) -> u128 {
        self.next_tick_at
    }

    /// The length of a tick in nanoseconds.
    pub closed spec fn tick_length(&self) -> u128 {
        self.tick_len
    }

    /// The time, in nanoseconds since the timer was made, at which the timer
    /// last acted: the clock reading that its last operation went by.
    pub closed spec fn last_reading(&self) -> u128 {
        self.last_reading
    }

    /// A timer that goes off every `tick_len_ms` milliseconds, first one tick
    /// from now.
    pub fn new(tick_len_ms: u64) -> (t: Timer)
        ensures
            t.tick_length() == tick_len_ms * 1_000_000,
            t.deadline() == tick_len_ms * 1_000_000,
            t.last_reading() == 0,
    {
        let tick_len: u128 = tick_len_ms as u128 * 1_000_000;
        Timer {
            origin: instant_now(),
            next_tick_at: tick_len,
            tick_len: tick_len,
            last_reading: 0,
        }
    }

    /// The nanoseconds since the timer was made, by the system clock. The
    /// clock is monotonic; a reading is never taken as earlier than the one
    /// before it.
    fn now_ns(&self) -> (ns: u128)
        ensures
            ns >= self.last_reading(),
    {
        let d = elapsed_since(&self.origin);
        let reading = whole_nanos(&d);
        if reading < self.last_reading {
            self.last_reading
        } else {
            reading
        }
    }

    /// Makes the timer due at time `now_ns`.
    pub fn immediately_at(&mut self, now_ns: u128)
        ensures
            final(self).deadline() == now_ns,
            final(self).tick_length() == old(self).tick_length(),
            final(self).last_reading() == now_ns,
    {
        self.next_tick_at = now_ns;
        self.last_reading = now_ns;
    }

    /// Makes the timer due now: the deadline becomes the clock's reading.
    pub fn immediately(&mut self)
        ensures
            final(self).deadline() == final(self).last_reading(),
            final(self).tick_length() == old(self).tick_length(),
            final(self).last_reading() >= old(self).last_reading(),
    {
        let now = self.now_ns();
        self.immediately_at(now);
    }

    /// Puts the next tick one tick length after time `now_ns`.
    pub fn defer_at(&mut self, now_ns: u128)
        ensures
            final(self).deadline() == later(now_ns, old(self).tick_length()),
            final(self).tick_length() == old(self).tick_length(),
            final(self).last_reading() == now_ns,
    {
        self.next_tick_at = now_ns.saturating_add(self.tick_len);
        self.last_reading = now_ns;
    }

    /// Puts the next tick one tick length from now.
    pub fn defer(&mut self)
        ensures
            final(self).tick_length() == old(self).tick_length(),
            final(self).deadline() == later(final(self).last_reading(), old(self).tick_length()),
            final(self).last_reading() >= old(self).last_reading(),
    {
        let now = self.now_ns();
        self.defer_at(now);
    }

    /// At time `now_ns`: whether the timer goes off. When it does, the next
    /// deadline is one tick after the one that passed, not after `now_ns`, so
    /// the ticks keep their schedule.
    pub fn check_tick_at(&mut self, now_ns: u128) -> (r: bool)
        ensures
            (r, final(self).deadline()) == tick_outcome(
                old(self).deadline(),
                old(self).tick_length(),
                now_ns,
            ),
            final(self).tick_length() == old(self).tick_length(),
            final(self).last_reading() == now_ns,
    {
        self.last_reading = now_ns;
        if now_ns >= self.next_tick_at {
            self.next_tick_at = self.next_tick_at.saturating_add(self.tick_len);
            true
        } else {
            false
        }
    }

    /// Whether the timer goes off now, by the clock's reading; see
    /// `check_tick_at`.
    pub fn check_tick(&mut self) -> (r: bool)
        ensures
            (r, final(self).deadline()) == tick_outcome(
                old(self).deadline(),
                old(self).tick_length(),
                final(self).last_reading(),
            ),
            final(self).tick_length() == old(self).tick_length(),
            final(self).last_reading() >= old(self).last_reading(),
    {
        let now = self.now_ns();
        self.check_tick_at(now)
    }

    /// At time `now_ns`: how long to sleep until the deadline (nothing if it
    /// has passed), and the deadline moves on by one tick.
    pub fn sleep_until_tick_at(&mut self, now_ns: u128) -> (wait_ns: u128)
        ensures
            wait_ns == (if old(self).deadline() > now_ns {
                old(self).deadline() - now_ns
            } else {
                0
            }),
            final(self).deadline() == later(old(self).deadline(), old(self).tick_length()),
            final(self).tick_length() == old(self).tick_length(),
            final(self).last_reading() == now_ns,
    {
        self.last_reading = now_ns;
        let wait = if self.next_tick_at > now_ns {
            self.next_tick_at - now_ns
        } else {
            0
        };
        self.next_tick_at = self.next_tick_at.saturating_add(self.tick_len);
        wait
    }

    /// How long to sleep from now until the deadline; the deadline moves on by
    /// one tick. The caller sleeps for the returned nanoseconds.
    pub fn sleep_until_tick(&mut self) -> (wait_ns: u128)
        ensures
            wait_ns == (if old(self).deadline() > final(self).last_reading() {
                old(self).deadline() - final(self).last_reading()
            } else {
                0
            }),
            final(self).deadline() == later(old(self).deadline(), old(self).tick_length()),
            final(self).tick_length() == old(self).tick_length(),
            final(self).last_reading() >= old(self).last_reading(),
    {
        let now = self.now_ns();
        self.sleep_until_tick_at(now)
    }
}

/// The deadline after `check_tick` at each of the times in `nows`.
pub open spec fn deadline_after(deadline: u128, tick_len: u128, nows: Seq<u128>) -> u128
    decreases nows.len(),
{
    if nows.len() == 0 {
        deadline
    } else {
        let d = deadline_after(deadline, tick_len, nows.drop_last());
        tick_outcome(d, tick_len, nows.last()).1
    }
}

/// How many of the `check_tick` calls at the times in `nows` go off.
pub open spec fn ticks_after(deadline: u128, tick_len: u128, nows: Seq<u128>) -> nat
    decreases nows.len(),
{
    if nows.len() == 0 {
        0
    } else {
        let d = deadline_after(deadline, tick_len, nows.drop_last());
        ticks_after(deadline, tick_len, nows.drop_last()) + if tick_outcome(
            d,
            tick_len,
            nows.last(),
        ).0 {
            1nat
        } else {
            0nat
        }
    }
}

/// The timer keeps its schedule: whatever the times at which `check_tick`
/// is called, after it has gone off `k` times the deadline is the first
/// deadline plus `k` ticks (held at the largest value when that overflows).
pub proof fn lemma_ticks_keep_schedule(deadline: u128, tick_len: u128, nows: Seq<u128>)
    ensures
        deadline_after(deadline, tick_len, nows) == (if deadline + ticks_after(
            deadline,
            tick_len,
            nows,
        ) * tick_len <= u128::MAX {
            deadline + ticks_after(deadline, tick_len, nows) * tick_len
        } else {
            u128::MAX as int
        }),
    decreases nows.len(),
{
    if nows.len() > 0 {
        let rest = nows.drop_last();
        lemma_ticks_keep_schedule(deadline, tick_len, rest);
        let k = ticks_after(deadline, tick_len, rest);
        let d = deadline_after(deadline, tick_len, rest);
        assert((k + 1) * tick_len == k * tick_len + tick_len) by (nonlinear_arith);
        assert(0 <= k * tick_len) by (nonlinear_arith);
        let now = nows.last();
        assert(deadline_after(deadline, tick_len, nows) == tick_outcome(d, tick_len, now).1);
        assert(nows.drop_last() == rest);
        if now >= d {
            assert(ticks_after(deadline, tick_len, nows) == k + 1);
            if deadline + k * tick_len <= u128::MAX {
                assert(d == deadline + k * tick_len);
            } else {
                assert(d == u128::MAX);
            }
        } else {
            assert(ticks_after(deadline, tick_len, nows) == k);
        }
    } else {
        assert(ticks_after(deadline, tick_len, nows) == 0);
        assert(0 * tick_len == 0);
    }
}

/// `m` calls at the same time `now`.
pub open spec fn same_time(now: u128, m: nat) -> Seq<u128> {
    Seq::new(m, |i: int| now)
}

/// How many calls at time `now` go off before the timer is ahead of `now`:
/// every tick deadline up to `now` is caught up, one per call.
pub open spec fn ticks_due(deadline: u128, tick_len: u128, now: u128) -> nat {
    if now >= deadline {
        ((now - deadline) / (tick_len as int) + 1) as nat
    } else {
        0
    }
}

proof fn lemma_due_bounds(deadline: u128, tick_len: u128, now: u128)
    requires
        tick_len > 0,
        now >= deadline,
    ensures
        deadline + (ticks_due(deadline, tick_len, now) - 1) * tick_len <= now,
        deadline + ticks_due(deadline, tick_len, now) * tick_len > now,
{
    let q = (now - deadline) / (tick_len as int);
    let r = (now - deadline) % (tick_len as int);
    assert(q * tick_len + r == now - deadline && 0 <= r < tick_len) by (nonlinear_arith)
        requires
            tick_len > 0,
            now - deadline >= 0,
            q == (now - deadline) / (tick_len as int),
            r == (now - deadline) % (tick_len as int),
    ;
    assert((q + 1) * tick_len == q * tick_len + tick_len) by (nonlinear_arith);
}

/// Calls of `check_tick` at one time catch up every missed tick and then
/// stop: of `m` calls at time `now`, the first `k` go off and the rest do not,
/// where `k` counts the tick deadlines up to `now`; after them the deadline is
/// `k` ticks later, past `now`. This holds for a positive tick length, while
/// `now` plus a tick does not overflow.
pub proof fn lemma_ticks_catch_up(deadline: u128, tick_len: u128, now: u128, m: nat)
    requires
        tick_len > 0,
        now + tick_len <= u128::MAX,
    ensures
        ({
            let k = ticks_due(deadline, tick_len, now);
            &&& ticks_after(deadline, tick_len, same_time(now, m)) == if m <= k {
                m
            } else {
                k
            }
            &&& deadline_after(deadline, tick_len, same_time(now, m)) == deadline + (if m <= k {
                m
            } else {
                k
            }) * tick_len
            &&& m >= k ==> deadline_after(deadline, tick_len, same_time(now, m)) > now
        }),
    decreases m,
{
    let k = ticks_due(deadline, tick_len, now);
    if now >= deadline {
        lemma_due_bounds(deadline, tick_len, now);
    }
    if m > 0 {
        let prev = (m - 1) as nat;
        lemma_ticks_catch_up(deadline, tick_len, now, prev);
        assert(same_time(now, m).drop_last() =~= same_time(now, prev));
        assert(same_time(now, m).last() == now);
        let j: nat = if prev <= k {
            prev
        } else {
            k
        };
        let d = deadline_after(deadline, tick_len, same_time(now, prev));
        assert(d == deadline + j * tick_len);
        if prev < k {
            assert(j * tick_len <= (k - 1) * tick_len) by (nonlinear_arith)
                requires
                    j <= k - 1,
                    tick_len > 0,
            ;
            assert(d <= now);
            assert((j + 1) * tick_len == j * tick_len + tick_len) by (nonlinear_arith);
        } else {
            assert(j == k);
            if now >= deadline {
                assert(d > now);
            } else {
                assert(k == 0);
                assert(d == deadline);
            }
        }
    } else {
        assert(0 * tick_len == 0);
        if now < deadline {
        } else {
            assert(k >= 1);
        }
    }
}

} // verus!
