//! The event scheduler: global simulated time and the queue of timed
//! events that drives the CPU and the peripheral subsystems.

use vstd::prelude::*;

verus! {

/// Master cycles one internal (IO) cycle of the CPU consumes: the cost of
/// a CPU cycle without a bus access.
pub const IO_CYCLE_MASTER_CYCLES: u64 = 6;

/// A timed event, dispatched to the subsystem that owns it. The payloads
/// the owning components attach (PPU sub-events, controller sub-events)
/// belong to those components; the scheduler only orders and delivers.
#[derive(Clone, Copy, Debug, PartialEq, Eq, Structural)]
pub enum Event {
    Ppu,
    HvIrq,
    Controllers,
    UpdateApu,
}

/// Scheduler state: the current master-cycle counter, the snapshot
/// components use to compute delta time, the soft deadline the CPU runs
/// until, and the pending events ordered by firing time (stable among equal
/// times, earliest first).
#[derive(Clone, Debug)]
pub struct Schedule {
    pub cur_time: u64,
    pub last_poll_time: u64,
    pub target_time: u64,
    pub events: Vec<(Event, u64)>,
}

/// The queue is sorted by firing time, so the front entry is the earliest
/// event and, among equal times, the earliest inserted.
pub open spec fn times_sorted(s: Seq<(Event, u64)>) -> bool {
    forall|i: int, j: int| 0 <= i <= j < s.len() ==> s[i].1 <= s[j].1
}

impl Schedule {
    /// Well-formedness: the queue is sorted by firing time, and the target
    /// never lies beyond an event still queued unless it has already been
    /// reached (a preempt pulled it to the current time).
    pub open spec fn wf(self) -> bool {
        &&& times_sorted(self.events@)
        &&& (self.target_time <= self.cur_time || forall|i: int|
            0 <= i < self.events@.len() ==> self.target_time <= self.events@[i].1)
    }

    /// `t` is a lower bound on the whole future of the run: the current
    /// time has reached it, and every queued event fires at or after it.
    /// After a pop returns an event at time `t`, this holds of `t`, every
    /// later operation preserves it, and any later pop returns a time at or
    /// after it: pops are monotone non-decreasing in time within a run.
    pub open spec fn min_bound(self, t: u64) -> bool {
        &&& t <= self.cur_time
        &&& forall|i: int| 0 <= i < self.events@.len() ==> t <= self.events@[i].1
    }

    /// What `pop_pending_event` returns: the front event when it is due,
    /// nothing otherwise.
    pub open spec fn spec_pop(self) -> Option<(Event, u64)> {
        if self.events@.len() > 0 && self.events@[0].1 <= self.cur_time {
            Some(self.events@[0])
        } else {
            None
        }
    }

    /// A fresh scheduler at time zero with nothing queued.
    pub fn new() -> (r: Schedule)
        ensures
            r.cur_time == 0,
            r.last_poll_time == 0,
            r.target_time == 0,
            r.events@.len() == 0,
            r.wf(),
    {
        Schedule { cur_time: 0, last_poll_time: 0, target_time: 0, events: Vec::new() }
    }

    /// Queues an event at an absolute firing time (components publish
    /// future events, so the time is at or after the current time). The
    /// event is placed after every event at the same or an earlier time,
    /// keeping the order stable; scheduling an event earlier than the
    /// target pulls the target down to it.
    pub fn schedule_at(&mut self, event: Event, time: u64)
        requires
            old(self).wf(),
            time >= old(self).cur_time,
        ensures
            final(self).wf(),
            final(self).cur_time == old(self).cur_time,
            final(self).last_poll_time == old(self).last_poll_time,
            final(self).target_time == if time < old(self).target_time {
                time
            } else {
                old(self).target_time
            },
            final(self).events@.len() == old(self).events@.len() + 1,
            exists|k: int|
                #![auto]
                0 <= k <= old(self).events@.len() && final(self).events@ == old(self).events@.subrange(0, k) + seq![(event, time)] + old(self).events@.subrange(
                    k,
                    old(self).events@.len() as int,
                ) && (forall|j: int| 0 <= j < k ==> old(self).events@[j].1 <= time) && (forall|
                    j: int,
                |
                    k <= j < old(self).events@.len() ==> old(self).events@[j].1 > time),
            forall|t: u64| old(self).min_bound(t) ==> #[trigger] final(self).min_bound(t),
    {
        let mut idx: usize = 0;
        while idx < self.events.len() && self.events[idx].1 <= time
            invariant
                0 <= idx <= self.events@.len(),
                forall|j: int| 0 <= j < idx ==> self.events@[j].1 <= time,
                *self == *old(self),
                time >= self.cur_time,
            decreases self.events@.len() - idx,
        {
            idx = idx + 1;
        }
        proof {
            assert(forall|j: int|
                idx <= j < self.events@.len() ==> self.events@[j].1 > time) by {
                assert(forall|j: int|
                    idx <= j < self.events@.len() ==> self.events@[idx as int].1
                        <= self.events@[j].1);
            }
        }
        self.events.insert(idx, (event, time));
        if time < self.target_time {
            self.target_time = time;
        }
        proof {
            let k = idx as int;
            let olds = old(self).events@;
            assert(self.events@ == olds.subrange(0, k) + seq![(event, time)] + olds.subrange(
                k,
                olds.len() as int,
            )) by {
                assert(self.events@ =~= olds.subrange(0, k) + seq![(event, time)] + olds.subrange(
                    k,
                    olds.len() as int,
                ));
            }
            assert(times_sorted(self.events@)) by {
                assert(forall|i: int, j: int|
                    0 <= i <= j < self.events@.len() ==> self.events@[i].1 <= self.events@[j].1);
            }
        }
    }

    /// Pops the earliest event that is due (its time has been reached).
    /// Among equal times events leave in insertion order. The returned
    /// time is a lower bound on the current time and on everything still
    /// queued, which is what makes successive pops monotone.
    pub fn pop_pending_event(&mut self) -> (r: Option<(Event, u64)>)
        requires
            old(self).wf(),
        ensures
            final(self).wf(),
            r == old(self).spec_pop(),
            final(self).cur_time == old(self).cur_time,
            final(self).last_poll_time == old(self).last_poll_time,
            final(self).target_time == old(self).target_time,
            r is Some ==> final(self).events@ == old(self).events@.subrange(
                1,
                old(self).events@.len() as int,
            ),
            r is None ==> final(self).events@ == old(self).events@,
            r matches Some((e, t)) ==> final(self).min_bound(t),
            forall|t: u64| old(self).min_bound(t) ==> #[trigger] final(self).min_bound(t),
    {
        if self.events.len() > 0 {
            if self.events[0].1 <= self.cur_time {
                let ev: (Event, u64) = self.events.remove(0);
                return Some(ev);
            }
        }
        None
    }

    /// Pulls the target down to the current time so the CPU leaves its
    /// slice at the next instruction boundary (preemption).
    pub fn set_target_to_cur(&mut self)
        requires
            old(self).wf(),
        ensures
            *final(self) == (Schedule { target_time: old(self).cur_time, ..*old(self) }),
            final(self).wf(),
            forall|t: u64| old(self).min_bound(t) ==> #[trigger] final(self).min_bound(t),
    {
        self.target_time = self.cur_time;
    }

    /// Sets the target to the earliest queued event, or to the current time
    /// when nothing is queued: the CPU's next slice runs to the next event.
    pub fn set_target_to_next_event(&mut self)
        requires
            old(self).wf(),
        ensures
            final(self).target_time == if old(self).events@.len() > 0 {
                old(self).events@[0].1
            } else {
                old(self).cur_time
            },
            *final(self) == (Schedule { target_time: final(self).target_time, ..*old(self) }),
            final(self).wf(),
            forall|t: u64| old(self).min_bound(t) ==> #[trigger] final(self).min_bound(t),
    {
        if self.events.len() > 0 {
            self.target_time = self.events[0].1;
        } else {
            self.target_time = self.cur_time;
        }
    }

    /// Advances the current time, as components do while they simulate
    /// work.
    pub fn advance(&mut self, cycles: u64)
        requires
            old(self).wf(),
            old(self).cur_time + cycles <= u64::MAX,
        ensures
            *final(self) == (Schedule {
                cur_time: (old(self).cur_time + cycles) as u64,
                ..*old(self)
            }),
            final(self).wf(),
            forall|t: u64| old(self).min_bound(t) ==> #[trigger] final(self).min_bound(t),
    {
        self.cur_time = self.cur_time + cycles;
    }

    /// Advances the current time by `n` internal CPU cycles' worth of
    /// master cycles, as the CPU does for the internal cycles of its
    /// instructions.
    pub fn add_io_cycles(&mut self, n: u64)
        requires
            old(self).wf(),
            old(self).cur_time + n * IO_CYCLE_MASTER_CYCLES <= u64::MAX,
        ensures
            *final(self) == (Schedule {
                cur_time: (old(self).cur_time + n * IO_CYCLE_MASTER_CYCLES) as u64,
                ..*old(self)
            }),
            final(self).wf(),
            forall|t: u64| old(self).min_bound(t) ==> #[trigger] final(self).min_bound(t),
    {
        self.cur_time = self.cur_time + n * IO_CYCLE_MASTER_CYCLES;
    }

    pub fn cur_time(&self) -> (r: u64)
        ensures
            r == self.cur_time,
    {
        self.cur_time
    }

    pub fn target_time(&self) -> (r: u64)
        ensures
            r == self.target_time,
    {
        self.target_time
    }
}

/// Scheduler monotonicity: the times handed out by `pop_pending_event`
/// never decrease over a run. After a pop returns an event at time `t`,
/// the schedule satisfies `min_bound(t)`; every operation's contract
/// preserves `min_bound(t)`; and in any state satisfying it, the next pop
/// that returns an event returns one at a time at or after `t`.
pub proof fn lemma_pop_monotone(s: Schedule, t: u64)
    requires
        s.min_bound(t),
    ensures
        match s.spec_pop() {
            Some((e2, t2)) => t2 >= t,
            None => true,
        },
{
}

} // verus!
