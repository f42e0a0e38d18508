//! The top level: the console model, the owner of all subsystems, and the
//! frame loop that alternates CPU slices with event dispatch.

use vstd::prelude::*;
use crate::cart::Header;
use crate::cpu::{boundary_spec, process_pending_exceptions, Cpu};
use crate::irqs::Irqs;
use crate::regs::Regs;
use crate::schedule::{times_sorted, Event, Schedule};

verus! {

/// Ceiling under which event times must stay when a frame starts, so that
/// scheduling the next frame event cannot overflow the 64-bit cycle
/// counter (it leaves room for far more than one frame).
pub const EVENT_TIME_LIMIT: u64 = 0xFFFF_FFFF_FF00_0000;

/// The console model, which fixes the master-cycle length of a frame.
#[derive(Clone, Copy, Debug, PartialEq, Eq, Structural)]
pub enum Model {
    Ntsc,
    Pal,
}

/// Master cycles in one frame of the given model.
pub open spec fn frame_cycles_spec(m: Model) -> u64 {
    match m {
        Model::Ntsc => 357366u64,
        Model::Pal => 425568u64,
    }
}

impl Model {
    pub fn frame_cycles(&self) -> (r: u64)
        ensures
            r == frame_cycles_spec(*self),
    {
        match *self {
            Model::Ntsc => 357366,
            Model::Pal => 425568,
        }
    }
}

/// Whether a frame-boundary event is somewhere in the queue.
pub open spec fn has_frame_event(s: Seq<(Event, u64)>) -> bool {
    exists|i: int| 0 <= i < s.len() && s[i].0 == Event::Ppu
}

/// Every queued frame-boundary event fires at or after `t` (the CPU never
/// runs past the frame boundary before it is dispatched).
pub open spec fn ppu_after(s: Seq<(Event, u64)>, t: u64) -> bool {
    forall|i: int| 0 <= i < s.len() && s[i].0 == Event::Ppu ==> s[i].1 >= t
}

/// Every queued event fires at or before `limit`.
pub open spec fn times_bounded(s: Seq<(Event, u64)>, limit: u64) -> bool {
    forall|i: int| 0 <= i < s.len() ==> s[i].1 <= limit
}

/// How many queued events are due at time `t`.
pub open spec fn count_due(s: Seq<(Event, u64)>, t: u64) -> nat
    decreases s.len(),
{
    if s.len() == 0 {
        0nat
    } else {
        (if s[0].1 <= t {
            1nat
        } else {
            0nat
        }) + count_due(s.drop_first(), t)
    }
}

/// Counting due events distributes over concatenation.
proof fn lemma_count_due_concat(a: Seq<(Event, u64)>, b: Seq<(Event, u64)>, t: u64)
    ensures
        count_due(a + b, t) == count_due(a, t) + count_due(b, t),
    decreases a.len(),
{
    if a.len() == 0 {
        assert(a + b =~= b);
    } else {
        assert((a + b).drop_first() =~= a.drop_first() + b);
        lemma_count_due_concat(a.drop_first(), b, t);
    }
}

/// A one-event queue has one due event exactly when that event is due.
proof fn lemma_count_due_single(e: Event, time: u64, t: u64)
    ensures
        count_due(seq![(e, time)], t) == if time <= t {
            1nat
        } else {
            0nat
        },
{
    assert(seq![(e, time)].drop_first() =~= Seq::<(Event, u64)>::empty());
    assert(count_due(Seq::<(Event, u64)>::empty(), t) == 0);
}

/// The firing time of the earliest queued frame-boundary event.
pub open spec fn first_ppu_time(s: Seq<(Event, u64)>) -> u64
    decreases s.len(),
{
    if s.len() == 0 {
        0u64
    } else if s[0].0 == Event::Ppu {
        s[0].1
    } else {
        first_ppu_time(s.drop_first())
    }
}

/// In a sorted queue holding a frame event, `first_ppu_time` names the
/// time of one queued frame event, and no queued frame event fires
/// earlier.
proof fn lemma_first_ppu_time(s: Seq<(Event, u64)>)
    requires
        times_sorted(s),
        has_frame_event(s),
    ensures
        exists|i: int| 0 <= i < s.len() && s[i].0 == Event::Ppu && s[i].1 == first_ppu_time(s),
        ppu_after(s, first_ppu_time(s)),
    decreases s.len(),
{
    if s[0].0 == Event::Ppu {
        assert(forall|i: int|
            0 <= i < s.len() && s[i].0 == Event::Ppu ==> s[i].1 >= s[0].1);
    } else {
        let r = s.drop_first();
        let w = choose|i: int| 0 <= i < s.len() && s[i].0 == Event::Ppu;
        assert(forall|j: int| 0 <= j < r.len() ==> r[j] == s[j + 1]);
        assert(r[w - 1] == s[w]);
        assert(has_frame_event(r));
        assert(forall|i: int, j: int| 0 <= i <= j < r.len() ==> r[i].1 <= r[j].1);
        lemma_first_ppu_time(r);
        assert(first_ppu_time(s) == first_ppu_time(r));
        assert forall|i: int|
            0 <= i < s.len() && s[i].0 == Event::Ppu implies s[i].1 >= first_ppu_time(s) by {
            assert(i >= 1);
            assert(r[i - 1] == s[i]);
            assert(r[i - 1].1 >= first_ppu_time(r));
        }
        let v = choose|i: int|
            0 <= i < r.len() && r[i].0 == Event::Ppu && r[i].1 == first_ppu_time(r);
        assert(s[v + 1] == r[v]);
    }
}

/// The queue after the frame-boundary dispatch: the old queue with the
/// next frame event, firing at exactly `t_new`, inserted stably by firing
/// time.
pub open spec fn ppu_inserted(q0: Seq<(Event, u64)>, q1: Seq<(Event, u64)>, t_new: u64) -> bool {
    exists|k: int|
        #![auto]
        0 <= k <= q0.len() && q1 == q0.subrange(0, k) + seq![(Event::Ppu, t_new)] + q0.subrange(
            k,
            q0.len() as int,
        ) && (forall|j: int| 0 <= j < k ==> q0[j].1 <= t_new) && (forall|j: int|
            k <= j < q0.len() ==> q0[j].1 > t_new)
}

/// What the inserted frame event does to the queue's aggregate facts: a
/// frame event is present; lower bounds at or below the new time and
/// upper bounds at or above it carry over; and no event due strictly
/// before the new time was added.
proof fn lemma_ppu_inserted_props(q0: Seq<(Event, u64)>, q1: Seq<(Event, u64)>, t_new: u64)
    requires
        ppu_inserted(q0, q1, t_new),
    ensures
        q1.len() == q0.len() + 1,
        has_frame_event(q1),
        forall|t: u64| ppu_after(q0, t) && t_new >= t ==> #[trigger] ppu_after(q1, t),
        forall|l: u64| times_bounded(q0, l) && t_new <= l ==> #[trigger] times_bounded(q1, l),
        forall|t: u64| t < t_new ==> #[trigger] count_due(q1, t) == count_due(q0, t),
{
    let x = (Event::Ppu, t_new);
    let k = choose|k: int|
        #![auto]
        0 <= k <= q0.len() && q1 == q0.subrange(0, k) + seq![x] + q0.subrange(
            k,
            q0.len() as int,
        ) && (forall|j: int| 0 <= j < k ==> q0[j].1 <= t_new) && (forall|j: int|
            k <= j < q0.len() ==> q0[j].1 > t_new);
    let a = q0.subrange(0, k);
    let b = q0.subrange(k, q0.len() as int);
    assert(q1[k] == x);
    assert(has_frame_event(q1));
    assert(forall|i: int| 0 <= i < k ==> q1[i] == q0[i]);
    assert(forall|i: int| k < i < q1.len() ==> q1[i] == q0[i - 1]);
    assert forall|t: u64| ppu_after(q0, t) && t_new >= t implies #[trigger] ppu_after(q1, t) by {
        assert(forall|i: int|
            0 <= i < q1.len() && q1[i].0 == Event::Ppu && i != k ==> q1[i].1 >= t);
    }
    assert forall|l: u64| times_bounded(q0, l) && t_new <= l implies #[trigger] times_bounded(
        q1,
        l,
    ) by {
        assert(forall|i: int| 0 <= i < q1.len() && i != k ==> q1[i].1 <= l);
    }
    assert forall|t: u64| t < t_new implies #[trigger] count_due(q1, t) == count_due(q0, t) by {
        lemma_count_due_concat(a + seq![x], b, t);
        lemma_count_due_concat(a, seq![x], t);
        lemma_count_due_single(Event::Ppu, t_new, t);
        lemma_count_due_concat(a, b, t);
        assert(q1 =~= (a + seq![x]) + b);
        assert(q0 =~= a + b);
    }
}

/// The emulator core: the CPU (register file and interrupt unit), bank-0
/// work RAM, the scheduler, the console model, the exception vectors read
/// from the cartridge, and the frame flag the frame-boundary event raises.
/// The PPU, APU and controllers are collaborators outside this core; the
/// events they own are ordered and delivered here.
#[derive(Clone, Debug)]
pub struct Emu {
    pub cpu: Cpu,
    pub wram: Vec<u8>,
    pub schedule: Schedule,
    pub model: Model,
    pub nmi_vector: u16,
    pub irq_vector: u16,
    pub reset_vector: u16,
    pub frame_finished: bool,
}

impl Emu {
    /// Well-formedness of the whole core: CPU and scheduler invariants,
    /// full-size bank-0 work RAM, and native mode (this core resets into
    /// native mode and stays there).
    pub open spec fn inv(self) -> bool {
        &&& self.cpu.inv()
        &&& self.schedule.wf()
        &&& self.wram@.len() == 0x10000
        &&& !self.cpu.regs.emulation_mode
    }

    /// Builds the core for a model and a parsed cartridge header, threads
    /// the scheduler through the subsystems (registering the first
    /// frame-boundary event), and performs a soft reset. The audio
    /// backend and the other frontend collaborators attach outside this
    /// core.
    pub fn new(model: Model, header: &Header) -> (r: Emu)
        ensures
            r.inv(),
            r.model == model,
            r.nmi_vector == header.nmi_vector,
            r.irq_vector == header.irq_vector,
            r.reset_vector == header.reset_vector,
            r.cpu.regs == (Regs { pc: header.reset_vector, ..Regs::initial() }),
            r.cpu.irqs == Irqs::initial(),
            !r.frame_finished,
            r.schedule.cur_time == 0,
            r.schedule.events@ == seq![(Event::Ppu, frame_cycles_spec(model))],
            has_frame_event(r.schedule.events@),
            ppu_after(r.schedule.events@, r.schedule.cur_time),
            times_bounded(r.schedule.events@, EVENT_TIME_LIMIT),
            forall|i: int| 0 <= i < r.wram@.len() ==> r.wram@[i] == 0,
    {
        let mut schedule = Schedule::new();
        let fc: u64 = model.frame_cycles();
        schedule.schedule_at(Event::Ppu, fc);
        proof {
            assert(schedule.events@ =~= seq![(Event::Ppu, frame_cycles_spec(model))]);
        }
        let mut wram: Vec<u8> = Vec::new();
        while wram.len() < 0x10000
            invariant
                wram@.len() <= 0x10000,
                forall|i: int| 0 <= i < wram@.len() ==> wram@[i] == 0,
            decreases 0x10000 - wram@.len(),
        {
            wram.push(0);
        }
        let mut emu = Emu {
            cpu: Cpu::new(),
            wram,
            schedule,
            model,
            nmi_vector: header.nmi_vector,
            irq_vector: header.irq_vector,
            reset_vector: header.reset_vector,
            frame_finished: false,
        };
        emu.soft_reset();
        proof {
            assert(emu.schedule.events@[0].0 == Event::Ppu);
            assert(has_frame_event(emu.schedule.events@));
        }
        emu
    }

    /// Soft reset: the register file returns to its power-on state with
    /// the program counter loaded from the reset vector, and the
    /// interrupt unit clears. (The APU, a collaborator outside this core,
    /// resets alongside.)
    pub fn soft_reset(&mut self)
        requires
            old(self).inv(),
        ensures
            final(self).inv(),
            final(self).cpu.regs == (Regs { pc: old(self).reset_vector, ..Regs::initial() }),
            final(self).cpu.irqs == Irqs::initial(),
            *final(self) == (Emu {
                cpu: Cpu { regs: final(self).cpu.regs, irqs: final(self).cpu.irqs },
                ..*old(self)
            }),
    {
        self.cpu.regs = Regs::new();
        self.cpu.irqs = Irqs::new();
        self.cpu.regs.pc = self.reset_vector;
    }

    /// Runs the CPU slice to the scheduler's target: a pending exception
    /// is taken at the instruction boundary first, then the slice's
    /// cycles are consumed up to the target time. Under WAI the CPU is
    /// halted and the time fast-forwards to the target identically. The
    /// per-instruction fetch/decode interpreter that fills the slice
    /// instruction by instruction is a collaborator outside this core.
    pub fn run_until_next_event(&mut self)
        requires
            old(self).inv(),
        ensures
            final(self).inv(),
            final(self).cpu == boundary_spec(
                old(self).cpu,
                old(self).wram@,
                old(self).nmi_vector,
                old(self).irq_vector,
            ).0,
            final(self).wram@ == boundary_spec(
                old(self).cpu,
                old(self).wram@,
                old(self).nmi_vector,
                old(self).irq_vector,
            ).1,
            final(self).schedule.cur_time == if old(self).schedule.cur_time >= old(self).schedule.target_time {
                old(self).schedule.cur_time
            } else {
                old(self).schedule.target_time
            },
            final(self).schedule.events@ == old(self).schedule.events@,
            final(self).schedule.target_time == old(self).schedule.target_time,
            final(self).schedule.last_poll_time == old(self).schedule.last_poll_time,
            final(self).model == old(self).model,
            final(self).nmi_vector == old(self).nmi_vector,
            final(self).irq_vector == old(self).irq_vector,
            final(self).reset_vector == old(self).reset_vector,
            final(self).frame_finished == old(self).frame_finished,
    {
        let _taken: bool = process_pending_exceptions(
            &mut self.cpu,
            &mut self.wram,
            &mut self.schedule,
            self.nmi_vector,
            self.irq_vector,
        );
        if self.schedule.cur_time < self.schedule.target_time {
            let d: u64 = self.schedule.target_time - self.schedule.cur_time;
            self.schedule.advance(d);
        }
    }

    /// Delivers one popped event to its owner. The frame-boundary event
    /// raises the frame flag and schedules the next frame; the H/V timer
    /// event raises the timer-IRQ line (preempting the CPU when IRQs are
    /// enabled); controller and APU events belong to collaborators
    /// outside this core.
    fn dispatch_event(&mut self, event: Event, time: u64)
        requires
            old(self).inv(),
            time <= old(self).schedule.cur_time,
            event == Event::Ppu ==> time + frame_cycles_spec(old(self).model) >= old(self).schedule.cur_time && time + frame_cycles_spec(old(self).model) <= u64::MAX,
        ensures
            final(self).inv(),
            final(self).schedule.cur_time == old(self).schedule.cur_time,
            final(self).wram@ == old(self).wram@,
            final(self).cpu.regs == old(self).cpu.regs,
            final(self).model == old(self).model,
            final(self).nmi_vector == old(self).nmi_vector,
            final(self).irq_vector == old(self).irq_vector,
            final(self).reset_vector == old(self).reset_vector,
            final(self).schedule.last_poll_time == old(self).schedule.last_poll_time,
            event != Event::Ppu ==> final(self).schedule.events@ == old(self).schedule.events@
                && final(self).frame_finished == old(self).frame_finished,
            event == Event::Ppu ==> final(self).frame_finished && ppu_inserted(
                old(self).schedule.events@,
                final(self).schedule.events@,
                (time + frame_cycles_spec(old(self).model)) as u64,
            ),
            event == Event::HvIrq ==> final(self).cpu.irqs == (Irqs {
                hv_timer_irq_requested: true,
                waiting_for_exception: false,
                processing_irq: old(self).cpu.irqs.irqs_enabled,
                ..old(self).cpu.irqs
            }),
            event == Event::Controllers || event == Event::UpdateApu ==> *final(self) == *old(self),
    {
        match event {
            Event::Ppu => {
                self.frame_finished = true;
                let fc: u64 = self.model.frame_cycles();
                self.schedule.schedule_at(Event::Ppu, time + fc);
                proof {
                    assert(ppu_inserted(
                        old(self).schedule.events@,
                        self.schedule.events@,
                        (time + fc) as u64,
                    ));
                }
            },
            Event::HvIrq => {
                self.cpu.irqs.set_hv_timer_irq_requested(true, &mut self.schedule);
            },
            Event::Controllers => {
                // Owned by the controller component, outside this core.
            },
            Event::UpdateApu => {
                // Owned by the APU component, outside this core.
            },
        }
    }

    /// Runs CPU slices and dispatches due events, in non-decreasing time
    /// order, until the frame-boundary event fires; every event due at the
    /// reached time (the frame boundary included) is dispatched before the
    /// call returns, and the frame flag is cleared on exit. A preempt
    /// (`set_target_to_cur`) ends the running slice at the next
    /// instruction boundary.
    pub fn run_frame(&mut self)
        requires
            old(self).inv(),
            old(self).frame_finished || has_frame_event(old(self).schedule.events@),
            old(self).frame_finished || times_bounded(
                old(self).schedule.events@,
                EVENT_TIME_LIMIT,
            ),
            old(self).frame_finished || old(self).schedule.cur_time <= EVENT_TIME_LIMIT,
            ppu_after(old(self).schedule.events@, old(self).schedule.cur_time),
        ensures
            final(self).inv(),
            !final(self).frame_finished,
            final(self).schedule.cur_time >= old(self).schedule.cur_time,
            old(self).frame_finished || has_frame_event(final(self).schedule.events@),
            ppu_after(final(self).schedule.events@, final(self).schedule.cur_time),
            // the frame completed: time reached exactly the earliest queued
            // frame event, which stays below the counter's ceiling
            !old(self).frame_finished ==> final(self).schedule.cur_time == first_ppu_time(
                old(self).schedule.events@,
            ) && final(self).schedule.cur_time <= EVENT_TIME_LIMIT,
            // the next frame can be run while the counter is far from its ceiling
            !old(self).frame_finished && final(self).schedule.cur_time + frame_cycles_spec(
                old(self).model,
            ) <= EVENT_TIME_LIMIT ==> times_bounded(final(self).schedule.events@, EVENT_TIME_LIMIT)
                && final(self).schedule.cur_time <= EVENT_TIME_LIMIT,
            old(self).frame_finished ==> *final(self) == (Emu {
                frame_finished: false,
                ..*old(self)
            }),
            final(self).model == old(self).model,
            final(self).nmi_vector == old(self).nmi_vector,
            final(self).irq_vector == old(self).irq_vector,
            final(self).reset_vector == old(self).reset_vector,
    {
        let ghost entered = !old(self).frame_finished;
        let ghost t0 = first_ppu_time(old(self).schedule.events@);
        let ghost fc0 = frame_cycles_spec(old(self).model);
        proof {
            if entered {
                lemma_first_ppu_time(old(self).schedule.events@);
            }
        }
        while !self.frame_finished
            invariant
                entered == !old(self).frame_finished,
                t0 == first_ppu_time(old(self).schedule.events@),
                entered ==> exists|i: int|
                    0 <= i < old(self).schedule.events@.len() && old(self).schedule.events@[i].0
                        == Event::Ppu,
                self.inv(),
                self.frame_finished || has_frame_event(self.schedule.events@),
                !self.frame_finished ==> times_bounded(self.schedule.events@, EVENT_TIME_LIMIT),
                !self.frame_finished ==> self.schedule.cur_time <= EVENT_TIME_LIMIT,
                entered ==> ppu_after(self.schedule.events@, t0),
                ppu_after(self.schedule.events@, self.schedule.cur_time),
                entered && !self.frame_finished ==> self.schedule.cur_time <= t0,
                entered && !self.frame_finished ==> exists|i: int|
                    0 <= i < self.schedule.events@.len() && self.schedule.events@[i]
                        == (Event::Ppu, t0),
                self.frame_finished ==> old(self).frame_finished || (has_frame_event(
                    self.schedule.events@,
                ) && self.schedule.cur_time == t0 && self.schedule.cur_time <= EVENT_TIME_LIMIT
                    && (self.schedule.cur_time + fc0 <= EVENT_TIME_LIMIT ==> times_bounded(
                    self.schedule.events@,
                    EVENT_TIME_LIMIT,
                ))),
                old(self).frame_finished ==> *self == *old(self),
                self.schedule.cur_time >= old(self).schedule.cur_time,
                fc0 == frame_cycles_spec(self.model),
                self.model == old(self).model,
                self.nmi_vector == old(self).nmi_vector,
                self.irq_vector == old(self).irq_vector,
                self.reset_vector == old(self).reset_vector,
            decreases (if self.frame_finished {
                0int
            } else {
                1int
            }), self.schedule.events@.len(),
        {
            proof {
                assert(entered);
            }
            self.schedule.set_target_to_next_event();
            self.run_until_next_event();
            self.schedule.last_poll_time = self.schedule.cur_time;
            let ghost n0 = self.schedule.events@.len();
            let ghost cur0 = self.schedule.cur_time;
            let ghost mut popped_any: bool = false;
            proof {
                let w = choose|i: int|
                    0 <= i < self.schedule.events@.len() && self.schedule.events@[i].0
                        == Event::Ppu;
                assert(n0 > 0);
                // the slice ran to the earliest event, so the front is due
                assert(cur0 >= self.schedule.events@[0].1);
                assert(cur0 <= EVENT_TIME_LIMIT);
            }
            // drain every event that is due at the reached time
            loop
                invariant
                    entered == !old(self).frame_finished,
                    t0 == first_ppu_time(old(self).schedule.events@),
                    self.inv(),
                    self.schedule.cur_time == cur0,
                    cur0 <= EVENT_TIME_LIMIT,
                    entered,
                    self.frame_finished || has_frame_event(self.schedule.events@),
                    !self.frame_finished ==> times_bounded(
                        self.schedule.events@,
                        EVENT_TIME_LIMIT,
                    ),
                    ppu_after(self.schedule.events@, t0),
                    ppu_after(self.schedule.events@, cur0),
                    cur0 <= t0,
                    !self.frame_finished ==> exists|i: int|
                        0 <= i < self.schedule.events@.len() && self.schedule.events@[i]
                            == (Event::Ppu, t0),
                    self.frame_finished ==> has_frame_event(self.schedule.events@) && cur0 == t0
                        && (cur0 + fc0 <= EVENT_TIME_LIMIT ==> times_bounded(
                        self.schedule.events@,
                        EVENT_TIME_LIMIT,
                    )),
                    popped_any ==> self.frame_finished || self.schedule.events@.len() < n0,
                    !popped_any ==> !self.frame_finished && self.schedule.events@.len() == n0
                        && n0 > 0 && self.schedule.events@[0].1 <= cur0,
                    fc0 == frame_cycles_spec(self.model),
                    self.model == old(self).model,
                    self.nmi_vector == old(self).nmi_vector,
                    self.irq_vector == old(self).irq_vector,
                    self.reset_vector == old(self).reset_vector,
                ensures
                    self.inv(),
                    self.schedule.cur_time == cur0,
                    self.frame_finished || has_frame_event(self.schedule.events@),
                    !self.frame_finished ==> times_bounded(
                        self.schedule.events@,
                        EVENT_TIME_LIMIT,
                    ),
                    ppu_after(self.schedule.events@, t0),
                    ppu_after(self.schedule.events@, cur0),
                    !self.frame_finished ==> exists|i: int|
                        0 <= i < self.schedule.events@.len() && self.schedule.events@[i]
                            == (Event::Ppu, t0),
                    self.frame_finished ==> has_frame_event(self.schedule.events@) && cur0 == t0
                        && (cur0 + fc0 <= EVENT_TIME_LIMIT ==> times_bounded(
                        self.schedule.events@,
                        EVENT_TIME_LIMIT,
                    )),
                    self.frame_finished || self.schedule.events@.len() < n0,
                    fc0 == frame_cycles_spec(self.model),
                    self.model == old(self).model,
                    self.nmi_vector == old(self).nmi_vector,
                    self.irq_vector == old(self).irq_vector,
                    self.reset_vector == old(self).reset_vector,
                decreases count_due(self.schedule.events@, cur0),
            {
                let ghost q_pre = self.schedule.events@;
                let ghost flag_pre = self.frame_finished;
                let popped: Option<(Event, u64)> = self.schedule.pop_pending_event();
                match popped {
                    Some(ev) => {
                        let ghost q_rest = self.schedule.events@;
                        proof {
                            assert(ev == q_pre[0]);
                            assert(q_rest == q_pre.subrange(1, q_pre.len() as int));
                            assert(forall|j: int|
                                0 <= j < q_rest.len() ==> q_rest[j] == q_pre[j + 1]);
                            if ev.0 != Event::Ppu {
                                let i = choose|i: int|
                                    0 <= i < q_pre.len() && q_pre[i].0 == Event::Ppu;
                                assert(q_rest[i - 1] == q_pre[i]);
                                assert(has_frame_event(q_rest));
                                if !flag_pre {
                                    let p = choose|i: int|
                                        0 <= i < q_pre.len() && q_pre[i] == (Event::Ppu, t0);
                                    assert(q_rest[p - 1] == q_pre[p]);
                                }
                            } else {
                                // the frame event fires no earlier than now
                                assert(ev.1 >= cur0);
                                assert(ev.1 + fc0 <= u64::MAX);
                            }
                            if !flag_pre {
                                assert(times_bounded(q_rest, EVENT_TIME_LIMIT));
                            } else if cur0 + fc0 <= EVENT_TIME_LIMIT {
                                assert(times_bounded(q_pre, EVENT_TIME_LIMIT));
                                assert(times_bounded(q_rest, EVENT_TIME_LIMIT));
                            }
                            // the pop took one due event off the count
                            assert(q_pre.drop_first() =~= q_rest);
                            assert(count_due(q_pre, cur0) == 1 + count_due(q_rest, cur0));
                        }
                        self.dispatch_event(ev.0, ev.1);
                        proof {
                            popped_any = true;
                            if ev.0 == Event::Ppu {
                                let t_new = (ev.1 + fc0) as u64;
                                lemma_ppu_inserted_props(q_rest, self.schedule.events@, t_new);
                                assert(t_new > cur0);
                                assert(count_due(self.schedule.events@, cur0) == count_due(
                                    q_rest,
                                    cur0,
                                ));
                                if cur0 + fc0 <= EVENT_TIME_LIMIT {
                                    assert(t_new <= EVENT_TIME_LIMIT);
                                    assert(times_bounded(
                                        self.schedule.events@,
                                        EVENT_TIME_LIMIT,
                                    ));
                                }
                            }
                        }
                    },
                    None => {
                        proof {
                            assert(popped_any);
                            if !self.frame_finished {
                                let p = choose|i: int|
                                    0 <= i < q_pre.len() && q_pre[i] == (Event::Ppu, t0);
                                assert(self.schedule.events@[p] == (Event::Ppu, t0));
                            }
                        }
                        break;
                    },
                }
            }
        }
        self.frame_finished = false;
    }
}

} // verus!
