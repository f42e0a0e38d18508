//! The interrupt unit: NMI latch, timer-IRQ line, global IRQ enable and
//! the WAI halt state, with the scheduler preempts they trigger.

use vstd::prelude::*;
use crate::schedule::Schedule;

verus! {

/// Interrupt-unit state. `processing_irq` is derived: the timer line is
/// high and IRQs are enabled. `processing_nmi` is the edge-triggered NMI
/// latch, cleared only by the CPU's acknowledgement after vectoring.
#[derive(Clone, Copy, Debug, PartialEq, Eq, Structural)]
pub struct Irqs {
    pub irqs_enabled: bool,
    pub waiting_for_exception: bool,
    pub hv_timer_irq_requested: bool,
    pub processing_irq: bool,
    pub processing_nmi: bool,
}

impl Irqs {
    /// Well-formedness, preserved by every operation: `processing_irq`
    /// equals its derivation, and the WAI halt state never coexists with a
    /// pending NMI or timer IRQ (such a line either prevented the halt or
    /// ended it).
    pub open spec fn inv(self) -> bool {
        &&& self.processing_irq == (self.hv_timer_irq_requested && self.irqs_enabled)
        &&& (self.waiting_for_exception ==> !self.processing_nmi && !self.hv_timer_irq_requested)
    }

    /// The unit at reset: IRQs enabled, no line active, not halted.
    pub fn new() -> (r: Irqs)
        ensures
            r == Irqs::initial(),
            r.inv(),
    {
        Irqs {
            irqs_enabled: true,
            waiting_for_exception: false,
            hv_timer_irq_requested: false,
            processing_irq: false,
            processing_nmi: false,
        }
    }

    pub open spec fn initial() -> Irqs {
        Irqs {
            irqs_enabled: true,
            waiting_for_exception: false,
            hv_timer_irq_requested: false,
            processing_irq: false,
            processing_nmi: false,
        }
    }

    pub fn irqs_enabled(&self) -> (r: bool)
        ensures
            r == self.irqs_enabled,
    {
        self.irqs_enabled
    }

    /// Recomputes `processing_irq`; when it just went high, pulls the
    /// scheduler's target to the current time so the CPU leaves its slice.
    fn update_irqs(&mut self, schedule: &mut Schedule)
        requires
            old(schedule).wf(),
        ensures
            *final(self) == (Irqs {
                processing_irq: old(self).hv_timer_irq_requested && old(self).irqs_enabled,
                ..*old(self)
            }),
            *final(schedule) == if final(self).processing_irq {
                Schedule { target_time: old(schedule).cur_time, ..*old(schedule) }
            } else {
                *old(schedule)
            },
            final(schedule).wf(),
            forall|t: u64|
                old(schedule).min_bound(t) ==> #[trigger] final(schedule).min_bound(t),
    {
        self.processing_irq = self.hv_timer_irq_requested && self.irqs_enabled;
        if self.processing_irq {
            schedule.set_target_to_cur();
        }
    }

    /// Mirrors the software IRQ-enable; enabling with the timer line high
    /// raises `processing_irq` and preempts the CPU.
    pub fn set_irqs_enabled(&mut self, value: bool, schedule: &mut Schedule)
        requires
            old(self).inv(),
            old(schedule).wf(),
        ensures
            *final(self) == (Irqs {
                irqs_enabled: value,
                processing_irq: old(self).hv_timer_irq_requested && value,
                ..*old(self)
            }),
            final(self).inv(),
            *final(schedule) == if final(self).processing_irq {
                Schedule { target_time: old(schedule).cur_time, ..*old(schedule) }
            } else {
                *old(schedule)
            },
            final(schedule).wf(),
            forall|t: u64|
                old(schedule).min_bound(t) ==> #[trigger] final(schedule).min_bound(t),
    {
        self.irqs_enabled = value;
        self.update_irqs(schedule);
    }

    pub fn waiting_for_exception(&self) -> (r: bool)
        ensures
            r == self.waiting_for_exception,
    {
        self.waiting_for_exception
    }

    /// Enters (or leaves) the WAI halt state; entering has no effect while
    /// an NMI or timer IRQ is already pending.
    pub fn set_waiting_for_exception(&mut self, value: bool)
        requires
            old(self).inv(),
        ensures
            *final(self) == (Irqs {
                waiting_for_exception: value && !(old(self).processing_nmi || old(self).hv_timer_irq_requested),
                ..*old(self)
            }),
            final(self).inv(),
    {
        self.waiting_for_exception = value && !(self.processing_nmi
            || self.hv_timer_irq_requested);
    }

    pub fn hv_timer_irq_requested(&self) -> (r: bool)
        ensures
            r == self.hv_timer_irq_requested,
    {
        self.hv_timer_irq_requested
    }

    /// Drives the timer-IRQ line. Raising it ends a WAI halt; raising it
    /// while IRQs are enabled raises `processing_irq` and preempts the
    /// CPU.
    pub fn set_hv_timer_irq_requested(&mut self, value: bool, schedule: &mut Schedule)
        requires
            old(self).inv(),
            old(schedule).wf(),
        ensures
            *final(self) == (Irqs {
                hv_timer_irq_requested: value,
                waiting_for_exception: old(self).waiting_for_exception && !value,
                processing_irq: value && old(self).irqs_enabled,
                ..*old(self)
            }),
            final(self).inv(),
            *final(schedule) == if final(self).processing_irq {
                Schedule { target_time: old(schedule).cur_time, ..*old(schedule) }
            } else {
                *old(schedule)
            },
            final(schedule).wf(),
            forall|t: u64|
                old(schedule).min_bound(t) ==> #[trigger] final(schedule).min_bound(t),
    {
        self.hv_timer_irq_requested = value;
        self.waiting_for_exception = self.waiting_for_exception && !value;
        self.update_irqs(schedule);
    }

    pub fn processing_irq(&self) -> (r: bool)
        ensures
            r == self.processing_irq,
    {
        self.processing_irq
    }

    pub fn processing_nmi(&self) -> (r: bool)
        ensures
            r == self.processing_nmi,
    {
        self.processing_nmi
    }

    /// The Irqs state after `request_nmi`: the latch is set and the WAI
    /// halt, if any, is over.
    pub open spec fn nmi_requested(self) -> Irqs {
        Irqs { processing_nmi: true, waiting_for_exception: false, ..self }
    }

    /// Latches an NMI (edge-triggered by the host at VBlank), preempts the
    /// CPU and ends a WAI halt. NMI is non-maskable: `irqs_enabled` plays
    /// no part.
    pub fn request_nmi(&mut self, schedule: &mut Schedule)
        requires
            old(self).inv(),
            old(schedule).wf(),
        ensures
            *final(self) == old(self).nmi_requested(),
            final(self).inv(),
            *final(schedule) == (Schedule {
                target_time: old(schedule).cur_time,
                ..*old(schedule)
            }),
            final(schedule).wf(),
            forall|t: u64|
                old(schedule).min_bound(t) ==> #[trigger] final(schedule).min_bound(t),
    {
        self.processing_nmi = true;
        schedule.set_target_to_cur();
        self.waiting_for_exception = false;
    }

    /// Clears the NMI latch; the CPU calls this after dispatching the NMI
    /// vector. The unit never clears the latch on its own.
    pub fn acknowledge_nmi(&mut self)
        requires
            old(self).inv(),
        ensures
            *final(self) == (Irqs { processing_nmi: false, ..*old(self) }),
            final(self).inv(),
    {
        self.processing_nmi = false;
    }
}

} // verus!
