use vstd::prelude::*;
use crate::ticks::{TickState, step};

verus! {

/// The global interrupt-enable flag together with the cells it guards.
///
/// The cells are reached only through `with_interrupts_disabled` (the polling
/// loop) and `handle_interrupt` (the handler, which the hardware runs only
/// while interrupts are enabled), so the two never interleave.
pub struct Shared {
    irq_enabled: bool,
    cells: TickState,
}

impl Shared {
    pub closed spec fn enabled(&self) -> bool {
        self.irq_enabled
    }

    pub closed spec fn cells(&self) -> TickState {
        self.cells
    }

    pub open spec fn wf(&self) -> bool {
        self.cells().wf()
    }

    /// The shared cells at start-up, with interrupts still disabled.
    pub fn new(cells: TickState) -> (r: Shared)
        requires
            cells.wf(),
        ensures
            r.wf(),
            !r.enabled(),
            r.cells() == cells,
    {
        Shared { irq_enabled: false, cells }
    }

    /// Whether interrupts are globally enabled.
    pub fn interrupts_enabled(&self) -> (r: bool)
        ensures
            r == self.enabled(),
    {
        self.irq_enabled
    }

    /// Globally enables interrupts (the transition from set-up to running).
    pub fn enable_interrupts(&mut self)
        ensures
            final(self).enabled(),
            final(self).cells() == old(self).cells(),
    {
        self.irq_enabled = true;
    }

    /// Runs `body` on the shared cells with interrupts disabled, stores the
    /// cells it hands back, restores the interrupt-enable state that held
    /// before, and returns what `body` returned. `body` cannot leave early
    /// without handing the cells back, so an error it returns takes the same
    /// exit and the enable state is restored on that path too.
    pub fn with_interrupts_disabled<R, F: FnOnce(TickState) -> (TickState, R)>(
        &mut self,
        body: F,
    ) -> (r: R)
        requires
            old(self).wf(),
            body.requires((old(self).cells(),)),
            forall|c: TickState, x: R| #[trigger]
                body.ensures((old(self).cells(),), (c, x)) ==> c.wf(),
        ensures
            final(self).wf(),
            final(self).enabled() == old(self).enabled(),
            body.ensures((old(self).cells(),), (final(self).cells(), r)),
    {
        let saved = self.irq_enabled;
        self.irq_enabled = false;
        let (cells, r) = body(self.cells);
        self.cells = cells;
        self.irq_enabled = saved;
        r
    }

    /// The compare-match interrupt: runs the handler's bookkeeping on the cells.
    /// The hardware delivers it only while interrupts are enabled.
    pub fn handle_interrupt(&mut self)
        requires
            old(self).wf(),
            old(self).enabled(),
        ensures
            final(self).wf(),
            final(self).enabled(),
            final(self).cells()@ == step(old(self).cells()@),
    {
        self.cells.on_interrupt();
    }

    /// The polling loop's probe: in one critical section, reports whether a
    /// sample is due and clears the flag.
    pub fn take_sample(&mut self) -> (r: bool)
        requires
            old(self).wf(),
        ensures
            final(self).wf(),
            final(self).enabled() == old(self).enabled(),
            r == old(self).cells().sample_due,
            !final(self).cells().sample_due,
            final(self).cells().ticks == old(self).cells().ticks,
            final(self).cells().millis == old(self).cells().millis,
            final(self).cells().threshold == old(self).cells().threshold,
            final(self).cells().millis_per_tick == old(self).cells().millis_per_tick,
    {
        self.with_interrupts_disabled(consume_flag)
    }

    /// The millisecond count, read in one critical section.
    pub fn millis(&mut self) -> (r: u32)
        requires
            old(self).wf(),
        ensures
            final(self).wf(),
            final(self).enabled() == old(self).enabled(),
            final(self).cells() == old(self).cells(),
            r == old(self).cells().millis,
    {
        self.with_interrupts_disabled(read_millis)
    }

    /// A copy of the cells, read in one critical section.
    pub fn snapshot(&mut self) -> (r: TickState)
        requires
            old(self).wf(),
        ensures
            final(self).wf(),
            final(self).enabled() == old(self).enabled(),
            final(self).cells() == old(self).cells(),
            r == old(self).cells(),
    {
        self.with_interrupts_disabled(read_all)
    }
}

/// Critical-section body: reads and clears the sample flag.
fn consume_flag(c: TickState) -> (p: (TickState, bool))
    requires
        c.wf(),
    ensures
        p.0.wf(),
        p.1 == c.sample_due,
        !p.0.sample_due,
        p.0.ticks == c.ticks,
        p.0.millis == c.millis,
        p.0.threshold == c.threshold,
        p.0.millis_per_tick == c.millis_per_tick,
{
    let mut c = c;
    let due = c.take_sample();
    (c, due)
}

/// Critical-section body: reads the millisecond count.
fn read_millis(c: TickState) -> (p: (TickState, u32))
    ensures
        p.0 == c,
        p.1 == c.millis,
{
    (c, c.millis)
}

/// Critical-section body: copies the cells.
fn read_all(c: TickState) -> (p: (TickState, TickState))
    ensures
        p.0 == c,
        p.1 == c,
{
    (c, c)
}

} // verus!
