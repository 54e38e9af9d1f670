use vstd::prelude::*;

verus! {

/// One past the largest `u32`: the modulus of the wrapping millisecond counter.
pub open spec fn word() -> nat {
    0x1_0000_0000
}

/// `a + b` wrapped at the width of a `u32`.
pub open spec fn wrap_add(a: nat, b: nat) -> nat {
    (a + b) % word()
}

/// The cells shared between the timer interrupt handler and the polling loop.
///
/// `ticks` counts interrupts since the last sample became due; when it reaches
/// `threshold` the handler raises `sample_due` and starts over. `millis` runs
/// freely, wrapping at the integer width. The flag is a mailbox of capacity
/// one: a sample that becomes due while one is pending is not queued.
#[derive(Clone, Copy, Debug, PartialEq, Eq, Structural)]
pub struct TickState {
    pub ticks: u32,
    pub millis: u32,
    pub sample_due: bool,
    pub threshold: u32,
    pub millis_per_tick: u32,
}

/// The mathematical view of the shared cells.
pub struct TickView {
    pub ticks: nat,
    pub millis: nat,
    pub sample_due: bool,
    pub threshold: nat,
    pub millis_per_tick: nat,
}

/// One interrupt applied to a view.
pub open spec fn step(v: TickView) -> TickView {
    let t = v.ticks + 1;
    TickView {
        ticks: if t >= v.threshold { 0 } else { t },
        millis: wrap_add(v.millis, v.millis_per_tick),
        sample_due: v.sample_due || t >= v.threshold,
        threshold: v.threshold,
        millis_per_tick: v.millis_per_tick,
    }
}

/// `n` interrupts applied to a view.
pub open spec fn run(v: TickView, n: nat) -> TickView
    decreases n,
{
    if n == 0 {
        v
    } else {
        step(run(v, (n - 1) as nat))
    }
}

impl TickState {
    pub open spec fn view(&self) -> TickView {
        TickView {
            ticks: self.ticks as nat,
            millis: self.millis as nat,
            sample_due: self.sample_due,
            threshold: self.threshold as nat,
            millis_per_tick: self.millis_per_tick as nat,
        }
    }

    /// The threshold is at least one and the tick count stays below it.
    pub open spec fn wf(&self) -> bool {
        self.threshold >= 1 && self.ticks < self.threshold
    }

    /// The initial cells, written before interrupts are enabled: no ticks, no
    /// elapsed time, no pending sample.
    pub fn new(threshold: u32, millis_per_tick: u32) -> (r: TickState)
        requires
            threshold >= 1,
        ensures
            r.wf(),
            r.ticks == 0,
            r.millis == 0,
            !r.sample_due,
            r.threshold == threshold,
            r.millis_per_tick == millis_per_tick,
    {
        TickState { ticks: 0, millis: 0, sample_due: false, threshold, millis_per_tick }
    }

    /// The interrupt handler's bookkeeping for one compare-match interrupt.
    pub fn on_interrupt(&mut self)
        requires
            old(self).wf(),
        ensures
            final(self).wf(),
            final(self)@ == step(old(self)@),
    {
        let t = self.ticks + 1;
        if t >= self.threshold {
            self.ticks = 0;
            self.sample_due = true;
        } else {
            self.ticks = t;
        }
        let inc = self.millis_per_tick;
        if self.millis > u32::MAX - inc {
            self.millis = inc - (u32::MAX - self.millis) - 1;
        } else {
            self.millis = self.millis + inc;
        }
    }

    /// Consumes the pending sample, if any: reports whether one was pending and
    /// leaves the flag cleared.
    pub fn take_sample(&mut self) -> (r: bool)
        requires
            old(self).wf(),
        ensures
            final(self).wf(),
            r == old(self).sample_due,
            !final(self).sample_due,
            final(self).ticks == old(self).ticks,
            final(self).millis == old(self).millis,
            final(self).threshold == old(self).threshold,
            final(self).millis_per_tick == old(self).millis_per_tick,
    {
        let r = self.sample_due;
        self.sample_due = false;
        r
    }

    /// The free-running millisecond count.
    pub fn millis(&self) -> (r: u32)
        ensures
            r == self.millis,
    {
        self.millis
    }
}

/// After `n` interrupts, the tick count is the old count plus `n` modulo the
/// threshold, and the flag is set exactly when it was set already or the count
/// reached the threshold at least once: a crossing while a sample is pending
/// leaves the single flag set, never queues a second sample.
pub proof fn lemma_ticks_after(v: TickView, n: nat)
    requires
        v.threshold >= 1,
        v.ticks < v.threshold,
    ensures
        run(v, n).ticks == (v.ticks + n) % v.threshold,
        run(v, n).sample_due == (v.sample_due || v.ticks + n >= v.threshold),
        run(v, n).threshold == v.threshold,
        run(v, n).millis_per_tick == v.millis_per_tick,
    decreases n,
{
    if n > 0 {
        let m = (n - 1) as nat;
        lemma_ticks_after(v, m);
        let th = v.threshold as int;
        let a = (v.ticks + m) as int;
        let q = a / th;
        let r = a % th;
        vstd::arithmetic::div_mod::lemma_fundamental_div_mod(a, th);
        if r + 1 < th {
            vstd::arithmetic::div_mod::lemma_fundamental_div_mod_converse(a + 1, th, q, r + 1);
        } else {
            assert(a + 1 == (q + 1) * th + 0) by (nonlinear_arith)
                requires
                    a == q * th + r,
                    r + 1 == th,
            ;
            vstd::arithmetic::div_mod::lemma_fundamental_div_mod_converse(a + 1, th, q + 1, 0);
        }
        if a < th {
            vstd::arithmetic::div_mod::lemma_small_mod(a as nat, th as nat);
        }
    } else {
        vstd::arithmetic::div_mod::lemma_small_mod(v.ticks, v.threshold);
    }
}

/// On every interrupt the millisecond counter advances by exactly the
/// per-interrupt increment, wrapping at the integer width; after `n`
/// interrupts it stands at the old value plus `n` increments, wrapped.
pub proof fn lemma_millis_after(v: TickView, n: nat)
    requires
        v.millis < word(),
    ensures
        run(v, n).millis == (v.millis + n * v.millis_per_tick) % word(),
        run(v, n).millis_per_tick == v.millis_per_tick,
    decreases n,
{
    if n == 0 {
        vstd::arithmetic::div_mod::lemma_small_mod(v.millis, word());
    } else {
        let m = (n - 1) as nat;
        lemma_millis_after(v, m);
        let k = v.millis_per_tick;
        let a = v.millis + m * k;
        assert(n * k == m * k + k) by (nonlinear_arith)
            requires
                n == m + 1,
        ;
        vstd::arithmetic::div_mod::lemma_add_mod_noop_right(k as int, a as int, word() as int);
    }
}

/// A pending sample is never queued behind another: once the flag is set,
/// any number of further interrupts leaves exactly that one flag set.
pub proof fn lemma_pending_not_queued(v: TickView, n: nat)
    requires
        v.threshold >= 1,
        v.ticks < v.threshold,
        v.sample_due,
    ensures
        run(v, n).sample_due,
{
    lemma_ticks_after(v, n);
}

/// After the flag has been consumed with `ticks` counted, it is raised again
/// by exactly the interrupt that completes the threshold, and not before.
pub proof fn lemma_next_sample(v: TickView)
    requires
        v.threshold >= 1,
        v.ticks < v.threshold,
        !v.sample_due,
    ensures
        forall|n: nat| v.ticks + n < v.threshold ==> !#[trigger] run(v, n).sample_due,
        run(v, (v.threshold - v.ticks) as nat).sample_due,
        run(v, (v.threshold - v.ticks) as nat).ticks == 0,
{
    assert forall|n: nat| v.ticks + n < v.threshold implies !#[trigger] run(v, n).sample_due by {
        lemma_ticks_after(v, n);
    }
    lemma_ticks_after(v, (v.threshold - v.ticks) as nat);
    vstd::arithmetic::div_mod::lemma_mod_self_0(v.threshold as int);
}

} // verus!
