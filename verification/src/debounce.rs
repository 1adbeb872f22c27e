//! Integrating debouncer for a mechanical contact.
use vstd::prelude::*;

verus! {

/// Mathematical model of a debouncer: the debounced output, the number of
/// consecutive raw samples seen that disagree with it, and the number of such
/// samples needed before the output follows the raw input.
pub struct DebouncerModel {
    pub state: bool,
    pub counter: nat,
    pub threshold: nat,
}

impl DebouncerModel {
    /// A reachable debouncer: a positive threshold that fits in a byte, and a
    /// disagreement count that has not reached it.
    pub open spec fn wf(self) -> bool {
        &&& 0 < self.threshold <= 255
        &&& self.counter < self.threshold
    }
}

/// One sample fed to the debouncer. A sample that agrees with the output
/// clears the count; one that disagrees increments it, and once the count
/// reaches the threshold the output takes the sample's value and the count
/// restarts.
pub open spec fn debounce_step(m: DebouncerModel, raw: bool) -> DebouncerModel {
    if raw != m.state {
        if m.counter + 1 >= m.threshold {
            DebouncerModel { state: raw, counter: 0, threshold: m.threshold }
        } else {
            DebouncerModel { state: m.state, counter: m.counter + 1, threshold: m.threshold }
        }
    } else {
        DebouncerModel { state: m.state, counter: 0, threshold: m.threshold }
    }
}

/// The debouncer after a whole sequence of samples, oldest first.
pub open spec fn debounce_run(m: DebouncerModel, samples: Seq<bool>) -> DebouncerModel
    decreases samples.len(),
{
    if samples.len() == 0 {
        m
    } else {
        debounce_step(debounce_run(m, samples.drop_last()), samples.last())
    }
}

/// The debouncer fed `n` copies of the same sample `v`, in closed form: an
/// output already at `v` stays there; otherwise the output follows once the
/// disagreement count reaches the threshold.
proof fn lemma_run_constant(m: DebouncerModel, v: bool, n: nat)
    requires
        m.wf(),
    ensures
        debounce_run(m, Seq::new(n, |_i: int| v)) == (if n == 0 {
            m
        } else if m.state == v || m.counter + n >= m.threshold {
            DebouncerModel { state: v, counter: 0, threshold: m.threshold }
        } else {
            DebouncerModel { state: m.state, counter: m.counter + n, threshold: m.threshold }
        }),
    decreases n,
{
    let s = Seq::new(n, |_i: int| v);
    if n > 0 {
        let prev = (n - 1) as nat;
        assert(s.drop_last() =~= Seq::new(prev, |_i: int| v));
        lemma_run_constant(m, v, prev);
    }
}

/// Running a well-formed debouncer keeps it well formed and keeps its threshold.
pub proof fn lemma_run_wf(m: DebouncerModel, samples: Seq<bool>)
    requires
        m.wf(),
    ensures
        debounce_run(m, samples).wf(),
        debounce_run(m, samples).threshold == m.threshold,
    decreases samples.len(),
{
    if samples.len() > 0 {
        lemma_run_wf(m, samples.drop_last());
    }
}

/// A contact held at one level for at least `threshold` samples is reported
/// at that level, whatever the debouncer held before.
pub proof fn lemma_settles(m: DebouncerModel, v: bool, n: nat)
    requires
        m.wf(),
        n >= m.threshold,
    ensures
        debounce_run(m, Seq::new(n, |_i: int| v)).state == v,
{
    lemma_run_constant(m, v, n);
}

/// From a settled debouncer (no disagreement counted), any burst of fewer
/// than `threshold` samples, whatever their values, leaves the output unchanged.
pub proof fn lemma_glitch_rejected(m: DebouncerModel, samples: Seq<bool>)
    requires
        m.wf(),
        m.counter == 0,
        samples.len() < m.threshold,
    ensures
        debounce_run(m, samples).state == m.state,
{
    lemma_glitch_count(m, samples);
}

proof fn lemma_glitch_count(m: DebouncerModel, samples: Seq<bool>)
    requires
        m.wf(),
        m.counter == 0,
        samples.len() < m.threshold,
    ensures
        debounce_run(m, samples).state == m.state,
        debounce_run(m, samples).counter <= samples.len(),
        debounce_run(m, samples).threshold == m.threshold,
    decreases samples.len(),
{
    if samples.len() > 0 {
        lemma_glitch_count(m, samples.drop_last());
    }
}

/// A single sample can move the output only to the sample's own value, and
/// only when the sample disagrees with the output.
pub proof fn lemma_step_follows_raw(m: DebouncerModel, raw: bool)
    ensures
        debounce_step(m, raw).state == m.state || debounce_step(m, raw).state == raw,
        debounce_step(m, raw).state != m.state ==> raw != m.state,
        debounce_step(m, raw).threshold == m.threshold,
{
}

/// Debounces a raw contact by integration: the output changes only after
/// `threshold` consecutive raw samples disagree with it.
pub struct Debouncer {
    state: bool,
    integration_counter: u8,
    threshold: u8,
}

impl View for Debouncer {
    type V = DebouncerModel;

    closed spec fn view(&self) -> DebouncerModel {
        DebouncerModel {
            state: self.state,
            counter: self.integration_counter as nat,
            threshold: self.threshold as nat,
        }
    }
}

impl Debouncer {
    #[verifier::type_invariant]
    spec fn inv(self) -> bool {
        0 < self.threshold && self.integration_counter < self.threshold
    }

    /// A debouncer whose output starts at `initial_state`, with no
    /// disagreeing samples counted yet.
    pub fn new(initial_state: bool, threshold: u8) -> (d: Self)
        requires
            threshold > 0,
        ensures
            d@ == (DebouncerModel { state: initial_state, counter: 0, threshold: threshold as nat }),
            d@.wf(),
    {
        Debouncer { state: initial_state, integration_counter: 0, threshold }
    }

    /// Feeds one raw sample and returns the debounced output.
    pub fn update(&mut self, raw_state: bool) -> (out: bool)
        ensures
            final(self)@ == debounce_step(old(self)@, raw_state),
            final(self)@.wf(),
            out == final(self)@.state,
    {
        proof {
            use_type_invariant(&*self);
        }
        if raw_state != self.state {
            let next = self.integration_counter + 1;
            if next >= self.threshold {
                self.state = raw_state;
                self.integration_counter = 0;
            } else {
                self.integration_counter = next;
            }
        } else {
            self.integration_counter = 0;
        }
        proof {
            use_type_invariant(&*self);
        }
        self.state
    }

    /// The current debounced output.
    pub fn state(&self) -> (s: bool)
        ensures
            s == self@.state,
    {
        self.state
    }
}

} // verus!
