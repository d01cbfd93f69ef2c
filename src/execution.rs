use vstd::prelude::*;
use crate::action::{plan_view, Action, ActionView};
use crate::command::{is_required, render, render_spec, Invocation, InvocationView, Platform};

verus! {

/// A plan put into the words of a platform's tools.
pub open spec fn rendered(p: Platform, plan: Seq<ActionView>) -> Seq<InvocationView> {
    plan.map_values(|a: ActionView| render_spec(p, a))
}

/// The invocations of a sequence, as values.
pub open spec fn invocations_view(s: Seq<Invocation>) -> Seq<InvocationView> {
    s.map_values(|i: Invocation| i@)
}

/// Puts each action of a plan into the words of the platform's tools, in order.
pub fn render_plan(p: Platform, plan: &Vec<Action>) -> (r: Vec<Invocation>)
    ensures
        invocations_view(r@) == rendered(p, plan_view(plan@)),
{
    let mut out: Vec<Invocation> = Vec::new();
    let mut i: usize = 0;
    while i < plan.len()
        invariant
            0 <= i <= plan@.len(),
            out@.len() == i,
            forall|j: int| 0 <= j < i ==> #[trigger] out@[j]@ == render_spec(p, plan@[j]@),
        decreases plan.len() - i,
    {
        let inv = render(p, &plan[i]);
        out.push(inv);
        i = i + 1;
    }
    assert(invocations_view(out@) =~= rendered(p, plan_view(plan@)));
    out
}

/// How far a sequence gets from step `i` on, when the `k`-th step it runs
/// comes out as `outcomes[k]`: the number of steps run by then. It stops after
/// the first required step that fails, or when steps or outcomes run out.
pub open spec fn run_from(steps: Seq<InvocationView>, outcomes: Seq<bool>, i: int) -> int
    decreases steps.len() - i,
{
    if i < 0 || i >= steps.len() || i >= outcomes.len() {
        i
    } else if is_required(steps[i]) && !outcomes[i] {
        i + 1
    } else {
        run_from(steps, outcomes, i + 1)
    }
}

/// Whether, from step `i` on, the sequence stops on a required step that fails.
pub open spec fn fails_from(steps: Seq<InvocationView>, outcomes: Seq<bool>, i: int) -> bool
    decreases steps.len() - i,
{
    if i < 0 || i >= steps.len() || i >= outcomes.len() {
        false
    } else if is_required(steps[i]) && !outcomes[i] {
        true
    } else {
        fails_from(steps, outcomes, i + 1)
    }
}

/// A sequence of invocations being carried out, one at a time.
pub struct Execution {
    steps: Vec<Invocation>,
    position: usize,
    aborted: bool,
}

/// The mathematical value of an [`Execution`].
pub struct ExecutionView {
    /// The whole sequence.
    pub steps: Seq<InvocationView>,
    /// How many steps have run.
    pub position: nat,
    /// Whether a required step failed.
    pub aborted: bool,
}

impl View for Execution {
    type V = ExecutionView;

    closed spec fn view(&self) -> ExecutionView {
        ExecutionView {
            steps: invocations_view(self.steps@),
            position: self.position as nat,
            aborted: self.aborted,
        }
    }
}

impl Execution {
    /// Its steps are counted within the sequence.
    pub closed spec fn wf(&self) -> bool {
        self.position <= self.steps@.len()
    }

    /// Whether a step is waiting to run.
    pub open spec fn pending(&self) -> bool {
        !self@.aborted && self@.position < self@.steps.len()
    }

    /// A sequence of which nothing has run.
    pub fn new(steps: Vec<Invocation>) -> (r: Execution)
        ensures
            r.wf(),
            r@ == (ExecutionView { steps: invocations_view(steps@), position: 0, aborted: false }),
    {
        Execution { steps, position: 0, aborted: false }
    }

    /// The step to run next: none once a required step has failed or all have run.
    pub fn current(&self) -> (r: Option<&Invocation>)
        requires
            self.wf(),
        ensures
            self.pending() <==> r is Some,
            r is Some ==> r->0@ == self@.steps[self@.position as int],
    {
        if self.aborted || self.position >= self.steps.len() {
            None
        } else {
            Some(&self.steps[self.position])
        }
    }

    /// Records how the pending step came out. A failure of a required step ends
    /// the sequence; that of a step run at best effort does not.
    pub fn report(&mut self, succeeded: bool)
        requires
            old(self).wf(),
            old(self).pending(),
        ensures
            final(self).wf(),
            final(self)@.steps == old(self)@.steps,
            final(self)@.position == old(self)@.position + 1,
            final(self)@.aborted == (!succeeded && is_required(
                old(self)@.steps[old(self)@.position as int],
            )),
    {
        let required = match &self.steps[self.position] {
            Invocation::Run { required, .. } => *required,
            Invocation::WriteResolver { .. } => true,
        };
        let n = self.steps.len();
        assert(self.position < n);
        self.aborted = !succeeded && required;
        self.position = self.position + 1;
    }

    /// Whether a required step failed.
    pub fn is_aborted(&self) -> (r: bool)
        ensures
            r == self@.aborted,
    {
        self.aborted
    }

    /// How many steps have run.
    pub fn position(&self) -> (r: usize)
        ensures
            r == self@.position,
    {
        self.position
    }

    /// Whether every step has run with no required one failing.
    pub fn is_complete(&self) -> (r: bool)
        requires
            self.wf(),
        ensures
            r == (!self@.aborted && self@.position == self@.steps.len()),
    {
        !self.aborted && self.position == self.steps.len()
    }
}

/// Carries out a sequence where the `k`-th step run comes out as `outcomes[k]`,
/// until it ends or the outcomes run out.
pub fn replay(steps: Vec<Invocation>, outcomes: &Vec<bool>) -> (r: Execution)
    ensures
        r.wf(),
        r@.steps == invocations_view(steps@),
        r@.position == run_from(invocations_view(steps@), outcomes@, 0),
        r@.aborted == fails_from(invocations_view(steps@), outcomes@, 0),
{
    let ghost s = invocations_view(steps@);
    let mut e = Execution::new(steps);
    while e.current().is_some() && e.position() < outcomes.len()
        invariant
            e.wf(),
            e@.steps == s,
            !e@.aborted ==> run_from(s, outcomes@, e@.position as int) == run_from(s, outcomes@, 0),
            !e@.aborted ==> fails_from(s, outcomes@, e@.position as int) == fails_from(s, outcomes@, 0),
            e@.aborted ==> e@.position == run_from(s, outcomes@, 0) && fails_from(s, outcomes@, 0),
        decreases s.len() - e@.position,
    {
        let k = e.position();
        e.report(outcomes[k]);
    }
    e
}

} // verus!
