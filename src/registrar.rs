use vstd::prelude::*;

verus! {

/// A request to the registrar. `H` is the completion handle of one unit of work.
pub enum NodeManagerMessage<H> {
    /// Track one more unit until it completes.
    Reg(H),
    /// Stop accepting units and drain those registered.
    Close,
}

#[derive(Clone, Copy, Debug, PartialEq, Eq, Structural)]
pub enum RegistrarPhase {
    Accepting,
    Draining,
    Terminated,
}

/// What the driver of the registrar does once a request has been handled.
pub enum RegistrarAction<H> {
    /// Nothing to do but wait for the next request.
    Continue,
    /// Await every one of these units, in any order, reporting each completion.
    Drain(Vec<H>),
    /// Nothing is left to await: the registrar is done.
    Finished,
    /// A unit that arrived after the close: it is not tracked.
    Rejected(H),
}

/// The registrar's state as plain values: its phase, the units waiting for the
/// close, and how many drained units have not completed yet.
pub type RegistrarModel<H> = (RegistrarPhase, Seq<H>, nat);

pub open spec fn initial_model<H>() -> RegistrarModel<H> {
    (RegistrarPhase::Accepting, Seq::empty(), 0)
}

pub open spec fn model_after_receive<H>(s: RegistrarModel<H>, m: NodeManagerMessage<H>) -> RegistrarModel<H> {
    if s.0 == RegistrarPhase::Accepting {
        match m {
            NodeManagerMessage::Reg(h) => (s.0, s.1.push(h), s.2),
            NodeManagerMessage::Close => if s.1.len() == 0 {
                (RegistrarPhase::Terminated, Seq::empty(), 0)
            } else {
                (RegistrarPhase::Draining, Seq::empty(), s.1.len())
            },
        }
    } else {
        s
    }
}

/// `r` is what handling `m` in state `s` hands back.
pub open spec fn action_for<H>(s: RegistrarModel<H>, m: NodeManagerMessage<H>, r: RegistrarAction<H>) -> bool {
    match m {
        NodeManagerMessage::Reg(h) => if s.0 == RegistrarPhase::Accepting {
            r is Continue
        } else {
            r == RegistrarAction::Rejected(h)
        },
        NodeManagerMessage::Close => if s.0 != RegistrarPhase::Accepting {
            r is Continue
        } else if s.1.len() == 0 {
            r is Finished
        } else {
            r is Drain && r->Drain_0@ == s.1
        },
    }
}

pub open spec fn model_after_completion<H>(s: RegistrarModel<H>) -> RegistrarModel<H> {
    if s.0 == RegistrarPhase::Draining {
        if s.2 <= 1 {
            (RegistrarPhase::Terminated, s.1, 0)
        } else {
            (s.0, s.1, (s.2 - 1) as nat)
        }
    } else {
        s
    }
}

/// The state after a run of requests, handled in turn from `s`.
pub open spec fn model_after_all<H>(s: RegistrarModel<H>, msgs: Seq<NodeManagerMessage<H>>) -> RegistrarModel<H>
    decreases msgs.len(),
{
    if msgs.len() == 0 {
        s
    } else {
        model_after_receive(model_after_all(s, msgs.drop_last()), msgs.last())
    }
}

/// The state after `k` units of the drain have reported completion.
pub open spec fn model_after_completions<H>(s: RegistrarModel<H>, k: nat) -> RegistrarModel<H>
    decreases k,
{
    if k == 0 {
        s
    } else {
        model_after_completion(model_after_completions(s, (k - 1) as nat))
    }
}

/// One registration request for each unit, in order.
pub open spec fn registrations<H>(units: Seq<H>) -> Seq<NodeManagerMessage<H>> {
    Seq::new(units.len(), |i: int| NodeManagerMessage::Reg(units[i]))
}

proof fn lemma_registrations_pend<H>(units: Seq<H>)
    ensures
        model_after_all(initial_model(), registrations(units)) == (
            RegistrarPhase::Accepting,
            units,
            0nat,
        ),
    decreases units.len(),
{
    if units.len() > 0 {
        let prev = units.drop_last();
        assert(registrations(units).drop_last() =~= registrations(prev));
        lemma_registrations_pend(prev);
        assert(prev.push(units.last()) =~= units);
    } else {
        assert(units =~= Seq::empty());
    }
}

proof fn lemma_completions_count_down<H>(n: nat, k: nat)
    requires
        0 < k <= n,
    ensures
        model_after_completions((RegistrarPhase::Draining, Seq::<H>::empty(), n), k) == if k
            < n {
            (RegistrarPhase::Draining, Seq::<H>::empty(), (n - k) as nat)
        } else {
            (RegistrarPhase::Terminated, Seq::<H>::empty(), 0nat)
        },
    decreases k,
{
    let s: RegistrarModel<H> = (RegistrarPhase::Draining, Seq::empty(), n);
    if k > 1 {
        lemma_completions_count_down::<H>(n, (k - 1) as nat);
    } else {
        assert(model_after_completions(s, 0nat) == s);
    }
}

/// Registering any number of units and then closing drains exactly those
/// units, and the registrar terminates only once every one of them has
/// completed, whichever order they complete in.
pub proof fn lemma_drain_awaits_every_unit<H>(units: Seq<H>, r: RegistrarAction<H>)
    requires
        action_for(
            model_after_all(initial_model(), registrations(units)),
            NodeManagerMessage::Close,
            r,
        ),
    ensures
        units.len() == 0 ==> r is Finished,
        units.len() > 0 ==> r is Drain && r->Drain_0@ == units,
        ({
            let closed = model_after_all(
                initial_model(),
                registrations(units).push(NodeManagerMessage::Close),
            );
            &&& closed.2 == units.len()
            &&& forall|k: nat|
                k < units.len() ==> (#[trigger] model_after_completions(closed, k)).0
                    == RegistrarPhase::Draining
            &&& model_after_completions(closed, units.len()).0 == RegistrarPhase::Terminated
        }),
{
    lemma_registrations_pend(units);
    let regs = registrations(units);
    assert(regs.push(NodeManagerMessage::Close).drop_last() =~= regs);
    let closed = model_after_all(initial_model(), regs.push(NodeManagerMessage::Close));
    if units.len() > 0 {
        assert forall|k: nat| k < units.len() implies (#[trigger] model_after_completions(
            closed,
            k,
        )).0 == RegistrarPhase::Draining by {
            if k > 0 {
                lemma_completions_count_down::<H>(units.len(), k);
            }
        }
        lemma_completions_count_down::<H>(units.len(), units.len());
    }
}

/// Tracks every spawned unit of work and, once closed, waits for each of them
/// to complete before it terminates.
pub struct TaskRegistrar<H> {
    phase: RegistrarPhase,
    pending: Vec<H>,
    outstanding: usize,
}

impl<H> View for TaskRegistrar<H> {
    type V = RegistrarModel<H>;

    closed spec fn view(&self) -> RegistrarModel<H> {
        (self.phase, self.pending@, self.outstanding as nat)
    }
}

/// Units are held only while accepting, counted only while draining.
pub open spec fn model_wf<H>(s: RegistrarModel<H>) -> bool {
    match s.0 {
        RegistrarPhase::Accepting => s.2 == 0,
        RegistrarPhase::Draining => s.1.len() == 0 && s.2 > 0,
        RegistrarPhase::Terminated => s.1.len() == 0 && s.2 == 0,
    }
}

impl<H> TaskRegistrar<H> {
    pub open spec fn wf(&self) -> bool {
        model_wf(self@)
    }

    pub fn new() -> (r: TaskRegistrar<H>)
        ensures
            r@ == initial_model::<H>(),
            r.wf(),
    {
        TaskRegistrar { phase: RegistrarPhase::Accepting, pending: Vec::new(), outstanding: 0 }
    }

    pub fn phase(&self) -> (r: RegistrarPhase)
        ensures
            r == self@.0,
    {
        self.phase
    }

    /// How many drained units have not completed yet.
    pub fn outstanding(&self) -> (r: usize)
        ensures
            r == self@.2,
    {
        self.outstanding
    }

    /// Handles one request.
    pub fn receive(&mut self, msg: NodeManagerMessage<H>) -> (r: RegistrarAction<H>)
        requires
            old(self).wf(),
        ensures
            final(self).wf(),
            final(self)@ == model_after_receive(old(self)@, msg),
            action_for(old(self)@, msg, r),
    {
        if self.phase != RegistrarPhase::Accepting {
            return match msg {
                NodeManagerMessage::Reg(h) => RegistrarAction::Rejected(h),
                NodeManagerMessage::Close => RegistrarAction::Continue,
            };
        }
        match msg {
            NodeManagerMessage::Reg(h) => {
                self.pending.push(h);
                RegistrarAction::Continue
            },
            NodeManagerMessage::Close => {
                let mut units: Vec<H> = Vec::new();
                core::mem::swap(&mut units, &mut self.pending);
                if units.len() == 0 {
                    self.phase = RegistrarPhase::Terminated;
                    RegistrarAction::Finished
                } else {
                    self.phase = RegistrarPhase::Draining;
                    self.outstanding = units.len();
                    RegistrarAction::Drain(units)
                }
            },
        }
    }

    /// Records that one drained unit has completed; returns whether the
    /// registrar has now terminated.
    pub fn unit_completed(&mut self) -> (r: bool)
        requires
            old(self).wf(),
            old(self)@.0 == RegistrarPhase::Draining,
        ensures
            final(self).wf(),
            final(self)@ == model_after_completion(old(self)@),
            r == (final(self)@.0 == RegistrarPhase::Terminated),
    {
        self.outstanding = self.outstanding - 1;
        if self.outstanding == 0 {
            self.phase = RegistrarPhase::Terminated;
            true
        } else {
            false
        }
    }
}

} // verus!
