//! The runtime: the only component that mutates application state, and the
//! single serialization point for all messages. Arrived messages wait in one
//! queue; the dispatch loop applies them through `update` one after another,
//! in arrival order, to completion — update calls never nest or interleave —
//! and re-renders after every mutation. A ghost history records every applied
//! message, and the runtime's invariant states that the current state is
//! exactly the initial state with the whole history applied in order.

use vstd::prelude::*;

use crate::application::{step, step_cmd, step_effects, view_v, App, AppV};
use crate::msg::{effects_view, msgs_view, Command, Effect, EffectV, Msg, MsgV};
use crate::view::Node;

verus! {

/// What one applied message handed back to the host: the command to execute
/// asynchronously (fire-and-forget) and the document-level side effects to
/// perform.
#[derive(Debug, PartialEq)]
pub struct StepOutcome {
    pub command: Command,
    pub effects: Vec<Effect>,
}

/// The mathematical value of a step outcome.
#[verifier::ext_equal]
pub struct StepOutcomeV {
    pub command: Seq<MsgV>,
    pub effects: Seq<EffectV>,
}

impl View for StepOutcome {
    type V = StepOutcomeV;

    open spec fn view(&self) -> StepOutcomeV {
        StepOutcomeV { command: self.command@, effects: effects_view(self.effects@) }
    }
}

/// The values of a sequence of step outcomes, in order.
pub open spec fn outcomes_view(s: Seq<StepOutcome>) -> Seq<StepOutcomeV> {
    Seq::new(s.len(), |i: int| s[i]@)
}

/// The state after applying a sequence of messages, in order, each to the
/// state the previous ones produced.
pub open spec fn apply_msgs(s: AppV, ms: Seq<MsgV>) -> AppV
    decreases ms.len(),
{
    if ms.len() == 0 {
        s
    } else {
        apply_msgs(step(s, ms[0]), ms.drop_first())
    }
}

/// The outcomes of applying a sequence of messages, in order: the i-th
/// outcome is what `update` returned for the i-th message, applied to the
/// state the first i messages produced.
pub open spec fn outcomes_of(s: AppV, ms: Seq<MsgV>) -> Seq<StepOutcomeV> {
    Seq::new(
        ms.len(),
        |i: int| StepOutcomeV {
            command: step_cmd(apply_msgs(s, ms.take(i)), ms[i]),
            effects: step_effects(apply_msgs(s, ms.take(i)), ms[i]),
        },
    )
}

/// Applying a history extended by one message is one step after applying the
/// history.
pub proof fn lemma_apply_msgs_snoc(s: AppV, ms: Seq<MsgV>, m: MsgV)
    ensures
        apply_msgs(s, ms.push(m)) == step(apply_msgs(s, ms), m),
    decreases ms.len(),
{
    if ms.len() == 0 {
        reveal_with_fuel(apply_msgs, 2);
        assert(ms.push(m)[0] == m);
        assert(ms.push(m).drop_first() =~= Seq::<MsgV>::empty());
    } else {
        assert(ms.push(m)[0] == ms[0]);
        assert(ms.push(m).drop_first() =~= ms.drop_first().push(m));
        lemma_apply_msgs_snoc(step(s, ms[0]), ms.drop_first(), m);
    }
}

/// The serialization law: update calls never interleave, so applying two
/// arrival batches one after the other is the same as applying the first
/// batch to completion and only then the second.
pub proof fn lemma_dispatch_serialized(s: AppV, h1: Seq<MsgV>, h2: Seq<MsgV>)
    ensures
        apply_msgs(s, h1 + h2) == apply_msgs(apply_msgs(s, h1), h2),
    decreases h1.len(),
{
    if h1.len() == 0 {
        assert(h1 + h2 =~= h2);
    } else {
        assert((h1 + h2).drop_first() =~= h1.drop_first() + h2);
        lemma_dispatch_serialized(step(s, h1[0]), h1.drop_first(), h2);
    }
}

/// The runtime. It owns the authoritative state for the rest of the process
/// life; all mutation passes through its queue.
pub struct Program {
    app: App,
    pending: Vec<Msg>,
    init: Ghost<AppV>,
    history: Ghost<Seq<MsgV>>,
}

impl Program {
    /// The current state value.
    pub closed spec fn state(self) -> AppV {
        self.app.abs()
    }

    /// The messages waiting in the queue, in arrival order.
    pub closed spec fn pending_msgs(self) -> Seq<MsgV> {
        msgs_view(self.pending@)
    }

    /// The state the runtime was mounted with.
    pub closed spec fn init_state(self) -> AppV {
        self.init@
    }

    /// Every message applied so far, in the order it was applied.
    pub closed spec fn history(self) -> Seq<MsgV> {
        self.history@
    }

    /// The runtime's invariant: the state is exactly the mounted state with
    /// the whole history applied, one message after another.
    pub closed spec fn wf(self) -> bool {
        self.state() == apply_msgs(self.init_state(), self.history())
    }

    /// Bind one application instance as the sole owner of state for the
    /// remaining process lifetime.
    pub fn mount(app: App) -> (p: Program)
        ensures
            p.wf(),
            p.state() == app.abs(),
            p.init_state() == app.abs(),
            p.history() == Seq::<MsgV>::empty(),
            p.pending_msgs() == Seq::<MsgV>::empty(),
    {
        let ghost a0 = app.abs();
        let p = Program { app, pending: Vec::new(), init: Ghost(a0), history: Ghost(Seq::empty()) };
        proof {
            assert(p.pending_msgs() =~= Seq::<MsgV>::empty());
        }
        p
    }

    /// Let a message arrive: it is queued, never applied inline, so an
    /// in-flight update is never re-entered.
    pub fn enqueue(&mut self, m: Msg)
        ensures
            final(self).pending_msgs() == old(self).pending_msgs().push(m@),
            final(self).state() == old(self).state(),
            final(self).history() == old(self).history(),
            final(self).init_state() == old(self).init_state(),
            old(self).wf() ==> final(self).wf(),
    {
        self.pending.push(m);
        proof {
            assert(self.pending_msgs() =~= old(self).pending_msgs().push(m@));
        }
    }

    /// Queue the messages a completed command produced, in the order the
    /// command produced them.
    pub fn complete_command(&mut self, c: Command)
        ensures
            final(self).pending_msgs() == old(self).pending_msgs() + c@,
            final(self).state() == old(self).state(),
            final(self).history() == old(self).history(),
            final(self).init_state() == old(self).init_state(),
            old(self).wf() ==> final(self).wf(),
    {
        let mut msgs = c.into_msgs();
        let ghost cv = msgs_view(msgs@);
        let ghost p0 = self.pending@;
        self.pending.append(&mut msgs);
        proof {
            assert forall|i: int|
                0 <= i < self.pending@.len() implies msgs_view(self.pending@)[i] == (msgs_view(p0)
                + cv)[i] by {
                assert(msgs_view(self.pending@)[i] == self.pending@[i]@);
                if i < p0.len() {
                    assert(self.pending@[i] == p0[i]);
                    assert(msgs_view(p0)[i] == p0[i]@);
                } else {
                    assert(cv[i - p0.len()] == self.pending@[i]@);
                }
            }
            assert(msgs_view(self.pending@) =~= msgs_view(p0) + cv);
            assert(final(self).pending_msgs() =~= old(self).pending_msgs() + c@);
        }
    }

    /// Drain the queue: apply every waiting message through `update`, one
    /// after another, in arrival order, each to completion before the next
    /// begins. Returns each step's command and side effects, in the same
    /// order, for the host to execute.
    pub fn run_pending(&mut self) -> (r: Vec<StepOutcome>)
        requires
            old(self).wf(),
        ensures
            final(self).wf(),
            final(self).init_state() == old(self).init_state(),
            final(self).pending_msgs() == Seq::<MsgV>::empty(),
            final(self).history() == old(self).history() + old(self).pending_msgs(),
            final(self).state() == apply_msgs(old(self).state(), old(self).pending_msgs()),
            outcomes_view(r@) == outcomes_of(old(self).state(), old(self).pending_msgs()),
    {
        let ghost ms0 = old(self).pending_msgs();
        let ghost s0 = old(self).state();
        let ghost h0 = old(self).history();
        let mut outcomes: Vec<StepOutcome> = Vec::new();
        let ghost k: int = 0;
        while self.pending.len() > 0
            invariant
                self.wf(),
                self.init_state() == old(self).init_state(),
                0 <= k <= ms0.len(),
                outcomes@.len() == k,
                self.pending_msgs() =~= ms0.skip(k),
                self.history() =~= h0 + ms0.take(k),
                self.state() == apply_msgs(s0, ms0.take(k)),
                forall|j: int| 0 <= j < k ==> outcomes@[j]@ == outcomes_of(s0, ms0)[j],
            decreases self.pending.len(),
        {
            proof {
                assert(msgs_view(self.pending@).len() == self.pending@.len());
                assert(ms0.skip(k).len() == ms0.len() - k);
                assert(k < ms0.len());
            }
            let ghost pre = self.pending@;
            let ghost spre = self.state();
            let m = self.pending.remove(0);
            let ghost mv = m@;
            proof {
                assert(msgs_view(pre)[0] == pre[0]@);
                assert(mv == ms0.skip(k)[0]);
                assert(mv == ms0[k]);
                assert(self.pending@ =~= pre.drop_first());
                assert forall|i: int|
                    0 <= i < self.pending@.len() implies msgs_view(self.pending@)[i] == ms0.skip(
                    k + 1,
                )[i] by {
                    assert(msgs_view(self.pending@)[i] == self.pending@[i]@);
                    assert(self.pending@[i] == pre[i + 1]);
                    assert(msgs_view(pre)[i + 1] == pre[i + 1]@);
                    assert(msgs_view(pre)[i + 1] == ms0.skip(k)[i + 1]);
                    assert(ms0.skip(k)[i + 1] == ms0[k + i + 1]);
                    assert(ms0.skip(k + 1)[i] == ms0[k + 1 + i]);
                }
                assert(msgs_view(self.pending@) =~= ms0.skip(k + 1));
            }
            let (command, effects) = self.app.update(m);
            self.history = Ghost(self.history@.push(mv));
            let ghost co = command@;
            let ghost ef = effects_view(effects@);
            outcomes.push(StepOutcome { command, effects });
            proof {
                lemma_apply_msgs_snoc(s0, ms0.take(k), mv);
                assert(ms0.take(k).push(mv) =~= ms0.take(k + 1));
                lemma_apply_msgs_snoc(self.init_state(), h0 + ms0.take(k), mv);
                assert((h0 + ms0.take(k)).push(mv) =~= h0 + ms0.take(k + 1));
                assert(self.history() =~= h0 + ms0.take(k + 1));
                assert(co == step_cmd(spre, mv));
                assert(ef == step_effects(spre, mv));
                assert(spre == apply_msgs(s0, ms0.take(k)));
                k = k + 1;
                assert(self.state() == apply_msgs(s0, ms0.take(k)));
                assert(outcomes@[k - 1]@ =~~= outcomes_of(s0, ms0)[k - 1]);
            }
        }
        proof {
            assert(ms0.skip(k) =~= self.pending_msgs());
            assert(k == ms0.len());
            assert(ms0.take(k) =~= ms0);
            assert(outcomes_view(outcomes@) =~= outcomes_of(s0, ms0));
            assert(final(self).pending_msgs() =~= Seq::<MsgV>::empty());
        }
        outcomes
    }

    /// The application the runtime owns, for reading.
    pub fn app(&self) -> (r: &App)
        ensures
            r.abs() == self.state(),
    {
        &self.app
    }

    /// Render the current state and hand the fresh tree out for the external
    /// renderer.
    pub fn render(&self) -> (r: Node)
        ensures
            r@ == view_v(self.state()),
    {
        self.app.view()
    }

    /// The only entry point by which a message reaches `update`: queue the
    /// message, drain the queue in arrival order, then re-render.
    pub fn dispatch(&mut self, m: Msg) -> (r: (Vec<StepOutcome>, Node))
        requires
            old(self).wf(),
        ensures
            final(self).wf(),
            final(self).init_state() == old(self).init_state(),
            final(self).pending_msgs() == Seq::<MsgV>::empty(),
            final(self).history() == old(self).history() + old(self).pending_msgs().push(m@),
            final(self).state() == apply_msgs(old(self).state(), old(self).pending_msgs().push(m@)),
            outcomes_view(r.0@) == outcomes_of(old(self).state(), old(self).pending_msgs().push(m@)),
            r.1@ == view_v(final(self).state()),
    {
        self.enqueue(m);
        let outcomes = self.run_pending();
        let tree = self.render();
        (outcomes, tree)
    }
}

} // verus!
