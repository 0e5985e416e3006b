//! What chains of `set` and `with` do to a configuration. Each one touches a
//! field of its own, so a chain is decided by the last `set` and the last
//! `with` in it, whatever came before and however the two kinds interleave.

use vstd::prelude::*;
use crate::config::Config;
use crate::endpoint::endpoint_of;
use crate::engine::Engine;
use crate::op::Op;

verus! {

/// One builder call, as a value.
pub enum Transition {
    /// A call of `set` with this operation.
    SetOp(Op),
    /// A call of `with` with this engine.
    WithEngine(Engine),
}

impl Config {
    /// The configuration after the builder call `t`.
    pub open spec fn apply(self, t: Transition) -> Config {
        match t {
            Transition::SetOp(op) => self.set(op),
            Transition::WithEngine(engine) => self.with(engine),
        }
    }

    /// The configuration after the builder calls `ts`, made in order.
    pub open spec fn run(self, ts: Seq<Transition>) -> Config
        decreases ts.len(),
    {
        if ts.len() == 0 {
            self
        } else {
            self.run(ts.drop_last()).apply(ts.last())
        }
    }
}

/// `ts[i]` is a `set`, and no `set` follows it.
pub open spec fn is_last_set(ts: Seq<Transition>, i: int) -> bool {
    &&& 0 <= i < ts.len()
    &&& ts[i] is SetOp
    &&& forall|j: int| i < j < ts.len() ==> !(ts[j] is SetOp)
}

/// `ts[i]` is a `with`, and no `with` follows it.
pub open spec fn is_last_with(ts: Seq<Transition>, i: int) -> bool {
    &&& 0 <= i < ts.len()
    &&& ts[i] is WithEngine
    &&& forall|j: int| i < j < ts.len() ==> !(ts[j] is WithEngine)
}

/// The default configuration is consistent, and `set` and `with` keep a
/// configuration consistent: none can be built whose endpoint is not the one
/// of its operation.
pub proof fn lemma_consistency_kept(c: Config, op: Op, engine: Engine)
    ensures
        Config::initial().consistent(),
        c.set(op).consistent(),
        c.consistent() ==> c.with(engine).consistent(),
{
}

/// Every chain of builder calls keeps a configuration consistent.
pub proof fn lemma_run_consistent(c: Config, ts: Seq<Transition>)
    requires
        c.consistent(),
    ensures
        c.run(ts).consistent(),
    decreases ts.len(),
{
    if ts.len() > 0 {
        lemma_run_consistent(c, ts.drop_last());
    }
}

/// Chains compose: running one chain and then another is running the two as
/// one, however the calls are grouped.
pub proof fn lemma_run_concat(c: Config, first: Seq<Transition>, second: Seq<Transition>)
    ensures
        c.run(first + second) == c.run(first).run(second),
    decreases second.len(),
{
    if second.len() == 0 {
        assert(first + second =~= first);
    } else {
        assert((first + second).drop_last() =~= first + second.drop_last());
        lemma_run_concat(c, first, second.drop_last());
    }
}

/// Setting the same operation twice is the same as setting it once.
pub proof fn lemma_set_idempotent(c: Config, op: Op)
    ensures
        c.set(op).set(op) == c.set(op),
{
}

/// Of two `set` calls in a row only the second counts.
pub proof fn lemma_set_last_wins(c: Config, first: Op, second: Op)
    ensures
        c.set(first).set(second) == c.set(second),
{
}

/// Of two `with` calls in a row only the second counts.
pub proof fn lemma_with_last_wins(c: Config, first: Engine, second: Engine)
    ensures
        c.with(first).with(second) == c.with(second),
{
}

/// `set` and `with` commute: the order of the two makes no difference.
pub proof fn lemma_set_with_commute(c: Config, op: Op, engine: Engine)
    ensures
        c.set(op).with(engine) == c.with(engine).set(op),
{
}

/// After any chain of builder calls the operation, and with it the endpoint,
/// is that of the last `set` in the chain.
pub proof fn lemma_last_set_decides(c: Config, ts: Seq<Transition>, i: int)
    requires
        is_last_set(ts, i),
    ensures
        c.run(ts).operation == ts[i]->SetOp_0,
        c.run(ts).endpoint == endpoint_of(ts[i]->SetOp_0),
    decreases ts.len(),
{
    if i < ts.len() - 1 {
        let init = ts.drop_last();
        assert(is_last_set(init, i)) by {
            assert forall|j: int| i < j < init.len() implies !(init[j] is SetOp) by {
                assert(init[j] == ts[j]);
            }
        }
        lemma_last_set_decides(c, init, i);
    }
}

/// A chain of builder calls without a `set` leaves operation and endpoint as
/// they were.
pub proof fn lemma_without_set_unchanged(c: Config, ts: Seq<Transition>)
    requires
        forall|j: int| 0 <= j < ts.len() ==> !(ts[j] is SetOp),
    ensures
        c.run(ts).operation == c.operation,
        c.run(ts).endpoint == c.endpoint,
    decreases ts.len(),
{
    if ts.len() > 0 {
        let init = ts.drop_last();
        assert forall|j: int| 0 <= j < init.len() implies !(init[j] is SetOp) by {
            assert(init[j] == ts[j]);
        }
        lemma_without_set_unchanged(c, init);
    }
}

/// After any chain of builder calls the engine is that of the last `with` in
/// the chain.
pub proof fn lemma_last_with_decides(c: Config, ts: Seq<Transition>, i: int)
    requires
        is_last_with(ts, i),
    ensures
        c.run(ts).engine == ts[i]->WithEngine_0,
    decreases ts.len(),
{
    if i < ts.len() - 1 {
        let init = ts.drop_last();
        assert(is_last_with(init, i)) by {
            assert forall|j: int| i < j < init.len() implies !(init[j] is WithEngine) by {
                assert(init[j] == ts[j]);
            }
        }
        lemma_last_with_decides(c, init, i);
    }
}

/// A chain of builder calls without a `with` leaves the engine as it was.
pub proof fn lemma_without_with_unchanged(c: Config, ts: Seq<Transition>)
    requires
        forall|j: int| 0 <= j < ts.len() ==> !(ts[j] is WithEngine),
    ensures
        c.run(ts).engine == c.engine,
    decreases ts.len(),
{
    if ts.len() > 0 {
        let init = ts.drop_last();
        assert forall|j: int| 0 <= j < init.len() implies !(init[j] is WithEngine) by {
            assert(init[j] == ts[j]);
        }
        lemma_without_with_unchanged(c, init);
    }
}

} // verus!
