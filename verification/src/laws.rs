//! The registry's invariants and the laws that relate the commands: what any
//! serialized run of commands — from concurrent triggers or an eager startup
//! loop — guarantees about the tracked instances.

use vstd::prelude::*;

use crate::commands::phase_after;
use crate::commands::Command;
use crate::commands::ManagerPhase;
use crate::registry::next_ordinal_spec;
use crate::registry::spawn_appended;
use crate::registry::wf_registry;
use crate::registry::Instance;

verus! {

/// Law: the empty registry is well formed, and the next spawn after a drain
/// is assigned ordinal 1 — ordinal assignment is a pure function of the
/// current size, never a monotonic counter.
pub proof fn lemma_empty_registry(s: Seq<Instance>)
    requires
        s.len() == 0,
    ensures
        wf_registry(s),
        next_ordinal_spec(s) == 1,
{
}

/// Law: a successful spawn preserves well-formedness — the appended instance
/// carries exactly the next position's ordinal.
pub proof fn lemma_spawn_preserves_wf(pre: Seq<Instance>, post: Seq<Instance>)
    requires
        wf_registry(pre),
        spawn_appended(pre, post),
    ensures
        wf_registry(post),
        post.len() == pre.len() + 1,
{
    let inst = choose|inst: Instance|
        post == pre.push(inst) && #[trigger] inst.ordinal == next_ordinal_spec(pre);
    assert forall|i: int| 0 <= i < post.len() implies #[trigger] post[i].ordinal == i + 1 by {
        if i < pre.len() {
            assert(post[i] == pre[i]);
        } else {
            assert(post[i] == inst);
        }
    }
}

/// Law: in a well-formed registry the ordinals are pairwise distinct and
/// contiguous — exactly the values 1 through the registry's size.
pub proof fn lemma_ordinals_distinct_contiguous(s: Seq<Instance>)
    requires
        wf_registry(s),
    ensures
        forall|i: int, j: int|
            0 <= i < s.len() && 0 <= j < s.len() && i != j ==> #[trigger] s[i].ordinal
                != #[trigger] s[j].ordinal,
        forall|i: int| 0 <= i < s.len() ==> 1 <= #[trigger] s[i].ordinal <= s.len(),
{
}

/// Law: N serialized successful spawns starting from the empty registry —
/// whether issued by the eager startup loop or by N concurrent triggers that
/// the lock serializes — yield exactly N tracked instances with ordinals
/// 1 through N in insertion order: no lost update, no duplicate ordinal.
pub proof fn lemma_spawn_sequence(states: Seq<Seq<Instance>>)
    requires
        states.len() >= 1,
        states[0] == Seq::<Instance>::empty(),
        forall|k: int| 0 <= k < states.len() - 1 ==> spawn_appended(states[k], #[trigger] states[k + 1]),
    ensures
        states.last().len() == states.len() - 1,
        wf_registry(states.last()),
    decreases states.len(),
{
    if states.len() == 1 {
        assert(states.last() == states[0]);
    } else {
        let prefix = states.drop_last();
        assert(prefix[0] == states[0]);
        assert forall|k: int| 0 <= k < prefix.len() - 1 implies spawn_appended(
            prefix[k],
            #[trigger] prefix[k + 1],
        ) by {
            assert(prefix[k] == states[k]);
            assert(prefix[k + 1] == states[k + 1]);
        }
        lemma_spawn_sequence(prefix);
        assert(prefix.last() == states[states.len() - 2]);
        assert(states.last() == states[(states.len() - 2) + 1]);
        assert(spawn_appended(states[states.len() - 2], states[(states.len() - 2) + 1]));
        lemma_spawn_preserves_wf(states[states.len() - 2], states.last());
    }
}

/// Law: a failed spawn attempt leaves the registry exactly as it was, so
/// well-formedness still holds and the next command starts from the same
/// state — a failure never blocks later spawns or terminations.
pub proof fn lemma_failed_spawn_isolated(pre: Seq<Instance>, post: Seq<Instance>)
    requires
        wf_registry(pre),
        post == pre,
    ensures
        wf_registry(post),
        next_ordinal_spec(post) == next_ordinal_spec(pre),
{
}

/// Law: `Terminated` is absorbing — once TerminateAllAndExit has moved the
/// manager out of `Running`, no command brings it back.
pub proof fn lemma_terminated_absorbing(cmd: Command)
    ensures
        phase_after(ManagerPhase::Terminated, cmd) == ManagerPhase::Terminated,
{
}

} // verus!
