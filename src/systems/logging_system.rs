use vstd::prelude::*;

use crate::components::LogComponent;
use crate::entity_manager::{Entity, EntityManager};

verus! {

/// Log records and emitted messages after the logging update has run over
/// the first `n` rows of `ents`, in table order: each live entity's bound
/// Log record that holds info gives up its message and is cleared.
pub open spec fn log_pass(ents: Seq<Entity>, logs: Seq<LogComponent>, n: nat) -> (Seq<LogComponent>, Seq<Seq<char>>)
    decreases n,
{
    if n == 0 {
        (logs, Seq::empty())
    } else {
        let (l, m) = log_pass(ents, logs, (n - 1) as nat);
        let e = ents[n - 1];
        let c = l[e.log_ind as int];
        if e.exists && c.has_info {
            (l.update(e.log_ind as int, LogComponent { has_info: false, ..c }), m.push(c.message@))
        } else {
            (l, m)
        }
    }
}

/// Every row of `ents` names a slot of `logs`.
pub open spec fn slots_in_range(ents: Seq<Entity>, logs: Seq<LogComponent>) -> bool {
    forall|i: int| 0 <= i < ents.len() ==> (#[trigger] ents[i]).log_ind < logs.len()
}

/// Takes the pending message out of a Log record: when the record holds
/// info, clears its flag and returns the message to emit.
pub fn update_entity(log_comp: &mut LogComponent) -> (r: Option<String>)
    ensures
        *final(log_comp) == (LogComponent { has_info: false, ..*old(log_comp) }),
        old(log_comp).has_info ==> r is Some && r->0@ == old(log_comp).message@,
        !old(log_comp).has_info ==> r is None,
{
    if log_comp.has_info {
        log_comp.has_info = false;
        Some(log_comp.message.clone())
    } else {
        None
    }
}

/// Runs the logging update for every live entity, in table order, and
/// returns the messages to emit, in that order.
pub fn update(entity_mgr: &mut EntityManager) -> (r: Vec<String>)
    requires
        old(entity_mgr).wf(),
    ensures
        final(entity_mgr).wf(),
        ({
            let (l, m) = log_pass(
                old(entity_mgr).entities_view(),
                old(entity_mgr).logs(),
                old(entity_mgr).entities_view().len(),
            );
            &&& final(entity_mgr).logs() == l
            &&& r@.map_values(|s: String| s@) == m
        }),
        final(entity_mgr).entities_view() == old(entity_mgr).entities_view(),
        final(entity_mgr).sprites() == old(entity_mgr).sprites(),
        final(entity_mgr).positions() == old(entity_mgr).positions(),
{
    let n = entity_mgr.entity_count();
    let ghost ents = entity_mgr.entities_view();
    let ghost logs = entity_mgr.logs();
    let mut out: Vec<String> = Vec::new();
    let mut i: usize = 0;
    while i < n
        invariant
            i <= n,
            n == ents.len(),
            entity_mgr.wf(),
            entity_mgr.entities_view() == ents,
            entity_mgr.logs() == log_pass(ents, logs, i as nat).0,
            out@.map_values(|s: String| s@) == log_pass(ents, logs, i as nat).1,
            entity_mgr.sprites() == old(entity_mgr).sprites(),
            entity_mgr.positions() == old(entity_mgr).positions(),
        decreases n - i,
    {
        let e = entity_mgr.entity(i as u32);
        if e.exists {
            let emitted = update_entity(entity_mgr.get_log_comp(i as u32));
            match emitted {
                Some(msg) => {
                    out.push(msg);
                },
                None => {},
            }
        }
        i = i + 1;
        proof {
            assert(out@.map_values(|s: String| s@) =~= log_pass(ents, logs, i as nat).1);
        }
    }
    out
}

/// After the first `n` rows have been processed, no live one of them is
/// bound to a Log record that still holds info.
proof fn lemma_pass_clears(ents: Seq<Entity>, logs: Seq<LogComponent>, n: nat)
    requires
        n <= ents.len(),
        slots_in_range(ents, logs),
    ensures
        log_pass(ents, logs, n).0.len() == logs.len(),
        forall|j: int|
            0 <= j < n && (#[trigger] ents[j]).exists ==> !log_pass(ents, logs, n).0[ents[j].log_ind as int].has_info,
    decreases n,
{
    if n > 0 {
        lemma_pass_clears(ents, logs, (n - 1) as nat);
    }
}

/// A pass over records whose live-bound slots hold no info changes
/// nothing and emits nothing.
proof fn lemma_quiet_pass(ents: Seq<Entity>, logs: Seq<LogComponent>, n: nat)
    requires
        n <= ents.len(),
        forall|j: int|
            0 <= j < ents.len() && (#[trigger] ents[j]).exists ==> !logs[ents[j].log_ind as int].has_info,
    ensures
        log_pass(ents, logs, n) == (logs, Seq::<Seq<char>>::empty()),
    decreases n,
{
    if n > 0 {
        lemma_quiet_pass(ents, logs, (n - 1) as nat);
    }
}

/// Logging is idempotent: a second pass right after a first one leaves
/// every Log record as it is and emits no message, and after the first
/// pass no live entity's Log record holds info.
pub proof fn lemma_second_pass_silent(ents: Seq<Entity>, logs: Seq<LogComponent>)
    requires
        slots_in_range(ents, logs),
    ensures
        ({
            let first = log_pass(ents, logs, ents.len()).0;
            &&& forall|j: int|
                0 <= j < ents.len() && (#[trigger] ents[j]).exists ==> !first[ents[j].log_ind as int].has_info
            &&& log_pass(ents, first, ents.len()) == (first, Seq::<Seq<char>>::empty())
        }),
{
    lemma_pass_clears(ents, logs, ents.len());
    lemma_quiet_pass(ents, log_pass(ents, logs, ents.len()).0, ents.len());
}

} // verus!
