//! Properties that relate several operations of the session.

use vstd::prelude::*;
use crate::inventory::{Host, Vm};
use crate::filter::{filtered, contains_ignorecase, is_substring, occurs_at, lower_of, flagged_by};
use crate::session::{InputMode, Key, PowerOp, State, next_mode, toggled};
use crate::dispatch::{outcomes_applied, post_state, failure_message, STATUS_OK};

verus! {

/// Clearing the search restores everything: after a filter whose lowercase
/// query is empty (what an empty search text gives), no VM is excluded and
/// the visible sequence is the whole authoritative list, in its order.
pub proof fn lemma_filter_reversible(h0: Host, h1: Host, folded_query: Seq<char>)
    requires
        h0.wf(),
        filtered(h0, h1, folded_query),
        folded_query.len() == 0,
    ensures
        forall|i: int| 0 <= i < h1.vms_master@.len() ==> !(#[trigger] h1.vms_master@[i]).excluded_by_filter,
        h1.visible@ == Seq::new(h1.vms_master@.len(), |i: int| i as usize),
        h1.vms_master@.len() == h0.vms_master@.len(),
{
    let n = h1.vms_master@.len();
    assert forall|i: int| 0 <= i < n implies !(#[trigger] h1.vms_master@[i]).excluded_by_filter by {
        let name = lower_of(h0.vms_master@[i].name@);
        assert(name.subrange(0, 0) =~= folded_query);
        assert(occurs_at(name, folded_query, 0));
        assert(h1.vms_master@[i] == flagged_by(h0.vms_master@[i], folded_query));
    }
    crate::inventory::lemma_visible_upto_all(h1.vms_master@, n);
}

/// A filter excludes a VM exactly when its name does not contain the search
/// text, ignoring case.
pub proof fn lemma_filter_correct(h0: Host, h1: Host, search: Seq<char>)
    requires
        filtered(h0, h1, lower_of(search)),
    ensures
        forall|i: int| 0 <= i < h1.vms_master@.len() ==> (#[trigger] h1.vms_master@[i]).excluded_by_filter
            == !contains_ignorecase(h0.vms_master@[i].name@, search),
        forall|i: int| 0 <= i < h1.vms_master@.len() ==> (#[trigger] h1.vms_master@[i]).name == h0.vms_master@[i].name,
{
    assert forall|i: int| 0 <= i < h1.vms_master@.len() implies (#[trigger] h1.vms_master@[i]).excluded_by_filter
        == !contains_ignorecase(h0.vms_master@[i].name@, search) && h1.vms_master@[i].name == h0.vms_master@[i].name by {
        assert(h1.vms_master@[i] == flagged_by(h0.vms_master@[i], lower_of(search)));
    }
}

/// Filtering never changes a selection: a VM toggled and then filtered out
/// and back in keeps the selection the toggle gave it.
pub proof fn lemma_selection_survives_filters(
    h_pre: Host,
    h0: Host,
    h1: Host,
    h2: Host,
    idx: int,
    q1: Seq<char>,
    q2: Seq<char>,
)
    requires
        0 <= idx < h_pre.vms_master@.len(),
        toggled(h_pre, h0, idx),
        filtered(h0, h1, q1),
        filtered(h1, h2, q2),
    ensures
        h2.vms_master@[idx].selected == !h_pre.vms_master@[idx].selected,
        forall|i: int| 0 <= i < h0.vms_master@.len() ==> (#[trigger] h2.vms_master@[i]).selected
            == h0.vms_master@[i].selected,
{
    assert(h1.vms_master@[idx] == flagged_by(h0.vms_master@[idx], q1));
    assert(h2.vms_master@[idx] == flagged_by(h1.vms_master@[idx], q2));
    assert forall|i: int| 0 <= i < h0.vms_master@.len() implies (#[trigger] h2.vms_master@[i]).selected
        == h0.vms_master@[i].selected by {
        assert(h1.vms_master@[i] == flagged_by(h0.vms_master@[i], q1));
        assert(h2.vms_master@[i] == flagged_by(h1.vms_master@[i], q2));
    }
}

/// Every key, in every mode, leads to exactly one of the four modes.
pub proof fn lemma_mode_closure(m: InputMode, k: Key)
    ensures
        next_mode(m, k) == InputMode::Normal || next_mode(m, k) == InputMode::Search || next_mode(m, k)
            == InputMode::ListVM || next_mode(m, k) == InputMode::File,
{
}

/// The cursors of a well-formed session stay inside their sequences.
pub proof fn lemma_cursor_bounds(s: State)
    requires
        s.wf(),
    ensures
        s.host_cursor matches Some(c) ==> c < s.hosts@.len(),
        s.vm_cursor matches Some(v) ==> v < s.current_len(),
{
}

/// With nothing shown for the current host (no VMs, or a filter that matches
/// none), there is no VM cursor, and entering the VM list sets none.
pub proof fn lemma_empty_host_no_cursor(s: State)
    requires
        s.wf(),
        s.current_len() == 0,
    ensures
        s.vm_cursor is None,
        s.first_vm() is None,
{
}

/// One VM's failure does not stop another's success: after a bulk action,
/// every target whose call succeeded is unselected, free of error and in the
/// operation's power state, and every target whose call failed carries a
/// non-empty error message, whatever became of the others.
pub proof fn lemma_dispatch_isolation(
    h0: Host,
    h1: Host,
    op: PowerOp,
    targets: Seq<usize>,
    statuses: Seq<u16>,
)
    requires
        outcomes_applied(h0, h1, op, targets, statuses),
    ensures
        forall|k: int| 0 <= k < targets.len() && statuses[k] == STATUS_OK ==> {
            let v = #[trigger] h1.vms_master@[targets[k] as int];
            &&& !v.selected
            &&& !v.error
            &&& v.state@ == post_state(op)
        },
        forall|k: int| 0 <= k < targets.len() && statuses[k] != STATUS_OK ==> {
            let v = #[trigger] h1.vms_master@[targets[k] as int];
            &&& v.error
            &&& v.error_msg@.len() > 0
        },
{
    reveal_strlit("Error while powering on VM");
    reveal_strlit("Error while powering off VM");
    reveal_strlit("Error while rebooting VM");
    assert forall|k: int| 0 <= k < targets.len() && statuses[k] != STATUS_OK implies {
        let v = #[trigger] h1.vms_master@[targets[k] as int];
        &&& v.error
        &&& v.error_msg@.len() > 0
    } by {
        assert(failure_message(op).len() > 0);
    }
}

} // verus!
