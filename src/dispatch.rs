//! Bulk power actions: which VMs an action goes to, and how the outcome of
//! each remote call is folded back into the inventory.

use vstd::prelude::*;
use crate::inventory::{Host, Vm, ordered_indices};
use crate::session::{PowerOp, State};

verus! {

/// The status that the remote side answers a successful call with.
pub const STATUS_OK: u16 = 200;

/// The power state that a successful operation leaves a VM in.
pub open spec fn post_state(op: PowerOp) -> Seq<char> {
    match op {
        PowerOp::PowerOn => "POWERED_ON"@,
        PowerOp::PowerOff => "POWERED_OFF"@,
        PowerOp::Reboot => "POWERED_ON"@,
    }
}

/// The message that a failed operation leaves on a VM.
pub open spec fn failure_message(op: PowerOp) -> Seq<char> {
    match op {
        PowerOp::PowerOn => "Error while powering on VM"@,
        PowerOp::PowerOff => "Error while powering off VM"@,
        PowerOp::Reboot => "Error while rebooting VM"@,
    }
}

fn post_state_text(op: PowerOp) -> (r: &'static str)
    ensures
        r@ == post_state(op),
{
    match op {
        PowerOp::PowerOn => "POWERED_ON",
        PowerOp::PowerOff => "POWERED_OFF",
        PowerOp::Reboot => "POWERED_ON",
    }
}

fn failure_text(op: PowerOp) -> (r: &'static str)
    ensures
        r@ == failure_message(op),
        r@.len() > 0,
{
    proof {
        reveal_strlit("Error while powering on VM");
        reveal_strlit("Error while powering off VM");
        reveal_strlit("Error while rebooting VM");
    }
    match op {
        PowerOp::PowerOn => "Error while powering on VM",
        PowerOp::PowerOff => "Error while powering off VM",
        PowerOp::Reboot => "Error while rebooting VM",
    }
}

/// `v1` is `v0` after operation `op` came back with `status`: on success the
/// VM is unselected, clear of error and in the operation's power state; on
/// failure it keeps its selection and power state and carries the error.
pub open spec fn outcome_applied(v0: Vm, v1: Vm, op: PowerOp, status: u16) -> bool {
    &&& v1.name == v0.name
    &&& v1.vm_id == v0.vm_id
    &&& v1.excluded_by_filter == v0.excluded_by_filter
    &&& if status == STATUS_OK {
        &&& !v1.selected
        &&& !v1.error
        &&& v1.error_msg@.len() == 0
        &&& v1.state@ == post_state(op)
    } else {
        &&& v1.selected == v0.selected
        &&& v1.error
        &&& v1.error_msg@ == failure_message(op)
        &&& v1.state == v0.state
    }
}

/// `h1` is `h0` with the outcome `statuses[k]` folded into VM `targets[k]`,
/// for every `k`; the other VMs and the visible sequence stay as they were.
pub open spec fn outcomes_applied(
    h0: Host,
    h1: Host,
    op: PowerOp,
    targets: Seq<usize>,
    statuses: Seq<u16>,
) -> bool {
    &&& h1.name == h0.name
    &&& h1.state == h0.state
    &&& h1.ip == h0.ip
    &&& h1.visible@ == h0.visible@
    &&& h1.vms_master@.len() == h0.vms_master@.len()
    &&& forall|k: int|
        0 <= k < targets.len() ==> outcome_applied(
            h0.vms_master@[#[trigger] targets[k] as int],
            h1.vms_master@[targets[k] as int],
            op,
            statuses[k],
        )
    &&& forall|i: int|
        0 <= i < h0.vms_master@.len() && !targets.contains(i as usize) ==> #[trigger] h1.vms_master@[i]
            == h0.vms_master@[i]
}

/// Positions in `m` of the selected VMs among the first `n` shown ones, in order.
pub open spec fn selected_upto(m: Seq<Vm>, vis: Seq<usize>, n: nat) -> Seq<usize>
    decreases n,
{
    if n == 0 {
        Seq::<usize>::empty()
    } else {
        let prev = selected_upto(m, vis, (n - 1) as nat);
        if m[vis[n - 1] as int].selected {
            prev.push(vis[n - 1])
        } else {
            prev
        }
    }
}

/// The VMs that a bulk action on `h` goes to: the selected visible ones.
pub open spec fn targets_of(h: Host) -> Seq<usize> {
    selected_upto(h.vms_master@, h.visible@, h.visible@.len())
}

/// The targets come from the visible sequence, so they are ordered and in range.
pub proof fn lemma_selected_upto_ordered(m: Seq<Vm>, vis: Seq<usize>, n: nat)
    requires
        n <= vis.len(),
        ordered_indices(vis, m.len()),
    ensures
        ordered_indices(selected_upto(m, vis, n), m.len()),
        forall|j: int, k: int|
            0 <= j < selected_upto(m, vis, n).len() && n <= k < vis.len() ==> #[trigger] selected_upto(
                m,
                vis,
                n,
            )[j] < #[trigger] vis[k],
    decreases n,
{
    if n > 0 {
        lemma_selected_upto_ordered(m, vis, (n - 1) as nat);
        let prev = selected_upto(m, vis, (n - 1) as nat);
        let cur = selected_upto(m, vis, n);
        assert forall|j: int, k: int| 0 <= j < cur.len() && n <= k < vis.len() implies #[trigger] cur[j]
            < #[trigger] vis[k] by {
            if j < prev.len() {
                assert(cur[j] == prev[j]);
                assert(prev[j] < vis[k]);
            } else {
                assert(cur[j] == vis[n - 1]);
            }
        }
        assert forall|a: int, b: int| 0 <= a < b < cur.len() implies (#[trigger] cur[a]) < (
        #[trigger] cur[b]) by {
            assert(cur[a] == prev[a]);
            if b < prev.len() {
                assert(cur[b] == prev[b]);
            } else {
                assert(cur[b] == vis[n - 1]);
                assert(prev[a] < vis[n - 1]);
            }
        }
        assert forall|j: int| 0 <= j < cur.len() implies (#[trigger] cur[j]) < m.len() by {
            if j < prev.len() {
                assert(cur[j] == prev[j]);
            } else {
                assert(cur[j] == vis[n - 1]);
            }
        }
    }
}

impl Host {
    /// Positions in the authoritative list of the selected visible VMs, in order.
    pub fn selected_targets(&self) -> (r: Vec<usize>)
        requires
            self.wf(),
        ensures
            r@ == targets_of(*self),
            ordered_indices(r@, self.vms_master@.len()),
    {
        let mut r: Vec<usize> = Vec::new();
        let mut k: usize = 0;
        while k < self.visible.len()
            invariant
                self.wf(),
                k <= self.visible@.len(),
                r@ == selected_upto(self.vms_master@, self.visible@, k as nat),
            decreases self.visible@.len() - k,
        {
            let idx = self.visible[k];
            if self.vms_master[idx].selected {
                r.push(idx);
            }
            k = k + 1;
        }
        proof {
            lemma_selected_upto_ordered(self.vms_master@, self.visible@, self.visible@.len());
        }
        r
    }

    /// Folds the outcome `statuses[k]` of the call made for VM `targets[k]`
    /// into the inventory, for every `k`; the other VMs stay as they were.
    pub fn apply_outcomes(&mut self, op: PowerOp, targets: &Vec<usize>, statuses: &Vec<u16>)
        requires
            old(self).wf(),
            ordered_indices(targets@, old(self).vms_master@.len()),
            statuses@.len() == targets@.len(),
        ensures
            final(self).wf(),
            outcomes_applied(*old(self), *final(self), op, targets@, statuses@),
    {
        let n = targets.len();
        let mut k: usize = 0;
        while k < n
            invariant
                n == targets@.len(),
                n == statuses@.len(),
                k <= n,
                ordered_indices(targets@, old(self).vms_master@.len()),
                self.name == old(self).name,
                self.state == old(self).state,
                self.ip == old(self).ip,
                self.visible@ == old(self).visible@,
                self.vms_master@.len() == old(self).vms_master@.len(),
                old(self).wf(),
                forall|i: int| 0 <= i < self.vms_master@.len() ==> (#[trigger] self.vms_master@[i]).wf(),
                forall|j: int| 0 <= j < k ==> outcome_applied(
                    old(self).vms_master@[#[trigger] targets@[j] as int],
                    self.vms_master@[targets@[j] as int],
                    op,
                    statuses@[j],
                ),
                forall|i: int| 0 <= i < self.vms_master@.len() && (forall|j: int| 0 <= j < k ==> targets@[j] != i)
                    ==> #[trigger] self.vms_master@[i] == old(self).vms_master@[i],
            decreases n - k,
        {
            let idx = targets[k];
            proof {
                assert(targets@[k as int] < self.vms_master@.len());
                assert forall|j: int| 0 <= j < k implies targets@[j] != idx by {
                    assert(targets@[j] < targets@[k as int]);
                }
            }
            if statuses[k] == STATUS_OK {
                self.vms_master[idx].selected = false;
                self.vms_master[idx].error = false;
                self.vms_master[idx].error_msg = String::new();
                self.vms_master[idx].state = String::from_str(post_state_text(op));
            } else {
                self.vms_master[idx].error = true;
                self.vms_master[idx].error_msg = String::from_str(failure_text(op));
            }
            proof {
                assert forall|j: int| 0 <= j < k + 1 implies outcome_applied(
                    old(self).vms_master@[#[trigger] targets@[j] as int],
                    self.vms_master@[targets@[j] as int],
                    op,
                    statuses@[j],
                ) by {
                    if j < k {
                        assert(targets@[j] < targets@[k as int]);
                    }
                }
            }
            k = k + 1;
        }
        proof {
            assert forall|i: int| 0 <= i < old(self).vms_master@.len() && !targets@.contains(i as usize)
                implies #[trigger] self.vms_master@[i] == old(self).vms_master@[i] by {
                assert forall|j: int| 0 <= j < n implies targets@[j] != i by {
                    if targets@[j] == i {
                        assert(targets@[j] == i as usize);
                    }
                }
            }
        }
    }
}

impl State {
    /// The targets of a bulk action: the selected visible VMs of the current host.
    pub open spec fn current_targets(&self) -> Seq<usize> {
        match self.host_cursor {
            Some(c) => targets_of(self.hosts@[c as int]),
            None => Seq::<usize>::empty(),
        }
    }

    /// The remote identifiers to call, one for each target, in order.
    pub fn dispatch_ids(&self) -> (r: Vec<String>)
        requires
            self.wf(),
        ensures
            r@.len() == self.current_targets().len(),
            forall|k: int| 0 <= k < r@.len() ==> (#[trigger] r@[k])@ == self.hosts@[self.host_cursor->0 as int].vms_master@[self.current_targets()[k] as int].vm_id@,
    {
        let mut r: Vec<String> = Vec::new();
        if let Some(c) = self.host_cursor {
            let host = &self.hosts[c];
            let targets = host.selected_targets();
            let mut k: usize = 0;
            while k < targets.len()
                invariant
                    host.wf(),
                    *host == self.hosts@[c as int],
                    self.host_cursor == Some(c),
                    targets@ == self.current_targets(),
                    ordered_indices(targets@, host.vms_master@.len()),
                    k <= targets@.len(),
                    r@.len() == k,
                    forall|j: int| 0 <= j < k ==> (#[trigger] r@[j])@ == host.vms_master@[targets@[j] as int].vm_id@,
                decreases targets@.len() - k,
            {
                r.push(host.vms_master[targets[k]].vm_id.clone());
                k = k + 1;
            }
        }
        r
    }

    /// Folds the outcomes of a bulk action into the current host:
    /// `statuses[k]` is what the call for the `k`-th target returned.
    pub fn apply_dispatch(&mut self, op: PowerOp, statuses: &Vec<u16>)
        requires
            old(self).wf(),
            statuses@.len() == old(self).current_targets().len(),
        ensures
            final(self).wf(),
            final(self).mode == old(self).mode,
            final(self).host_cursor == old(self).host_cursor,
            final(self).vm_cursor == old(self).vm_cursor,
            final(self).search_string == old(self).search_string,
            final(self).file_path == old(self).file_path,
            final(self).hosts@.len() == old(self).hosts@.len(),
            forall|h: int| 0 <= h < old(self).hosts@.len() && Some(h as usize) != old(self).host_cursor
                ==> #[trigger] final(self).hosts@[h] == old(self).hosts@[h],
            old(self).host_cursor matches Some(c) ==> outcomes_applied(
                old(self).hosts@[c as int],
                final(self).hosts@[c as int],
                op,
                old(self).current_targets(),
                statuses@,
            ),
    {
        if let Some(c) = self.host_cursor {
            let targets = self.hosts[c].selected_targets();
            self.hosts[c].apply_outcomes(op, &targets, statuses);
            proof {
                assert forall|h: int| 0 <= h < self.hosts@.len() implies (#[trigger] self.hosts@[h]).wf() by {
                    if h != c {
                        assert(self.hosts@[h] == old(self).hosts@[h]);
                    }
                }
            }
        }
    }
}

} // verus!
