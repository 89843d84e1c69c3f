//! Hosts and their virtual machines: an authoritative list of VMs per host
//! and the visible sequence derived from it by the active filter.

use vstd::prelude::*;

verus! {

/// One virtual machine as the interface knows it.
pub struct Vm {
    pub name: String,
    pub state: String,
    pub vm_id: String,
    pub selected: bool,
    pub error: bool,
    pub error_msg: String,
    pub excluded_by_filter: bool,
}

impl Vm {
    /// An error message is present exactly when the last operation failed.
    pub open spec fn wf(&self) -> bool {
        self.error <==> self.error_msg@.len() > 0
    }

    pub fn new(name: &str, state: &str, vm: &str) -> (r: Vm)
        ensures
            r.wf(),
            r.name@ == name@,
            r.state@ == state@,
            r.vm_id@ == vm@,
            !r.selected,
            !r.error,
            r.error_msg@ == Seq::<char>::empty(),
            !r.excluded_by_filter,
    {
        Vm {
            name: String::from_str(name),
            state: String::from_str(state),
            vm_id: String::from_str(vm),
            selected: false,
            error: false,
            error_msg: String::new(),
            excluded_by_filter: false,
        }
    }
}

/// Indices of the first `n` VMs of `m` that the filter does not exclude, in order.
pub open spec fn visible_upto(m: Seq<Vm>, n: nat) -> Seq<usize>
    decreases n,
{
    if n == 0 {
        Seq::<usize>::empty()
    } else {
        let prev = visible_upto(m, (n - 1) as nat);
        if m[n - 1].excluded_by_filter {
            prev
        } else {
            prev.push((n - 1) as usize)
        }
    }
}

/// The visible sequence that the filter flags of `m` determine.
pub open spec fn visible_of(m: Seq<Vm>) -> Seq<usize> {
    visible_upto(m, m.len())
}

/// Strictly increasing indices, all below `len`.
pub open spec fn ordered_indices(s: Seq<usize>, len: nat) -> bool {
    &&& forall|k: int| 0 <= k < s.len() ==> (#[trigger] s[k]) < len
    &&& forall|a: int, b: int| 0 <= a < b < s.len() ==> (#[trigger] s[a]) < (#[trigger] s[b])
}

/// One physical node and the VMs it runs.
pub struct Host {
    pub name: String,
    pub state: String,
    pub ip: String,
    /// Every VM of the host, in listing order; filtering never changes it
    /// but for the filter flags.
    pub vms_master: Vec<Vm>,
    /// Positions in `vms_master` of the VMs currently shown, in order.
    pub visible: Vec<usize>,
}

impl Host {
    pub open spec fn wf(&self) -> bool {
        &&& ordered_indices(self.visible@, self.vms_master@.len())
        &&& forall|i: int| 0 <= i < self.vms_master@.len() ==> (#[trigger] self.vms_master@[i]).wf()
    }

    /// The visible sequence is exactly the one that the filter flags give.
    pub open spec fn synced(&self) -> bool {
        self.visible@ == visible_of(self.vms_master@)
    }

    /// The VM shown at visible position `k`.
    pub open spec fn shown(&self, k: int) -> Vm {
        self.vms_master@[self.visible@[k] as int]
    }

    pub fn new(name: &str, state: &str, ip: &str) -> (r: Host)
        ensures
            r.wf(),
            r.synced(),
            r.name@ == name@,
            r.state@ == state@,
            r.ip@ == ip@,
            r.vms_master@.len() == 0,
            r.visible@.len() == 0,
    {
        Host {
            name: String::from_str(name),
            state: String::from_str(state),
            ip: String::from_str(ip),
            vms_master: Vec::new(),
            visible: Vec::new(),
        }
    }

    /// Adds a VM at the end of the host's list; it is shown unless its
    /// filter flag excludes it.
    pub fn add_vm(&mut self, vm: Vm)
        requires
            old(self).wf(),
            vm.wf(),
        ensures
            final(self).wf(),
            final(self).vms_master@ == old(self).vms_master@.push(vm),
            final(self).visible@ == (if vm.excluded_by_filter {
                old(self).visible@
            } else {
                old(self).visible@.push(old(self).vms_master@.len() as usize)
            }),
            old(self).synced() ==> final(self).synced(),
            final(self).name == old(self).name,
            final(self).state == old(self).state,
            final(self).ip == old(self).ip,
    {
        let n = self.vms_master.len();
        let hidden = vm.excluded_by_filter;
        self.vms_master.push(vm);
        if !hidden {
            self.visible.push(n);
        }
        proof {
            lemma_visible_upto_prefix(old(self).vms_master@, vm, n as nat);
        }
    }

    /// Adds a VM to the host's authoritative list only; it is shown once the
    /// filter is next applied.
    pub fn add_cpy_vm(&mut self, vm: Vm)
        requires
            old(self).wf(),
            vm.wf(),
        ensures
            final(self).wf(),
            final(self).vms_master@ == old(self).vms_master@.push(vm),
            final(self).visible@ == old(self).visible@,
            final(self).name == old(self).name,
            final(self).state == old(self).state,
            final(self).ip == old(self).ip,
    {
        self.vms_master.push(vm);
    }

    /// Number of VMs currently shown.
    pub fn visible_len(&self) -> (r: usize)
        ensures
            r == self.visible@.len(),
    {
        self.visible.len()
    }

    /// The VM shown at visible position `k`.
    pub fn visible_vm(&self, k: usize) -> (r: &Vm)
        requires
            self.wf(),
            k < self.visible@.len(),
        ensures
            *r == self.shown(k as int),
    {
        &self.vms_master[self.visible[k]]
    }
}

/// Appending a VM does not change the visible indices of the VMs before it.
pub proof fn lemma_visible_upto_prefix(m: Seq<Vm>, v: Vm, n: nat)
    requires
        n <= m.len(),
    ensures
        visible_upto(m.push(v), n) == visible_upto(m, n),
    decreases n,
{
    if n > 0 {
        lemma_visible_upto_prefix(m, v, (n - 1) as nat);
    }
}

/// The visible indices are strictly increasing and below `n`.
pub proof fn lemma_visible_upto_ordered(m: Seq<Vm>, n: nat)
    requires
        n <= m.len(),
        n <= usize::MAX,
    ensures
        ordered_indices(visible_upto(m, n), n),
    decreases n,
{
    if n > 0 {
        lemma_visible_upto_ordered(m, (n - 1) as nat);
        let prev = visible_upto(m, (n - 1) as nat);
        let cur = visible_upto(m, n);
        assert forall|k: int| 0 <= k < cur.len() implies (#[trigger] cur[k]) < n by {
            if k < prev.len() {
                assert(cur[k] == prev[k]);
            }
        }
        assert forall|a: int, b: int| 0 <= a < b < cur.len() implies (#[trigger] cur[a]) < (
        #[trigger] cur[b]) by {
            assert(cur[a] == prev[a]);
            assert((prev[a] as int) < n - 1);
            if b < prev.len() {
                assert(cur[b] == prev[b]);
            } else {
                assert(!m[n - 1].excluded_by_filter);
                assert(cur == prev.push((n - 1) as usize));
                assert(cur[b] == (n - 1) as usize);
            }
        }
    }
}

/// With no VM excluded, every VM is shown, in listing order.
pub proof fn lemma_visible_upto_all(m: Seq<Vm>, n: nat)
    requires
        n <= m.len(),
        forall|i: int| 0 <= i < n ==> !(#[trigger] m[i]).excluded_by_filter,
    ensures
        visible_upto(m, n) == Seq::new(n, |i: int| i as usize),
    decreases n,
{
    if n > 0 {
        lemma_visible_upto_all(m, (n - 1) as nat);
        assert(visible_upto(m, n) =~= Seq::new(n, |i: int| i as usize));
    }
}

} // verus!
