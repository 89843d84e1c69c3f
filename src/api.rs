//! The remote endpoint: its address, the request paths of the operations the
//! session uses, the credentials header, and the listing records.

use vstd::prelude::*;
use crate::session::PowerOp;
use crate::inventory::{Host, Vm};

verus! {

/// The cluster controller to talk to, by host name.
pub struct VcenterApi {
    pub hostname: String,
}

/// What base64 (standard alphabet, with padding) gives for the UTF-8 bytes of a string.
pub uninterp spec fn base64_of(s: Seq<char>) -> Seq<char>;

/// Relies on base64::encode: the standard base64 encoding of the string's bytes.
#[verifier::external_body]
fn base64_encode(s: &str) -> (r: String)
    ensures
        r@ == base64_of(s@),
{
    base64::encode(s)
}

/// The REST root of the controller.
pub open spec fn rest_root(hostname: Seq<char>) -> Seq<char> {
    "https://"@ + hostname + "/rest/"@
}

/// The root of the vendor namespace of the controller.
pub open spec fn vendor_root(hostname: Seq<char>) -> Seq<char> {
    "https://"@ + hostname + "/rest/com/vmware/"@
}

/// The last path segment of a power operation.
pub open spec fn power_segment(op: PowerOp) -> Seq<char> {
    match op {
        PowerOp::PowerOn => "start"@,
        PowerOp::PowerOff => "stop"@,
        PowerOp::Reboot => "reset"@,
    }
}

pub fn new_api(hostname: String) -> (r: VcenterApi)
    ensures
        r.hostname == hostname,
{
    VcenterApi::new(hostname)
}

impl VcenterApi {
    pub fn new(hostname: String) -> (r: VcenterApi)
        ensures
            r.hostname == hostname,
    {
        VcenterApi { hostname }
    }

    pub fn clone(&self) -> (r: VcenterApi)
        ensures
            r.hostname@ == self.hostname@,
    {
        VcenterApi { hostname: self.hostname.clone() }
    }

    pub fn create_url_for_vcenter(&self) -> (r: String)
        ensures
            r@ == rest_root(self.hostname@),
    {
        let mut url = String::from_str("https://");
        url.append(self.hostname.as_str());
        url.append("/rest/");
        url
    }

    /// The vendor root; the host name of the request does not enter it.
    pub fn create_url(&self, host: String) -> (r: String)
        ensures
            r@ == vendor_root(self.hostname@),
    {
        let mut url = String::from_str("https://");
        url.append(self.hostname.as_str());
        url.append("/rest/com/vmware/");
        url
    }

    /// Where a session is opened.
    pub fn session_url(&self) -> (r: String)
        ensures
            r@ == vendor_root(self.hostname@) + "cis/session"@,
    {
        let mut url = self.create_url(String::new());
        url.append("cis/session");
        url
    }

    /// Where every VM is listed.
    pub fn all_vms_url(&self) -> (r: String)
        ensures
            r@ == rest_root(self.hostname@) + "vcenter/vm"@,
    {
        let mut url = self.create_url_for_vcenter();
        url.append("vcenter/vm");
        url
    }

    /// Where the VMs of the host with remote identifier `host` are listed.
    pub fn vms_from_host_url(&self, host: &str) -> (r: String)
        ensures
            r@ == rest_root(self.hostname@) + "vcenter/vm"@ + "?filter.hosts="@ + host@,
    {
        let mut url = self.create_url_for_vcenter();
        url.append("vcenter/vm");
        url.append("?filter.hosts=");
        url.append(host);
        url
    }

    /// Where every host is listed.
    pub fn all_hosts_url(&self) -> (r: String)
        ensures
            r@ == rest_root(self.hostname@) + "vcenter/host"@,
    {
        let mut url = self.create_url_for_vcenter();
        url.append("vcenter/host");
        url
    }

    /// Where the host with display name `name` is looked up.
    pub fn host_url(&self, name: &str) -> (r: String)
        ensures
            r@ == rest_root(self.hostname@) + "vcenter/host/"@ + "?filter.names="@ + name@,
    {
        let mut url = self.create_url_for_vcenter();
        url.append("vcenter/host/");
        url.append("?filter.names=");
        url.append(name);
        url
    }

    /// Where power operation `op` is requested for the VM with identifier `vm`.
    pub fn power_url(&self, vm: &str, op: PowerOp) -> (r: String)
        ensures
            r@ == rest_root(self.hostname@) + "vcenter/vm/"@ + vm@ + "/power/"@ + power_segment(op),
    {
        let mut url = self.create_url_for_vcenter();
        url.append("vcenter/vm/");
        url.append(vm);
        url.append("/power/");
        match op {
            PowerOp::PowerOn => url.append("start"),
            PowerOp::PowerOff => url.append("stop"),
            PowerOp::Reboot => url.append("reset"),
        }
        url
    }

    /// The value of the basic authorization header for the credentials.
    pub fn basic_auth(username: &str, password: &str) -> (r: String)
        ensures
            r@ == "Basic "@ + base64_of(username@ + ":"@ + password@),
    {
        let mut pair = String::from_str(username);
        pair.append(":");
        pair.append(password);
        let encoded = base64_encode(pair.as_str());
        let mut auth = String::from_str("Basic ");
        auth.append(encoded.as_str());
        auth
    }
}

/// A VM as the controller lists it.
pub struct VapiVm {
    pub memory_size_MiB: u32,
    pub vm: String,
    pub name: String,
    pub power_state: String,
    pub cpu_count: u32,
}

impl VapiVm {
    pub fn new(memory_size_MiB: u32, vm: String, name: String, power_state: String, cpu_count: u32) -> (r: VapiVm)
        ensures
            r.memory_size_MiB == memory_size_MiB,
            r.vm == vm,
            r.name == name,
            r.power_state == power_state,
            r.cpu_count == cpu_count,
    {
        VapiVm { memory_size_MiB, vm, name, power_state, cpu_count }
    }
}

/// A host as the controller lists it.
pub struct VapiHost {
    pub host: String,
    pub name: String,
    pub connection_state: String,
    pub power_state: String,
}

impl VapiHost {
    pub fn new(host: String, name: String, connection_state: String, power_state: String) -> (r: VapiHost)
        ensures
            r.host == host,
            r.name == name,
            r.connection_state == connection_state,
            r.power_state == power_state,
    {
        VapiHost { host, name, connection_state, power_state }
    }
}

/// `v` is the fresh VM that the listing record `rec` describes.
pub open spec fn listed_vm(v: Vm, rec: VapiVm) -> bool {
    &&& v.name@ == rec.name@
    &&& v.state@ == rec.power_state@
    &&& v.vm_id@ == rec.vm@
    &&& !v.selected
    &&& !v.error
    &&& v.error_msg@.len() == 0
    &&& !v.excluded_by_filter
}

/// The inventory entry for a listed host and its listed VMs: every VM
/// unselected, free of error, and shown, in listing order.
pub fn host_from_listing(listing: &VapiHost, vms: &Vec<VapiVm>) -> (r: Host)
    ensures
        r.wf(),
        r.synced(),
        r.name@ == listing.name@,
        r.state@ == listing.power_state@,
        r.ip@ == listing.host@,
        r.vms_master@.len() == vms@.len(),
        forall|i: int| 0 <= i < vms@.len() ==> listed_vm(#[trigger] r.vms_master@[i], vms@[i]),
        r.visible@ == Seq::new(vms@.len(), |i: int| i as usize),
{
    let mut host = Host::new(listing.name.as_str(), listing.power_state.as_str(), listing.host.as_str());
    let mut i: usize = 0;
    while i < vms.len()
        invariant
            i <= vms@.len(),
            host.wf(),
            host.synced(),
            host.name@ == listing.name@,
            host.state@ == listing.power_state@,
            host.ip@ == listing.host@,
            host.vms_master@.len() == i,
            forall|j: int| 0 <= j < i ==> listed_vm(#[trigger] host.vms_master@[j], vms@[j]),
            host.visible@ == Seq::new(i as nat, |j: int| j as usize),
        decreases vms@.len() - i,
    {
        let rec = &vms[i];
        let vm = Vm::new(rec.name.as_str(), rec.power_state.as_str(), rec.vm.as_str());
        host.add_vm(vm);
        proof {
            assert(host.visible@ =~= Seq::new((i + 1) as nat, |j: int| j as usize));
        }
        i = i + 1;
    }
    host
}

} // verus!
