use vcenter_tui::api::{new_api, VcenterApi};
use vcenter_tui::session::PowerOp;

#[test]
fn rest_urls() {
    let api = new_api("vc.example".to_string());
    assert_eq!(api.create_url_for_vcenter(), "https://vc.example/rest/");
    assert_eq!(api.create_url("ignored".to_string()), "https://vc.example/rest/com/vmware/");
    assert_eq!(api.session_url(), "https://vc.example/rest/com/vmware/cis/session");
    assert_eq!(api.all_vms_url(), "https://vc.example/rest/vcenter/vm");
    assert_eq!(api.all_hosts_url(), "https://vc.example/rest/vcenter/host");
    assert_eq!(api.vms_from_host_url("host-12"), "https://vc.example/rest/vcenter/vm?filter.hosts=host-12");
    assert_eq!(api.host_url("esx1"), "https://vc.example/rest/vcenter/host/?filter.names=esx1");
}

#[test]
fn power_urls() {
    let api = VcenterApi::new("vc".to_string());
    assert_eq!(api.power_url("vm-7", PowerOp::PowerOn), "https://vc/rest/vcenter/vm/vm-7/power/start");
    assert_eq!(api.power_url("vm-7", PowerOp::PowerOff), "https://vc/rest/vcenter/vm/vm-7/power/stop");
    assert_eq!(api.power_url("vm-7", PowerOp::Reboot), "https://vc/rest/vcenter/vm/vm-7/power/reset");
}

#[test]
fn clone_keeps_hostname() {
    let api = VcenterApi::new("vc".to_string());
    assert_eq!(api.clone().hostname, "vc");
}

#[test]
fn basic_auth_header() {
    assert_eq!(VcenterApi::basic_auth("user", "pass"), "Basic dXNlcjpwYXNz");
    assert_eq!(VcenterApi::basic_auth("", ""), "Basic Og==");
}
