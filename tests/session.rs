use vcenter_tui::api::{host_from_listing, VapiHost, VapiVm};
use vcenter_tui::filter::matches_folded;
use vcenter_tui::import::{extract_names, ImportError, MarkupEvent};
use vcenter_tui::inventory::{Host, Vm};
use vcenter_tui::session::{Effect, InputMode, Key, PowerOp, State};

fn host_with(name: &str, vms: &[&str]) -> Host {
    let mut h = Host::new(name, "POWERED_ON", "host-1");
    for (i, n) in vms.iter().enumerate() {
        h.add_vm(Vm::new(n, "POWERED_OFF", &format!("vm-{}", i)));
    }
    h
}

fn visible_names(h: &Host) -> Vec<String> {
    (0..h.visible_len()).map(|k| h.visible_vm(k).name.clone()).collect()
}

fn type_search(s: &mut State, text: &str) {
    for c in text.chars() {
        s.on_key_event(Key::Char(c));
    }
}

fn session(vms: &[&str]) -> State {
    State::with_hosts(vec![host_with("esx1", vms)])
}

#[test]
fn new_session_is_empty() {
    let s = State::new();
    assert_eq!(s.mode, InputMode::Normal);
    assert!(s.hosts.is_empty());
    assert_eq!(s.host_cursor, None);
    assert_eq!(s.vm_cursor, None);
}

#[test]
fn with_hosts_puts_cursor_on_first_host() {
    let s = State::with_hosts(vec![host_with("a", &[]), host_with("b", &[])]);
    assert_eq!(s.host_cursor, Some(0));
    let e = State::with_hosts(vec![]);
    assert_eq!(e.host_cursor, None);
}

#[test]
fn host_moves_leave_vm_cursor_unset() {
    let mut s = State::with_hosts(vec![host_with("a", &["x"]), host_with("b", &["y"])]);
    s.on_key_event(Key::Down);
    assert_eq!(s.host_cursor, Some(1));
    assert_eq!(s.vm_cursor, None);
    assert_eq!(s.mode, InputMode::Normal);
    assert_eq!(s.hosts[1].visible_len(), 1);
}

#[test]
fn host_cursor_is_clamped() {
    let mut s = State::with_hosts(vec![host_with("a", &[]), host_with("b", &[])]);
    s.on_key_event(Key::Up);
    assert_eq!(s.host_cursor, Some(0));
    s.on_key_event(Key::Down);
    assert_eq!(s.host_cursor, Some(1));
    s.on_key_event(Key::Down);
    assert_eq!(s.host_cursor, Some(1));
    s.on_key_event(Key::Up);
    assert_eq!(s.host_cursor, Some(0));
}

#[test]
fn vm_cursor_is_clamped() {
    let mut s = session(&["web1", "web2"]);
    s.on_key_event(Key::Enter);
    assert_eq!(s.mode, InputMode::ListVM);
    assert_eq!(s.vm_cursor, Some(0));
    s.on_key_event(Key::Up);
    assert_eq!(s.vm_cursor, Some(0));
    s.on_key_event(Key::Down);
    s.on_key_event(Key::Down);
    s.on_key_event(Key::Down);
    assert_eq!(s.vm_cursor, Some(1));
    s.on_key_event(Key::Char('h'));
    assert_eq!(s.mode, InputMode::Normal);
    assert_eq!(s.vm_cursor, None);
}

#[test]
fn empty_host_has_no_vm_cursor() {
    let mut s = session(&[]);
    s.on_key_event(Key::Enter);
    assert_eq!(s.mode, InputMode::ListVM);
    assert_eq!(s.vm_cursor, None);
    s.on_key_event(Key::Down);
    s.on_key_event(Key::Char(' '));
    assert_eq!(s.vm_cursor, None);
    assert!(matches!(s.on_key_event(Key::Char('p')), Effect::Dispatch(PowerOp::PowerOn)));
    assert!(s.dispatch_ids().is_empty());
    s.apply_dispatch(PowerOp::PowerOn, &vec![]);
    assert_eq!(s.hosts[0].visible_len(), 0);
}

#[test]
fn no_hosts_tolerates_every_key() {
    let mut s = State::with_hosts(vec![]);
    for k in [Key::Down, Key::Up, Key::Enter, Key::Down, Key::Char(' '), Key::Char('h')] {
        s.on_key_event(k);
    }
    assert_eq!(s.host_cursor, None);
    assert_eq!(s.vm_cursor, None);
    s.on_key_event(Key::Char('s'));
    type_search(&mut s, "x");
    assert_eq!(s.search_string, "x");
}

#[test]
fn mode_transitions_follow_the_table() {
    let mut s = session(&["web1"]);
    assert!(matches!(s.on_key_event(Key::Char('s')), Effect::Nothing));
    assert_eq!(s.mode, InputMode::Search);
    s.on_key_event(Key::Esc);
    assert_eq!(s.mode, InputMode::Normal);
    s.on_key_event(Key::Char('f'));
    assert_eq!(s.mode, InputMode::File);
    s.on_key_event(Key::Esc);
    assert_eq!(s.mode, InputMode::File);
    s.on_key_event(Key::Enter);
    assert_eq!(s.mode, InputMode::Normal);
    s.on_key_event(Key::Enter);
    assert_eq!(s.mode, InputMode::ListVM);
    s.on_key_event(Key::Esc);
    assert_eq!(s.mode, InputMode::ListVM);
    s.on_key_event(Key::Char('h'));
    assert_eq!(s.mode, InputMode::Normal);
    assert!(matches!(s.on_key_event(Key::Esc), Effect::Quit));
    assert!(matches!(s.on_key_event(Key::Other), Effect::Nothing));
    assert_eq!(s.mode, InputMode::Normal);
}

#[test]
fn power_keys_ask_for_dispatch() {
    let mut s = session(&["web1"]);
    s.on_key_event(Key::Enter);
    assert!(matches!(s.on_key_event(Key::Char('p')), Effect::Dispatch(PowerOp::PowerOn)));
    assert!(matches!(s.on_key_event(Key::Char('o')), Effect::Dispatch(PowerOp::PowerOff)));
    assert!(matches!(s.on_key_event(Key::Char('r')), Effect::Dispatch(PowerOp::Reboot)));
    assert!(matches!(s.on_key_event(Key::Char('x')), Effect::Nothing));
}

#[test]
fn file_path_is_typed_and_handed_over() {
    let mut s = session(&["web1"]);
    s.on_key_event(Key::Char('f'));
    for c in "vms.xmlz".chars() {
        s.on_key_event(Key::Char(c));
    }
    s.on_key_event(Key::Backspace);
    assert_eq!(s.file_path, "vms.xml");
    match s.on_key_event(Key::Enter) {
        Effect::Import(p) => assert_eq!(p, "vms.xml"),
        other => panic!("unexpected effect {:?}", other),
    }
    assert_eq!(s.file_path, "");
    assert_eq!(s.mode, InputMode::Normal);
}

#[test]
fn search_filters_ignoring_case() {
    let mut s = session(&["Web1", "db1", "WEB2"]);
    s.on_key_event(Key::Char('s'));
    type_search(&mut s, "wEb");
    assert_eq!(visible_names(&s.hosts[0]), vec!["Web1", "WEB2"]);
    let flags: Vec<bool> = s.hosts[0].vms_master.iter().map(|v| v.excluded_by_filter).collect();
    assert_eq!(flags, vec![false, true, false]);
    assert_eq!(s.hosts[0].vms_master.len(), 3);
}

#[test]
fn clearing_search_restores_every_vm() {
    let mut s = session(&["web1", "db1", "web2"]);
    s.on_key_event(Key::Char('s'));
    type_search(&mut s, "db");
    assert_eq!(visible_names(&s.hosts[0]), vec!["db1"]);
    s.on_key_event(Key::Backspace);
    s.on_key_event(Key::Backspace);
    assert_eq!(s.search_string, "");
    assert_eq!(visible_names(&s.hosts[0]), vec!["web1", "db1", "web2"]);
    assert_eq!(s.hosts[0].visible, vec![0, 1, 2]);
    assert!(s.hosts[0].vms_master.iter().all(|v| !v.excluded_by_filter));
    s.on_key_event(Key::Backspace);
    assert_eq!(s.search_string, "");
}

#[test]
fn filter_matching_nothing_empties_the_view() {
    let mut s = session(&["web1", "db1"]);
    s.on_key_event(Key::Char('s'));
    type_search(&mut s, "zzz");
    assert_eq!(s.hosts[0].visible_len(), 0);
    s.on_key_event(Key::Esc);
    s.on_key_event(Key::Enter);
    assert_eq!(s.vm_cursor, None);
}

#[test]
fn filter_is_idempotent() {
    let mut s = session(&["web1", "db1"]);
    s.search_string = "web".to_string();
    s.apply_filter();
    let first = s.hosts[0].visible.clone();
    s.apply_filter();
    assert_eq!(s.hosts[0].visible, first);
    assert_eq!(first, vec![0]);
}

#[test]
fn filter_reclamps_vm_cursor() {
    let mut s = session(&["a1", "a2", "b1"]);
    s.on_key_event(Key::Enter);
    s.on_key_event(Key::Down);
    s.on_key_event(Key::Down);
    assert_eq!(s.vm_cursor, Some(2));
    s.search_string = "a".to_string();
    s.apply_filter();
    assert_eq!(s.vm_cursor, Some(1));
    s.search_string = "q".to_string();
    s.apply_filter();
    assert_eq!(s.vm_cursor, None);
}

#[test]
fn selection_survives_filtering() {
    let mut s = session(&["web1", "db1"]);
    s.on_key_event(Key::Enter);
    s.on_key_event(Key::Char(' '));
    assert!(s.hosts[0].vms_master[0].selected);
    s.on_key_event(Key::Char('h'));
    s.on_key_event(Key::Char('s'));
    type_search(&mut s, "db");
    assert_eq!(visible_names(&s.hosts[0]), vec!["db1"]);
    s.on_key_event(Key::Backspace);
    s.on_key_event(Key::Backspace);
    assert_eq!(visible_names(&s.hosts[0]), vec!["web1", "db1"]);
    assert!(s.hosts[0].vms_master[0].selected);
    assert!(!s.hosts[0].vms_master[1].selected);
}

#[test]
fn toggle_flips_selection_twice() {
    let mut s = session(&["web1", "db1"]);
    s.on_key_event(Key::Enter);
    s.on_key_event(Key::Down);
    s.on_key_event(Key::Char(' '));
    assert!(s.hosts[0].vms_master[1].selected);
    s.on_key_event(Key::Char(' '));
    assert!(!s.hosts[0].vms_master[1].selected);
}

#[test]
fn dispatch_isolates_failures() {
    let mut s = session(&["a", "b", "c"]);
    s.on_key_event(Key::Enter);
    s.on_key_event(Key::Char(' '));
    s.on_key_event(Key::Down);
    s.on_key_event(Key::Char(' '));
    let e = s.on_key_event(Key::Char('p'));
    assert!(matches!(e, Effect::Dispatch(PowerOp::PowerOn)));
    assert_eq!(s.dispatch_ids(), vec!["vm-0".to_string(), "vm-1".to_string()]);
    s.apply_dispatch(PowerOp::PowerOn, &vec![200, 500]);
    let a = &s.hosts[0].vms_master[0];
    assert!(!a.selected);
    assert!(!a.error);
    assert_eq!(a.state, "POWERED_ON");
    assert_eq!(a.error_msg, "");
    let b = &s.hosts[0].vms_master[1];
    assert!(b.error);
    assert!(!b.error_msg.is_empty());
    assert!(b.selected);
    assert_eq!(b.state, "POWERED_OFF");
    let c = &s.hosts[0].vms_master[2];
    assert!(!c.selected && !c.error);
}

#[test]
fn dispatch_messages_and_states_per_operation() {
    let mut s = session(&["a", "b"]);
    s.hosts[0].vms_master[0].selected = true;
    s.hosts[0].vms_master[1].selected = true;
    s.apply_dispatch(PowerOp::PowerOff, &vec![200, 404]);
    assert_eq!(s.hosts[0].vms_master[0].state, "POWERED_OFF");
    assert_eq!(s.hosts[0].vms_master[1].error_msg, "Error while powering off VM");
    s.apply_dispatch(PowerOp::Reboot, &vec![500]);
    assert_eq!(s.hosts[0].vms_master[1].error_msg, "Error while rebooting VM");
    s.apply_dispatch(PowerOp::Reboot, &vec![200]);
    let b = &s.hosts[0].vms_master[1];
    assert_eq!(b.state, "POWERED_ON");
    assert!(!b.error && !b.selected && b.error_msg.is_empty());
}

#[test]
fn dispatch_reaches_only_visible_selected_vms() {
    let mut s = session(&["web1", "db1"]);
    s.hosts[0].vms_master[0].selected = true;
    s.hosts[0].vms_master[1].selected = true;
    s.search_string = "db".to_string();
    s.apply_filter();
    assert_eq!(s.dispatch_ids(), vec!["vm-1".to_string()]);
    s.apply_dispatch(PowerOp::PowerOn, &vec![200]);
    assert!(s.hosts[0].vms_master[0].selected);
    assert!(!s.hosts[0].vms_master[1].selected);
}

#[test]
fn import_selects_listed_names_only() {
    let mut s = session(&["web1", "web2", "db1"]);
    let text = "<vms><vm><name>web1</name></vm><vm><name>db1</name></vm></vms>";
    assert_eq!(s.select_by_file(text), Ok(()));
    let sel: Vec<bool> = s.hosts[0].vms_master.iter().map(|v| v.selected).collect();
    assert_eq!(sel, vec![true, false, true]);
}

#[test]
fn import_is_additive_and_exact() {
    let mut s = session(&["web1", "Web2", "db1"]);
    s.hosts[0].vms_master[2].selected = true;
    assert_eq!(s.select_by_file("<list><name>web2</name><title>web1</title></list>"), Ok(()));
    let sel: Vec<bool> = s.hosts[0].vms_master.iter().map(|v| v.selected).collect();
    assert_eq!(sel, vec![false, false, true]);
}

#[test]
fn import_refuses_a_document_with_a_parse_error() {
    let mut s = session(&["web1", "db1"]);
    let r = s.select_by_file("<vms><name>web1</name><name>db1</oops></vms>");
    assert_eq!(r, Err(ImportError::Malformed));
    assert!(!s.hosts[0].vms_master[0].selected);
    assert!(!s.hosts[0].vms_master[1].selected);
    let mut t = session(&["web1"]);
    t.select_by_file("<vms><name>web1</name>").ok();
    assert!(!t.hosts[0].vms_master[0].selected);
}

#[test]
fn import_reaches_every_host() {
    let mut s = State::with_hosts(vec![host_with("a", &["x1"]), host_with("b", &["x1", "y1"])]);
    s.select_names(&vec!["x1".to_string()]);
    assert!(s.hosts[0].vms_master[0].selected);
    assert!(s.hosts[1].vms_master[0].selected);
    assert!(!s.hosts[1].vms_master[1].selected);
}

#[test]
fn extract_names_reads_name_elements() {
    let evs = vec![
        MarkupEvent::StartElement("name".to_string()),
        MarkupEvent::Characters("ab".to_string()),
        MarkupEvent::Characters("c".to_string()),
        MarkupEvent::EndElement("name".to_string()),
        MarkupEvent::Characters("stray".to_string()),
        MarkupEvent::StartElement("name".to_string()),
        MarkupEvent::Characters("d".to_string()),
        MarkupEvent::Malformed,
        MarkupEvent::EndElement("name".to_string()),
    ];
    assert_eq!(extract_names(&evs), vec!["abc".to_string()]);
}

#[test]
fn matches_folded_finds_substrings() {
    assert!(matches_folded("web1", "eb"));
    assert!(matches_folded("web1", ""));
    assert!(matches_folded("web1", "web1"));
    assert!(!matches_folded("web1", "web12"));
    assert!(!matches_folded("web1", "bw"));
    assert!(!matches_folded("", "a"));
}

#[test]
fn host_is_built_from_listing() {
    let rec = VapiHost::new("host-9".to_string(), "esx9".to_string(), "CONNECTED".to_string(), "POWERED_ON".to_string());
    let vms = vec![
        VapiVm::new(1024, "vm-1".to_string(), "web1".to_string(), "POWERED_OFF".to_string(), 2),
        VapiVm::new(2048, "vm-2".to_string(), "db1".to_string(), "POWERED_ON".to_string(), 4),
    ];
    let h = host_from_listing(&rec, &vms);
    assert_eq!(h.name, "esx9");
    assert_eq!(h.ip, "host-9");
    assert_eq!(h.state, "POWERED_ON");
    assert_eq!(h.visible, vec![0, 1]);
    assert_eq!(h.vms_master[1].vm_id, "vm-2");
    assert_eq!(h.vms_master[1].state, "POWERED_ON");
    assert!(!h.vms_master[0].selected && !h.vms_master[0].error);
}

#[test]
fn add_cpy_vm_shows_after_next_filter() {
    let mut h = Host::new("esx", "POWERED_ON", "host-1");
    h.add_cpy_vm(Vm::new("web1", "POWERED_OFF", "vm-1"));
    assert_eq!(h.visible_len(), 0);
    let mut s = State::with_hosts(vec![h]);
    s.apply_filter();
    assert_eq!(s.hosts[0].visible, vec![0]);
}
