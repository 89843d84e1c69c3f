//! Bulk selection from a name list: the text inside every `name` element of
//! a markup document, and the selection of every VM that bears one of them.

use vstd::prelude::*;
use crate::inventory::{Host, Vm};
use crate::session::State;

verus! {

/// One event of a markup parser, reduced to what the name list needs.
#[derive(Debug)]
pub enum MarkupEvent {
    /// An opening tag, by its local name.
    StartElement(String),
    /// A closing tag, by its local name.
    EndElement(String),
    /// Character data.
    Characters(String),
    /// Anything else the parser reports.
    Other,
    /// The document cannot be parsed past this point.
    Malformed,
}

/// Why a name list was refused.
#[derive(PartialEq, Eq, Structural, Clone, Copy, Debug)]
pub enum ImportError {
    /// The document does not parse as markup.
    Malformed,
}

/// The parser reported an error somewhere in the events.
pub open spec fn has_parse_error(evs: Seq<MarkupEvent>) -> bool {
    exists|k: int| 0 <= k < evs.len() && #[trigger] evs[k] is Malformed
}

/// What the markup parser reports for a document.
pub uninterp spec fn markup_events_of(text: Seq<char>) -> Seq<MarkupEvent>;

/// Relies on xml::reader::EventReader: the events of the document in order,
/// ending at the end of the document or at the first parse error.
#[verifier::external_body]
fn markup_events(text: &str) -> (r: Vec<MarkupEvent>)
    ensures
        r@ == markup_events_of(text@),
{
    xml::reader::EventReader::from_str(text).into_iter().map(|ev| match ev {
        Ok(xml::reader::XmlEvent::StartElement { name, .. }) => MarkupEvent::StartElement(name.local_name),
        Ok(xml::reader::XmlEvent::EndElement { name }) => MarkupEvent::EndElement(name.local_name),
        Ok(xml::reader::XmlEvent::Characters(t)) => MarkupEvent::Characters(t),
        Ok(_) => MarkupEvent::Other,
        Err(_) => MarkupEvent::Malformed,
    }).collect()
}

/// Where a scan of the events stands: the names completed so far, the name
/// being read (inside a `name` element), and whether the scan has stopped.
pub type ScanState = (Seq<Seq<char>>, Option<Seq<char>>, bool);

/// The tag that holds a name.
pub open spec fn name_tag() -> Seq<char> {
    "name"@
}

/// One event of the scan.
pub open spec fn scan_step(st: ScanState, ev: MarkupEvent) -> ScanState {
    let (names, cur, stopped) = st;
    if stopped {
        st
    } else {
        match ev {
            MarkupEvent::StartElement(t) => if t@ == name_tag() {
                (names, Some(Seq::<char>::empty()), false)
            } else {
                st
            },
            MarkupEvent::EndElement(t) => if t@ == name_tag() {
                match cur {
                    Some(c) => (names.push(c), None, false),
                    None => st,
                }
            } else {
                st
            },
            MarkupEvent::Characters(t) => match cur {
                Some(c) => (names, Some(c + t@), false),
                None => st,
            },
            MarkupEvent::Other => st,
            MarkupEvent::Malformed => (names, cur, true),
        }
    }
}

/// The scan after the first `n` events.
pub open spec fn scan(evs: Seq<MarkupEvent>, n: nat) -> ScanState
    decreases n,
{
    if n == 0 {
        (Seq::<Seq<char>>::empty(), None, false)
    } else {
        scan_step(scan(evs, (n - 1) as nat), evs[n - 1])
    }
}

/// The names that a sequence of events lists, in order; events after the
/// first parse error are not read.
pub open spec fn names_in(evs: Seq<MarkupEvent>) -> Seq<Seq<char>> {
    scan(evs, evs.len()).0
}

/// The names that the events list, in order.
pub fn extract_names(events: &Vec<MarkupEvent>) -> (r: Vec<String>)
    ensures
        r@.len() == names_in(events@).len(),
        forall|k: int| 0 <= k < r@.len() ==> (#[trigger] r@[k])@ == names_in(events@)[k],
{
    let tag = String::from_str("name");
    let mut names: Vec<String> = Vec::new();
    let mut cur: Option<String> = None;
    let mut stopped = false;
    let mut i: usize = 0;
    while i < events.len()
        invariant
            tag@ == name_tag(),
            i <= events@.len(),
            scan(events@, i as nat).0.len() == names@.len(),
            forall|k: int| 0 <= k < names@.len() ==> (#[trigger] names@[k])@ == scan(events@, i as nat).0[k],
            scan(events@, i as nat).1 == (match cur {
                Some(c) => Some(c@),
                None => None::<Seq<char>>,
            }),
            scan(events@, i as nat).2 == stopped,
        decreases events@.len() - i,
    {
        if !stopped {
            match &events[i] {
                MarkupEvent::StartElement(t) => {
                    if *t == tag {
                        cur = Some(String::new());
                    }
                },
                MarkupEvent::EndElement(t) => {
                    if *t == tag {
                        match cur {
                            Some(c) => {
                                names.push(c);
                                cur = None;
                            },
                            None => {},
                        }
                    }
                },
                MarkupEvent::Characters(t) => {
                    match cur {
                        Some(mut c) => {
                            c.append(t.as_str());
                            cur = Some(c);
                        },
                        None => {},
                    }
                },
                MarkupEvent::Other => {},
                MarkupEvent::Malformed => {
                    stopped = true;
                },
            }
        }
        i = i + 1;
    }
    names
}

/// `v1` is `v0`, selected as well when its name is one of `names`.
pub open spec fn picked(v0: Vm, v1: Vm, names: Seq<Seq<char>>) -> bool {
    v1 == Vm { selected: v0.selected || names.contains(v0.name@), ..v0 }
}

/// `h1` is `h0` with every VM named in `names` selected as well.
pub open spec fn host_picked(h0: Host, h1: Host, names: Seq<Seq<char>>) -> bool {
    &&& h1.name == h0.name
    &&& h1.state == h0.state
    &&& h1.ip == h0.ip
    &&& h1.visible@ == h0.visible@
    &&& h1.vms_master@.len() == h0.vms_master@.len()
    &&& forall|i: int|
        0 <= i < h0.vms_master@.len() ==> picked(#[trigger] h0.vms_master@[i], h1.vms_master@[i], names)
}

/// Every VM of every host of `s1` is its counterpart in `s0`, selected as
/// well when its name is one of `names`; nothing else changes.
pub open spec fn names_selected(s0: State, s1: State, names: Seq<Seq<char>>) -> bool {
    &&& s1.mode == s0.mode
    &&& s1.host_cursor == s0.host_cursor
    &&& s1.vm_cursor == s0.vm_cursor
    &&& s1.search_string == s0.search_string
    &&& s1.file_path == s0.file_path
    &&& s1.hosts@.len() == s0.hosts@.len()
    &&& forall|h: int| 0 <= h < s0.hosts@.len() ==> host_picked(#[trigger] s0.hosts@[h], s1.hosts@[h], names)
}

fn listed(names: &Vec<String>, n: &String) -> (r: bool)
    ensures
        r == names@.map_values(|s: String| s@).contains(n@),
{
    let mut k: usize = 0;
    while k < names.len()
        invariant
            k <= names@.len(),
            forall|j: int| 0 <= j < k ==> (#[trigger] names@[j])@ != n@,
        decreases names@.len() - k,
    {
        if names[k] == *n {
            proof {
                assert(names@.map_values(|s: String| s@)[k as int] == n@);
            }
            return true;
        }
        k = k + 1;
    }
    proof {
        let views = names@.map_values(|s: String| s@);
        assert forall|j: int| 0 <= j < views.len() implies views[j] != n@ by {
            assert(views[j] == names@[j]@);
        }
    }
    false
}

impl Host {
    /// Selects every VM of the host whose name is one of `names`.
    pub fn select_names(&mut self, names: &Vec<String>)
        requires
            old(self).wf(),
        ensures
            final(self).wf(),
            host_picked(*old(self), *final(self), names@.map_values(|s: String| s@)),
    {
        let n = self.vms_master.len();
        let mut i: usize = 0;
        while i < n
            invariant
                n == self.vms_master@.len(),
                n == old(self).vms_master@.len(),
                i <= n,
                old(self).wf(),
                self.name == old(self).name,
                self.state == old(self).state,
                self.ip == old(self).ip,
                self.visible@ == old(self).visible@,
                forall|j: int| 0 <= j < i ==> picked(
                    #[trigger] old(self).vms_master@[j],
                    self.vms_master@[j],
                    names@.map_values(|s: String| s@),
                ),
                forall|j: int| i <= j < n ==> #[trigger] self.vms_master@[j] == old(self).vms_master@[j],
            decreases n - i,
        {
            if listed(names, &self.vms_master[i].name) {
                self.vms_master[i].selected = true;
            }
            i = i + 1;
        }
        proof {
            assert forall|j: int| 0 <= j < n implies (#[trigger] self.vms_master@[j]).wf() by {
                assert(picked(old(self).vms_master@[j], self.vms_master@[j], names@.map_values(|s: String| s@)));
                assert(old(self).vms_master@[j].wf());
            }
        }
    }
}

impl State {
    /// Selects, on every host, every VM whose name is one of `names`; the
    /// selection is added to, never cleared.
    pub fn select_names(&mut self, names: &Vec<String>)
        requires
            old(self).wf(),
        ensures
            final(self).wf(),
            names_selected(*old(self), *final(self), names@.map_values(|s: String| s@)),
    {
        let n = self.hosts.len();
        let mut h: usize = 0;
        while h < n
            invariant
                n == self.hosts@.len(),
                n == old(self).hosts@.len(),
                h <= n,
                old(self).wf(),
                self.mode == old(self).mode,
                self.host_cursor == old(self).host_cursor,
                self.vm_cursor == old(self).vm_cursor,
                self.search_string == old(self).search_string,
                self.file_path == old(self).file_path,
                forall|j: int| 0 <= j < h ==> host_picked(
                    #[trigger] old(self).hosts@[j],
                    self.hosts@[j],
                    names@.map_values(|s: String| s@),
                ) && self.hosts@[j].wf(),
                forall|j: int| h <= j < n ==> #[trigger] self.hosts@[j] == old(self).hosts@[j],
            decreases n - h,
        {
            self.hosts[h].select_names(names);
            h = h + 1;
        }
        proof {
            assert forall|j: int| 0 <= j < n implies (#[trigger] self.hosts@[j]).wf() by {
                assert(host_picked(old(self).hosts@[j], self.hosts@[j], names@.map_values(|s: String| s@)));
            }
        }
    }

    /// Selects every VM named in the markup document `text` (the text inside
    /// its `name` elements). A document that fails to parse is refused as a
    /// whole: nothing is selected and the session stays as it was.
    pub fn select_by_file(&mut self, text: &str) -> (r: Result<(), ImportError>)
        requires
            old(self).wf(),
        ensures
            final(self).wf(),
            r is Err <==> has_parse_error(markup_events_of(text@)),
            r is Err ==> *final(self) == *old(self),
            r is Ok ==> names_selected(*old(self), *final(self), names_in(markup_events_of(text@))),
    {
        let events = markup_events(text);
        let mut k: usize = 0;
        while k < events.len()
            invariant
                events@ == markup_events_of(text@),
                *self == *old(self),
                self.wf(),
                k <= events@.len(),
                forall|j: int| 0 <= j < k ==> !(#[trigger] events@[j] is Malformed),
            decreases events@.len() - k,
        {
            if let MarkupEvent::Malformed = &events[k] {
                return Err(ImportError::Malformed);
            }
            k = k + 1;
        }
        let names = extract_names(&events);
        proof {
            assert(names@.map_values(|s: String| s@) =~= names_in(markup_events_of(text@)));
        }
        self.select_names(&names);
        Ok(())
    }
}

} // verus!
