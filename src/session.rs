//! The session: the inventory, the input mode, the host and VM cursors and
//! the text being typed, with the transition that each key causes.

use vstd::prelude::*;
use crate::inventory::{Host, Vm};
use crate::filter::{filtered, lower_of, lowercase};
use crate::text::{backspaced, pop_char, push_char};

verus! {

/// Which part of the interface has the keyboard.
#[derive(PartialEq, Eq, Structural, Clone, Copy, Debug)]
pub enum InputMode {
    /// The host list.
    Normal,
    /// Typing the search text.
    Search,
    /// The VM list of the host under the cursor.
    ListVM,
    /// Typing the path of a name-list file.
    File,
}

/// A key as the session sees it.
#[derive(PartialEq, Eq, Structural, Clone, Copy, Debug)]
pub enum Key {
    Esc,
    Up,
    Down,
    Enter,
    Backspace,
    Char(char),
    Other,
}

/// A bulk power operation.
#[derive(PartialEq, Eq, Structural, Clone, Copy, Debug)]
pub enum PowerOp {
    PowerOn,
    PowerOff,
    Reboot,
}

/// What the caller has to do after a key: the work that lies outside the session.
#[derive(Debug)]
pub enum Effect {
    Nothing,
    /// The operator asked to end the session.
    Quit,
    /// Run the operation on every selected visible VM of the current host,
    /// then hand the outcomes back.
    Dispatch(PowerOp),
    /// Read the name-list file at this path and hand its text back.
    Import(String),
}

/// The whole interactive state.
pub struct State {
    pub mode: InputMode,
    pub hosts: Vec<Host>,
    pub host_cursor: Option<usize>,
    pub vm_cursor: Option<usize>,
    pub search_string: String,
    pub file_path: String,
}

/// The cursor one step down, kept below `len`.
pub open spec fn step_down(c: Option<usize>, len: nat) -> Option<usize> {
    match c {
        Some(i) => if i + 1 < len { Some((i + 1) as usize) } else { Some(i) },
        None => None,
    }
}

/// The cursor one step up, kept at or above zero.
pub open spec fn step_up(c: Option<usize>) -> Option<usize> {
    match c {
        Some(i) => if i > 0 { Some((i - 1) as usize) } else { Some(i) },
        None => None,
    }
}

/// The cursor brought back below `len`; none when the sequence is empty.
pub open spec fn clamp(c: Option<usize>, len: nat) -> Option<usize> {
    match c {
        Some(i) => if len == 0 { None } else if i < len { Some(i) } else { Some((len - 1) as usize) },
        None => None,
    }
}

/// The power operation that a key asks for in the VM list.
pub open spec fn op_of_key(k: Key) -> Option<PowerOp> {
    match k {
        Key::Char('p') => Some(PowerOp::PowerOn),
        Key::Char('o') => Some(PowerOp::PowerOff),
        Key::Char('r') => Some(PowerOp::Reboot),
        _ => None,
    }
}

/// The mode that a key leads to.
pub open spec fn next_mode(m: InputMode, k: Key) -> InputMode {
    match m {
        InputMode::Normal => match k {
            Key::Enter => InputMode::ListVM,
            Key::Char('s') => InputMode::Search,
            Key::Char('f') => InputMode::File,
            _ => InputMode::Normal,
        },
        InputMode::ListVM => match k {
            Key::Char('h') => InputMode::Normal,
            _ => InputMode::ListVM,
        },
        InputMode::Search => match k {
            Key::Esc => InputMode::Normal,
            _ => InputMode::Search,
        },
        InputMode::File => match k {
            Key::Enter => InputMode::Normal,
            _ => InputMode::File,
        },
    }
}

/// `h1` is `h0` with the `selected` flag of the VM at authoritative
/// position `idx` flipped.
pub open spec fn toggled(h0: Host, h1: Host, idx: int) -> bool {
    &&& h1.name == h0.name
    &&& h1.state == h0.state
    &&& h1.ip == h0.ip
    &&& h1.visible@ == h0.visible@
    &&& h1.vms_master@ == h0.vms_master@.update(
        idx,
        Vm { selected: !h0.vms_master@[idx].selected, ..h0.vms_master@[idx] },
    )
}

impl State {
    /// Cursor bounds: the host cursor is inside the host list (and set once
    /// there are hosts), the VM cursor inside the current host's visible VMs,
    /// and set only while the VM list has the keyboard.
    pub open spec fn wf(&self) -> bool {
        &&& forall|h: int| 0 <= h < self.hosts@.len() ==> (#[trigger] self.hosts@[h]).wf()
        &&& self.hosts@.len() > 0 ==> self.host_cursor is Some
        &&& self.host_cursor matches Some(c) ==> c < self.hosts@.len()
        &&& self.mode != InputMode::ListVM ==> self.vm_cursor is None
        &&& self.vm_cursor matches Some(v) ==> {
            &&& self.host_cursor is Some
            &&& v < self.hosts@[self.host_cursor->0 as int].visible@.len()
        }
    }

    /// Number of VMs shown for the current host.
    pub open spec fn current_len(&self) -> nat {
        match self.host_cursor {
            Some(c) => self.hosts@[c as int].visible@.len(),
            None => 0,
        }
    }

    /// The VM cursor that entering the VM list gives: the first VM, if any.
    pub open spec fn first_vm(&self) -> Option<usize> {
        if self.current_len() > 0 { Some(0) } else { None }
    }

    /// Every host of `after` is its counterpart in `self` filtered by the
    /// lowercase query `folded_query`.
    pub open spec fn all_filtered(&self, after: State, folded_query: Seq<char>) -> bool {
        &&& after.hosts@.len() == self.hosts@.len()
        &&& forall|h: int|
            0 <= h < self.hosts@.len() ==> filtered(
                #[trigger] self.hosts@[h],
                after.hosts@[h],
                folded_query,
            )
    }

    /// An empty session in the host list, with no hosts loaded yet.
    pub fn new() -> (r: State)
        ensures
            r.wf(),
            r.mode == InputMode::Normal,
            r.hosts@.len() == 0,
            r.host_cursor is None,
            r.vm_cursor is None,
            r.search_string@.len() == 0,
            r.file_path@.len() == 0,
    {
        State {
            mode: InputMode::Normal,
            hosts: Vec::new(),
            host_cursor: None,
            vm_cursor: None,
            search_string: String::new(),
            file_path: String::new(),
        }
    }

    /// A session over a loaded inventory, with the cursor on the first host.
    pub fn with_hosts(hosts: Vec<Host>) -> (r: State)
        requires
            forall|h: int| 0 <= h < hosts@.len() ==> (#[trigger] hosts@[h]).wf(),
        ensures
            r.wf(),
            r.mode == InputMode::Normal,
            r.hosts@ == hosts@,
            r.host_cursor == (if hosts@.len() > 0 { Some(0usize) } else { None::<usize> }),
            r.vm_cursor is None,
            r.search_string@.len() == 0,
            r.file_path@.len() == 0,
    {
        let cursor = if hosts.len() > 0 { Some(0) } else { None };
        State {
            mode: InputMode::Normal,
            hosts,
            host_cursor: cursor,
            vm_cursor: None,
            search_string: String::new(),
            file_path: String::new(),
        }
    }

    /// Applies the current search text to every host and brings the VM
    /// cursor back inside the current host's visible VMs.
    pub fn apply_filter(&mut self)
        requires
            old(self).wf(),
        ensures
            final(self).wf(),
            old(self).all_filtered(*final(self), lower_of(old(self).search_string@)),
            old(self).search_string@.len() == 0 ==> lower_of(old(self).search_string@).len() == 0,
            final(self).mode == old(self).mode,
            final(self).host_cursor == old(self).host_cursor,
            final(self).vm_cursor == clamp(old(self).vm_cursor, final(self).current_len()),
            final(self).search_string == old(self).search_string,
            final(self).file_path == old(self).file_path,
    {
        let folded = lowercase(self.search_string.as_str());
        let n = self.hosts.len();
        let mut h: usize = 0;
        while h < n
            invariant
                n == self.hosts@.len(),
                n == old(self).hosts@.len(),
                h <= n,
                self.mode == old(self).mode,
                self.host_cursor == old(self).host_cursor,
                self.vm_cursor == old(self).vm_cursor,
                self.search_string == old(self).search_string,
                self.file_path == old(self).file_path,
                folded@ == lower_of(old(self).search_string@),
                forall|j: int| 0 <= j < h ==> filtered(
                    #[trigger] old(self).hosts@[j],
                    self.hosts@[j],
                    folded@,
                ) && self.hosts@[j].wf(),
                forall|j: int| h <= j < n ==> #[trigger] self.hosts@[j] == old(self).hosts@[j],
                forall|j: int| 0 <= j < n ==> (#[trigger] old(self).hosts@[j]).wf(),
            decreases n - h,
        {
            self.hosts[h].apply_filter(folded.as_str());
            h = h + 1;
        }
        proof {
            assert forall|j: int| 0 <= j < n implies (#[trigger] self.hosts@[j]).wf() by {
                assert(filtered(old(self).hosts@[j], self.hosts@[j], folded@));
            }
        }
        let len = match self.host_cursor {
            Some(c) => self.hosts[c].visible.len(),
            None => 0,
        };
        self.vm_cursor = match self.vm_cursor {
            Some(v) => if len == 0 {
                None
            } else if v < len {
                Some(v)
            } else {
                Some(len - 1)
            },
            None => None,
        };
    }
}


/// `s1` keeps the inventory and the two text fields of `s0`.
pub open spec fn same_data(s0: State, s1: State) -> bool {
    &&& s1.hosts@ == s0.hosts@
    &&& s1.search_string == s0.search_string
    &&& s1.file_path == s0.file_path
}

/// The effect that names no outside work.
pub open spec fn is_nothing(e: Effect) -> bool {
    e matches Effect::Nothing
}

/// A key in the host list.
pub open spec fn normal_step(s0: State, s1: State, k: Key, e: Effect) -> bool {
    &&& same_data(s0, s1)
    &&& match k {
        Key::Esc => (e matches Effect::Quit) && s1.host_cursor == s0.host_cursor && s1.vm_cursor
            == s0.vm_cursor,
        Key::Down => is_nothing(e) && s1.host_cursor == step_down(s0.host_cursor, s0.hosts@.len())
            && s1.vm_cursor == s0.vm_cursor,
        Key::Up => is_nothing(e) && s1.host_cursor == step_up(s0.host_cursor) && s1.vm_cursor == s0.vm_cursor,
        Key::Enter => is_nothing(e) && s1.host_cursor == s0.host_cursor && s1.vm_cursor
            == s0.first_vm(),
        _ => is_nothing(e) && s1.host_cursor == s0.host_cursor && s1.vm_cursor == s0.vm_cursor,
    }
}

/// A key in the VM list.
pub open spec fn list_step(s0: State, s1: State, k: Key, e: Effect) -> bool {
    &&& s1.search_string == s0.search_string
    &&& s1.file_path == s0.file_path
    &&& s1.host_cursor == s0.host_cursor
    &&& match k {
        Key::Char('h') => is_nothing(e) && s1.hosts@ == s0.hosts@ && s1.vm_cursor is None,
        Key::Up => is_nothing(e) && s1.hosts@ == s0.hosts@ && s1.vm_cursor == step_up(s0.vm_cursor),
        Key::Down => is_nothing(e) && s1.hosts@ == s0.hosts@ && s1.vm_cursor == step_down(
            s0.vm_cursor,
            s0.current_len(),
        ),
        Key::Char(' ') => is_nothing(e) && s1.vm_cursor == s0.vm_cursor && match s0.vm_cursor {
            Some(v) => {
                let c = s0.host_cursor->0 as int;
                &&& s1.hosts@.len() == s0.hosts@.len()
                &&& forall|h: int| 0 <= h < s0.hosts@.len() && h != c ==> #[trigger] s1.hosts@[h] == s0.hosts@[h]
                &&& toggled(s0.hosts@[c], s1.hosts@[c], s0.hosts@[c].visible@[v as int] as int)
            },
            None => s1.hosts@ == s0.hosts@,
        },
        _ => s1.hosts@ == s0.hosts@ && s1.vm_cursor == s0.vm_cursor && match op_of_key(k) {
            Some(op) => (e matches Effect::Dispatch(o) && o == op),
            None => is_nothing(e),
        },
    }
}

/// A key while the search text is typed.
pub open spec fn search_step(s0: State, s1: State, k: Key, e: Effect) -> bool {
    &&& is_nothing(e)
    &&& s1.file_path == s0.file_path
    &&& s1.host_cursor == s0.host_cursor
    &&& match k {
        Key::Esc => s1.hosts@ == s0.hosts@ && s1.search_string == s0.search_string && s1.vm_cursor is None,
        Key::Char(c) => {
            &&& s1.search_string@ == s0.search_string@.push(c)
            &&& s0.all_filtered(s1, lower_of(s1.search_string@))
            &&& s1.vm_cursor == clamp(s0.vm_cursor, s1.current_len())
        },
        Key::Backspace => {
            &&& s1.search_string@ == backspaced(s0.search_string@)
            &&& s0.all_filtered(s1, lower_of(s1.search_string@))
            &&& s1.vm_cursor == clamp(s0.vm_cursor, s1.current_len())
        },
        _ => s1.hosts@ == s0.hosts@ && s1.search_string == s0.search_string && s1.vm_cursor == s0.vm_cursor,
    }
}

/// A key while the path of a name-list file is typed.
pub open spec fn file_step(s0: State, s1: State, k: Key, e: Effect) -> bool {
    &&& s1.hosts@ == s0.hosts@
    &&& s1.search_string == s0.search_string
    &&& s1.host_cursor == s0.host_cursor
    &&& s1.vm_cursor == s0.vm_cursor
    &&& match k {
        Key::Char(c) => is_nothing(e) && s1.file_path@ == s0.file_path@.push(c),
        Key::Backspace => is_nothing(e) && s1.file_path@ == backspaced(s0.file_path@),
        Key::Enter => s1.file_path@.len() == 0 && (e matches Effect::Import(p) && p@ == s0.file_path@),
        _ => is_nothing(e) && s1.file_path == s0.file_path,
    }
}

/// The whole effect of key `k` on state `s0`, giving `s1` and effect `e`.
pub open spec fn key_step(s0: State, s1: State, k: Key, e: Effect) -> bool {
    &&& s1.mode == next_mode(s0.mode, k)
    &&& match s0.mode {
        InputMode::Normal => normal_step(s0, s1, k, e),
        InputMode::ListVM => list_step(s0, s1, k, e),
        InputMode::Search => search_step(s0, s1, k, e),
        InputMode::File => file_step(s0, s1, k, e),
    }
}

impl State {
    /// Routes a key by the current mode, and says what outside work it asks for.
    pub fn on_key_event(&mut self, key: Key) -> (e: Effect)
        requires
            old(self).wf(),
        ensures
            final(self).wf(),
            key_step(*old(self), *final(self), key, e),
    {
        match self.mode {
            InputMode::Normal => self.normal_key(key),
            InputMode::ListVM => self.list_key(key),
            InputMode::Search => self.search_key(key),
            InputMode::File => self.file_key(key),
        }
    }

    fn normal_key(&mut self, key: Key) -> (e: Effect)
        requires
            old(self).wf(),
            old(self).mode == InputMode::Normal,
        ensures
            final(self).wf(),
            final(self).mode == next_mode(old(self).mode, key),
            normal_step(*old(self), *final(self), key, e),
    {
        match key {
            Key::Esc => Effect::Quit,
            Key::Down => {
                if let Some(c) = self.host_cursor {
                    if c < self.hosts.len() - 1 {
                        self.host_cursor = Some(c + 1);
                    }
                }
                Effect::Nothing
            },
            Key::Up => {
                if let Some(c) = self.host_cursor {
                    if c > 0 {
                        self.host_cursor = Some(c - 1);
                    }
                }
                Effect::Nothing
            },
            Key::Enter => {
                self.mode = InputMode::ListVM;
                self.vm_cursor = match self.host_cursor {
                    Some(c) => if self.hosts[c].visible.len() > 0 { Some(0) } else { None },
                    None => None,
                };
                Effect::Nothing
            },
            Key::Char('s') => {
                self.mode = InputMode::Search;
                Effect::Nothing
            },
            Key::Char('f') => {
                self.mode = InputMode::File;
                Effect::Nothing
            },
            _ => Effect::Nothing,
        }
    }

    fn list_key(&mut self, key: Key) -> (e: Effect)
        requires
            old(self).wf(),
            old(self).mode == InputMode::ListVM,
        ensures
            final(self).wf(),
            final(self).mode == next_mode(old(self).mode, key),
            list_step(*old(self), *final(self), key, e),
    {
        match key {
            Key::Char('h') => {
                self.mode = InputMode::Normal;
                self.vm_cursor = None;
                Effect::Nothing
            },
            Key::Up => {
                if let Some(v) = self.vm_cursor {
                    if v > 0 {
                        self.vm_cursor = Some(v - 1);
                    }
                }
                Effect::Nothing
            },
            Key::Down => {
                if let Some(v) = self.vm_cursor {
                    let c = self.host_cursor.unwrap();
                    if v < self.hosts[c].visible.len() - 1 {
                        self.vm_cursor = Some(v + 1);
                    }
                }
                Effect::Nothing
            },
            Key::Char(' ') => {
                if let Some(v) = self.vm_cursor {
                    let c = self.host_cursor.unwrap();
                    self.toggle_at(c, v);
                }
                Effect::Nothing
            },
            Key::Char('p') => Effect::Dispatch(PowerOp::PowerOn),
            Key::Char('o') => Effect::Dispatch(PowerOp::PowerOff),
            Key::Char('r') => Effect::Dispatch(PowerOp::Reboot),
            _ => Effect::Nothing,
        }
    }

    /// Flips the selection of the VM shown at position `v` of host `c`.
    fn toggle_at(&mut self, c: usize, v: usize)
        requires
            old(self).wf(),
            c < old(self).hosts@.len(),
            v < old(self).hosts@[c as int].visible@.len(),
        ensures
            final(self).wf(),
            final(self).mode == old(self).mode,
            final(self).host_cursor == old(self).host_cursor,
            final(self).vm_cursor == old(self).vm_cursor,
            final(self).search_string == old(self).search_string,
            final(self).file_path == old(self).file_path,
            final(self).hosts@.len() == old(self).hosts@.len(),
            forall|h: int| 0 <= h < old(self).hosts@.len() && h != c ==> #[trigger] final(self).hosts@[h] == old(self).hosts@[h],
            toggled(old(self).hosts@[c as int], final(self).hosts@[c as int], old(self).hosts@[c as int].visible@[v as int] as int),
    {
        let idx = self.hosts[c].visible[v];
        let cur = self.hosts[c].vms_master[idx].selected;
        self.hosts[c].vms_master[idx].selected = !cur;
        proof {
            let h0 = old(self).hosts@[c as int];
            let h1 = self.hosts@[c as int];
            assert(h1.vms_master@ =~= h0.vms_master@.update(
                idx as int,
                Vm { selected: !h0.vms_master@[idx as int].selected, ..h0.vms_master@[idx as int] },
            ));
            assert forall|i: int| 0 <= i < h1.vms_master@.len() implies (#[trigger] h1.vms_master@[i]).wf() by {
                assert(h0.vms_master@[i].wf());
            }
            assert(h1.wf());
        }
    }

    fn search_key(&mut self, key: Key) -> (e: Effect)
        requires
            old(self).wf(),
            old(self).mode == InputMode::Search,
        ensures
            final(self).wf(),
            final(self).mode == next_mode(old(self).mode, key),
            search_step(*old(self), *final(self), key, e),
    {
        match key {
            Key::Esc => {
                self.mode = InputMode::Normal;
                self.vm_cursor = None;
            },
            Key::Char(c) => {
                push_char(&mut self.search_string, c);
                self.apply_filter();
            },
            Key::Backspace => {
                pop_char(&mut self.search_string);
                self.apply_filter();
            },
            _ => {},
        }
        Effect::Nothing
    }

    fn file_key(&mut self, key: Key) -> (e: Effect)
        requires
            old(self).wf(),
            old(self).mode == InputMode::File,
        ensures
            final(self).wf(),
            final(self).mode == next_mode(old(self).mode, key),
            file_step(*old(self), *final(self), key, e),
    {
        match key {
            Key::Char(c) => {
                push_char(&mut self.file_path, c);
                Effect::Nothing
            },
            Key::Backspace => {
                pop_char(&mut self.file_path);
                Effect::Nothing
            },
            Key::Enter => {
                self.mode = InputMode::Normal;
                let path = self.file_path.clone();
                self.file_path = String::new();
                Effect::Import(path)
            },
            _ => Effect::Nothing,
        }
    }
}

} // verus!
