//! The search filter: a case-insensitive substring match of the search text
//! against each VM's name, which sets the VM's filter flag and recomputes the
//! host's visible sequence without touching anything else.

use vstd::prelude::*;
use crate::inventory::{Host, Vm, visible_of, lemma_visible_upto_ordered};

verus! {

/// What `str::to_lowercase` gives for a string.
pub uninterp spec fn lower_of(s: Seq<char>) -> Seq<char>;

/// Relies on str::to_lowercase: the lowercase mapping of each character; the
/// result depends on the characters alone and the empty string stays empty.
#[verifier::external_body]
pub(crate) fn lowercase(s: &str) -> (r: String)
    ensures
        r@ == lower_of(s@),
        s@.len() == 0 ==> r@.len() == 0,
{
    s.to_lowercase()
}

/// `needle` occurs in `hay` at position `i`.
pub open spec fn occurs_at(hay: Seq<char>, needle: Seq<char>, i: int) -> bool {
    0 <= i && i + needle.len() <= hay.len() && hay.subrange(i, i + needle.len()) == needle
}

/// `needle` occurs somewhere in `hay`.
pub open spec fn is_substring(needle: Seq<char>, hay: Seq<char>) -> bool {
    exists|i: int| occurs_at(hay, needle, i)
}

/// `name` contains `query`, ignoring case.
pub open spec fn contains_ignorecase(name: Seq<char>, query: Seq<char>) -> bool {
    is_substring(lower_of(query), lower_of(name))
}

/// `v` with its filter flag set as the query `folded_query` (already in
/// lowercase) decides.
pub open spec fn flagged_by(v: Vm, folded_query: Seq<char>) -> Vm {
    Vm { excluded_by_filter: !is_substring(folded_query, lower_of(v.name@)), ..v }
}

/// `after` is `before` with the filter of the lowercase query `folded_query`
/// applied: only the filter flags change, and the visible sequence follows them.
pub open spec fn filtered(before: Host, after: Host, folded_query: Seq<char>) -> bool {
    &&& after.name == before.name
    &&& after.state == before.state
    &&& after.ip == before.ip
    &&& after.vms_master@.len() == before.vms_master@.len()
    &&& forall|i: int|
        0 <= i < before.vms_master@.len() ==> after.vms_master@[i] == #[trigger] flagged_by(
            before.vms_master@[i],
            folded_query,
        )
    &&& after.synced()
}

/// Whether the lowercase `folded_query` occurs in the lowercase `folded_name`.
pub fn matches_folded(folded_name: &str, folded_query: &str) -> (r: bool)
    ensures
        r == is_substring(folded_query@, folded_name@),
{
    let n = folded_name.unicode_len();
    let q = folded_query.unicode_len();
    if q > n {
        proof {
            assert forall|i: int| !occurs_at(folded_name@, folded_query@, i) by {}
        }
        return false;
    }
    let mut i: usize = 0;
    while i <= n - q
        invariant
            n == folded_name@.len(),
            q == folded_query@.len(),
            q <= n,
            i <= n - q + 1,
            forall|j: int| 0 <= j < i ==> !occurs_at(folded_name@, folded_query@, j),
        decreases n - q + 1 - i,
    {
        let mut k: usize = 0;
        let mut same = true;
        while k < q
            invariant
                n == folded_name@.len(),
                q == folded_query@.len(),
                i + q <= n,
                k <= q,
                same == forall|t: int| 0 <= t < k ==> folded_name@[i + t] == folded_query@[t],
            decreases q - k,
        {
            if folded_name.get_char(i + k) != folded_query.get_char(k) {
                same = false;
            }
            k = k + 1;
        }
        if same {
            proof {
                assert(folded_name@.subrange(i as int, i + q) =~= folded_query@);
                assert(occurs_at(folded_name@, folded_query@, i as int));
            }
            return true;
        }
        proof {
            assert(!occurs_at(folded_name@, folded_query@, i as int)) by {
                if folded_name@.subrange(i as int, i + q) == folded_query@ {
                    assert forall|t: int| 0 <= t < q implies folded_name@[i + t] == folded_query@[t] by {
                        assert(folded_name@.subrange(i as int, i + q)[t] == folded_name@[i + t]);
                    }
                }
            }
        }
        i = i + 1;
    }
    proof {
        assert forall|j: int| !occurs_at(folded_name@, folded_query@, j) by {
            if 0 <= j < i {
            }
        }
    }
    false
}

impl Host {
    /// Sets every VM's filter flag from the lowercase query and recomputes the
    /// visible sequence from the authoritative list, keeping its order.
    pub fn apply_filter(&mut self, folded_query: &str)
        requires
            old(self).wf(),
        ensures
            final(self).wf(),
            filtered(*old(self), *final(self), folded_query@),
    {
        let n = self.vms_master.len();
        let mut i: usize = 0;
        while i < n
            invariant
                n == self.vms_master@.len(),
                n == old(self).vms_master@.len(),
                i <= n,
                self.name == old(self).name,
                self.state == old(self).state,
                self.ip == old(self).ip,
                forall|j: int| 0 <= j < i ==> self.vms_master@[j] == #[trigger] flagged_by(
                    old(self).vms_master@[j],
                    folded_query@,
                ),
                forall|j: int| i <= j < n ==> self.vms_master@[j] == old(self).vms_master@[j],
            decreases n - i,
        {
            let folded_name = lowercase(self.vms_master[i].name.as_str());
            let hit = matches_folded(folded_name.as_str(), folded_query);
            self.vms_master[i].excluded_by_filter = !hit;
            i = i + 1;
        }
        let mut shown: Vec<usize> = Vec::new();
        let mut j: usize = 0;
        while j < n
            invariant
                n == self.vms_master@.len(),
                j <= n,
                shown@ == crate::inventory::visible_upto(self.vms_master@, j as nat),
            decreases n - j,
        {
            if !self.vms_master[j].excluded_by_filter {
                shown.push(j);
            }
            j = j + 1;
        }
        self.visible = shown;
        proof {
            lemma_visible_upto_ordered(self.vms_master@, n as nat);
            assert forall|k: int| 0 <= k < n implies (#[trigger] self.vms_master@[k]).wf() by {
                assert(self.vms_master@[k] == flagged_by(old(self).vms_master@[k], folded_query@));
            }
            assert(self.visible@ == visible_of(self.vms_master@));
        }
    }
}

} // verus!
