//! The writable verdict of an access-control list and the choice of the grant
//! to report.
use vstd::prelude::*;
use crate::acl::{Ace, AceKind, AceModel, models};
use crate::mask::{format_access_mask, format_spec, grants_write, is_writable_mask};
use crate::sid::{is_broad_sid, is_interesting_sid, sid_text, sid_to_string};

verus! {

/// Whether an entry allows write-equivalent access.
pub open spec fn qualifies(a: AceModel) -> bool {
    a.0 == AceKind::Allow && grants_write(a.1)
}

/// Whether some entry allows write-equivalent access.
pub open spec fn any_qualifies(s: Seq<AceModel>) -> bool {
    exists|i: int| 0 <= i < s.len() && qualifies(s[i])
}

/// The index of the grant to report, walking the entries in stored order: a
/// qualifying entry replaces the current choice when there is none yet (or
/// its principal has no text), or when its own principal is a broad group.
/// So a broad group found later overrides a narrow one found earlier, and
/// among equals the first one found stays.
pub open spec fn chosen_index(s: Seq<AceModel>) -> Option<int>
    decreases s.len(),
{
    if s.len() == 0 {
        None
    } else {
        let prev = chosen_index(s.drop_last());
        if qualifies(s.last()) && (prev is None || sid_text(s[prev->0].2).len() == 0
            || is_broad_sid(s.last().2)) {
            Some(s.len() - 1)
        } else {
            prev
        }
    }
}

/// The verdict on one access-control list.
#[derive(Debug)]
pub struct DaclAnalysis {
    /// Whether some allow entry grants write-equivalent access.
    pub writable: bool,
    /// The index of the grant reported, if any.
    pub chosen: Option<usize>,
    /// The canonical text of the reported principal; empty when none.
    pub sid: String,
    /// The rendering of the reported grant's mask; empty when none.
    pub access: String,
}

/// What the analysis of `s` holds: the verdict, the choice, and the text of
/// the chosen principal and mask.
pub open spec fn analysis_of(s: Seq<AceModel>, r: DaclAnalysis) -> bool {
    &&& r.writable == any_qualifies(s)
    &&& match chosen_index(s) {
        Some(i) => {
            &&& r.chosen == Some(i as usize)
            &&& r.sid@ == sid_text(s[i].2)
            &&& r.access@ == format_spec(s[i].1)
        },
        None => {
            &&& r.chosen is None
            &&& r.sid@.len() == 0
            &&& r.access@.len() == 0
        },
    }
}

/// A chosen index is in range and names a qualifying entry.
pub proof fn lemma_chosen_qualifies(s: Seq<AceModel>)
    ensures
        chosen_index(s) matches Some(i) ==> 0 <= i < s.len() && qualifies(s[i]),
        chosen_index(s) is None <==> !any_qualifies(s),
    decreases s.len(),
{
    if s.len() > 0 {
        lemma_chosen_qualifies(s.drop_last());
        let p = s.drop_last();
        if chosen_index(s) is None {
            assert forall|i: int| 0 <= i < s.len() implies !qualifies(s[i]) by {
                if i < s.len() - 1 {
                    assert(s[i] == p[i]);
                }
            }
        } else if let Some(j) = chosen_index(p) {
            assert(s[j] == p[j]);
        }
        if any_qualifies(p) {
            let k = choose|k: int| 0 <= k < p.len() && qualifies(p[k]);
            assert(s[k] == p[k]);
        }
    }
}

/// Analyses an access-control list: only allow entries count, deny entries
/// and other kinds are ignored, and an absent list is not writable.
pub fn analyze_dacl(dacl: Option<&Vec<Ace>>) -> (r: DaclAnalysis)
    ensures
        analysis_of(
            match dacl {
                Some(v) => models(v@),
                None => Seq::empty(),
            },
            r,
        ),
{
    let aces: &Vec<Ace> = match dacl {
        Some(v) => v,
        None => {
            return DaclAnalysis {
                writable: false,
                chosen: None,
                sid: String::new(),
                access: String::new(),
            };
        },
    };
    let ghost s = models(aces@);
    let mut writable = false;
    let mut chosen: Option<usize> = None;
    let mut best_sid = String::new();
    let mut best_access = String::new();
    let mut i: usize = 0;
    while i < aces.len()
        invariant
            s == models(aces@),
            i <= aces@.len(),
            writable == any_qualifies(s.take(i as int)),
            chosen_index(s.take(i as int)) matches Some(c) ==> {
                &&& chosen == Some(c as usize)
                &&& best_sid@ == sid_text(s[c].2)
                &&& best_access@ == format_spec(s[c].1)
            },
            chosen_index(s.take(i as int)) is None ==> {
                &&& chosen is None
                &&& best_sid@.len() == 0
                &&& best_access@.len() == 0
            },
        decreases aces@.len() - i,
    {
        let a = &aces[i];
        let ghost t = s.take(i as int + 1);
        proof {
            assert(t.drop_last() =~= s.take(i as int));
            assert(t.last() == a@);
            lemma_chosen_qualifies(s.take(i as int));
            if let Some(c) = chosen_index(s.take(i as int)) {
                assert(s[c] == t[c]);
            }
        }
        if a.kind == AceKind::Allow && is_writable_mask(a.mask) {
            writable = true;
            let sid = sid_to_string(a.principal.as_slice());
            if best_sid.as_str().is_empty() || is_interesting_sid(a.principal.as_slice()) {
                chosen = Some(i);
                best_sid = sid;
                best_access = format_access_mask(a.mask);
            }
        }
        proof {
            if any_qualifies(s.take(i as int)) {
                let k = choose|k: int| 0 <= k < i && qualifies(s.take(i as int)[k]);
                assert(t[k] == s.take(i as int)[k]);
            }
            if qualifies(a@) {
                assert(t[i as int] == a@);
            }
            if any_qualifies(t) {
                let k = choose|k: int| 0 <= k < t.len() && qualifies(t[k]);
                if k < i {
                    assert(t[k] == s.take(i as int)[k]);
                }
            }
        }
        i = i + 1;
    }
    proof {
        assert(s.take(i as int) =~= s);
    }
    DaclAnalysis { writable, chosen, sid: best_sid, access: best_access }
}

/// A list without a write-granting allow entry is not writable and reports
/// no principal.
pub proof fn lemma_no_grant_not_writable(s: Seq<AceModel>, r: DaclAnalysis)
    requires
        analysis_of(s, r),
        forall|i: int| 0 <= i < s.len() ==> !qualifies(#[trigger] s[i]),
    ensures
        !r.writable,
        r.chosen is None,
        r.sid@.len() == 0,
        r.access@.len() == 0,
{
    lemma_chosen_qualifies(s);
}

/// The only write-granting allow entry is the one reported, wherever it stands
/// among the other entries.
pub proof fn lemma_single_grant_chosen(s: Seq<AceModel>, k: int, r: DaclAnalysis)
    requires
        analysis_of(s, r),
        0 <= k < s.len(),
        qualifies(s[k]),
        forall|i: int| 0 <= i < s.len() && i != k ==> !qualifies(#[trigger] s[i]),
    ensures
        r.writable,
        r.chosen == Some(k as usize),
        r.sid@ == sid_text(s[k].2),
        r.access@ == format_spec(s[k].1),
{
    lemma_chosen_qualifies(s);
}

/// Entries after the last write-granting allow entry leave the choice as it was.
proof fn lemma_chosen_after(s: Seq<AceModel>, m: int)
    requires
        0 <= m <= s.len(),
        forall|i: int| m <= i < s.len() ==> !qualifies(#[trigger] s[i]),
    ensures
        chosen_index(s) == chosen_index(s.take(m)),
    decreases s.len() - m,
{
    if m < s.len() {
        let p = s.drop_last();
        assert forall|i: int| m <= i < p.len() implies !qualifies(#[trigger] p[i]) by {
            assert(p[i] == s[i]);
        }
        lemma_chosen_after(p, m);
        assert(p.take(m) =~= s.take(m));
    } else {
        assert(s.take(m) =~= s);
    }
}

/// A narrow grant followed by a grant to a broad group: the broad group is
/// reported, though the narrow one came first.
pub proof fn lemma_broad_overrides_earlier(s: Seq<AceModel>, n: int, b: int, r: DaclAnalysis)
    requires
        analysis_of(s, r),
        0 <= n < b < s.len(),
        qualifies(s[n]),
        !is_broad_sid(s[n].2),
        qualifies(s[b]),
        is_broad_sid(s[b].2),
        forall|i: int| 0 <= i < s.len() && i != n && i != b ==> !qualifies(#[trigger] s[i]),
    ensures
        r.writable,
        r.chosen == Some(b as usize),
        r.sid@ == sid_text(s[b].2),
{
    let t = s.take(b + 1);
    assert(t.last() == s[b]);
    assert(t.drop_last() =~= s.take(b));
    lemma_chosen_after(s, b + 1);
    lemma_chosen_qualifies(s);
}

/// Inserting an entry that is not an allow entry, at any position, leaves
/// the writable verdict as it was.
pub proof fn lemma_non_allow_entry_ignored(s: Seq<AceModel>, k: int, d: AceModel)
    requires
        0 <= k <= s.len(),
        d.0 != AceKind::Allow,
    ensures
        any_qualifies(s.insert(k, d)) == any_qualifies(s),
{
    let t = s.insert(k, d);
    if any_qualifies(s) {
        let j = choose|j: int| 0 <= j < s.len() && qualifies(s[j]);
        if j < k {
            assert(t[j] == s[j]);
        } else {
            assert(t[j + 1] == s[j]);
        }
    }
    if any_qualifies(t) {
        let j = choose|j: int| 0 <= j < t.len() && qualifies(t[j]);
        if j < k {
            assert(t[j] == s[j]);
        } else if j > k {
            assert(t[j] == s[j - 1]);
        }
    }
}

/// A list of deny entries and other kinds alone is never writable, whatever
/// rights they name.
pub proof fn lemma_only_non_allow_not_writable(s: Seq<AceModel>, r: DaclAnalysis)
    requires
        analysis_of(s, r),
        forall|i: int| 0 <= i < s.len() ==> (#[trigger] s[i]).0 != AceKind::Allow,
    ensures
        !r.writable,
        r.chosen is None,
{
    lemma_chosen_qualifies(s);
}

/// Analysing the same list twice gives the same verdict, choice and texts.
pub proof fn lemma_analysis_deterministic(s: Seq<AceModel>, r1: DaclAnalysis, r2: DaclAnalysis)
    requires
        analysis_of(s, r1),
        analysis_of(s, r2),
    ensures
        r1.writable == r2.writable,
        r1.chosen == r2.chosen,
        r1.sid@ == r2.sid@,
        r1.access@ == r2.access@,
{
}

} // verus!
