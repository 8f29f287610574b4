use vstd::prelude::*;

verus! {

/// One row of the suggestion table as the picker sees it: identifier,
/// submitter, category, approval flag, and submission timestamp.
#[derive(Clone, Copy, PartialEq, Eq, Structural, Debug)]
pub struct PickEntry {
    pub id: u64,
    pub submitter: u64,
    pub internal: bool,
    pub approved: bool,
    pub timestamp: u64,
}

/// Eligible for announcement in the given category: approved and matching.
pub open spec fn eligible(e: PickEntry, internal: bool) -> bool {
    e.approved && e.internal == internal
}

/// Submitted strictly earlier: by timestamp, the store identifier breaking
/// ties (identifiers grow in insertion order).
pub open spec fn earlier(a: PickEntry, b: PickEntry) -> bool {
    a.timestamp < b.timestamp || (a.timestamp == b.timestamp && a.id < b.id)
}

/// Submitted no later than `b`.
pub open spec fn earlier_eq(a: PickEntry, b: PickEntry) -> bool {
    !earlier(b, a)
}

/// `s[i]` is its submitter's earliest eligible suggestion.
pub open spec fn is_group_min(s: Seq<PickEntry>, i: int, internal: bool) -> bool {
    &&& 0 <= i < s.len()
    &&& eligible(s[i], internal)
    &&& forall|j: int|
        0 <= j < s.len() && eligible(#[trigger] s[j], internal) && s[j].submitter
            == s[i].submitter ==> earlier_eq(s[i], s[j])
}

/// Chooses the next suggestion to announce for a category: the earliest
/// submitted among the approved suggestions of that category (the first
/// such position, should the ordering key repeat). Per-submitter fairness
/// holds because each submitter's earliest eligible suggestion dominates
/// the rest of that submitter's group, so the overall earliest is also the
/// earliest among the per-submitter minima; see
/// `lemma_pick_respects_grouping`. Returns `None` exactly when no approved
/// suggestion of the category exists.
pub fn pick_suggestion(entries: &Vec<PickEntry>, internal: bool) -> (r: Option<usize>)
    ensures
        match r {
            Some(i) => {
                &&& i < entries@.len()
                &&& eligible(entries@[i as int], internal)
                &&& forall|j: int|
                    0 <= j < entries@.len() && eligible(#[trigger] entries@[j], internal)
                        ==> earlier_eq(entries@[i as int], entries@[j])
                &&& forall|j: int|
                    0 <= j < i && eligible(#[trigger] entries@[j], internal)
                        ==> earlier(entries@[i as int], entries@[j])
            },
            None => forall|j: int|
                0 <= j < entries@.len() ==> !eligible(#[trigger] entries@[j], internal),
        },
{
    let mut best: Option<usize> = None;
    let mut i: usize = 0;
    while i < entries.len()
        invariant
            i <= entries@.len(),
            match best {
                Some(b) => {
                    &&& b < i
                    &&& eligible(entries@[b as int], internal)
                    &&& forall|j: int|
                        0 <= j < i && eligible(#[trigger] entries@[j], internal)
                            ==> earlier_eq(entries@[b as int], entries@[j])
                    &&& forall|j: int|
                        0 <= j < b && eligible(#[trigger] entries@[j], internal)
                            ==> earlier(entries@[b as int], entries@[j])
                },
                None => forall|j: int|
                    0 <= j < i ==> !eligible(#[trigger] entries@[j], internal),
            },
        decreases entries@.len() - i,
    {
        let e = entries[i];
        if e.approved && e.internal == internal {
            match best {
                None => {
                    best = Some(i);
                },
                Some(b) => {
                    let be = entries[b];
                    if e.timestamp < be.timestamp
                        || (e.timestamp == be.timestamp && e.id < be.id) {
                        best = Some(i);
                    }
                },
            }
        }
        i += 1;
    }
    best
}

/// The fairness shape of the pick made explicit: an overall earliest
/// eligible suggestion is its own submitter's earliest (one eligible slot
/// per submitter), and it is the earliest among all per-submitter minima —
/// so taking each submitter group's minimum first and then the minimum
/// across groups selects the same suggestion.
pub proof fn lemma_pick_respects_grouping(s: Seq<PickEntry>, i: int, internal: bool)
    requires
        0 <= i < s.len(),
        eligible(s[i], internal),
        forall|j: int|
            0 <= j < s.len() && eligible(#[trigger] s[j], internal) ==> earlier_eq(s[i], s[j]),
    ensures
        is_group_min(s, i, internal),
        forall|j: int|
            0 <= j < s.len() && is_group_min(s, j, internal) ==> earlier_eq(s[i], s[j]),
{
}

} // verus!
