use vstd::prelude::*;
use vstd::multiset::Multiset;
use vstd::seq_lib::{lemma_multiset_commutative, to_multiset_insert};
use crate::record::ChangeRecord;
use crate::time::{before, not_after, Instant};

verus! {

/// Some name of `names` is `s`.
pub open spec fn listed(names: Seq<String>, s: Seq<char>) -> bool {
    exists|i: int| 0 <= i < names.len() && #[trigger] names[i]@ == s
}

/// Some label of `labels` is listed in `ignored`.
pub open spec fn has_listed_label(labels: Seq<String>, ignored: Seq<String>) -> bool {
    exists|k: int| 0 <= k < labels.len() && listed(ignored, #[trigger] labels[k]@)
}

/// A record is mirrored when it was merged, not before the cutoff, by an author who is
/// not ignored, and carries no ignored label. A record whose author is not known has no
/// ignored author, and one without a label list has no ignored label.
pub open spec fn eligible(
    r: ChangeRecord,
    cutoff: Instant,
    ignored_users: Seq<String>,
    ignored_labels: Seq<String>,
) -> bool {
    &&& r.merged_at is Some
    &&& not_after(cutoff, r.merged_at->0)
    &&& (r.user matches Some(u) ==> !listed(ignored_users, u.login@))
    &&& (r.labels matches Some(l) ==> !has_listed_label(l@, ignored_labels))
}

/// The records that are mirrored, in the order of the input.
pub open spec fn eligible_changes(
    records: Seq<ChangeRecord>,
    cutoff: Instant,
    ignored_users: Seq<String>,
    ignored_labels: Seq<String>,
) -> Seq<ChangeRecord> {
    records.filter(|r: ChangeRecord| eligible(r, cutoff, ignored_users, ignored_labels))
}

/// `a` may come before `b`: it was merged earlier, or at the same instant with a number
/// that is not larger.
pub open spec fn in_merge_order(a: ChangeRecord, b: ChangeRecord) -> bool {
    before(a.merged_at->0, b.merged_at->0) || (a.merged_at->0 == b.merged_at->0 && a.number
        <= b.number)
}

/// `a` comes strictly before `b`: merged earlier, or at the same instant with a smaller
/// number.
pub open spec fn strictly_in_merge_order(a: ChangeRecord, b: ChangeRecord) -> bool {
    before(a.merged_at->0, b.merged_at->0) || (a.merged_at->0 == b.merged_at->0 && a.number
        < b.number)
}

/// No two records of `s` share a number.
pub open spec fn distinct_numbers(s: Seq<ChangeRecord>) -> bool {
    forall|i: int, j: int| 0 <= i < j < s.len() ==> #[trigger] s[i].number != #[trigger] s[j].number
}

/// `e` is one of the records of `s` from index `lo` on.
pub open spec fn occurs_from(e: ChangeRecord, s: Seq<ChangeRecord>, lo: int) -> bool {
    exists|k: int| lo <= k < s.len() && #[trigger] s[k] == e
}

pub open spec fn strictly_sorted_by_merge(s: Seq<ChangeRecord>) -> bool {
    forall|i: int, j: int|
        0 <= i < j < s.len() ==> strictly_in_merge_order(#[trigger] s[i], #[trigger] s[j])
}

pub open spec fn sorted_by_merge(s: Seq<ChangeRecord>) -> bool {
    forall|i: int, j: int| 0 <= i < j < s.len() ==> in_merge_order(#[trigger] s[i], #[trigger] s[j])
}

/// Whether `s` is one of `names`.
pub fn is_listed(names: &Vec<String>, s: &String) -> (r: bool)
    ensures
        r == listed(names@, s@),
{
    let mut i: usize = 0;
    while i < names.len()
        invariant
            i <= names.len(),
            forall|k: int| 0 <= k < i ==> names@[k]@ != s@,
        decreases names.len() - i,
    {
        if names[i] == *s {
            return true;
        }
        i = i + 1;
    }
    false
}

/// Whether some label of `labels` is one of `ignored`.
pub fn has_ignored_label(labels: &Vec<String>, ignored: &Vec<String>) -> (r: bool)
    ensures
        r == has_listed_label(labels@, ignored@),
{
    let mut i: usize = 0;
    while i < labels.len()
        invariant
            i <= labels.len(),
            forall|k: int| 0 <= k < i ==> !listed(ignored@, #[trigger] labels@[k]@),
        decreases labels.len() - i,
    {
        if is_listed(ignored, &labels[i]) {
            return true;
        }
        i = i + 1;
    }
    false
}

/// Whether the record is mirrored.
pub fn is_eligible(
    r: &ChangeRecord,
    cutoff: &Instant,
    ignored_users: &Vec<String>,
    ignored_labels: &Vec<String>,
) -> (b: bool)
    ensures
        b == eligible(*r, *cutoff, ignored_users@, ignored_labels@),
{
    let merged = match &r.merged_at {
        Some(m) => m,
        None => return false,
    };
    if merged.is_before(cutoff) {
        return false;
    }
    if let Some(user) = &r.user {
        if is_listed(ignored_users, &user.login) {
            return false;
        }
    }
    match &r.labels {
        Some(labels) => !has_ignored_label(labels, ignored_labels),
        None => true,
    }
}

fn merge_order_holds(a: &ChangeRecord, b: &ChangeRecord) -> (r: bool)
    requires
        a.merged_at is Some,
        b.merged_at is Some,
    ensures
        r == in_merge_order(*a, *b),
{
    let ma = a.merged_at.unwrap();
    let mb = b.merged_at.unwrap();
    ma.is_before(&mb) || (ma == mb && a.number <= b.number)
}

proof fn lemma_merge_order_total(a: ChangeRecord, b: ChangeRecord)
    ensures
        in_merge_order(a, b) || in_merge_order(b, a),
{
}

proof fn lemma_merge_order_transitive(a: ChangeRecord, b: ChangeRecord, c: ChangeRecord)
    requires
        in_merge_order(a, b),
        in_merge_order(b, c),
    ensures
        in_merge_order(a, c),
{
}

/// The records that are mirrored, sorted by merge time and then by number.
pub fn select_eligible(
    records: Vec<ChangeRecord>,
    cutoff: &Instant,
    ignored_users: &Vec<String>,
    ignored_labels: &Vec<String>,
) -> (r: Vec<ChangeRecord>)
    ensures
        r@.to_multiset() == eligible_changes(
            records@,
            *cutoff,
            ignored_users@,
            ignored_labels@,
        ).to_multiset(),
        sorted_by_merge(r@),
        distinct_numbers(records@) ==> strictly_sorted_by_merge(r@),
        forall|i: int|
            0 <= i < r.len() ==> eligible(#[trigger] r@[i], *cutoff, ignored_users@, ignored_labels@),
{
    let ghost all = records@;
    let ghost p = |x: ChangeRecord| eligible(x, *cutoff, ignored_users@, ignored_labels@);
    let mut rest = records;
    let mut out: Vec<ChangeRecord> = Vec::new();
    proof {
        assert(all.skip(all.len() as int) =~= Seq::<ChangeRecord>::empty());
        assert(all.skip(all.len() as int).filter(p) =~= Seq::<ChangeRecord>::empty());
    }
    while rest.len() > 0
        invariant
            rest@ == all.take(rest.len() as int),
            rest.len() <= all.len(),
            p == (|x: ChangeRecord| eligible(x, *cutoff, ignored_users@, ignored_labels@)),
            out@.to_multiset() == all.skip(rest.len() as int).filter(p).to_multiset(),
            sorted_by_merge(out@),
            forall|i: int| 0 <= i < out.len() ==> #[trigger] p(out@[i]),
            forall|i: int| 0 <= i < out.len() ==> (#[trigger] out@[i]).merged_at is Some,
            forall|i: int| 0 <= i < out.len() ==> occurs_from(#[trigger] out@[i], all, rest.len() as int),
            distinct_numbers(all) ==> distinct_numbers(out@),
        decreases rest.len(),
    {
        let x = rest.pop().unwrap();
        let ghost m = rest.len() as int;
        proof {
            assert(x == all[m]);
            assert(rest@ =~= all.take(m));
            assert(all.skip(m) =~= seq![x] + all.skip(m + 1));
            all.skip(m + 1).lemma_filter_prepend(x, p);
        }
        if is_eligible(&x, cutoff, ignored_users, ignored_labels) {
            let mut q: usize = 0;
            while q < out.len() && merge_order_holds(&out[q], &x)
                invariant
                    q <= out.len(),
                    x.merged_at is Some,
                    forall|i: int| 0 <= i < out.len() ==> #[trigger] p(out@[i]),
                    forall|i: int| 0 <= i < out.len() ==> (#[trigger] out@[i]).merged_at is Some,
                    p == (|x: ChangeRecord| eligible(x, *cutoff, ignored_users@, ignored_labels@)),
                    forall|i: int| 0 <= i < q ==> in_merge_order(#[trigger] out@[i], x),
                decreases out.len() - q,
            {
                q = q + 1;
            }
            let ghost old_out = out@;
            out.insert(q, x);
            proof {
                assert(out@ =~= old_out.insert(q as int, x));
                to_multiset_insert(old_out, q as int, x);
                lemma_multiset_commutative(seq![x], all.skip(m + 1).filter(p));
                assert(seq![x].to_multiset() =~= Multiset::empty().insert(x)) by {
                    assert(seq![x] =~= Seq::<ChangeRecord>::empty().push(x));
                    vstd::seq_lib::to_multiset_build(Seq::<ChangeRecord>::empty(), x);
                    vstd::seq_lib::lemma_seq_union_to_multiset_commutative(
                        Seq::<ChangeRecord>::empty(),
                        Seq::<ChangeRecord>::empty(),
                    );
                    assert(Seq::<ChangeRecord>::empty().to_multiset() =~= Multiset::empty()) by {
                        broadcast use vstd::seq_lib::group_to_multiset_ensures;
                    }
                }
                if q < old_out.len() {
                    lemma_merge_order_total(old_out[q as int], x);
                }
                assert forall|i: int, j: int| 0 <= i < j < out.len() implies in_merge_order(
                    #[trigger] out@[i],
                    #[trigger] out@[j],
                ) by {
                    if j < q {
                        assert(in_merge_order(old_out[i], old_out[j]));
                    } else if j == q {
                        assert(in_merge_order(old_out[i], x));
                    } else if i < q {
                        assert(in_merge_order(old_out[i], x));
                        assert(in_merge_order(x, old_out[q as int]));
                        lemma_merge_order_transitive(x, old_out[q as int], old_out[j - 1]);
                        lemma_merge_order_transitive(old_out[i], x, old_out[j - 1]);
                    } else if i == q {
                        if j - 1 > q {
                            assert(in_merge_order(old_out[q as int], old_out[j - 1]));
                            lemma_merge_order_transitive(x, old_out[q as int], old_out[j - 1]);
                        }
                    } else {
                        assert(in_merge_order(old_out[i - 1], old_out[j - 1]));
                    }
                }
                assert forall|i: int| 0 <= i < out.len() implies #[trigger] p(out@[i]) && out@[i].merged_at is Some
                    && occurs_from(out@[i], all, m) by {
                    if i != q {
                        if i < q {
                            assert(p(old_out[i]) && occurs_from(old_out[i], all, m + 1));
                        } else {
                            assert(p(old_out[i - 1]) && occurs_from(old_out[i - 1], all, m + 1));
                        }
                    } else {
                        assert(all[m] == x);
                    }
                }
                if distinct_numbers(all) {
                    assert forall|i: int| 0 <= i < old_out.len() implies #[trigger] old_out[i].number
                        != x.number by {
                        assert(occurs_from(old_out[i], all, m + 1));
                        let k = choose|k: int| m + 1 <= k < all.len() && all[k] == old_out[i];
                        assert(all[m].number != all[k].number);
                    }
                    assert forall|i: int, j: int| 0 <= i < j < out.len() implies #[trigger] out@[i].number
                        != #[trigger] out@[j].number by {
                        if j < q {
                            assert(old_out[i].number != old_out[j].number);
                        } else if j == q {
                            assert(old_out[i].number != x.number);
                        } else if i < q {
                            assert(old_out[i].number != old_out[j - 1].number);
                        } else if i == q {
                            assert(old_out[j - 1].number != x.number);
                        } else {
                            assert(old_out[i - 1].number != old_out[j - 1].number);
                        }
                    }
                }
            }
        }
    }
    proof {
        assert(all.skip(0) =~= all);
        assert forall|i: int| 0 <= i < out.len() implies eligible(
            #[trigger] out@[i],
            *cutoff,
            ignored_users@,
            ignored_labels@,
        ) by {
            assert(p(out@[i]));
        }
    }
    out
}

} // verus!
