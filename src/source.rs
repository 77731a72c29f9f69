use vstd::prelude::*;
use crate::record::ChangeRecord;

verus! {

/// The last page that the listing is read to: the page count, or the hard cap where
/// that is lower.
pub open spec fn last_page(total_pages: u32, hard_cap: Option<u32>) -> int {
    match hard_cap {
        Some(cap) => if cap < total_pages {
            cap as int
        } else {
            total_pages as int
        },
        None => total_pages as int,
    }
}

/// How many workers read the pages after the first: the cap where one is set (a cap of
/// zero counts as one worker), two otherwise.
pub open spec fn worker_count(max_async: Option<u32>) -> int {
    match max_async {
        Some(w) => if w == 0 {
            1
        } else {
            w as int
        },
        None => 2,
    }
}

/// How many pages past its first one each worker reads.
pub open spec fn pages_per_worker(total_pages: u32, hard_cap: Option<u32>, max_async: Option<u32>) -> int {
    last_page(total_pages, hard_cap) / worker_count(max_async)
}

/// `ranges` splits the pages from 2 to `last` into contiguous ranges, in order, each
/// `per + 1` pages long but the final one, which ends at `last`.
pub open spec fn partitions(ranges: Seq<(u32, u32)>, last: int, per: int) -> bool {
    &&& (last < 2 <==> ranges.len() == 0)
    &&& ranges.len() > 0 ==> ranges[0].0 == 2 && ranges.last().1 == last
    &&& forall|k: int|
        0 <= k < ranges.len() ==> {
            &&& ranges[k].0 <= ranges[k].1
            &&& #[trigger] ranges[k].1 as int == if ranges[k].0 + per < last {
                ranges[k].0 + per
            } else {
                last
            }
        }
    &&& forall|k: int| 0 <= k < ranges.len() - 1 ==> #[trigger] ranges[k + 1].0 == ranges[k].1 + 1
}

/// The page ranges, first and last page included, that the workers read after the
/// first page: they cover the pages from 2 to the last page once each.
pub fn page_ranges(total_pages: u32, hard_cap: Option<u32>, max_async: Option<u32>) -> (r: Vec<(u32, u32)>)
    ensures
        partitions(r@, last_page(total_pages, hard_cap), pages_per_worker(total_pages, hard_cap, max_async)),
{
    let last: u32 = match hard_cap {
        Some(cap) => if cap < total_pages {
            cap
        } else {
            total_pages
        },
        None => total_pages,
    };
    let workers: u32 = match max_async {
        Some(w) => if w == 0 {
            1
        } else {
            w
        },
        None => 2,
    };
    let per: u32 = last / workers;
    let mut ranges: Vec<(u32, u32)> = Vec::new();
    let mut start: u64 = 2;
    while start <= last as u64
        invariant
            last as int == last_page(total_pages, hard_cap),
            per as int == pages_per_worker(total_pages, hard_cap, max_async),
            2 <= start,
            ranges.len() > 0 ==> start <= last as u64 + 1,
            ranges.len() == 0 <==> start == 2,
            ranges.len() > 0 ==> ranges[0].0 == 2 && ranges@.last().1 + 1 == start,
            forall|k: int|
                0 <= k < ranges.len() ==> {
                    &&& ranges[k].0 <= ranges[k].1
                    &&& #[trigger] ranges[k].1 as int == if ranges[k].0 + per < last {
                        ranges[k].0 + per
                    } else {
                        last as int
                    }
                },
            forall|k: int| 0 <= k < ranges.len() - 1 ==> #[trigger] ranges[k + 1].0 == ranges[k].1 + 1,
        decreases last as u64 + 1 - start,
    {
        let s = start as u32;
        let end: u32 = if per < last - s {
            s + per
        } else {
            last
        };
        ranges.push((s, end));
        start = end as u64 + 1;
    }
    proof {
        if last >= 2 {
            assert(ranges.len() > 0);
        }
    }
    ranges
}

/// What a worker does after reading a page.
#[derive(Clone, Copy, Debug, PartialEq, Eq, Structural)]
pub enum PageStep {
    /// Read this page next.
    Fetch { page: u32 },
    /// Stop, keeping what was read.
    Stop,
}

/// What came of reading a page: read, with or without a page after it, or failed.
#[derive(Clone, Copy, Debug, PartialEq, Eq, Structural)]
pub enum PageEvent {
    Read { has_next: bool },
    Failed,
}

/// A worker that has just dealt with page `page` of its range ending at `page_end`
/// reads the following page where the listing has one and the range goes on; it stops
/// at the end of its range, at the end of the listing, and after a failed page.
pub fn page_step(page: u32, page_end: u32, event: PageEvent) -> (r: PageStep)
    ensures
        event == (PageEvent::Read { has_next: true }) && page < page_end ==> r == (PageStep::Fetch {
            page: (page + 1) as u32,
        }),
        !(event == (PageEvent::Read { has_next: true }) && page < page_end) ==> r == PageStep::Stop,
{
    match event {
        PageEvent::Read { has_next } => if has_next && page < page_end {
            PageStep::Fetch { page: page + 1 }
        } else {
            PageStep::Stop
        },
        PageEvent::Failed => PageStep::Stop,
    }
}

/// Some record of `s` has the number `n`.
pub open spec fn seen(s: Seq<ChangeRecord>, n: u64) -> bool {
    exists|i: int| 0 <= i < s.len() && #[trigger] s[i].number == n
}

/// The records of `s` in their order, each but the first of a number left out.
pub open spec fn first_occurrences(s: Seq<ChangeRecord>) -> Seq<ChangeRecord>
    decreases s.len(),
{
    if s.len() == 0 {
        Seq::empty()
    } else if seen(s.drop_last(), s.last().number) {
        first_occurrences(s.drop_last())
    } else {
        first_occurrences(s.drop_last()).push(s.last())
    }
}

/// The records in the order given, each but the first of a number left out.
pub fn dedup_keeping_order(records: Vec<ChangeRecord>) -> (r: Vec<ChangeRecord>)
    ensures
        r@ == first_occurrences(records@),
        forall|i: int, j: int|
            0 <= i < r.len() && 0 <= j < r.len() && i != j ==> r@[i].number != r@[j].number,
{
    let ghost all = records@;
    let total: usize = records.len();
    let mut rest = records;
    let mut out: Vec<ChangeRecord> = Vec::new();
    let mut numbers: Vec<u64> = Vec::new();
    let mut i: usize = 0;
    while rest.len() > 0
        invariant
            i + rest.len() == all.len(),
            all.len() == total,
            rest@ == all.skip(i as int),
            out@ == first_occurrences(all.take(i as int)),
            numbers.len() == i,
            forall|k: int| 0 <= k < i ==> numbers@[k] == #[trigger] all[k].number,
            forall|k: int| 0 <= k < out.len() ==> seen(all.take(i as int), #[trigger] out@[k].number),
            forall|a: int, b: int|
                0 <= a < out.len() && 0 <= b < out.len() && a != b ==> out@[a].number
                    != out@[b].number,
        decreases rest.len(),
    {
        let x = rest.remove(0);
        proof {
            assert(x == all[i as int]);
            assert(rest@ =~= all.skip(i + 1));
            assert(all.take(i + 1).drop_last() =~= all.take(i as int));
            assert(all.take(i + 1).last() == x);
        }
        let mut k: usize = 0;
        let mut found = false;
        while k < numbers.len()
            invariant
                k <= numbers.len(),
                numbers.len() == i,
                i < all.len(),
                x == all[i as int],
                forall|m: int| 0 <= m < i ==> numbers@[m] == #[trigger] all[m].number,
                found <==> exists|m: int| 0 <= m < k && #[trigger] all[m].number == x.number,
            decreases numbers.len() - k,
        {
            proof {
                assert(numbers@[k as int] == all[k as int].number);
            }
            let ghost was_found = found;
            if numbers[k] == x.number {
                found = true;
            }
            k = k + 1;
            proof {
                if found && !was_found {
                    assert(all[k - 1].number == x.number);
                }
                if !found {
                    assert forall|m: int| 0 <= m < k implies #[trigger] all[m].number != x.number by {
                        if m < k - 1 {
                            assert(!(0 <= m < k - 1 && all[m].number == x.number));
                        }
                    }
                }
            }
        }
        proof {
            let prev = all.take(i as int);
            if found {
                let m = choose|m: int| 0 <= m < i && #[trigger] all[m].number == x.number;
                assert(prev[m].number == x.number);
            } else {
                assert forall|m: int| 0 <= m < prev.len() implies #[trigger] prev[m].number != x.number by {
                    assert(prev[m] == all[m]);
                }
            }
        }
        let number = x.number;
        let ghost old_out = out@;
        if !found {
            proof {
                assert forall|a: int| 0 <= a < old_out.len() implies #[trigger] old_out[a].number != x.number by {
                    let prev = all.take(i as int);
                    assert(seen(prev, old_out[a].number));
                    let m = choose|m: int| 0 <= m < prev.len() && #[trigger] prev[m].number == old_out[a].number;
                    assert(prev[m] == all[m]);
                }
            }
            out.push(x);
        }
        numbers.push(number);
        i = i + 1;
        proof {
            let prev = all.take(i - 1);
            let now = all.take(i as int);
            assert forall|k: int| 0 <= k < out.len() implies seen(now, #[trigger] out@[k].number) by {
                if k < old_out.len() {
                    assert(seen(prev, out@[k].number));
                    let m = choose|m: int| 0 <= m < prev.len() && #[trigger] prev[m].number == out@[k].number;
                    assert(now[m] == prev[m]);
                } else {
                    assert(now[i - 1] == x);
                }
            }
        }
    }
    proof {
        assert(all.take(i as int) =~= all);
    }
    out
}

/// `j` is the first index at or after `lo` in `s` whose record has its number.
pub open spec fn first_of_number(s: Seq<ChangeRecord>, lo: int, j: int) -> bool {
    &&& lo <= j < s.len()
    &&& forall|k: int| lo <= k < j ==> #[trigger] s[k].number != s[j].number
}

/// Some record of `out` has the number `n`.
pub open spec fn holds_number(out: Seq<ChangeRecord>, n: u64) -> bool {
    exists|i: int| 0 <= i < out.len() && #[trigger] out[i].number == n
}

/// `out` holds, sorted by number, the first record of each number among `s` from `lo` on.
pub open spec fn deduplicated_from(out: Seq<ChangeRecord>, s: Seq<ChangeRecord>, lo: int) -> bool {
    &&& forall|i: int, j: int| 0 <= i < j < out.len() ==> out[i].number < out[j].number
    &&& forall|i: int|
        0 <= i < out.len() ==> exists|j: int| first_of_number(s, lo, j) && #[trigger] out[i] == s[j]
    &&& forall|j: int| lo <= j < s.len() ==> holds_number(out, #[trigger] s[j].number)
}

/// The records with duplicates by number removed: for each number the record that
/// comes first, sorted by number.
pub fn dedup_by_number(records: Vec<ChangeRecord>) -> (r: Vec<ChangeRecord>)
    ensures
        deduplicated_from(r@, records@, 0),
        forall|i: int, j: int|
            0 <= i < r.len() && 0 <= j < r.len() && i != j ==> r[i].number != r[j].number,
{
    let ghost all = records@;
    let mut rest = records;
    let mut out: Vec<ChangeRecord> = Vec::new();
    while rest.len() > 0
        invariant
            rest@ == all.take(rest.len() as int),
            rest.len() <= all.len(),
            deduplicated_from(out@, all, rest.len() as int),
        decreases rest.len(),
    {
        let x = rest.pop().unwrap();
        let ghost m = rest.len() as int;
        assert(x == all[m]);
        assert(rest@ =~= all.take(m));
        let mut p: usize = 0;
        while p < out.len() && out[p].number < x.number
            invariant
                p <= out.len(),
                forall|i: int| 0 <= i < p ==> #[trigger] out[i].number < x.number,
            decreases out.len() - p,
        {
            p = p + 1;
        }
        let ghost old_out = out@;
        if p < out.len() && out[p].number == x.number {
            out.remove(p);
            out.insert(p, x);
            assert(out@ =~= old_out.update(p as int, x));
            assert forall|i: int| 0 <= i < out.len() implies exists|j: int|
                first_of_number(all, m, j) && #[trigger] out@[i] == all[j] by {
                if i == p {
                    assert(first_of_number(all, m, m));
                } else {
                    let j = choose|j: int| first_of_number(all, m + 1, j) && old_out[i] == all[j];
                    assert(old_out[i].number != x.number);
                    assert(first_of_number(all, m, j));
                }
            }
            assert forall|j: int| m <= j < all.len() implies holds_number(out@, #[trigger] all[j].number) by {
                if j == m {
                    assert(out@[p as int].number == all[j].number);
                } else {
                    assert(holds_number(old_out, all[j].number));
                    let i = choose|i: int| 0 <= i < old_out.len() && old_out[i].number == all[j].number;
                    assert(out@[i].number == all[j].number);
                }
            }
        } else {
            out.insert(p, x);
            assert(out@ =~= old_out.insert(p as int, x));
            assert forall|i: int| 0 <= i < out.len() implies exists|j: int|
                first_of_number(all, m, j) && #[trigger] out@[i] == all[j] by {
                if i == p {
                    assert(first_of_number(all, m, m));
                } else if i < p {
                    let j = choose|j: int| first_of_number(all, m + 1, j) && old_out[i] == all[j];
                    assert(first_of_number(all, m, j));
                } else {
                    let j = choose|j: int| first_of_number(all, m + 1, j) && old_out[i - 1] == all[j];
                    assert(first_of_number(all, m, j));
                }
            }
            assert forall|j: int| m <= j < all.len() implies holds_number(out@, #[trigger] all[j].number) by {
                if j == m {
                    assert(out@[p as int].number == all[j].number);
                } else {
                    assert(holds_number(old_out, all[j].number));
                    let i = choose|i: int| 0 <= i < old_out.len() && old_out[i].number == all[j].number;
                    if i < p {
                        assert(out@[i].number == all[j].number);
                    } else {
                        assert(out@[i + 1].number == all[j].number);
                    }
                }
            }
        }
    }
    proof {
        assert forall|i: int, j: int|
            0 <= i < out.len() && 0 <= j < out.len() && i != j implies out[i].number != out[j].number by {
            if i < j {
                assert(out@[i].number < out@[j].number);
            } else {
                assert(out@[j].number < out@[i].number);
            }
        }
    }
    out
}

} // verus!
