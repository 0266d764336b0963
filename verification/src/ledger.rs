//! The ledger partitioner: sorts the records of a half-year into one bucket
//! per month, with a bucket for every month of the half-year whether or not
//! anything happened in it.

use crate::error::ReportError;
use crate::formula::{half_months, half_of_month};
use crate::models::data::Data;
use vstd::prelude::*;

verus! {

/// The test that tells the records of `month` from the others.
pub open spec fn in_month(month: int) -> spec_fn(Data) -> bool {
    |d: Data| d.date.month == month
}

/// The records of `month`, in the order in which the partitioner meets
/// them: from the end of the log to its beginning.
pub open spec fn bucket_of(table: Seq<Data>, month: int) -> Seq<Data> {
    table.reverse().filter(in_month(month))
}

/// Whether every record's month lies within `first..=last`.
pub open spec fn all_within(table: Seq<Data>, first: int, last: int) -> bool {
    forall|i: int| 0 <= i < table.len() ==> first <= (#[trigger] table[i]).date.month <= last
}

/// The month that decides the half-year: that of the log's last record.
/// Statements list the newest transaction first, so this is the oldest.
pub open spec fn first_month(table: Seq<Data>) -> Option<u8> {
    if table.len() == 0 {
        None
    } else {
        Some(table.last().date.month)
    }
}

/// The half-year that a log covers, if its first month starts one.
pub open spec fn half_of(table: Seq<Data>) -> Option<u8> {
    match first_month(table) {
        Some(month) => half_of_month(month),
        None => None,
    }
}

/// One bucket per month from `first` to `last`, in order of the months.
pub open spec fn buckets_of(table: Seq<Data>, first: int, last: int) -> Seq<(u8, Seq<Data>)> {
    Seq::new(
        (last - first + 1) as nat,
        |k: int| ((first + k) as u8, bucket_of(table, first + k)),
    )
}

/// What partitioning makes of a log: the buckets of its half-year, or why
/// there are none.
pub open spec fn partition(table: Seq<Data>) -> Result<Seq<(u8, Seq<Data>)>, ReportError> {
    match half_of(table) {
        None => Err(ReportError::PeriodBoundary),
        Some(half) => {
            let (first, last) = half_months(half);
            if all_within(table, first as int, last as int) {
                Ok(buckets_of(table, first as int, last as int))
            } else {
                Err(ReportError::MonthOutOfRange)
            }
        },
    }
}

/// The number of records in all of `buckets` together.
pub open spec fn total_records(buckets: Seq<(u8, Seq<Data>)>) -> nat
    decreases buckets.len(),
{
    if buckets.len() == 0 {
        0
    } else {
        total_records(buckets.drop_last()) + buckets.last().1.len()
    }
}

/// The buckets with their records as sequences.
pub open spec fn buckets_view(buckets: Seq<(u8, Vec<Data>)>) -> Seq<(u8, Seq<Data>)> {
    buckets.map_values(|b: (u8, Vec<Data>)| (b.0, b.1@))
}

/// Among the records `seen`, as many have a month within `first..first + k`
/// as the first `k` buckets from `first` hold.
proof fn lemma_count_first_buckets(seen: Seq<Data>, first: int, k: nat)
    ensures
        total_records(Seq::new(k, |j: int| ((first + j) as u8, seen.filter(in_month(first + j)))))
            == seen.filter(|d: Data| first <= d.date.month < first + k).len(),
    decreases seen.len(), k,
{
    let buckets = Seq::new(k, |j: int| ((first + j) as u8, seen.filter(in_month(first + j))));
    let within = |d: Data| first <= d.date.month < first + k;
    reveal(Seq::filter);
    if k == 0 {
        lemma_filter_none(seen, within);
    } else {
        let fewer = Seq::new(
            (k - 1) as nat,
            |j: int| ((first + j) as u8, seen.filter(in_month(first + j))),
        );
        assert(buckets.drop_last() =~= fewer);
        lemma_count_first_buckets(seen, first, (k - 1) as nat);
        let below = |d: Data| first <= d.date.month < first + k - 1;
        lemma_filter_split(seen, below, in_month(first + k - 1), within);
    }
}

/// A test that nothing passes leaves nothing.
proof fn lemma_filter_none(s: Seq<Data>, test: spec_fn(Data) -> bool)
    requires
        forall|d: Data| !#[trigger] test(d),
    ensures
        s.filter(test).len() == 0,
    decreases s.len(),
{
    reveal(Seq::filter);
    if s.len() > 0 {
        lemma_filter_none(s.drop_last(), test);
    }
}

/// Where `both` passes exactly what one of `a` and `b` passes, and nothing
/// passes `a` and `b` at once, filtering by `both` keeps as many as
/// filtering by `a` and by `b` keep together.
proof fn lemma_filter_split(
    s: Seq<Data>,
    a: spec_fn(Data) -> bool,
    b: spec_fn(Data) -> bool,
    both: spec_fn(Data) -> bool,
)
    requires
        forall|d: Data| #[trigger] both(d) <==> (a(d) || b(d)),
        forall|d: Data| !(#[trigger] a(d) && b(d)),
    ensures
        s.filter(both).len() == s.filter(a).len() + s.filter(b).len(),
    decreases s.len(),
{
    reveal(Seq::filter);
    if s.len() > 0 {
        lemma_filter_split(s.drop_last(), a, b, both);
    }
}

/// A test that everything passes leaves everything.
proof fn lemma_filter_all(s: Seq<Data>, test: spec_fn(Data) -> bool)
    requires
        forall|i: int| 0 <= i < s.len() ==> test(#[trigger] s[i]),
    ensures
        s.filter(test) == s,
    decreases s.len(),
{
    reveal(Seq::filter);
    if s.len() > 0 {
        lemma_filter_all(s.drop_last(), test);
        assert(s.drop_last().push(s.last()) =~= s);
    } else {
        assert(s.filter(test) =~= s);
    }
}

/// The log's last record is the first of its month's bucket.
proof fn lemma_first_bucket_holds_first(table: Seq<Data>, month: int)
    requires
        table.len() > 0,
        table.last().date.month == month,
    ensures
        bucket_of(table, month).len() > 0,
{
    let seen = table.reverse();
    assert(seen[0] == table.last());
    lemma_filter_keeps(seen, in_month(month), 0);
}

/// Filtering keeps no more than there is.
proof fn lemma_filter_fits(s: Seq<Data>, test: spec_fn(Data) -> bool)
    ensures
        s.filter(test).len() <= s.len(),
    decreases s.len(),
{
    reveal(Seq::filter);
    if s.len() > 0 {
        lemma_filter_fits(s.drop_last(), test);
    }
}

/// What passes the test is kept.
proof fn lemma_filter_keeps(s: Seq<Data>, test: spec_fn(Data) -> bool, i: int)
    requires
        0 <= i < s.len(),
        test(s[i]),
    ensures
        s.filter(test).len() > 0,
    decreases s.len(),
{
    reveal(Seq::filter);
    if i < s.len() - 1 {
        lemma_filter_keeps(s.drop_last(), test, i);
    }
}

/// Partitioning neither drops nor repeats a record: the buckets of a log
/// whose months all lie within `first..=last` hold, together, as many
/// records as the log.
pub proof fn lemma_buckets_keep_count(table: Seq<Data>, first: int, last: int)
    requires
        first <= last,
        all_within(table, first, last),
    ensures
        total_records(buckets_of(table, first, last)) == table.len(),
{
    let seen = table.reverse();
    let k = (last - first + 1) as nat;
    lemma_count_first_buckets(seen, first, k);
    let within = |d: Data| first <= d.date.month < first + k;
    assert forall|i: int| 0 <= i < seen.len() implies within(#[trigger] seen[i]) by {
        assert(seen[i] == table[table.len() - 1 - i]);
    }
    lemma_filter_all(seen, within);
    assert(buckets_of(table, first, last) =~= Seq::new(
        k,
        |j: int| ((first + j) as u8, seen.filter(in_month(first + j))),
    ));
}

/// Whatever log is partitioned without error, the buckets hold as many
/// records as the log.
pub proof fn lemma_partition_keeps_count(table: Seq<Data>)
    requires
        partition(table) is Ok,
    ensures
        total_records(partition(table)->Ok_0) == table.len(),
{
    let (first, last) = half_months(half_of(table)->0);
    lemma_buckets_keep_count(table, first as int, last as int);
}

/// Every month of the half-year has exactly one bucket, whether or not the
/// log has a record of that month: the bucket of `month` sits at position
/// `month - first`, and no other bucket carries that month.
pub proof fn lemma_one_bucket_per_month(table: Seq<Data>, month: int)
    requires
        partition(table) is Ok,
    ensures
        ({
            let buckets = partition(table)->Ok_0;
            let (first, last) = half_months(half_of(table)->0);
            &&& buckets.len() == last - first + 1
            &&& forall|k: int| 0 <= k < buckets.len() ==> (#[trigger] buckets[k]).0 == first + k
            &&& first <= month <= last ==> {
                &&& buckets[month - first].0 == month
                &&& buckets[month - first].1 == bucket_of(table, month)
                &&& forall|k: int|
                    0 <= k < buckets.len() && (#[trigger] buckets[k]).0 == month ==> k == month
                        - first
            }
        }),
{
}

/// Sorts the records of a half-year's log into one bucket per month.
///
/// The month of the log's last record decides the half-year: months 1 to 6
/// if it is 1, months 6 to 12 if it is 6. The result has one bucket for
/// every month of that half-year, in order of the months, each with the
/// records of its month in the order from the end of the log to its
/// beginning. A log that is empty or starts in another month has no
/// half-year; a log with a record outside its half-year is refused.
pub fn separate_data(table: Vec<Data>) -> (r: Result<Vec<(u8, Vec<Data>)>, ReportError>)
    ensures
        match r {
            Ok(buckets) => partition(table@) == Ok::<Seq<(u8, Seq<Data>)>, ReportError>(
                buckets_view(buckets@),
            ),
            Err(e) => partition(table@) == Err::<Seq<(u8, Seq<Data>)>, ReportError>(e),
        },
        r is Ok ==> total_records(buckets_view(r->Ok_0@)) == table@.len(),
        r is Ok ==> r->Ok_0@.len() > 0 && r->Ok_0@[0].1@.len() > 0,
        r is Ok ==> forall|k: int|
            0 <= k < r->Ok_0@.len() ==> (#[trigger] r->Ok_0@[k]).1@.len() <= table@.len(),
        r is Ok ==> ({
            let (first, last) = half_months(half_of(table@)->0);
            &&& r->Ok_0@.len() == last - first + 1
            &&& forall|k: int|
                0 <= k < r->Ok_0@.len() ==> (#[trigger] r->Ok_0@[k]).0 == first + k
                    && r->Ok_0@[k].1@ == bucket_of(table@, first + k)
        }),
{
    let mut rest = table;
    let n = rest.len();
    if n == 0 {
        return Err(ReportError::PeriodBoundary);
    }
    let month = rest[n - 1].date.month;
    let (first, last): (u8, u8) = if month == 1 {
        (1, 6)
    } else if month == 6 {
        (6, 12)
    } else {
        return Err(ReportError::PeriodBoundary);
    };
    let mut i: usize = 0;
    while i < n
        invariant
            i <= n,
            n == rest.len(),
            rest@ == table@,
            half_of(table@) is Some,
            half_months(half_of(table@)->0) == (first, last),
            all_within(table@.take(i as int), first as int, last as int),
        decreases n - i,
    {
        let m = rest[i].date.month;
        if m < first || m > last {
            assert(table@[i as int].date.month == m);
            return Err(ReportError::MonthOutOfRange);
        }
        proof {
            assert forall|j: int| 0 <= j < i + 1 implies first <= (#[trigger] table@.take(
                i + 1,
            )[j]).date.month <= last by {
                if j < i {
                    assert(table@.take(i + 1)[j] == table@.take(i as int)[j]);
                }
            }
        }
        i = i + 1;
    }
    proof {
        assert(table@.take(n as int) =~= table@);
    }
    let mut buckets: Vec<(u8, Vec<Data>)> = Vec::new();
    let mut m: u8 = first;
    while m <= last
        invariant
            first <= m <= last + 1,
            last <= 12,
            buckets.len() == m - first,
            forall|k: int|
                0 <= k < buckets.len() ==> (#[trigger] buckets@[k]).0 == first + k && buckets@[k].1@
                    == Seq::<Data>::empty(),
        decreases last + 1 - m,
    {
        buckets.push((m, Vec::new()));
        m = m + 1;
    }
    let ghost seen = Seq::<Data>::empty();
    proof {
        reveal(Seq::filter);
        assert forall|k: int| 0 <= k < buckets.len() implies (#[trigger] buckets@[k]).1@
            == seen.filter(in_month(first + k)) by {
            assert(seen.filter(in_month(first + k)) =~= Seq::<Data>::empty());
        }
        assert(table@.subrange(n as int, n as int).reverse() =~= seen);
    }
    while rest.len() > 0
        invariant
            rest.len() <= n,
            n == table@.len(),
            rest@ == table@.take(rest.len() as int),
            seen == table@.subrange(rest.len() as int, n as int).reverse(),
            all_within(table@, first as int, last as int),
            first <= last <= 12,
            half_of(table@) is Some,
            half_months(half_of(table@)->0) == (first, last),
            first == table@.last().date.month,
            buckets.len() == last - first + 1,
            forall|k: int|
                0 <= k < buckets.len() ==> (#[trigger] buckets@[k]).0 == first + k && buckets@[k].1@
                    == seen.filter(in_month(first + k)),
        decreases rest.len(),
    {
        let ghost before = buckets@;
        let ghost at = rest.len() - 1;
        let data = rest.pop().unwrap();
        assert(data == table@[at]);
        let idx: usize = (data.date.month - first) as usize;
        buckets[idx].1.push(data);
        proof {
            let grown = seen.push(data);
            assert(table@.subrange(at, n as int).reverse() =~= grown);
            reveal(Seq::filter);
            assert(grown.drop_last() =~= seen);
            assert forall|k: int| 0 <= k < buckets.len() implies (#[trigger] buckets@[k]).0
                == first + k && buckets@[k].1@ == grown.filter(in_month(first + k)) by {
                if k != idx {
                    assert(buckets@[k] == before[k]);
                }
            }
            seen = grown;
        }
    }
    proof {
        assert(table@.subrange(0, n as int) =~= table@);
        assert(buckets_view(buckets@) =~= buckets_of(table@, first as int, last as int));
        lemma_buckets_keep_count(table@, first as int, last as int);
        lemma_first_bucket_holds_first(table@, first as int);
        assert forall|k: int| 0 <= k < buckets@.len() implies (#[trigger] buckets@[k]).1@.len()
            <= table@.len() by {
            lemma_filter_fits(table@.reverse(), in_month(first + k));
        }
    }
    Ok(buckets)
}

} // verus!
