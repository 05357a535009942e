//! The summarize engine: derive the distinct months present in the
//! collection, sum signed prices per month, and report the balances in
//! chronological order.

use vstd::prelude::*;
use vstd::seq_lib::group_filter_ensures;

use crate::date::{month_lt, Date};
use crate::item::{Item, ItemView};

verus! {

/// The views of the entries of a collection, in order.
pub open spec fn views_of(s: Seq<Item>) -> Seq<ItemView> {
    s.map_values(|it: Item| it@)
}

/// Whether the entry is dated in the (year, month) of `target`; the day
/// of `target` plays no part.
pub open spec fn in_month(v: ItemView, target: Date) -> bool {
    v.date.year == target.year && v.date.month == target.month
}

/// The entries of `s` dated in the month of `target`, in order.
pub open spec fn month_entries(s: Seq<ItemView>, target: Date) -> Seq<ItemView> {
    s.filter(|v: ItemView| in_month(v, target))
}

/// The signed sum of the entries' prices: income positive, expense
/// negative.
pub open spec fn sum_signed(s: Seq<ItemView>) -> int
    decreases s.len(),
{
    if s.len() == 0 {
        0
    } else {
        sum_signed(s.drop_last()) + s.last().signed_price()
    }
}

/// The net balance of the month of `target` over the whole collection.
pub open spec fn month_balance(s: Seq<ItemView>, target: Date) -> int {
    sum_signed(month_entries(s, target))
}

/// Whether `d` is the first-of-month date of one of the first `n`
/// entries of `s`.
pub open spec fn month_present(s: Seq<Item>, n: int, d: Date) -> bool {
    exists|i: int| 0 <= i < n && d == #[trigger] s[i]@.first_day()
}

/// Whether the dates stand in strictly ascending (year, month) order.
pub open spec fn months_sorted(s: Seq<Date>) -> bool {
    forall|p: int, q: int| 0 <= p < q < s.len() ==> month_lt(#[trigger] s[p], #[trigger] s[q])
}

/// The months column of a report.
pub open spec fn report_months(r: Seq<(Date, i64)>) -> Seq<Date> {
    r.map_values(|p: (Date, i64)| p.0)
}

proof fn lemma_month_present_widen(s: Seq<Item>, n1: int, n2: int, d: Date)
    requires
        month_present(s, n1, d),
        n1 <= n2,
    ensures
        month_present(s, n2, d),
{
    let t = choose|t: int| 0 <= t < n1 && d == #[trigger] s[t]@.first_day();
    assert(0 <= t < n2 && d == s[t]@.first_day());
}

/// An entry dated outside the target month contributes nothing to that
/// month's balance.
pub proof fn lemma_other_month_no_contribution(s: Seq<ItemView>, v: ItemView, target: Date)
    requires
        !in_month(v, target),
    ensures
        month_balance(s.push(v), target) == month_balance(s, target),
{
    reveal(Seq::filter);
    assert(s.push(v).drop_last() =~= s);
    assert(month_entries(s.push(v), target) == month_entries(s, target));
}

/// The distinct months present in the collection, each as a
/// first-of-month date, in ascending (year, month) order with no
/// duplicates.
pub fn get_target_dates(data: &Vec<Item>) -> (months: Vec<Date>)
    ensures
        months_sorted(months@),
        forall|k: int|
            0 <= k < months@.len() ==> month_present(data@, data@.len() as int, #[trigger] months@[k]),
        forall|i: int| 0 <= i < data@.len() ==> months@.contains(#[trigger] data@[i]@.first_day()),
{
    let mut months: Vec<Date> = Vec::new();
    let mut i: usize = 0;
    while i < data.len()
        invariant
            i <= data@.len(),
            months_sorted(months@),
            forall|k: int| 0 <= k < months@.len() ==> months@[k].day == 1,
            forall|k: int|
                0 <= k < months@.len() ==> month_present(data@, i as int, #[trigger] months@[k]),
            forall|t: int| 0 <= t < i ==> months@.contains(#[trigger] data@[t]@.first_day()),
        decreases data@.len() - i,
    {
        let d = data[i].get_first_day();
        let mut j: usize = 0;
        while j < months.len() && months[j].precedes_month(&d)
            invariant
                j <= months@.len(),
                forall|k: int| 0 <= k < j ==> month_lt(months@[k], d),
            decreases months@.len() - j,
        {
            j += 1;
        }
        if j < months.len() && months[j] == d {
            proof {
                // this month is already recorded
                assert(months@.contains(data@[i as int]@.first_day()));
                assert forall|k: int| 0 <= k < months@.len() implies month_present(
                    data@,
                    i + 1 as int,
                    #[trigger] months@[k],
                ) by {
                    lemma_month_present_widen(data@, i as int, i + 1 as int, months@[k]);
                }
            }
        } else {
            let ghost before = months@;
            months.insert(j, d);
            proof {
                assert(months@ == before.insert(j as int, d));
                assert forall|p: int, q: int|
                    0 <= p < q < months@.len() implies month_lt(
                    #[trigger] months@[p],
                    #[trigger] months@[q],
                ) by {
                    if p < j {
                        assert(months@[p] == before[p]);
                        assert(month_lt(before[p], d));
                    }
                    if q > j {
                        assert(months@[q] == before[q - 1]);
                        assert(j < before.len());
                        assert(!month_lt(before[j as int], d) && before[j as int] != d);
                        assert(month_lt(d, before[j as int]));
                    }
                    if p == j {
                        assert(months@[p] == d);
                    }
                    if q == j {
                        assert(months@[q] == d);
                    }
                    if p > j {
                        assert(months@[p] == before[p - 1]);
                    }
                }
                assert forall|k: int| 0 <= k < months@.len() implies month_present(
                    data@,
                    i + 1 as int,
                    #[trigger] months@[k],
                ) by {
                    if k == j {
                        assert(months@[k] == data@[i as int]@.first_day());
                    } else {
                        let ghost b: int = if k < j {
                            k
                        } else {
                            k - 1
                        };
                        assert(months@[k] == before[b]);
                        lemma_month_present_widen(data@, i as int, i + 1 as int, months@[k]);
                    }
                }
                assert forall|t: int| 0 <= t < i + 1 implies months@.contains(
                    #[trigger] data@[t]@.first_day(),
                ) by {
                    if t < i {
                        let w = choose|w: int|
                            0 <= w < before.len() && before[w] == data@[t]@.first_day();
                        if w < j {
                            assert(months@[w] == data@[t]@.first_day());
                        } else {
                            assert(months@[w + 1] == data@[t]@.first_day());
                        }
                    } else {
                        assert(months@[j as int] == data@[t]@.first_day());
                    }
                }
            }
        }
        i += 1;
    }
    months
}

/// The entries of the collection dated in the (year, month) of
/// `filter_date`, in their original order, as copies.
pub fn get_filtered_data(data: &Vec<Item>, filter_date: Date) -> (filtered: Vec<Item>)
    ensures
        views_of(filtered@) == month_entries(views_of(data@), filter_date),
{
    let mut filtered: Vec<Item> = Vec::new();
    let mut i: usize = 0;
    while i < data.len()
        invariant
            i <= data@.len(),
            views_of(filtered@) == month_entries(views_of(data@.take(i as int)), filter_date),
        decreases data@.len() - i,
    {
        let item = &data[i];
        if item.get_year() == filter_date.year && item.get_month() == filter_date.month {
            let copy = item.duplicate();
            filtered.push(copy);
        }
        proof {
            reveal(Seq::filter);
            let s0 = views_of(data@.take(i as int));
            let s1 = views_of(data@.take(i + 1 as int));
            assert(s1.drop_last() =~= s0);
            assert(s1.last() == data@[i as int]@);
            assert(views_of(filtered@) =~= month_entries(s1, filter_date));
        }
        i += 1;
    }
    proof {
        assert(data@.take(data@.len() as int) =~= data@);
    }
    filtered
}

/// The signed sum of the collection's prices.
pub fn summarize_data(data: &Vec<Item>) -> (sum: i64)
    requires
        data@.len() <= 0x8000_0000,
    ensures
        sum as int == sum_signed(views_of(data@)),
{
    let mut sum: i64 = 0;
    let mut i: usize = 0;
    while i < data.len()
        invariant
            i <= data@.len(),
            data@.len() <= 0x8000_0000,
            sum as int == sum_signed(views_of(data@.take(i as int))),
            -(i as int) * 0xffff_ffff <= sum as int <= (i as int) * 0xffff_ffff,
        decreases data@.len() - i,
    {
        let p = data[i].get_price_for_summary();
        proof {
            let s0 = views_of(data@.take(i as int));
            let s1 = views_of(data@.take(i + 1 as int));
            assert(s1.drop_last() =~= s0);
            assert(s1.last() == data@[i as int]@);
            assert(sum_signed(s1) == sum_signed(s0) + data@[i as int]@.signed_price());
        }
        sum += p;
        i += 1;
    }
    proof {
        assert(data@.take(data@.len() as int) =~= data@);
    }
    sum
}

/// The monthly report: one (month, net balance) row per distinct month
/// present in the collection, ascending by (year, month). An empty
/// collection yields an empty report.
pub fn summarize(data: &Vec<Item>) -> (report: Vec<(Date, i64)>)
    requires
        data@.len() <= 0x8000_0000,
    ensures
        forall|p: int, q: int|
            0 <= p < q < report@.len() ==> month_lt(#[trigger] report@[p].0, #[trigger] report@[q].0),
        forall|k: int|
            0 <= k < report@.len() ==> month_present(data@, data@.len() as int, #[trigger] report@[k].0),
        forall|i: int|
            0 <= i < data@.len() ==> report_months(report@).contains(
                #[trigger] data@[i]@.first_day(),
            ),
        forall|k: int|
            0 <= k < report@.len() ==> #[trigger] report@[k].1 as int == month_balance(
                views_of(data@),
                report@[k].0,
            ),
        data@.len() == 0 ==> report@.len() == 0,
{
    broadcast use group_filter_ensures;

    let months = get_target_dates(data);
    let mut report: Vec<(Date, i64)> = Vec::new();
    let mut k: usize = 0;
    while k < months.len()
        invariant
            k <= months@.len(),
            data@.len() <= 0x8000_0000,
            report@.len() == k,
            forall|t: int| 0 <= t < k ==> #[trigger] report@[t].0 == months@[t],
            forall|t: int|
                0 <= t < k ==> #[trigger] report@[t].1 as int == month_balance(
                    views_of(data@),
                    months@[t],
                ),
        decreases months@.len() - k,
    {
        let target = months[k];
        let filtered = get_filtered_data(data, target);
        proof {
            assert(views_of(data@).len() == data@.len());
            assert(views_of(filtered@).len() <= views_of(data@).len());
            assert(filtered@.len() == views_of(filtered@).len());
        }
        let sum = summarize_data(&filtered);
        report.push((target, sum));
        k += 1;
    }
    proof {
        assert(report_months(report@) =~= months@);
        assert forall|p: int, q: int|
            0 <= p < q < report@.len() implies month_lt(
            #[trigger] report@[p].0,
            #[trigger] report@[q].0,
        ) by {
            assert(report@[p].0 == months@[p]);
            assert(report@[q].0 == months@[q]);
        }
        if data@.len() == 0 && months@.len() > 0 {
            assert(month_present(data@, data@.len() as int, months@[0]));
            assert(false);
        }
        assert forall|k: int| 0 <= k < report@.len() implies month_present(
            data@,
            data@.len() as int,
            #[trigger] report@[k].0,
        ) by {
            assert(report@[k].0 == months@[k]);
        }
    }
    report
}

} // verus!
