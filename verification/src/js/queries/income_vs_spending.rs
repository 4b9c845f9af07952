//! The chart of a project's income (payments received) against its spending
//! (withdrawals).

use vstd::prelude::*;
use crate::decimal::{base_units_to_display_units_str, display_units_text};
use crate::dependencies::FundsAssetSpecs;
use crate::number_text::{i64_to_string, int_text};

verus! {

/// A payment or a withdrawal: when it happened (a Unix timestamp, in
/// seconds) and its amount in base units of the funds asset.
#[derive(Debug, Clone, Copy, PartialEq, Eq)]
pub struct ChartPayment {
    pub date: i64,
    pub amount: u64,
}

/// A point of the chart: the timestamp and the amount, as text.
#[derive(Debug, Clone, PartialEq, Eq)]
pub struct ChartDataPoint {
    pub date: String,
    pub value: String,
}

/// The points from which the two lines of the chart are drawn.
#[derive(Debug, Clone, PartialEq, Eq)]
pub struct ChartLines {
    pub spending: Vec<ChartDataPoint>,
    pub income: Vec<ChartDataPoint>,
}

/// The chart's lines, and all their points in one list (income, then
/// spending), from which the chart draws its axes.
#[derive(Debug, Clone, PartialEq, Eq)]
pub struct IncomeVsSpendingResJs {
    pub chart_lines: ChartLines,
    pub flat_data_points: Vec<ChartDataPoint>,
}

/// Whether `out` is `inp` sorted by date, payments of the same date in the
/// order they had (`p[k]` is the position in `inp` of `out[k]`).
pub open spec fn is_stable_payment_order(out: Seq<ChartPayment>, inp: Seq<ChartPayment>, p: Seq<int>) -> bool {
    &&& out.len() == inp.len()
    &&& p.len() == out.len()
    &&& forall|k: int| 0 <= k < p.len() ==> 0 <= #[trigger] p[k] < inp.len() && out[k] == inp[p[k]]
    &&& forall|k: int, l: int| 0 <= k < l < p.len() ==> #[trigger] p[k] != #[trigger] p[l]
    &&& forall|k: int, l: int|
        0 <= k < l < p.len() ==> (#[trigger] out[k]).date < (#[trigger] out[l]).date || (out[k].date
            == out[l].date && p[k] < p[l])
}

/// Whether `out` is `inp` sorted by date with a stable sort.
pub open spec fn is_payments_sorted(out: Seq<ChartPayment>, inp: Seq<ChartPayment>) -> bool {
    exists|p: Seq<int>| is_stable_payment_order(out, inp, p)
}

/// Sorts the payments by date, ascending; payments of the same date keep
/// their order.
pub fn sort_payments_by_date(payments: &Vec<ChartPayment>) -> (sorted: Vec<ChartPayment>)
    ensures
        is_payments_sorted(sorted@, payments@),
{
    let ghost inp = payments@;
    let n = payments.len();
    let mut out: Vec<ChartPayment> = Vec::new();
    let ghost mut p: Seq<int> = Seq::empty();
    let mut i: usize = 0;
    while i < n
        invariant
            n == inp.len(),
            inp == payments@,
            i <= n,
            out@.len() == i,
            p.len() == i,
            forall|k: int| 0 <= k < p.len() ==> 0 <= #[trigger] p[k] < i && out@[k] == inp[p[k]],
            forall|k: int, l: int| 0 <= k < l < p.len() ==> #[trigger] p[k] != #[trigger] p[l],
            forall|k: int, l: int|
                0 <= k < l < p.len() ==> (#[trigger] out@[k]).date < (#[trigger] out@[l]).date || (
                out@[k].date == out@[l].date && p[k] < p[l]),
        decreases n - i,
    {
        let item = payments[i];
        let d = item.date;
        let mut pos: usize = 0;
        while pos < out.len() && out[pos].date <= d
            invariant
                pos <= out@.len(),
                forall|k: int| 0 <= k < pos ==> (#[trigger] out@[k]).date <= d,
            decreases out@.len() - pos,
        {
            pos = pos + 1;
        }
        let ghost old_out = out@;
        let ghost old_p = p;
        proof {
            assert forall|k: int| pos <= k < old_out.len() implies (#[trigger] old_out[k]).date
                > d by {
                if k > pos {
                    assert(old_out[pos as int].date <= old_out[k].date);
                }
            }
            p = p.insert(pos as int, i as int);
        }
        out.insert(pos, item);
        proof {
            assert(out@ == old_out.insert(pos as int, item));
            assert forall|k: int| 0 <= k < p.len() implies 0 <= #[trigger] p[k] < i + 1 && out@[k]
                == inp[p[k]] by {
                if k < pos {
                    assert(p[k] == old_p[k]);
                } else if k > pos {
                    assert(p[k] == old_p[k - 1]);
                }
            }
            assert forall|k: int, l: int| 0 <= k < l < p.len() implies #[trigger] p[k]
                != #[trigger] p[l] by {
                if k < pos && l < pos {
                    assert(p[k] == old_p[k] && p[l] == old_p[l]);
                } else if k < pos && l == pos {
                    assert(p[k] == old_p[k]);
                } else if k < pos && l > pos {
                    assert(p[k] == old_p[k] && p[l] == old_p[l - 1]);
                } else if k == pos {
                    assert(p[l] == old_p[l - 1]);
                } else {
                    assert(p[k] == old_p[k - 1] && p[l] == old_p[l - 1]);
                }
            }
            assert forall|k: int, l: int| 0 <= k < l < p.len() implies (#[trigger] out@[k]).date
                < (#[trigger] out@[l]).date || (out@[k].date == out@[l].date && p[k] < p[l]) by {
                if k < pos && l < pos {
                    assert(p[k] == old_p[k] && p[l] == old_p[l]);
                    assert(out@[k] == old_out[k] && out@[l] == old_out[l]);
                } else if k < pos && l == pos {
                    assert(p[k] == old_p[k]);
                    assert(out@[k] == old_out[k]);
                } else if k < pos && l > pos {
                    assert(p[k] == old_p[k] && p[l] == old_p[l - 1]);
                    assert(out@[k] == old_out[k] && out@[l] == old_out[l - 1]);
                } else if k == pos {
                    assert(p[l] == old_p[l - 1]);
                    assert(out@[l] == old_out[l - 1]);
                } else {
                    assert(p[k] == old_p[k - 1] && p[l] == old_p[l - 1]);
                    assert(out@[k] == old_out[k - 1] && out@[l] == old_out[l - 1]);
                }
            }
        }
        i = i + 1;
    }
    assert(is_stable_payment_order(out@, inp, p));
    out
}

/// Whether `points` are the chart points of `payments`, one for one: the
/// timestamp in decimal and the amount in display units.
pub open spec fn is_chart_points(
    points: Seq<ChartDataPoint>,
    payments: Seq<ChartPayment>,
    decimals: u32,
) -> bool {
    &&& points.len() == payments.len()
    &&& forall|k: int|
        0 <= k < points.len() ==> (#[trigger] points[k]).date@ == int_text(payments[k].date as int)
            && points[k].value@ == display_units_text(payments[k].amount, decimals)
}

/// The chart points of the payments, in their order.
pub fn to_chart_points(payments: &Vec<ChartPayment>, funds_asset_specs: &FundsAssetSpecs) -> (points:
    Vec<ChartDataPoint>)
    requires
        funds_asset_specs.decimals <= 28,
    ensures
        is_chart_points(points@, payments@, funds_asset_specs.decimals),
{
    let mut points: Vec<ChartDataPoint> = Vec::new();
    let mut i: usize = 0;
    while i < payments.len()
        invariant
            i <= payments.len(),
            funds_asset_specs.decimals <= 28,
            is_chart_points(points@, payments@.subrange(0, i as int), funds_asset_specs.decimals),
        decreases payments.len() - i,
    {
        let payment = payments[i];
        let point = ChartDataPoint {
            date: i64_to_string(payment.date),
            value: base_units_to_display_units_str(payment.amount, funds_asset_specs),
        };
        points.push(point);
        i = i + 1;
        proof {
            let done = payments@.subrange(0, i as int);
            assert forall|k: int| 0 <= k < points@.len() implies (#[trigger] points@[k]).date@
                == int_text(done[k].date as int) && points@[k].value@ == display_units_text(
                done[k].amount,
                funds_asset_specs.decimals,
            ) by {
                if k < i - 1 {
                    assert(done[k] == payments@.subrange(0, i - 1)[k]);
                }
            }
        }
    }
    assert(payments@.subrange(0, payments.len() as int) =~= payments@);
    points
}

fn clone_points(points: &Vec<ChartDataPoint>) -> (c: Vec<ChartDataPoint>)
    ensures
        c@ == points@,
{
    let mut c: Vec<ChartDataPoint> = Vec::new();
    let mut i: usize = 0;
    while i < points.len()
        invariant
            i <= points.len(),
            c@ == points@.subrange(0, i as int),
        decreases points.len() - i,
    {
        let p = ChartDataPoint { date: points[i].date.clone(), value: points[i].value.clone() };
        c.push(p);
        assert(c@ =~= points@.subrange(0, i + 1));
        i = i + 1;
    }
    assert(c@ =~= points@);
    c
}

/// Whether `r` is the chart of the income and spending: each line the
/// points of its payments sorted by date (stably), and the flat list the
/// income points followed by the spending points.
pub open spec fn is_income_vs_spending(
    r: IncomeVsSpendingResJs,
    income: Seq<ChartPayment>,
    spending: Seq<ChartPayment>,
    decimals: u32,
) -> bool {
    &&& exists|sorted_income: Seq<ChartPayment>|
        is_payments_sorted(sorted_income, income) && is_chart_points(
            r.chart_lines.income@,
            sorted_income,
            decimals,
        )
    &&& exists|sorted_spending: Seq<ChartPayment>|
        is_payments_sorted(sorted_spending, spending) && is_chart_points(
            r.chart_lines.spending@,
            sorted_spending,
            decimals,
        )
    &&& r.flat_data_points@ == r.chart_lines.income@ + r.chart_lines.spending@
}

/// The chart of a project's income against its spending.
pub fn income_vs_spending(
    income: &Vec<ChartPayment>,
    spending: &Vec<ChartPayment>,
    funds_asset_specs: &FundsAssetSpecs,
) -> (r: IncomeVsSpendingResJs)
    requires
        funds_asset_specs.decimals <= 28,
    ensures
        is_income_vs_spending(r, income@, spending@, funds_asset_specs.decimals),
{
    let sorted_income = sort_payments_by_date(income);
    let sorted_spending = sort_payments_by_date(spending);
    let income_points = to_chart_points(&sorted_income, funds_asset_specs);
    let spending_points = to_chart_points(&sorted_spending, funds_asset_specs);
    let mut flat = clone_points(&income_points);
    let mut rest = clone_points(&spending_points);
    flat.append(&mut rest);
    IncomeVsSpendingResJs {
        chart_lines: ChartLines { spending: spending_points, income: income_points },
        flat_data_points: flat,
    }
}

} // verus!
