//! The roadmap of a project, as the frontend shows it: the items sorted by
//! date and grouped by the quarter of the year they fall in, each group
//! followed by a header that names its quarter.

use chrono::Datelike;
use vstd::prelude::*;
use crate::dependencies::explorer_url;
use crate::js::explorer_links::{explorer_tx_id_link_env, tx_link};
use crate::number_text::{dec_digits, i32_to_string, i64_to_string, int_text, u32_to_string};
use crate::text::concat_str;

verus! {

/// The year and the month (1 to 12) of a UTC time, given in seconds since
/// the Unix epoch, as `chrono` computes them; `None` for a time out of the
/// range of `chrono::DateTime<Utc>`.
pub uninterp spec fn utc_year_month(timestamp: i64) -> Option<(i32, u32)>;

/// The year and month of a UTC time, with `chrono::DateTime::from_timestamp`
/// and `Datelike::year` and `month`. The contract names the result
/// `utc_year_month`, and states what `chrono` documents of every date: its
/// month is from 1 to 12.
#[verifier::external_body]
pub(crate) fn year_month_of(timestamp: i64) -> (r: Option<(i32, u32)>)
    ensures
        r == utc_year_month(timestamp),
        r.is_some() ==> 1 <= r.unwrap().1 <= 12,
{
    match chrono::DateTime::from_timestamp(timestamp, 0) {
        Some(date) => Some((date.year(), date.month())),
        None => None,
    }
}

/// A quarter of a year.
#[derive(Debug, Clone, Copy, PartialEq, Eq, Structural)]
pub enum Quarter {
    Q1,
    Q2,
    Q3,
    Q4,
}

/// The position of a quarter in the year (1 to 4).
pub open spec fn quarter_number(q: Quarter) -> nat {
    match q {
        Quarter::Q1 => 1,
        Quarter::Q2 => 2,
        Quarter::Q3 => 3,
        Quarter::Q4 => 4,
    }
}

/// The quarter of a month (1 to 12).
pub open spec fn quarter_of_month(month: u32) -> Quarter {
    if month <= 3 {
        Quarter::Q1
    } else if month <= 6 {
        Quarter::Q2
    } else if month <= 9 {
        Quarter::Q3
    } else {
        Quarter::Q4
    }
}

/// The name of a quarter.
pub open spec fn quarter_text(q: Quarter) -> Seq<char> {
    match q {
        Quarter::Q1 => "Q1"@,
        Quarter::Q2 => "Q2"@,
        Quarter::Q3 => "Q3"@,
        Quarter::Q4 => "Q4"@,
    }
}

/// A quarter of a given year.
#[derive(Debug, Clone, Copy, PartialEq, Eq, Structural)]
pub struct YearQuarter {
    pub year: i32,
    pub quarter: Quarter,
}

/// Whether `a` comes before `b`: by year, then by quarter.
pub open spec fn year_quarter_lt(a: YearQuarter, b: YearQuarter) -> bool {
    a.year < b.year || (a.year == b.year && quarter_number(a.quarter) < quarter_number(b.quarter))
}

/// The name of a quarter of a year, such as `Q3 2022`.
pub open spec fn year_quarter_text(yq: YearQuarter) -> Seq<char> {
    quarter_text(yq.quarter) + " "@ + int_text(yq.year as int)
}

impl Quarter {
    /// The name of the quarter (`Q1` to `Q4`).
    pub fn to_string(&self) -> (s: String)
        ensures
            s@ == quarter_text(*self),
    {
        match self {
            Quarter::Q1 => "Q1".to_owned(),
            Quarter::Q2 => "Q2".to_owned(),
            Quarter::Q3 => "Q3".to_owned(),
            Quarter::Q4 => "Q4".to_owned(),
        }
    }
}

impl YearQuarter {
    /// The name of the quarter of the year: the quarter, a space, the year.
    pub fn to_string(&self) -> (s: String)
        ensures
            s@ == year_quarter_text(*self),
    {
        let q = self.quarter.to_string();
        let with_space = concat_str(q.as_str(), " ");
        concat_str(with_space.as_str(), i32_to_string(self.year).as_str())
    }
}

/// Whether `a` comes before `b`.
pub fn year_quarter_lt_exec(a: &YearQuarter, b: &YearQuarter) -> (r: bool)
    ensures
        r == year_quarter_lt(*a, *b),
{
    let qa: u32 = match a.quarter {
        Quarter::Q1 => 1,
        Quarter::Q2 => 2,
        Quarter::Q3 => 3,
        Quarter::Q4 => 4,
    };
    let qb: u32 = match b.quarter {
        Quarter::Q1 => 1,
        Quarter::Q2 => 2,
        Quarter::Q3 => 3,
        Quarter::Q4 => 4,
    };
    a.year < b.year || (a.year == b.year && qa < qb)
}

/// The quarter of a month numbered from 1; other numbers are refused.
pub fn to_quarter(month: u32) -> (r: Result<Quarter, String>)
    ensures
        match r {
            Ok(q) => 1 <= month <= 12 && q == quarter_of_month(month),
            Err(e) => !(1 <= month <= 12) && e@ == "Invalid month number: "@ + dec_digits(
                month as nat,
            ),
        },
{
    if 1 <= month && month <= 3 {
        Ok(Quarter::Q1)
    } else if 4 <= month && month <= 6 {
        Ok(Quarter::Q2)
    } else if 7 <= month && month <= 9 {
        Ok(Quarter::Q3)
    } else if 10 <= month && month <= 12 {
        Ok(Quarter::Q4)
    } else {
        Err(concat_str("Invalid month number: ", u32_to_string(month).as_str()))
    }
}

/// An item of a project's roadmap: the id of the transaction that saved it,
/// its date (in seconds since the Unix epoch, a time that a
/// `chrono::DateTime<Utc>` can hold) and its title.
pub struct SavedRoadmapItem {
    tx_id: String,
    date: i64,
    title: String,
}

impl SavedRoadmapItem {
    #[verifier::type_invariant]
    spec fn date_is_representable(self) -> bool {
        utc_year_month(self.date) is Some
    }

    /// The id of the transaction that saved the item.
    pub closed spec fn tx_id_of(self) -> Seq<char> {
        self.tx_id@
    }

    /// The item's date, in seconds since the Unix epoch.
    pub closed spec fn date_of(self) -> i64 {
        self.date
    }

    /// The item's title.
    pub closed spec fn title_of(self) -> Seq<char> {
        self.title@
    }

    /// An item with the given transaction id, date and title; `None` where
    /// the date is out of the range of `chrono::DateTime<Utc>`.
    pub fn new(tx_id: String, date: i64, title: String) -> (r: Option<SavedRoadmapItem>)
        ensures
            r is Some <==> utc_year_month(date) is Some,
            r matches Some(item) ==> item.tx_id_of() == tx_id@ && item.date_of() == date
                && item.title_of() == title@,
    {
        match year_month_of(date) {
            Some(_) => Some(SavedRoadmapItem { tx_id, date, title }),
            None => None,
        }
    }

    /// The id of the transaction that saved the item.
    pub fn tx_id(&self) -> (s: &String)
        ensures
            s@ == self.tx_id_of(),
    {
        &self.tx_id
    }

    /// The item's date, in seconds since the Unix epoch.
    pub fn date(&self) -> (d: i64)
        ensures
            d == self.date_of(),
    {
        self.date
    }

    /// The item's title.
    pub fn title(&self) -> (s: &String)
        ensures
            s@ == self.title_of(),
    {
        &self.title
    }

    /// The year and month of the item's date.
    pub fn year_month(&self) -> (r: (i32, u32))
        ensures
            utc_year_month(self.date_of()) == Some(r),
            1 <= r.1 <= 12,
    {
        proof {
            use_type_invariant(self);
        }
        match year_month_of(self.date) {
            Some(ym) => ym,
            None => (0, 1),
        }
    }
}

/// The quarter of the year that an item's date falls in.
pub open spec fn item_year_quarter(item: SavedRoadmapItem) -> YearQuarter {
    let ym = utc_year_month(item.date_of()).unwrap();
    YearQuarter { year: ym.0, quarter: quarter_of_month(ym.1) }
}

/// A line of the roadmap as the frontend lists it: an item, or the header
/// of a quarter.
pub enum RoadmapItemView {
    Item(SavedRoadmapItem),
    Header(YearQuarter),
}

/// A line of the roadmap in the form the frontend reads: `item_type` is
/// `"item"` or `"header"`; the transaction id, its link and the date are set
/// for an item only; `text` is an item's title or a header's quarter.
#[derive(Debug, Clone, PartialEq, Eq)]
pub struct RoadmapItemJs {
    pub item_type: String,
    pub tx_id: Option<String>,
    pub tx_link: Option<String>,
    pub date: Option<String>,
    pub text: String,
}

/// The view of an optional text.
pub open spec fn opt_string_view(s: Option<String>) -> Option<Seq<char>> {
    match s {
        Some(s) => Some(s@),
        None => None,
    }
}

/// Whether `js` is the frontend form of the line `view`.
pub open spec fn is_roadmap_item_js(js: RoadmapItemJs, view: RoadmapItemView) -> bool {
    match view {
        RoadmapItemView::Item(item) => {
            &&& js.item_type@ == "item"@
            &&& opt_string_view(js.tx_id) == Some(item.tx_id_of())
            &&& opt_string_view(js.tx_link) == Some(tx_link(explorer_url(), item.tx_id_of()))
            &&& opt_string_view(js.date) == Some(int_text(item.date_of() as int))
            &&& js.text@ == item.title_of()
        },
        RoadmapItemView::Header(yq) => {
            &&& js.item_type@ == "header"@
            &&& js.tx_id is None
            &&& js.tx_link is None
            &&& js.date is None
            &&& js.text@ == year_quarter_text(yq)
        },
    }
}

/// The frontend form of a line of the roadmap.
pub fn to_js_item(item: RoadmapItemView) -> (js: RoadmapItemJs)
    ensures
        is_roadmap_item_js(js, item),
{
    match item {
        RoadmapItemView::Item(item) => {
            let tx_id = item.tx_id().clone();
            let tx_link = explorer_tx_id_link_env(item.tx_id().as_str());
            let date = i64_to_string(item.date());
            let text = item.title().clone();
            RoadmapItemJs {
                item_type: "item".to_owned(),
                tx_id: Some(tx_id),
                tx_link: Some(tx_link),
                date: Some(date),
                text,
            }
        },
        RoadmapItemView::Header(year_quarter) => RoadmapItemJs {
            item_type: "header".to_owned(),
            tx_id: None,
            tx_link: None,
            date: None,
            text: year_quarter.to_string(),
        },
    }
}

/// Whether `out` is `inp` sorted by date, items of the same date in the
/// order they had (`p[k]` is the position in `inp` of `out[k]`).
pub open spec fn is_stable_date_order(
    out: Seq<SavedRoadmapItem>,
    inp: Seq<SavedRoadmapItem>,
    p: Seq<int>,
) -> bool {
    &&& out.len() == inp.len()
    &&& p.len() == out.len()
    &&& forall|k: int| 0 <= k < p.len() ==> 0 <= #[trigger] p[k] < inp.len() && out[k] == inp[p[k]]
    &&& forall|k: int, l: int| 0 <= k < l < p.len() ==> #[trigger] p[k] != #[trigger] p[l]
    &&& forall|k: int, l: int|
        0 <= k < l < p.len() ==> (#[trigger] out[k]).date_of() < (#[trigger] out[l]).date_of() || (
        out[k].date_of() == out[l].date_of() && p[k] < p[l])
}

/// Whether `out` is `inp` sorted by date with a stable sort (what
/// `sort_by` on the dates gives).
pub open spec fn is_sorted_by_date(out: Seq<SavedRoadmapItem>, inp: Seq<SavedRoadmapItem>) -> bool {
    exists|p: Seq<int>| is_stable_date_order(out, inp, p)
}

/// Sorts the items by date, ascending; items of the same date keep their
/// order.
pub fn sort_by_date(items: Vec<SavedRoadmapItem>) -> (sorted: Vec<SavedRoadmapItem>)
    ensures
        is_sorted_by_date(sorted@, items@),
{
    let ghost inp = items@;
    let n = items.len();
    let mut rest = items;
    let mut out: Vec<SavedRoadmapItem> = Vec::new();
    let ghost mut p: Seq<int> = Seq::empty();
    let mut i: usize = 0;
    while i < n
        invariant
            n == inp.len(),
            i <= n,
            rest@ == inp.subrange(i as int, n as int),
            out@.len() == i,
            p.len() == i,
            forall|k: int| 0 <= k < p.len() ==> 0 <= #[trigger] p[k] < i && out@[k] == inp[p[k]],
            forall|k: int, l: int| 0 <= k < l < p.len() ==> #[trigger] p[k] != #[trigger] p[l],
            forall|k: int, l: int|
                0 <= k < l < p.len() ==> (#[trigger] out@[k]).date_of() < (
                #[trigger] out@[l]).date_of() || (out@[k].date_of() == out@[l].date_of() && p[k]
                < p[l]),
        decreases n - i,
    {
        let item = rest.remove(0);
        assert(item == inp[i as int]);
        assert(rest@ =~= inp.subrange(i + 1, n as int));
        let d = item.date();
        let mut pos: usize = 0;
        while pos < out.len() && out[pos].date() <= d
            invariant
                pos <= out@.len(),
                forall|k: int| 0 <= k < pos ==> (#[trigger] out@[k]).date_of() <= d,
            decreases out@.len() - pos,
        {
            pos = pos + 1;
        }
        let ghost old_out = out@;
        let ghost old_p = p;
        proof {
            assert forall|k: int| pos <= k < old_out.len() implies (#[trigger] old_out[k]).date_of()
                > d by {
                if k > pos {
                    assert(old_out[pos as int].date_of() <= old_out[k].date_of());
                }
            }
            p = p.insert(pos as int, i as int);
        }
        out.insert(pos, item);
        proof {
            assert(out@ == old_out.insert(pos as int, item));
            assert forall|k: int| 0 <= k < p.len() implies 0 <= #[trigger] p[k] < i + 1 && out@[k]
                == inp[p[k]] by {
                if k < pos {
                    assert(p[k] == old_p[k]);
                } else if k > pos {
                    assert(p[k] == old_p[k - 1]);
                }
            }
            assert forall|k: int, l: int| 0 <= k < l < p.len() implies #[trigger] p[k]
                != #[trigger] p[l] by {
                if k < pos && l < pos {
                    assert(p[k] == old_p[k] && p[l] == old_p[l]);
                } else if k < pos && l == pos {
                    assert(p[k] == old_p[k]);
                } else if k < pos && l > pos {
                    assert(p[k] == old_p[k] && p[l] == old_p[l - 1]);
                } else if k == pos {
                    assert(p[l] == old_p[l - 1]);
                } else {
                    assert(p[k] == old_p[k - 1] && p[l] == old_p[l - 1]);
                }
            }
            assert forall|k: int, l: int| 0 <= k < l < p.len() implies (#[trigger] out@[k]).date_of()
                < (#[trigger] out@[l]).date_of() || (out@[k].date_of() == out@[l].date_of() && p[k]
                < p[l]) by {
                if k < pos && l < pos {
                    assert(p[k] == old_p[k] && p[l] == old_p[l]);
                    assert(out@[k] == old_out[k] && out@[l] == old_out[l]);
                } else if k < pos && l == pos {
                    assert(p[k] == old_p[k]);
                    assert(out@[k] == old_out[k]);
                } else if k < pos && l > pos {
                    assert(p[k] == old_p[k] && p[l] == old_p[l - 1]);
                    assert(out@[k] == old_out[k] && out@[l] == old_out[l - 1]);
                } else if k == pos {
                    assert(p[l] == old_p[l - 1]);
                    assert(out@[l] == old_out[l - 1]);
                } else {
                    assert(p[k] == old_p[k - 1] && p[l] == old_p[l - 1]);
                    assert(out@[k] == old_out[k - 1] && out@[l] == old_out[l - 1]);
                }
            }
        }
        i = i + 1;
    }
    assert(is_stable_date_order(out@, inp, p));
    out
}

/// The items of one quarter of a year.
pub struct QuarterGroup {
    pub year_quarter: YearQuarter,
    pub items: Vec<SavedRoadmapItem>,
}

/// Whether an item's date falls in the quarter `yq`.
pub open spec fn in_quarter(yq: YearQuarter) -> spec_fn(SavedRoadmapItem) -> bool {
    |item: SavedRoadmapItem| item_year_quarter(item) == yq
}

/// Whether `groups` groups `items` by quarter, as an ordered map from the
/// quarter to its items does: one group for each quarter that some item
/// falls in, in ascending order of the quarters; each group holds the items
/// of its quarter, in the order they have in `items`.
pub open spec fn is_grouping(groups: Seq<QuarterGroup>, items: Seq<SavedRoadmapItem>) -> bool {
    &&& forall|g: int, h: int|
        0 <= g < h < groups.len() ==> year_quarter_lt(
            (#[trigger] groups[g]).year_quarter,
            (#[trigger] groups[h]).year_quarter,
        )
    &&& forall|g: int|
        0 <= g < groups.len() ==> (#[trigger] groups[g]).items@ == items.filter(
            in_quarter(groups[g].year_quarter),
        ) && groups[g].items@.len() > 0
    &&& forall|k: int|
        0 <= k < items.len() ==> exists|g: int|
            0 <= g < groups.len() && (#[trigger] groups[g]).year_quarter == item_year_quarter(
                #[trigger] items[k],
            )
}

/// The quarter of the year that an item's date falls in.
pub fn year_quarter_of(item: &SavedRoadmapItem) -> (r: Result<YearQuarter, String>)
    ensures
        r matches Ok(yq) && yq == item_year_quarter(*item),
{
    let (year, month) = item.year_month();
    match to_quarter(month) {
        Ok(quarter) => Ok(YearQuarter { year, quarter }),
        Err(e) => Err(e),
    }
}

proof fn lemma_filter_push(s: Seq<SavedRoadmapItem>, x: SavedRoadmapItem, pred: spec_fn(SavedRoadmapItem) -> bool)
    ensures
        s.push(x).filter(pred) == if pred(x) {
            s.filter(pred).push(x)
        } else {
            s.filter(pred)
        },
{
    reveal(Seq::filter);
    assert(s.push(x).drop_last() =~= s);
}

/// Groups the items by the quarter of the year that their date falls in.
/// The groups are in ascending order of the quarters; each holds its items
/// in the order they are given.
pub fn group_by_time_range(items: Vec<SavedRoadmapItem>) -> (r: Result<Vec<QuarterGroup>, String>)
    ensures
        r matches Ok(groups) && is_grouping(groups@, items@),
{
    let ghost inp = items@;
    let n = items.len();
    let mut rest = items;
    let mut groups: Vec<QuarterGroup> = Vec::new();
    let mut i: usize = 0;
    proof {
        assert(inp.subrange(0, 0) =~= Seq::<SavedRoadmapItem>::empty());
        reveal(Seq::filter);
    }
    while i < n
        invariant
            n == inp.len(),
            i <= n,
            rest@ == inp.subrange(i as int, n as int),
            is_grouping(groups@, inp.subrange(0, i as int)),
        decreases n - i,
    {
        let item = rest.remove(0);
        assert(item == inp[i as int]);
        assert(rest@ =~= inp.subrange(i + 1, n as int));
        let ghost prefix = inp.subrange(0, i as int);
        assert(inp.subrange(0, i + 1) =~= prefix.push(item));
        let key = match year_quarter_of(&item) {
            Ok(k) => k,
            Err(e) => {
                return Err(e);
            },
        };
        let mut pos: usize = 0;
        while pos < groups.len() && year_quarter_lt_exec(&groups[pos].year_quarter, &key)
            invariant
                pos <= groups@.len(),
                forall|g: int| 0 <= g < pos ==> year_quarter_lt((#[trigger] groups@[g]).year_quarter, key),
            decreases groups@.len() - pos,
        {
            pos = pos + 1;
        }
        let ghost old_groups = groups@;
        proof {
            assert forall|g: int| pos < g < old_groups.len() implies year_quarter_lt(
                key,
                (#[trigger] old_groups[g]).year_quarter,
            ) by {
                assert(year_quarter_lt(old_groups[pos as int].year_quarter, old_groups[g].year_quarter));
            }
            assert forall|g: int| 0 <= g < old_groups.len() implies (#[trigger] old_groups[g]).items@.push(item).len() > 0 by {}
        }
        if pos < groups.len() && groups[pos].year_quarter == key {
            let mut group = groups.remove(pos);
            group.items.push(item);
            groups.insert(pos, group);
            proof {
                let new_prefix = prefix.push(item);
                assert forall|g: int| 0 <= g < groups@.len() implies (#[trigger] groups@[g]).items@
                    == new_prefix.filter(in_quarter(groups@[g].year_quarter)) && groups@[g].items@.len() > 0 by {
                    lemma_filter_push(prefix, item, in_quarter(groups@[g].year_quarter));
                    if g != pos {
                        assert(groups@[g] == old_groups[g]);
                    }
                }
                assert forall|k: int| 0 <= k < new_prefix.len() implies exists|g: int|
                    0 <= g < groups@.len() && (#[trigger] groups@[g]).year_quarter
                        == item_year_quarter(#[trigger] new_prefix[k]) by {
                    if k < prefix.len() {
                        assert(new_prefix[k] == prefix[k]);
                        let g = choose|g: int|
                            0 <= g < old_groups.len() && (#[trigger] old_groups[g]).year_quarter
                                == item_year_quarter(#[trigger] prefix[k]);
                        assert(groups@[g].year_quarter == old_groups[g].year_quarter);
                    } else {
                        assert(groups@[pos as int].year_quarter == key);
                    }
                }
                assert forall|g: int, h: int| 0 <= g < h < groups@.len() implies year_quarter_lt(
                    (#[trigger] groups@[g]).year_quarter,
                    (#[trigger] groups@[h]).year_quarter,
                ) by {
                    assert(groups@[g].year_quarter == old_groups[g].year_quarter);
                    assert(groups@[h].year_quarter == old_groups[h].year_quarter);
                }
            }
        } else {
            let mut new_items: Vec<SavedRoadmapItem> = Vec::new();
            new_items.push(item);
            groups.insert(pos, QuarterGroup { year_quarter: key, items: new_items });
            proof {
                let new_prefix = prefix.push(item);
                assert forall|g: int| 0 <= g < groups@.len() implies (#[trigger] groups@[g]).items@
                    == new_prefix.filter(in_quarter(groups@[g].year_quarter)) && groups@[g].items@.len() > 0 by {
                    lemma_filter_push(prefix, item, in_quarter(groups@[g].year_quarter));
                    if g < pos {
                        assert(groups@[g] == old_groups[g]);
                    } else if g > pos {
                        assert(groups@[g] == old_groups[g - 1]);
                    } else {
                        assert forall|k: int| 0 <= k < prefix.len() implies item_year_quarter(
                            #[trigger] prefix[k],
                        ) != key by {
                            let h = choose|h: int|
                                0 <= h < old_groups.len() && (#[trigger] old_groups[h]).year_quarter
                                    == item_year_quarter(#[trigger] prefix[k]);
                            if h < pos {
                                assert(year_quarter_lt(old_groups[h].year_quarter, key));
                            } else if h > pos {
                                assert(year_quarter_lt(key, old_groups[h].year_quarter));
                            }
                        }
                        lemma_filter_none(prefix, key);
                    }
                }
                assert forall|k: int| 0 <= k < new_prefix.len() implies exists|g: int|
                    0 <= g < groups@.len() && (#[trigger] groups@[g]).year_quarter
                        == item_year_quarter(#[trigger] new_prefix[k]) by {
                    if k < prefix.len() {
                        assert(new_prefix[k] == prefix[k]);
                        let g = choose|g: int|
                            0 <= g < old_groups.len() && (#[trigger] old_groups[g]).year_quarter
                                == item_year_quarter(#[trigger] prefix[k]);
                        if g < pos {
                            assert(groups@[g] == old_groups[g]);
                        } else {
                            assert(groups@[g + 1] == old_groups[g]);
                        }
                    } else {
                        assert(groups@[pos as int].year_quarter == key);
                    }
                }
                assert forall|g: int, h: int| 0 <= g < h < groups@.len() implies year_quarter_lt(
                    (#[trigger] groups@[g]).year_quarter,
                    (#[trigger] groups@[h]).year_quarter,
                ) by {
                    if h < pos {
                        assert(groups@[g] == old_groups[g] && groups@[h] == old_groups[h]);
                    } else if h == pos {
                        assert(groups@[g] == old_groups[g]);
                    } else if g < pos {
                        assert(groups@[g] == old_groups[g] && groups@[h] == old_groups[h - 1]);
                    } else if g == pos {
                        assert(groups@[h] == old_groups[h - 1]);
                    } else {
                        assert(groups@[g] == old_groups[g - 1] && groups@[h] == old_groups[h - 1]);
                    }
                }
            }
        }
        i = i + 1;
    }
    assert(inp.subrange(0, n as int) =~= inp);
    Ok(groups)
}

proof fn lemma_filter_none(s: Seq<SavedRoadmapItem>, yq: YearQuarter)
    requires
        forall|k: int| 0 <= k < s.len() ==> item_year_quarter(#[trigger] s[k]) != yq,
    ensures
        s.filter(in_quarter(yq)) =~= Seq::<SavedRoadmapItem>::empty(),
    decreases s.len(),
{
    reveal(Seq::filter);
    if s.len() > 0 {
        lemma_filter_none(s.drop_last(), yq);
    }
}

/// The lines of one group: its items, then its header.
pub open spec fn group_lines(group: QuarterGroup) -> Seq<RoadmapItemView> {
    group.items@.map_values(|item: SavedRoadmapItem| RoadmapItemView::Item(item)) + seq![
        RoadmapItemView::Header(group.year_quarter),
    ]
}

/// The lines of all groups, in order: each group's items, then its header.
pub open spec fn flat_lines(groups: Seq<QuarterGroup>) -> Seq<RoadmapItemView>
    decreases groups.len(),
{
    if groups.len() == 0 {
        Seq::empty()
    } else {
        flat_lines(groups.drop_last()) + group_lines(groups.last())
    }
}

/// The lines of the roadmap: for each quarter, in order, its items and then
/// its header (the header comes last for the frontend's layout).
pub fn to_flat_roadmap_items(grouped_items: Vec<QuarterGroup>) -> (lines: Vec<RoadmapItemView>)
    ensures
        lines@ == flat_lines(grouped_items@),
{
    let ghost groups = grouped_items@;
    let n = grouped_items.len();
    let mut rest = grouped_items;
    let mut flat_items: Vec<RoadmapItemView> = Vec::new();
    let mut g: usize = 0;
    proof {
        assert(groups.subrange(0, 0) =~= Seq::<QuarterGroup>::empty());
    }
    while g < n
        invariant
            n == groups.len(),
            g <= n,
            rest@ == groups.subrange(g as int, n as int),
            flat_items@ == flat_lines(groups.subrange(0, g as int)),
        decreases n - g,
    {
        let group = rest.remove(0);
        assert(group == groups[g as int]);
        assert(rest@ =~= groups.subrange(g + 1, n as int));
        let ghost before = flat_items@;
        let ghost group_items = group.items@;
        let year_quarter = group.year_quarter;
        let mut items = group.items;
        let m = items.len();
        let mut k: usize = 0;
        while k < m
            invariant
                m == group_items.len(),
                k <= m,
                items@ == group_items.subrange(k as int, m as int),
                flat_items@ == before + group_items.subrange(0, k as int).map_values(
                    |item: SavedRoadmapItem| RoadmapItemView::Item(item),
                ),
            decreases m - k,
        {
            let item = items.remove(0);
            assert(item == group_items[k as int]);
            assert(items@ =~= group_items.subrange(k + 1, m as int));
            flat_items.push(RoadmapItemView::Item(item));
            assert(flat_items@ =~= before + group_items.subrange(0, k + 1).map_values(
                |item: SavedRoadmapItem| RoadmapItemView::Item(item),
            ));
            k = k + 1;
        }
        flat_items.push(RoadmapItemView::Header(year_quarter));
        proof {
            assert(group_items.subrange(0, m as int) =~= group_items);
            let gs = groups.subrange(0, g + 1);
            assert(gs.drop_last() =~= groups.subrange(0, g as int));
            assert(gs.last() == groups[g as int]);
            assert(flat_items@ =~= flat_lines(gs));
        }
        g = g + 1;
    }
    assert(groups.subrange(0, n as int) =~= groups);
    flat_items
}

/// The frontend form of the lines of the roadmap, in order.
pub fn to_js_items(items: Vec<RoadmapItemView>) -> (js: Vec<RoadmapItemJs>)
    ensures
        js@.len() == items@.len(),
        forall|k: int| 0 <= k < items@.len() ==> is_roadmap_item_js(#[trigger] js@[k], items@[k]),
{
    let ghost inp = items@;
    let n = items.len();
    let mut rest = items;
    let mut out: Vec<RoadmapItemJs> = Vec::new();
    let mut i: usize = 0;
    while i < n
        invariant
            n == inp.len(),
            i <= n,
            rest@ == inp.subrange(i as int, n as int),
            out@.len() == i,
            forall|k: int| 0 <= k < i ==> is_roadmap_item_js(#[trigger] out@[k], inp[k]),
        decreases n - i,
    {
        let item = rest.remove(0);
        assert(item == inp[i as int]);
        assert(rest@ =~= inp.subrange(i + 1, n as int));
        out.push(to_js_item(item));
        i = i + 1;
    }
    out
}

/// What the frontend is shown of a project's roadmap: its items sorted by
/// date, grouped by quarter, each group followed by its header.
pub open spec fn is_roadmap_js(js: Seq<RoadmapItemJs>, items: Seq<SavedRoadmapItem>) -> bool {
    exists|sorted: Seq<SavedRoadmapItem>, groups: Seq<QuarterGroup>|
        {
            &&& is_sorted_by_date(sorted, items)
            &&& is_grouping(groups, sorted)
            &&& js.len() == flat_lines(groups).len()
            &&& forall|k: int|
                0 <= k < js.len() ==> is_roadmap_item_js(#[trigger] js[k], flat_lines(groups)[k])
        }
}

/// The roadmap lines to show for a project's items: sorted by date,
/// grouped by quarter, flattened with a header after each quarter, in the
/// form the frontend reads.
pub fn roadmap_items_js(items: Vec<SavedRoadmapItem>) -> (r: Result<Vec<RoadmapItemJs>, String>)
    ensures
        r matches Ok(js) && is_roadmap_js(js@, items@),
{
    let ghost inp = items@;
    let sorted = sort_by_date(items);
    let ghost sorted_view = sorted@;
    let grouped = match group_by_time_range(sorted) {
        Ok(g) => g,
        Err(e) => {
            return Err(e);
        },
    };
    let ghost groups_view = grouped@;
    let all_and_flat_items = to_flat_roadmap_items(grouped);
    let js = to_js_items(all_and_flat_items);
    assert(is_sorted_by_date(sorted_view, inp) && is_grouping(groups_view, sorted_view));
    Ok(js)
}

/// The total number of items of the groups.
pub open spec fn group_item_count(groups: Seq<QuarterGroup>) -> nat
    decreases groups.len(),
{
    if groups.len() == 0 {
        0
    } else {
        group_item_count(groups.drop_last()) + groups.last().items@.len()
    }
}

/// The number of items of `items` in the quarter of each group, summed
/// over the groups.
spec fn quarter_filter_count(groups: Seq<QuarterGroup>, items: Seq<SavedRoadmapItem>) -> nat
    decreases groups.len(),
{
    if groups.len() == 0 {
        0
    } else {
        quarter_filter_count(groups.drop_last(), items) + items.filter(
            in_quarter(groups.last().year_quarter),
        ).len()
    }
}

/// The number of groups of the quarter `yq`.
spec fn quarter_group_count(groups: Seq<QuarterGroup>, yq: YearQuarter) -> nat
    decreases groups.len(),
{
    if groups.len() == 0 {
        0
    } else {
        quarter_group_count(groups.drop_last(), yq) + if groups.last().year_quarter == yq {
            1nat
        } else {
            0nat
        }
    }
}

proof fn lemma_flat_lines_len(groups: Seq<QuarterGroup>)
    ensures
        flat_lines(groups).len() == group_item_count(groups) + groups.len(),
    decreases groups.len(),
{
    if groups.len() > 0 {
        lemma_flat_lines_len(groups.drop_last());
    }
}

proof fn lemma_quarter_filter_count_empty(groups: Seq<QuarterGroup>)
    ensures
        quarter_filter_count(groups, Seq::empty()) == 0,
    decreases groups.len(),
{
    reveal(Seq::filter);
    if groups.len() > 0 {
        lemma_quarter_filter_count_empty(groups.drop_last());
        assert(Seq::<SavedRoadmapItem>::empty().filter(in_quarter(groups.last().year_quarter))
            =~= Seq::<SavedRoadmapItem>::empty());
    }
}

proof fn lemma_quarter_filter_count_push(
    groups: Seq<QuarterGroup>,
    items: Seq<SavedRoadmapItem>,
    x: SavedRoadmapItem,
)
    ensures
        quarter_filter_count(groups, items.push(x)) == quarter_filter_count(groups, items)
            + quarter_group_count(groups, item_year_quarter(x)),
    decreases groups.len(),
{
    if groups.len() > 0 {
        lemma_quarter_filter_count_push(groups.drop_last(), items, x);
        lemma_filter_push(items, x, in_quarter(groups.last().year_quarter));
    }
}

proof fn lemma_quarter_group_count_absent(groups: Seq<QuarterGroup>, yq: YearQuarter)
    requires
        forall|g: int| 0 <= g < groups.len() ==> (#[trigger] groups[g]).year_quarter != yq,
    ensures
        quarter_group_count(groups, yq) == 0,
    decreases groups.len(),
{
    if groups.len() > 0 {
        let init = groups.drop_last();
        assert forall|g: int| 0 <= g < init.len() implies (#[trigger] init[g]).year_quarter
            != yq by {
            assert(init[g] == groups[g]);
        }
        lemma_quarter_group_count_absent(init, yq);
        assert(groups.last() == groups[groups.len() - 1]);
    }
}

proof fn lemma_quarter_group_count_one(groups: Seq<QuarterGroup>, yq: YearQuarter, h: int)
    requires
        forall|g: int, k: int|
            0 <= g < k < groups.len() ==> year_quarter_lt(
                (#[trigger] groups[g]).year_quarter,
                (#[trigger] groups[k]).year_quarter,
            ),
        0 <= h < groups.len(),
        groups[h].year_quarter == yq,
    ensures
        quarter_group_count(groups, yq) == 1,
    decreases groups.len(),
{
    let init = groups.drop_last();
    let n = groups.len() - 1;
    assert(groups.last() == groups[n]);
    assert forall|g: int, k: int| 0 <= g < k < init.len() implies year_quarter_lt(
        (#[trigger] init[g]).year_quarter,
        (#[trigger] init[k]).year_quarter,
    ) by {
        assert(init[g] == groups[g] && init[k] == groups[k]);
    }
    if h == n {
        assert forall|g: int| 0 <= g < init.len() implies (#[trigger] init[g]).year_quarter
            != yq by {
            assert(init[g] == groups[g]);
            assert(year_quarter_lt(groups[g].year_quarter, groups[n].year_quarter));
        }
        lemma_quarter_group_count_absent(init, yq);
    } else {
        assert(init[h] == groups[h]);
        lemma_quarter_group_count_one(init, yq, h);
        assert(year_quarter_lt(groups[h].year_quarter, groups[n].year_quarter));
    }
}

proof fn lemma_quarter_filter_count_all(groups: Seq<QuarterGroup>, items: Seq<SavedRoadmapItem>)
    requires
        forall|g: int, k: int|
            0 <= g < k < groups.len() ==> year_quarter_lt(
                (#[trigger] groups[g]).year_quarter,
                (#[trigger] groups[k]).year_quarter,
            ),
        forall|k: int|
            0 <= k < items.len() ==> exists|g: int|
                0 <= g < groups.len() && (#[trigger] groups[g]).year_quarter == item_year_quarter(
                    #[trigger] items[k],
                ),
    ensures
        quarter_filter_count(groups, items) == items.len(),
    decreases items.len(),
{
    if items.len() == 0 {
        assert(items =~= Seq::<SavedRoadmapItem>::empty());
        lemma_quarter_filter_count_empty(groups);
    } else {
        let init = items.drop_last();
        let x = items.last();
        assert forall|k: int| 0 <= k < init.len() implies exists|g: int|
            0 <= g < groups.len() && (#[trigger] groups[g]).year_quarter == item_year_quarter(
                #[trigger] init[k],
            ) by {
            assert(init[k] == items[k]);
        }
        lemma_quarter_filter_count_all(groups, init);
        assert(items == init.push(x));
        lemma_quarter_filter_count_push(groups, init, x);
        assert(x == items[items.len() - 1]);
        let h = choose|g: int|
            0 <= g < groups.len() && (#[trigger] groups[g]).year_quarter == item_year_quarter(
                items[items.len() - 1],
            );
        lemma_quarter_group_count_one(groups, item_year_quarter(x), h);
    }
}

proof fn lemma_group_item_count_filters(groups: Seq<QuarterGroup>, items: Seq<SavedRoadmapItem>)
    requires
        forall|g: int|
            0 <= g < groups.len() ==> (#[trigger] groups[g]).items@ == items.filter(
                in_quarter(groups[g].year_quarter),
            ),
    ensures
        group_item_count(groups) == quarter_filter_count(groups, items),
    decreases groups.len(),
{
    if groups.len() > 0 {
        let init = groups.drop_last();
        assert forall|g: int| 0 <= g < init.len() implies (#[trigger] init[g]).items@
            == items.filter(in_quarter(init[g].year_quarter)) by {
            assert(init[g] == groups[g]);
        }
        lemma_group_item_count_filters(init, items);
        assert(groups.last() == groups[groups.len() - 1]);
    }
}

proof fn lemma_group_item_count_at_least_groups(groups: Seq<QuarterGroup>)
    requires
        forall|g: int| 0 <= g < groups.len() ==> (#[trigger] groups[g]).items@.len() > 0,
    ensures
        groups.len() <= group_item_count(groups),
    decreases groups.len(),
{
    if groups.len() > 0 {
        let init = groups.drop_last();
        assert forall|g: int| 0 <= g < init.len() implies (#[trigger] init[g]).items@.len() > 0 by {
            assert(init[g] == groups[g]);
        }
        lemma_group_item_count_at_least_groups(init);
        assert(groups.last() == groups[groups.len() - 1]);
    }
}

/// The roadmap shows every item once and one header per quarter: the lines
/// of a grouping of items are as many as the items and the groups together;
/// and there are never more quarters than items.
pub proof fn law_roadmap_lines_count(groups: Seq<QuarterGroup>, items: Seq<SavedRoadmapItem>)
    requires
        is_grouping(groups, items),
    ensures
        flat_lines(groups).len() == items.len() + groups.len(),
        groups.len() <= items.len(),
{
    lemma_flat_lines_len(groups);
    lemma_group_item_count_filters(groups, items);
    lemma_quarter_filter_count_all(groups, items);
    lemma_group_item_count_at_least_groups(groups);
}

/// The quarter of month `m` (1 to 12) is the `((m - 1) / 3 + 1)`-th:
/// January to March the first, April to June the second, July to September
/// the third, October to December the fourth.
pub proof fn law_quarter_of_month(month: u32)
    requires
        1 <= month <= 12,
    ensures
        quarter_number(quarter_of_month(month)) == (month - 1) / 3 + 1,
{
}

} // verus!
