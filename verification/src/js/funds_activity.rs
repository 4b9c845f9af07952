//! The funds activity of a project: its income and spending entries, newest
//! first, as the frontend lists them.

use vstd::prelude::*;
use crate::decimal::{algos_text, microalgos_to_algos_str};
use crate::dependencies::explorer_url;
use crate::js::explorer_links::{explorer_tx_id_link_env, tx_link};
use crate::js::load_roadmap::{utc_year_month, year_month_of};

verus! {

/// The RFC 2822 text of a UTC time given in seconds since the Unix epoch,
/// as `chrono` writes it (such as `Tue, 1 Jul 2003 10:52:37 +0000`).
pub uninterp spec fn utc_rfc2822(timestamp: i64) -> Seq<char>;

/// Whether `chrono` can write the time in RFC 2822: it is in the range of a
/// `chrono::DateTime<Utc>`, and its year is from 0 to 9999 (`to_rfc2822`
/// panics otherwise).
pub open spec fn rfc2822_writable(timestamp: i64) -> bool {
    utc_year_month(timestamp) matches Some(ym) && 0 <= ym.0 <= 9999
}

/// Writes a UTC time in RFC 2822 with `chrono::DateTime::from_timestamp`
/// and `to_rfc2822`. The contract names the text `utc_rfc2822`; it requires
/// what keeps `to_rfc2822` from panicking.
#[verifier::external_body]
fn rfc2822_of(timestamp: i64) -> (s: String)
    requires
        rfc2822_writable(timestamp),
    ensures
        s@ == utc_rfc2822(timestamp),
{
    match chrono::DateTime::from_timestamp(timestamp, 0) {
        Some(date) => date.to_rfc2822(),
        None => String::new(),
    }
}

/// Whether an entry is income or spending.
#[derive(Debug, Clone, Copy, PartialEq, Eq)]
pub enum FundsActivityEntryType {
    Income,
    Spending,
}

/// An entry of a project's funds activity: its amount (in microalgos), its
/// kind, its description, its date (seconds since the Unix epoch, a time
/// that RFC 2822 can write) and the id of its transaction.
pub struct FundsActivityEntry {
    amount: u64,
    type_: FundsActivityEntryType,
    description: String,
    date: i64,
    tx_id: String,
}

impl FundsActivityEntry {
    #[verifier::type_invariant]
    spec fn date_is_writable(self) -> bool {
        rfc2822_writable(self.date)
    }

    pub closed spec fn amount_of(self) -> u64 {
        self.amount
    }

    pub closed spec fn type_of(self) -> FundsActivityEntryType {
        self.type_
    }

    pub closed spec fn description_of(self) -> Seq<char> {
        self.description@
    }

    pub closed spec fn date_of(self) -> i64 {
        self.date
    }

    pub closed spec fn tx_id_of(self) -> Seq<char> {
        self.tx_id@
    }

    /// An entry with the given values; `None` where the date cannot be
    /// written in RFC 2822.
    pub fn new(
        amount: u64,
        type_: FundsActivityEntryType,
        description: String,
        date: i64,
        tx_id: String,
    ) -> (r: Option<FundsActivityEntry>)
        ensures
            r is Some <==> rfc2822_writable(date),
            r matches Some(e) ==> e.amount_of() == amount && e.type_of() == type_
                && e.description_of() == description@ && e.date_of() == date && e.tx_id_of()
                == tx_id@,
    {
        match year_month_of(date) {
            Some(ym) => {
                if 0 <= ym.0 && ym.0 <= 9999 {
                    Some(FundsActivityEntry { amount, type_, description, date, tx_id })
                } else {
                    None
                }
            },
            None => None,
        }
    }

    /// The entry's date, in seconds since the Unix epoch.
    pub fn date(&self) -> (d: i64)
        ensures
            d == self.date_of(),
    {
        self.date
    }
}

/// An entry as the frontend lists it.
#[derive(Debug, Clone, PartialEq, Eq)]
pub struct FundsActivityViewData {
    pub amount: String,
    /// `"true"` for income, `"false"` for spending.
    pub is_income: String,
    pub description: String,
    pub date: String,
    pub tx_id: String,
    pub tx_link: String,
}

/// Whether `v` is the frontend form of the entry `e`: the amount in algos
/// (microalgos with 6 decimals), the kind as `true` or `false`, the date in
/// RFC 2822, the transaction id and its explorer link.
pub open spec fn is_view_data(v: FundsActivityViewData, e: FundsActivityEntry) -> bool {
    &&& v.amount@ == algos_text(e.amount_of())
    &&& v.is_income@ == (if e.type_of() == FundsActivityEntryType::Income {
        "true"@
    } else {
        "false"@
    })
    &&& v.description@ == e.description_of()
    &&& v.date@ == utc_rfc2822(e.date_of())
    &&& v.tx_id@ == e.tx_id_of()
    &&& v.tx_link@ == tx_link(explorer_url(), e.tx_id_of())
}

/// The frontend form of an entry.
pub fn to_view_data(entry: FundsActivityEntry) -> (v: FundsActivityViewData)
    ensures
        is_view_data(v, entry),
{
    proof {
        use_type_invariant(&entry);
    }
    let amount = microalgos_to_algos_str(entry.amount);
    let is_income = match entry.type_ {
        FundsActivityEntryType::Income => "true".to_owned(),
        FundsActivityEntryType::Spending => "false".to_owned(),
    };
    let date = rfc2822_of(entry.date);
    let tx_link = explorer_tx_id_link_env(entry.tx_id.as_str());
    FundsActivityViewData {
        amount,
        is_income,
        description: entry.description,
        date,
        tx_id: entry.tx_id,
        tx_link,
    }
}

/// Whether `out` is `inp` sorted by date, newest first, entries of the same
/// date in the order they had (`p[k]` is the position in `inp` of `out[k]`).
pub open spec fn is_stable_newest_first(
    out: Seq<FundsActivityEntry>,
    inp: Seq<FundsActivityEntry>,
    p: Seq<int>,
) -> bool {
    &&& out.len() == inp.len()
    &&& p.len() == out.len()
    &&& forall|k: int| 0 <= k < p.len() ==> 0 <= #[trigger] p[k] < inp.len() && out[k] == inp[p[k]]
    &&& forall|k: int, l: int| 0 <= k < l < p.len() ==> #[trigger] p[k] != #[trigger] p[l]
    &&& forall|k: int, l: int|
        0 <= k < l < p.len() ==> (#[trigger] out[k]).date_of() > (#[trigger] out[l]).date_of() || (
        out[k].date_of() == out[l].date_of() && p[k] < p[l])
}

/// Whether `out` is `inp` sorted newest first with a stable sort.
pub open spec fn is_sorted_newest_first(out: Seq<FundsActivityEntry>, inp: Seq<FundsActivityEntry>) -> bool {
    exists|p: Seq<int>| is_stable_newest_first(out, inp, p)
}

/// Sorts the entries by date, newest first; entries of the same date keep
/// their order.
pub fn sort_newest_first(entries: Vec<FundsActivityEntry>) -> (sorted: Vec<FundsActivityEntry>)
    ensures
        is_sorted_newest_first(sorted@, entries@),
{
    let ghost inp = entries@;
    let n = entries.len();
    let mut rest = entries;
    let mut out: Vec<FundsActivityEntry> = Vec::new();
    let ghost mut p: Seq<int> = Seq::empty();
    let mut i: usize = 0;
    while i < n
        invariant
            n == inp.len(),
            i <= n,
            rest@ == inp.subrange(i as int, n as int),
            out@.len() == i,
            p.len() == i,
            forall|k: int| 0 <= k < p.len() ==> 0 <= #[trigger] p[k] < i && out@[k] == inp[p[k]],
            forall|k: int, l: int| 0 <= k < l < p.len() ==> #[trigger] p[k] != #[trigger] p[l],
            forall|k: int, l: int|
                0 <= k < l < p.len() ==> (#[trigger] out@[k]).date_of() > (
                #[trigger] out@[l]).date_of() || (out@[k].date_of() == out@[l].date_of() && p[k]
                < p[l]),
        decreases n - i,
    {
        let entry = rest.remove(0);
        assert(entry == inp[i as int]);
        assert(rest@ =~= inp.subrange(i + 1, n as int));
        let d = entry.date();
        let mut pos: usize = 0;
        while pos < out.len() && out[pos].date() >= d
            invariant
                pos <= out@.len(),
                forall|k: int| 0 <= k < pos ==> (#[trigger] out@[k]).date_of() >= d,
            decreases out@.len() - pos,
        {
            pos = pos + 1;
        }
        let ghost old_out = out@;
        let ghost old_p = p;
        proof {
            assert forall|k: int| pos <= k < old_out.len() implies (#[trigger] old_out[k]).date_of()
                < d by {
                if k > pos {
                    assert(old_out[pos as int].date_of() >= old_out[k].date_of());
                }
            }
            p = p.insert(pos as int, i as int);
        }
        out.insert(pos, entry);
        proof {
            assert(out@ == old_out.insert(pos as int, entry));
            assert forall|k: int| 0 <= k < p.len() implies 0 <= #[trigger] p[k] < i + 1 && out@[k]
                == inp[p[k]] by {
                if k < pos {
                    assert(p[k] == old_p[k]);
                } else if k > pos {
                    assert(p[k] == old_p[k - 1]);
                }
            }
            assert forall|k: int, l: int| 0 <= k < l < p.len() implies #[trigger] p[k]
                != #[trigger] p[l] by {
                if k < pos && l < pos {
                    assert(p[k] == old_p[k] && p[l] == old_p[l]);
                } else if k < pos && l == pos {
                    assert(p[k] == old_p[k]);
                } else if k < pos && l > pos {
                    assert(p[k] == old_p[k] && p[l] == old_p[l - 1]);
                } else if k == pos {
                    assert(p[l] == old_p[l - 1]);
                } else {
                    assert(p[k] == old_p[k - 1] && p[l] == old_p[l - 1]);
                }
            }
            assert forall|k: int, l: int| 0 <= k < l < p.len() implies (#[trigger] out@[k]).date_of()
                > (#[trigger] out@[l]).date_of() || (out@[k].date_of() == out@[l].date_of() && p[k]
                < p[l]) by {
                if k < pos && l < pos {
                    assert(p[k] == old_p[k] && p[l] == old_p[l]);
                    assert(out@[k] == old_out[k] && out@[l] == old_out[l]);
                } else if k < pos && l == pos {
                    assert(p[k] == old_p[k]);
                    assert(out@[k] == old_out[k]);
                } else if k < pos && l > pos {
                    assert(p[k] == old_p[k] && p[l] == old_p[l - 1]);
                    assert(out@[k] == old_out[k] && out@[l] == old_out[l - 1]);
                } else if k == pos {
                    assert(p[l] == old_p[l - 1]);
                    assert(out@[l] == old_out[l - 1]);
                } else {
                    assert(p[k] == old_p[k - 1] && p[l] == old_p[l - 1]);
                    assert(out@[k] == old_out[k - 1] && out@[l] == old_out[l - 1]);
                }
            }
        }
        i = i + 1;
    }
    assert(is_stable_newest_first(out@, inp, p));
    out
}

/// Whether `view` lists `entries` newest first (stably), each in its
/// frontend form.
pub open spec fn is_funds_activity(view: Seq<FundsActivityViewData>, entries: Seq<FundsActivityEntry>) -> bool {
    exists|sorted: Seq<FundsActivityEntry>|
        {
            &&& is_sorted_newest_first(sorted, entries)
            &&& view.len() == sorted.len()
            &&& forall|k: int| 0 <= k < view.len() ==> is_view_data(#[trigger] view[k], sorted[k])
        }
}

/// The funds activity of a project as the frontend lists it: the entries
/// sorted by date, newest first, in their frontend form.
pub fn load_funds_activity(entries: Vec<FundsActivityEntry>) -> (view: Vec<FundsActivityViewData>)
    ensures
        is_funds_activity(view@, entries@),
{
    let sorted = sort_newest_first(entries);
    let ghost sorted_view = sorted@;
    let n = sorted.len();
    let mut rest = sorted;
    let mut view: Vec<FundsActivityViewData> = Vec::new();
    let mut i: usize = 0;
    while i < n
        invariant
            n == sorted_view.len(),
            i <= n,
            rest@ == sorted_view.subrange(i as int, n as int),
            view@.len() == i,
            forall|k: int| 0 <= k < i ==> is_view_data(#[trigger] view@[k], sorted_view[k]),
        decreases n - i,
    {
        let entry = rest.remove(0);
        assert(entry == sorted_view[i as int]);
        assert(rest@ =~= sorted_view.subrange(i + 1, n as int));
        view.push(to_view_data(entry));
        i = i + 1;
    }
    view
}

} // verus!
