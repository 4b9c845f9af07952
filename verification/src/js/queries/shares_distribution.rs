//! How the shares of a DAO are distributed among their holders.

use vstd::prelude::*;
use crate::address::{Address, address_text};
use crate::dependencies::explorer_url;
use crate::js::explorer_links::{address_link, explorer_address_link_env};
use crate::text::{concat_str, string_of_chars, str_chars};
use crate::decimal::{decimal_quotient, decimal_text, u64_parts, Decimal};
use crate::number_text::{dec_digits, u64_to_string};

verus! {

/// The short label of an address: its first 3 characters, `...` and its
/// last 3.
pub open spec fn short_address(text: Seq<char>) -> Seq<char> {
    text.subrange(0, 3) + "..."@ + text.subrange(text.len() - 3, text.len() as int)
}

/// The short label of an address. The text of an address always has 58
/// characters, so the error for a text of fewer than 6 never comes.
pub fn shorten_address(address: &Address) -> (r: Result<String, String>)
    ensures
        r matches Ok(s) && s@ == short_address(address_text(address.bytes@)),
        r matches Ok(s) && s@.len() == 9 && s@[3] == '.' && s@[4] == '.' && s@[5] == '.' && (
        forall|i: int|
            0 <= i < 3 ==> #[trigger] s@[i] == address_text(address.bytes@)[i] && s@[6 + i] == address_text(
                address.bytes@,
            )[55 + i]),
{
    proof {
        reveal_strlit("...");
    }
    let address_str = address.to_text();
    let chars = str_chars(address_str.as_str());
    let len = chars.len();
    if len < 6 {
        return Err(concat_str("Invalid address (too short): ", address_str.as_str()));
    }
    let head = string_of_chars(&chars.as_slice()[0..3]);
    let tail = string_of_chars(&chars.as_slice()[len - 3..len]);
    let s = concat_str(head.as_str(), "...");
    Ok(concat_str(s.as_str(), tail.as_str()))
}

/// The sum of the amounts.
pub open spec fn sum_amounts(amounts: Seq<u64>) -> int
    decreases amounts.len(),
{
    if amounts.len() == 0 {
        0
    } else {
        sum_amounts(amounts.drop_last()) + amounts.last()
    }
}

/// The shares that no holder owns: the supply less the holders' amounts.
/// The holders hold at most the supply (the sum and the difference panic
/// otherwise).
pub fn not_owned_shares_amount(holder_amounts: &Vec<u64>, supply: u64) -> (r: u64)
    requires
        sum_amounts(holder_amounts@) <= supply,
    ensures
        r == supply - sum_amounts(holder_amounts@),
{
    let mut total: u64 = 0;
    let mut i: usize = 0;
    proof {
        assert(holder_amounts@.subrange(0, 0) =~= Seq::<u64>::empty());
    }
    while i < holder_amounts.len()
        invariant
            i <= holder_amounts@.len(),
            total == sum_amounts(holder_amounts@.subrange(0, i as int)),
            sum_amounts(holder_amounts@) <= supply,
        decreases holder_amounts@.len() - i,
    {
        proof {
            let s = holder_amounts@.subrange(0, i + 1);
            assert(s.drop_last() =~= holder_amounts@.subrange(0, i as int));
            lemma_sum_prefix_le(holder_amounts@, i + 1);
        }
        total = total + holder_amounts[i];
        i = i + 1;
    }
    assert(holder_amounts@.subrange(0, i as int) =~= holder_amounts@);
    supply - total
}

proof fn lemma_sum_prefix_le(s: Seq<u64>, k: int)
    requires
        0 <= k <= s.len(),
    ensures
        sum_amounts(s.subrange(0, k)) <= sum_amounts(s),
    decreases s.len() - k,
{
    if k < s.len() {
        lemma_sum_prefix_le(s, k + 1);
        assert(s.subrange(0, k + 1).drop_last() =~= s.subrange(0, k));
    } else {
        assert(s.subrange(0, k) =~= s);
    }
}

/// A line of the shares distribution: who holds the shares (empty for the
/// shares that nobody owns), its label and explorer link, the amount, the
/// percentage of the supply as a number, and the kind of line (`holder` or
/// `not_owned`). The percentage is not given in its formatted form.
#[derive(Debug, Clone, PartialEq, Eq)]
pub struct ShareHoldingPercentageJs {
    pub address: String,
    pub label: String,
    pub address_browser_link: String,
    pub amount: String,
    pub percentage_number: String,
    pub type_: String,
}

/// The error where the not-owned percentage cannot be computed.
pub open spec fn not_owned_percentage_error(amount: u64, supply: u64) -> Seq<char> {
    "not_owned_amount: "@ + dec_digits(amount as nat) + " / supply: "@ + dec_digits(supply as nat)
        + " failed"@
}

/// The line of the shares that nobody owns: the supply less the holders'
/// shares, and its part of the supply; an error where that part cannot be
/// computed, which is always so for a supply of 0.
pub fn not_owned_shares_holdings(holder_amounts: &Vec<u64>, supply: u64) -> (r: Result<
    ShareHoldingPercentageJs,
    String,
>)
    requires
        sum_amounts(holder_amounts@) <= supply,
    ensures
        ({
            let amount = (supply - sum_amounts(holder_amounts@)) as u64;
            match decimal_quotient(u64_parts(amount), u64_parts(supply)) {
                None => r matches Err(e) && e@ == not_owned_percentage_error(amount, supply),
                Some(q) => r matches Ok(line) && {
                    &&& line.address@ == ""@
                    &&& line.label@ == "Not owned"@
                    &&& line.address_browser_link@ == ""@
                    &&& line.amount@ == dec_digits(amount as nat)
                    &&& line.percentage_number@ == decimal_text(q.0, q.1, q.2)
                    &&& line.type_@ == "not_owned"@
                },
            }
        }),
        supply == 0 ==> r is Err,
{
    let not_owned_amount = not_owned_shares_amount(holder_amounts, supply);
    match Decimal::from_u64(not_owned_amount).checked_div(&Decimal::from_u64(supply)) {
        Some(percentage) => Ok(
            ShareHoldingPercentageJs {
                address: "".to_owned(),
                label: "Not owned".to_owned(),
                address_browser_link: "".to_owned(),
                amount: u64_to_string(not_owned_amount),
                percentage_number: percentage.to_text(),
                type_: "not_owned".to_owned(),
            },
        ),
        None => {
            let s = concat_str("not_owned_amount: ", u64_to_string(not_owned_amount).as_str());
            let s = concat_str(s.as_str(), " / supply: ");
            let s = concat_str(s.as_str(), u64_to_string(supply).as_str());
            Err(concat_str(s.as_str(), " failed"))
        },
    }
}

/// A holder of shares: the address, the amount, and the part of the supply
/// that it holds.
pub struct ShareHolding {
    pub address: Address,
    pub amount: u64,
    pub percentage: Decimal,
}

/// Whether `line` is the line of the holder `h`.
pub open spec fn is_holder_line(line: ShareHoldingPercentageJs, h: ShareHolding) -> bool {
    &&& line.address@ == address_text(h.address.bytes@)
    &&& line.label@ == short_address(address_text(h.address.bytes@))
    &&& line.address_browser_link@ == address_link(explorer_url(), address_text(h.address.bytes@))
    &&& line.amount@ == dec_digits(h.amount as nat)
    &&& line.percentage_number@ == h.percentage.text()
    &&& line.type_@ == "holder"@
}

/// The line of a holder of shares.
pub fn holder_line(h: &ShareHolding) -> (line: ShareHoldingPercentageJs)
    requires
        h.percentage.wf(),
    ensures
        is_holder_line(line, *h),
{
    let label = match shorten_address(&h.address) {
        Ok(l) => l,
        Err(e) => e,
    };
    ShareHoldingPercentageJs {
        address: h.address.to_text(),
        label,
        address_browser_link: explorer_address_link_env(&h.address),
        amount: u64_to_string(h.amount),
        percentage_number: h.percentage.to_text(),
        type_: "holder".to_owned(),
    }
}

/// The sum of the holders' amounts.
pub open spec fn holders_sum(holders: Seq<ShareHolding>) -> int
    decreases holders.len(),
{
    if holders.len() == 0 {
        0
    } else {
        holders_sum(holders.drop_last()) + holders.last().amount
    }
}

/// The lines of the shares distribution: one per holder, in order, then the
/// line of the shares that nobody owns; the error of that line where its
/// percentage cannot be computed. The holders hold at most the supply.
pub fn shares_distribution_lines(holders: &Vec<ShareHolding>, supply: u64) -> (r: Result<
    Vec<ShareHoldingPercentageJs>,
    String,
>)
    requires
        holders_sum(holders@) <= supply,
        forall|i: int| 0 <= i < holders@.len() ==> (#[trigger] holders@[i]).percentage.wf(),
    ensures
        match r {
            Ok(lines) => lines.len() == holders.len() + 1 && (forall|i: int|
                0 <= i < holders.len() ==> is_holder_line(#[trigger] lines@[i], holders@[i]))
                && lines@[holders.len() as int].type_@ == "not_owned"@
                && lines@[holders.len() as int].amount@ == dec_digits(
                ((supply - holders_sum(holders@)) as u64) as nat,
            ) && (decimal_quotient(
                u64_parts((supply - holders_sum(holders@)) as u64),
                u64_parts(supply),
            ) matches Some(q) && lines@[holders.len() as int].percentage_number@ == decimal_text(
                q.0,
                q.1,
                q.2,
            )),
            Err(e) => decimal_quotient(
                u64_parts((supply - holders_sum(holders@)) as u64),
                u64_parts(supply),
            ) is None && e@ == not_owned_percentage_error(
                (supply - holders_sum(holders@)) as u64,
                supply,
            ),
        },
        supply == 0 ==> r is Err,
{
    let mut lines: Vec<ShareHoldingPercentageJs> = Vec::new();
    let mut amounts: Vec<u64> = Vec::new();
    let mut i: usize = 0;
    while i < holders.len()
        invariant
            i <= holders.len(),
            lines.len() == i,
            amounts@.len() == i,
            forall|k: int| 0 <= k < i ==> amounts@[k] == (#[trigger] holders@[k]).amount,
            forall|k: int| 0 <= k < i ==> is_holder_line(#[trigger] lines@[k], holders@[k]),
            forall|k: int| 0 <= k < holders@.len() ==> (#[trigger] holders@[k]).percentage.wf(),
        decreases holders.len() - i,
    {
        lines.push(holder_line(&holders[i]));
        amounts.push(holders[i].amount);
        i = i + 1;
    }
    proof {
        lemma_sums_agree(amounts@, holders@);
    }
    let not_owned = match not_owned_shares_holdings(&amounts, supply) {
        Ok(l) => l,
        Err(e) => {
            return Err(e);
        },
    };
    let ghost before = lines@;
    lines.push(not_owned);
    assert(forall|k: int| 0 <= k < before.len() ==> lines@[k] == before[k]);
    Ok(lines)
}

proof fn lemma_sums_agree(amounts: Seq<u64>, holders: Seq<ShareHolding>)
    requires
        amounts.len() == holders.len(),
        forall|k: int| 0 <= k < amounts.len() ==> amounts[k] == (#[trigger] holders[k]).amount,
    ensures
        sum_amounts(amounts) == holders_sum(holders),
    decreases amounts.len(),
{
    if amounts.len() > 0 {
        let a = amounts.drop_last();
        let h = holders.drop_last();
        assert forall|k: int| 0 <= k < a.len() implies a[k] == (#[trigger] h[k]).amount by {
            assert(a[k] == amounts[k] && h[k] == holders[k]);
        }
        lemma_sums_agree(a, h);
        assert(amounts.last() == holders.last().amount) by {
            assert(amounts.last() == amounts[amounts.len() - 1]);
            assert(holders.last() == holders[holders.len() - 1]);
        }
    }
}

/// The label of an address text keeps its first three characters, then
/// three dots, then its last three characters, and nothing else.
pub proof fn law_short_address_keeps_both_ends(text: Seq<char>)
    requires
        text.len() >= 6,
    ensures
        short_address(text).len() == 9,
        forall|i: int| 0 <= i < 3 ==> #[trigger] short_address(text)[i] == text[i],
        short_address(text)[3] == '.' && short_address(text)[4] == '.' && short_address(text)[5]
            == '.',
        forall|i: int|
            0 <= i < 3 ==> #[trigger] short_address(text)[6 + i] == text[text.len() - 3 + i],
{
    reveal_strlit("...");
}

} // verus!
