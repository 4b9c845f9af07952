//! The groups of transactions that go to the wallet in one array and come back
//! signed in the same order: how they are bundled, and how the signed ones are
//! checked and taken apart again by their positions.

use vstd::prelude::*;
use crate::js::common::{
    SignedTxFromJs,
    DecodedTx,
    decoded_from,
    signed_js_tx_to_signed_tx,
    decode_passthrough_tx,
    decodes,
    decode_error,
    is_decode_result,
    signed_tx_decode_error,
    first_decode_error,
    lemma_first_decode_error_append,
    blobs,
};
use crate::number_text::{dec_digits, usize_to_string};
use crate::text::concat_str;

verus! {

/// `prefix` followed by the decimal digits of `n`.
pub open spec fn count_message(prefix: Seq<char>, n: nat) -> Seq<char> {
    prefix + dec_digits(n)
}

fn count_error(prefix: &str, n: usize) -> (s: String)
    ensures
        s@ == count_message(prefix@, n as nat),
{
    let digits = usize_to_string(n);
    concat_str(prefix, digits.as_str())
}

/// The transactions that create a DAO, in the order in which they are signed:
/// the app setup, the escrow fundings, the transfer of the shares to the
/// investing escrow, the funding of the app.
pub open spec fn dao_bundle<T>(setup_app_tx: T, escrow_funding_txs: Seq<T>, xfer: T, fund_app_tx: T) -> Seq<T> {
    seq![setup_app_tx] + escrow_funding_txs + seq![xfer, fund_app_tx]
}

/// Bundles the transactions that create a DAO for the wallet. There must be
/// three escrow fundings; the bundle then has six transactions.
pub fn dao_txs_to_sign<T>(
    setup_app_tx: T,
    escrow_funding_txs: Vec<T>,
    xfer_shares_to_invest_escrow: T,
    fund_app_tx: T,
) -> (r: Result<Vec<T>, String>)
    ensures
        match r {
            Ok(txs) => escrow_funding_txs.len() == 3 && txs@ == dao_bundle(
                setup_app_tx,
                escrow_funding_txs@,
                xfer_shares_to_invest_escrow,
                fund_app_tx,
            ) && txs.len() == 6,
            Err(e) => escrow_funding_txs.len() != 3 && e@ == count_message(
                "Unexpected funding txs length: "@,
                escrow_funding_txs.len() as nat,
            ),
        },
{
    let n = escrow_funding_txs.len();
    if n != 3 {
        return Err(count_error("Unexpected funding txs length: ", n));
    }
    let ghost funding = escrow_funding_txs@;
    let mut txs: Vec<T> = Vec::new();
    txs.push(setup_app_tx);
    let mut rest = escrow_funding_txs;
    txs.append(&mut rest);
    txs.push(xfer_shares_to_invest_escrow);
    txs.push(fund_app_tx);
    assert(txs@ =~= dao_bundle(setup_app_tx, funding, xfer_shares_to_invest_escrow, fund_app_tx));
    if txs.len() != 6 {
        return Err(count_error("Unexpected to sign dao txs length: ", txs.len()));
    }
    Ok(txs)
}

/// The transactions that create a project, in the order in which they are
/// signed: the app creation, the escrow fundings, the transfer of the shares
/// to the investing escrow.
pub open spec fn project_bundle<T>(create_app_tx: T, escrow_funding_txs: Seq<T>, xfer: T) -> Seq<T> {
    seq![create_app_tx] + escrow_funding_txs + seq![xfer]
}

/// Bundles the transactions that create a project for the wallet. There must
/// be four escrow fundings; the bundle then has six transactions.
pub fn project_txs_to_sign<T>(
    create_app_tx: T,
    escrow_funding_txs: Vec<T>,
    xfer_shares_to_invest_escrow: T,
) -> (r: Result<Vec<T>, String>)
    ensures
        match r {
            Ok(txs) => escrow_funding_txs.len() == 4 && txs@ == project_bundle(
                create_app_tx,
                escrow_funding_txs@,
                xfer_shares_to_invest_escrow,
            ) && txs.len() == 6,
            Err(e) => escrow_funding_txs.len() != 4 && e@ == count_message(
                "Unexpected funding txs length: "@,
                escrow_funding_txs.len() as nat,
            ),
        },
{
    let n = escrow_funding_txs.len();
    if n != 4 {
        return Err(count_error("Unexpected funding txs length: ", n));
    }
    let ghost funding = escrow_funding_txs@;
    let mut txs: Vec<T> = Vec::new();
    txs.push(create_app_tx);
    let mut rest = escrow_funding_txs;
    txs.append(&mut rest);
    txs.push(xfer_shares_to_invest_escrow);
    assert(txs@ =~= project_bundle(create_app_tx, funding, xfer_shares_to_invest_escrow));
    if txs.len() != 6 {
        return Err(count_error("Unexpected to sign project txs length: ", txs.len()));
    }
    Ok(txs)
}

/// The signed transactions that set a DAO up, taken apart by their
/// positions, and the opt-in of the customer escrow to the funds asset that
/// the frontend passed through.
pub struct SetupDaoSignedTxs {
    pub setup_app_tx: DecodedTx,
    pub customer_escrow_funding_tx: DecodedTx,
    pub app_funding_tx: DecodedTx,
    pub customer_escrow_optin_to_funds_asset_tx: DecodedTx,
    pub transfer_shares_to_app_tx: DecodedTx,
}

/// The order in which the transactions that set a DAO up are decoded: the
/// app funding (position 2), the customer escrow funding (1), the passed
/// through opt-in, the transfer of the shares (3), the app setup (0).
pub open spec fn setup_dao_decode_order(txs: Seq<SignedTxFromJs>, optin: Seq<u8>) -> Seq<Seq<u8>> {
    seq![txs[2].blob@, txs[1].blob@, optin, txs[3].blob@, txs[0].blob@]
}

proof fn lemma_first_error_five(s: Seq<Seq<u8>>)
    requires
        s.len() == 5,
    ensures
        first_decode_error(s) == if signed_tx_decode_error(s[0]) is Some {
            signed_tx_decode_error(s[0])
        } else if signed_tx_decode_error(s[1]) is Some {
            signed_tx_decode_error(s[1])
        } else if signed_tx_decode_error(s[2]) is Some {
            signed_tx_decode_error(s[2])
        } else if signed_tx_decode_error(s[3]) is Some {
            signed_tx_decode_error(s[3])
        } else {
            signed_tx_decode_error(s[4])
        },
{
    reveal_with_fuel(first_decode_error, 6);
    assert(s.drop_first()[0] == s[1]);
    assert(s.drop_first().drop_first()[0] == s[2]);
    assert(s.drop_first().drop_first().drop_first()[0] == s[3]);
    assert(s.drop_first().drop_first().drop_first().drop_first()[0] == s[4]);
    assert(s.drop_first().drop_first().drop_first().drop_first().drop_first().len() == 0);
}

/// Checks that four signed transactions came back to set a DAO up, and
/// decodes them with the passed-through opt-in in the order
/// `setup_dao_decode_order`; the first that fails gives the error.
pub fn setup_dao_signed_txs(
    txs: &[SignedTxFromJs],
    customer_escrow_optin_to_funds_asset_tx_msg_pack: &[u8],
) -> (r: Result<SetupDaoSignedTxs, String>)
    ensures
        txs.len() != 4 ==> r is Err && r->Err_0@ == count_message(
            "Unexpected signed dao txs length: "@,
            txs.len() as nat,
        ),
        txs.len() == 4 ==> match r {
            Ok(signed) => first_decode_error(
                setup_dao_decode_order(txs@, customer_escrow_optin_to_funds_asset_tx_msg_pack@),
            ) is None && decoded_from(signed.setup_app_tx, txs@[0].blob@)
                && decoded_from(signed.customer_escrow_funding_tx, txs@[1].blob@)
                && decoded_from(signed.app_funding_tx, txs@[2].blob@)
                && decoded_from(signed.transfer_shares_to_app_tx, txs@[3].blob@)
                && decoded_from(signed.customer_escrow_optin_to_funds_asset_tx, customer_escrow_optin_to_funds_asset_tx_msg_pack@),
            Err(e) => first_decode_error(
                setup_dao_decode_order(txs@, customer_escrow_optin_to_funds_asset_tx_msg_pack@),
            ) == Some(e@),
        },
{
    if txs.len() != 4 {
        let e = count_error("Unexpected signed dao txs length: ", txs.len());
        return Err(e);
    }
    proof {
        lemma_first_error_five(
            setup_dao_decode_order(txs@, customer_escrow_optin_to_funds_asset_tx_msg_pack@),
        );
    }
    let app_funding_tx = match signed_js_tx_to_signed_tx(&txs[2]) {
        Ok(t) => t,
        Err(e) => {
            return Err(e);
        },
    };
    let customer_escrow_funding_tx = match signed_js_tx_to_signed_tx(&txs[1]) {
        Ok(t) => t,
        Err(e) => {
            return Err(e);
        },
    };
    let customer_escrow_optin_to_funds_asset_tx = match decode_passthrough_tx(
        customer_escrow_optin_to_funds_asset_tx_msg_pack,
    ) {
        Ok(t) => t,
        Err(e) => {
            return Err(e);
        },
    };
    let transfer_shares_to_app_tx = match signed_js_tx_to_signed_tx(&txs[3]) {
        Ok(t) => t,
        Err(e) => {
            return Err(e);
        },
    };
    let setup_app_tx = match signed_js_tx_to_signed_tx(&txs[0]) {
        Ok(t) => t,
        Err(e) => {
            return Err(e);
        },
    };
    Ok(SetupDaoSignedTxs {
        setup_app_tx,
        customer_escrow_funding_tx,
        app_funding_tx,
        customer_escrow_optin_to_funds_asset_tx,
        transfer_shares_to_app_tx,
    })
}

/// The signed transactions that create a project, taken apart by their
/// positions.
pub struct CreateProjectSignedTxs {
    pub escrow_funding_txs: Vec<DecodedTx>,
    pub create_app_tx: DecodedTx,
    pub xfer_shares_to_invest_escrow: DecodedTx,
}

/// The order in which the transactions that create a project are decoded:
/// the escrow fundings (positions 1 to 4), the app creation (0), the
/// transfer of the shares (5).
pub open spec fn create_project_decode_order(txs: Seq<SignedTxFromJs>) -> Seq<Seq<u8>> {
    blobs(txs.subrange(1, 5)) + seq![txs[0].blob@] + seq![txs[5].blob@]
}

/// Checks that six signed transactions came back and takes them apart in
/// the order `project_txs_to_sign` bundled them: the app creation at
/// position 0, the four escrow fundings at 1 to 4, the transfer of the
/// shares at 5. They are decoded in the order `create_project_decode_order`;
/// the first that fails gives the error.
pub fn create_project_signed_txs(txs: &[SignedTxFromJs]) -> (r: Result<
    CreateProjectSignedTxs,
    String,
>)
    ensures
        txs.len() != 6 ==> r is Err && r->Err_0@ == count_message(
            "Unexpected signed project txs length: "@,
            txs.len() as nat,
        ),
        txs.len() == 6 ==> match r {
            Ok(signed) => first_decode_error(create_project_decode_order(txs@)) is None
                && decoded_from(signed.create_app_tx, txs@[0].blob@) && signed.escrow_funding_txs.len()
                == 4 && (forall|k: int|
                0 <= k < 4 ==> decoded_from((#[trigger] signed.escrow_funding_txs@[k]), txs@[1
                    + k].blob@)) && decoded_from(signed.xfer_shares_to_invest_escrow, txs@[5].blob@),
            Err(e) => first_decode_error(create_project_decode_order(txs@)) == Some(e@),
        },
{
    if txs.len() != 6 {
        let e = count_error("Unexpected signed project txs length: ", txs.len());
        return Err(e);
    }
    let ghost a = blobs(txs@.subrange(1, 5));
    let ghost b = seq![txs@[0].blob@];
    let ghost c = seq![txs@[5].blob@];
    proof {
        lemma_first_error_single(txs@[0].blob@);
        lemma_first_error_single(txs@[5].blob@);
        lemma_first_decode_error_append(a, b);
        lemma_first_decode_error_append(a + b, c);
    }
    let escrow_funding_txs = match decode_range(txs, 1, 4) {
        Ok(v) => v,
        Err(e) => {
            return Err(e);
        },
    };
    let create_app_tx = match signed_js_tx_to_signed_tx(&txs[0]) {
        Ok(t) => t,
        Err(e) => {
            return Err(e);
        },
    };
    let xfer_shares_to_invest_escrow = match signed_js_tx_to_signed_tx(&txs[5]) {
        Ok(t) => t,
        Err(e) => {
            return Err(e);
        },
    };
    Ok(CreateProjectSignedTxs { escrow_funding_txs, create_app_tx, xfer_shares_to_invest_escrow })
}

/// Whether the signed transactions of a claim came with the draining group:
/// one transaction is the claim alone, three are the claim and the two
/// signed draining transactions, which the passthrough's draining and Capi
/// share transactions must then accompany.
pub open spec fn claim_txs_result(
    n: nat,
    has_drain_tx: bool,
    has_capi_share_tx: bool,
) -> Result<bool, Seq<char>> {
    if n != 1 && n != 3 {
        Err(count_message("Unexpected claim txs length: "@, n))
    } else if n == 1 && has_drain_tx {
        Err("Invalid state: 1 tx with a passthrough draining tx"@)
    } else if n == 3 && !has_drain_tx {
        Err(
            "Invalid state: if there are signed (in js) drain txs there should be also a passthrough signed drain tx"@,
        )
    } else if n == 3 && !has_capi_share_tx {
        Err(
            "Invalid state: if there are signed (in js) drain txs there should be also a passthrough signed capi share tx"@,
        )
    } else {
        Ok(n == 3)
    }
}

/// Checks the signed transactions of a claim against the passthrough data;
/// `Ok(true)` where the draining group must be submitted before the claim.
pub fn check_claim_txs(
    txs: &[SignedTxFromJs],
    maybe_drain_tx_msg_pack: &Option<Vec<u8>>,
    maybe_capi_share_tx_msg_pack: &Option<Vec<u8>>,
) -> (r: Result<bool, String>)
    ensures
        match (r, claim_txs_result(
            txs.len() as nat,
            maybe_drain_tx_msg_pack is Some,
            maybe_capi_share_tx_msg_pack is Some,
        )) {
            (Ok(a), Ok(b)) => a == b,
            (Err(a), Err(b)) => a@ == b,
            _ => false,
        },
{
    let n = txs.len();
    if n != 1 && n != 3 {
        return Err(count_error("Unexpected claim txs length: ", n));
    }
    if n == 1 && maybe_drain_tx_msg_pack.is_some() {
        return Err("Invalid state: 1 tx with a passthrough draining tx".to_owned());
    }
    if n == 3 {
        if maybe_drain_tx_msg_pack.is_none() {
            return Err(
                "Invalid state: if there are signed (in js) drain txs there should be also a passthrough signed drain tx".to_owned(),
            );
        }
        if maybe_capi_share_tx_msg_pack.is_none() {
            return Err(
                "Invalid state: if there are signed (in js) drain txs there should be also a passthrough signed capi share tx".to_owned(),
            );
        }
    }
    Ok(n == 3)
}

/// Checks that one signed transaction came back to unlock the shares, and
/// decodes it.
pub fn unlock_signed_tx(txs: &[SignedTxFromJs]) -> (r: Result<DecodedTx, String>)
    ensures
        txs.len() != 1 ==> r is Err && r->Err_0@ == count_message("Invalid unlock txs count: "@, txs.len() as nat),
        txs.len() == 1 ==> is_decode_result(r, txs@[0]),
{
    if txs.len() != 1 {
        let e = count_error("Invalid unlock txs count: ", txs.len());
        return Err(e);
    }
    signed_js_tx_to_signed_tx(&txs[0])
}

/// The signed transactions that stake shares: the call of the app, then the
/// transfer of the shares.
pub struct StakeSignedTxs {
    pub central_app_call_setup_tx: DecodedTx,
    pub shares_xfer_tx_signed: DecodedTx,
}

/// Checks that two signed transactions came back to stake shares, and decodes
/// them in order; the first that fails gives the error.
pub fn stake_signed_txs(txs: &[SignedTxFromJs]) -> (r: Result<StakeSignedTxs, String>)
    ensures
        txs.len() != 2 ==> r is Err && r->Err_0@ == count_message("Invalid app optins count: "@, txs.len() as nat),
        txs.len() == 2 ==> {
            &&& (r is Ok) == (decodes(txs@[0]) && decodes(txs@[1]))
            &&& r is Ok ==> decoded_from(r->Ok_0.central_app_call_setup_tx, txs@[0].blob@)
                && decoded_from(r->Ok_0.shares_xfer_tx_signed, txs@[1].blob@)
            &&& r is Err ==> r->Err_0@ == (if !decodes(txs@[0]) {
                decode_error(txs@[0])
            } else {
                decode_error(txs@[1])
            })
        },
{
    if txs.len() != 2 {
        let e = count_error("Invalid app optins count: ", txs.len());
        return Err(e);
    }
    let central_app_call_setup_tx = match signed_js_tx_to_signed_tx(&txs[0]) {
        Ok(t) => t,
        Err(e) => {
            return Err(e);
        },
    };
    let shares_xfer_tx_signed = match signed_js_tx_to_signed_tx(&txs[1]) {
        Ok(t) => t,
        Err(e) => {
            return Err(e);
        },
    };
    Ok(StakeSignedTxs { central_app_call_setup_tx, shares_xfer_tx_signed })
}

proof fn lemma_blobs_subrange_split(txs: Seq<SignedTxFromJs>, a: int, b: int, c: int)
    requires
        0 <= a <= b <= c <= txs.len(),
    ensures
        blobs(txs.subrange(a, c)) == blobs(txs.subrange(a, b)) + blobs(txs.subrange(b, c)),
{
    assert(blobs(txs.subrange(a, c)) =~= blobs(txs.subrange(a, b)) + blobs(txs.subrange(b, c)));
}

proof fn lemma_first_error_single(x: Seq<u8>)
    ensures
        first_decode_error(seq![x]) == signed_tx_decode_error(x),
{
    assert(seq![x].drop_first() =~= Seq::<Seq<u8>>::empty());
    assert(seq![x][0] == x);
    reveal_with_fuel(first_decode_error, 2);
}

/// Decodes the transactions at positions `start` to `start + count` (not
/// included), in order; the first that fails gives the error.
fn decode_range(txs: &[SignedTxFromJs], start: usize, count: usize) -> (r: Result<
    Vec<DecodedTx>,
    String,
>)
    requires
        start + count <= txs.len(),
    ensures
        match r {
            Ok(v) => v.len() == count && first_decode_error(
                blobs(txs@.subrange(start as int, start + count)),
            ) is None && forall|k: int|
                0 <= k < count ==> decoded_from((#[trigger] v@[k]), txs@[start + k].blob@),
            Err(e) => first_decode_error(blobs(txs@.subrange(start as int, start + count))) == Some(
                e@,
            ),
        },
{
    let mut v: Vec<DecodedTx> = Vec::new();
    let mut i: usize = 0;
    proof {
        assert(blobs(txs@.subrange(start as int, start as int)) =~= Seq::<Seq<u8>>::empty());
    }
    while i < count
        invariant
            i <= count,
            start + count <= txs.len(),
            v.len() == i,
            first_decode_error(blobs(txs@.subrange(start as int, start + i))) is None,
            forall|k: int| 0 <= k < i ==> decoded_from((#[trigger] v@[k]), txs@[start + k].blob@),
        decreases count - i,
    {
        let ghost done = blobs(txs@.subrange(start as int, start + i));
        let ghost one = blobs(txs@.subrange(start + i, start + i + 1));
        let ghost rest = blobs(txs@.subrange(start + i + 1, start + count));
        proof {
            lemma_blobs_subrange_split(txs@, start as int, start + i, start + i + 1);
            lemma_blobs_subrange_split(txs@, start as int, start + i + 1, start + count);
            assert(one =~= seq![txs@[start + i].blob@]);
            lemma_first_error_single(txs@[start + i].blob@);
            lemma_first_decode_error_append(done, one);
        }
        match signed_js_tx_to_signed_tx(&txs[start + i]) {
            Ok(t) => {
                v.push(t);
            },
            Err(e) => {
                proof {
                    lemma_first_decode_error_append(done + one, rest);
                }
                return Err(e);
            },
        }
        i = i + 1;
    }
    Ok(v)
}

/// The signed transactions of an investment, taken apart by their
/// positions, and the transfer of the shares that the frontend passed
/// through.
pub struct InvestSignedTxs {
    pub central_app_setup_tx: DecodedTx,
    pub payment_tx: DecodedTx,
    pub shares_asset_optin_tx: DecodedTx,
    pub pay_escrow_fee_tx: DecodedTx,
    pub slots_setup_txs: Vec<DecodedTx>,
    pub shares_xfer_tx: DecodedTx,
}

/// Checks that an investment came back with four signed transactions and
/// one for each withdrawal slot, and decodes them: the app setup at position
/// 0, the payment at 1, the opt-in to the shares at 2, the escrow fee at 3,
/// the slots' setups after them; then the passed-through transfer of the
/// shares. They are decoded in that order; the first that fails gives the
/// error.
pub fn invest_signed_txs(
    txs: &[SignedTxFromJs],
    withdrawal_slot_count: usize,
    shares_xfer_tx_msg_pack: &[u8],
) -> (r: Result<InvestSignedTxs, String>)
    requires
        withdrawal_slot_count <= usize::MAX - 4,
    ensures
        txs.len() != 4 + withdrawal_slot_count ==> r is Err && r->Err_0@ == count_message(
            "Unexpected signed invest txs length: "@,
            txs.len() as nat,
        ),
        txs.len() == 4 + withdrawal_slot_count ==> match r {
            Ok(signed) => first_decode_error(blobs(txs@) + seq![shares_xfer_tx_msg_pack@]) is None
                && decoded_from(signed.central_app_setup_tx, txs@[0].blob@) && decoded_from(signed.payment_tx, txs@[1].blob@) && decoded_from(signed.shares_asset_optin_tx, txs@[2].blob@)
                && decoded_from(signed.pay_escrow_fee_tx, txs@[3].blob@)
                && signed.slots_setup_txs.len() == withdrawal_slot_count && (forall|k: int|
                0 <= k < withdrawal_slot_count ==> decoded_from((#[trigger] signed.slots_setup_txs@[k]), txs@[4 + k].blob@)) && decoded_from(signed.shares_xfer_tx, shares_xfer_tx_msg_pack@),
            Err(e) => first_decode_error(blobs(txs@) + seq![shares_xfer_tx_msg_pack@]) == Some(e@),
        },
{
    let n = txs.len();
    if n != 4 + withdrawal_slot_count {
        let e = count_error("Unexpected signed invest txs length: ", n);
        return Err(e);
    }
    proof {
        assert(txs@.subrange(0, n as int) =~= txs@);
        lemma_first_error_single(shares_xfer_tx_msg_pack@);
        lemma_first_decode_error_append(blobs(txs@), seq![shares_xfer_tx_msg_pack@]);
    }
    let mut decoded = match decode_range(txs, 0, n) {
        Ok(v) => v,
        Err(e) => {
            return Err(e);
        },
    };
    let shares_xfer_tx = match decode_passthrough_tx(shares_xfer_tx_msg_pack) {
        Ok(t) => t,
        Err(e) => {
            return Err(e);
        },
    };
    let ghost all = decoded@;
    let central_app_setup_tx = decoded.remove(0);
    let payment_tx = decoded.remove(0);
    let shares_asset_optin_tx = decoded.remove(0);
    let pay_escrow_fee_tx = decoded.remove(0);
    assert(decoded@ =~= all.subrange(4, n as int));
    assert(all[0] == central_app_setup_tx && all[1] == payment_tx);
    assert(all[2] == shares_asset_optin_tx && all[3] == pay_escrow_fee_tx);
    assert(forall|k: int| 0 <= k < withdrawal_slot_count ==> #[trigger] decoded@[k] == all[4 + k]);
    Ok(InvestSignedTxs {
        central_app_setup_tx,
        payment_tx,
        shares_asset_optin_tx,
        pay_escrow_fee_tx,
        slots_setup_txs: decoded,
        shares_xfer_tx,
    })
}

/// The signed transactions that unstake shares, taken apart by their
/// positions, and the passed-through transfer of the shares.
pub struct UnstakeSignedTxs {
    pub central_app_optout_tx: DecodedTx,
    pub slot_optout_txs: Vec<DecodedTx>,
    pub shares_xfer_tx_signed: DecodedTx,
    pub pay_shares_xfer_fee_tx: DecodedTx,
}

/// The order in which the transactions of an unstaking are decoded: the
/// app opt-out (position 0), the slots' opt-outs (from position 2), the
/// passed-through transfer of the shares, the fee (position 1).
pub open spec fn unstake_decode_order(txs: Seq<SignedTxFromJs>, slot_count: nat, pt: Seq<u8>) -> Seq<Seq<u8>> {
    seq![txs[0].blob@] + blobs(txs.subrange(2, 2 + slot_count as int)) + seq![pt] + seq![txs[1].blob@]
}

/// Checks that an unstaking came back with two signed transactions and one
/// for each withdrawal slot, and decodes them in the order
/// `unstake_decode_order`; the first that fails gives the error.
pub fn unstake_signed_txs(
    txs: &[SignedTxFromJs],
    withdrawal_slot_count: usize,
    shares_xfer_tx_msg_pack: &[u8],
) -> (r: Result<UnstakeSignedTxs, String>)
    requires
        withdrawal_slot_count <= usize::MAX - 2,
    ensures
        txs.len() != 2 + withdrawal_slot_count ==> r is Err && r->Err_0@ == count_message(
            "Invalid unstake txs count: "@,
            txs.len() as nat,
        ),
        txs.len() == 2 + withdrawal_slot_count ==> match r {
            Ok(signed) => first_decode_error(
                unstake_decode_order(txs@, withdrawal_slot_count as nat, shares_xfer_tx_msg_pack@),
            ) is None && decoded_from(signed.central_app_optout_tx, txs@[0].blob@)
                && decoded_from(signed.pay_shares_xfer_fee_tx, txs@[1].blob@)
                && signed.slot_optout_txs.len() == withdrawal_slot_count && (forall|k: int|
                0 <= k < withdrawal_slot_count ==> decoded_from((#[trigger] signed.slot_optout_txs@[k]), txs@[2 + k].blob@)) && decoded_from(signed.shares_xfer_tx_signed, shares_xfer_tx_msg_pack@),
            Err(e) => first_decode_error(
                unstake_decode_order(txs@, withdrawal_slot_count as nat, shares_xfer_tx_msg_pack@),
            ) == Some(e@),
        },
{
    let n = txs.len();
    if n != 2 + withdrawal_slot_count {
        let e = count_error("Invalid unstake txs count: ", n);
        return Err(e);
    }
    let ghost a = seq![txs@[0].blob@];
    let ghost b = blobs(txs@.subrange(2, 2 + withdrawal_slot_count));
    let ghost c = seq![shares_xfer_tx_msg_pack@];
    let ghost d = seq![txs@[1].blob@];
    proof {
        lemma_first_error_single(txs@[0].blob@);
        lemma_first_error_single(shares_xfer_tx_msg_pack@);
        lemma_first_error_single(txs@[1].blob@);
        lemma_first_decode_error_append(a, b);
        lemma_first_decode_error_append(a + b, c);
        lemma_first_decode_error_append(a + b + c, d);
    }
    let central_app_optout_tx = match signed_js_tx_to_signed_tx(&txs[0]) {
        Ok(t) => t,
        Err(e) => {
            return Err(e);
        },
    };
    let slot_optout_txs = match decode_range(txs, 2, withdrawal_slot_count) {
        Ok(v) => v,
        Err(e) => {
            return Err(e);
        },
    };
    let shares_xfer_tx_signed = match decode_passthrough_tx(shares_xfer_tx_msg_pack) {
        Ok(t) => t,
        Err(e) => {
            return Err(e);
        },
    };
    let pay_shares_xfer_fee_tx = match signed_js_tx_to_signed_tx(&txs[1]) {
        Ok(t) => t,
        Err(e) => {
            return Err(e);
        },
    };
    Ok(UnstakeSignedTxs {
        central_app_optout_tx,
        slot_optout_txs,
        shares_xfer_tx_signed,
        pay_shares_xfer_fee_tx,
    })
}

/// The signed transactions of a project come back in the order they were
/// bundled: in a bundle of `project_txs_to_sign`, position 0 holds the app
/// creation, positions 1 to 4 the escrow fundings and position 5 the
/// transfer of the shares, the positions from which
/// `create_project_signed_txs` takes them.
pub proof fn law_project_bundle_positions<T>(create_app_tx: T, escrow_funding_txs: Seq<T>, xfer: T)
    requires
        escrow_funding_txs.len() == 4,
    ensures
        project_bundle(create_app_tx, escrow_funding_txs, xfer).len() == 6,
        project_bundle(create_app_tx, escrow_funding_txs, xfer)[0] == create_app_tx,
        forall|k: int|
            0 <= k < 4 ==> project_bundle(create_app_tx, escrow_funding_txs, xfer)[1 + k]
                == escrow_funding_txs[k],
        project_bundle(create_app_tx, escrow_funding_txs, xfer)[5] == xfer,
{
}

/// The transactions of the draining that a claim may need: the two app
/// calls that the user signs, and the draining and Capi share transactions
/// passed through as MessagePack bytes.
pub struct DrainToSign<T> {
    pub app_call_tx: T,
    pub capi_app_call_tx: T,
    pub drain_tx_msg_pack: Vec<u8>,
    pub capi_share_tx_msg_pack: Vec<u8>,
}

/// What a claim gives the frontend: the transactions to sign, and the
/// passed-through draining transactions where there are any.
pub struct ClaimToSign<T> {
    pub to_sign: Vec<T>,
    pub maybe_drain_tx_msg_pack: Option<Vec<u8>>,
    pub maybe_capi_share_tx_msg_pack: Option<Vec<u8>>,
}

/// Bundles a claim: the claim's app call first, then, where the customer
/// escrow must be drained, the two draining app calls (appended at the end,
/// so that the claim keeps its position) and the passed-through draining
/// transactions.
pub fn claim_to_sign<T>(app_call_tx: T, maybe_drain: Option<DrainToSign<T>>) -> (r: ClaimToSign<T>)
    ensures
        match maybe_drain {
            None => r.to_sign@ == seq![app_call_tx] && r.maybe_drain_tx_msg_pack is None
                && r.maybe_capi_share_tx_msg_pack is None,
            Some(d) => {
                &&& r.to_sign@ == seq![app_call_tx, d.app_call_tx, d.capi_app_call_tx]
                &&& r.maybe_drain_tx_msg_pack is Some
                &&& r.maybe_drain_tx_msg_pack->Some_0@ == d.drain_tx_msg_pack@
                &&& r.maybe_capi_share_tx_msg_pack is Some
                &&& r.maybe_capi_share_tx_msg_pack->Some_0@ == d.capi_share_tx_msg_pack@
            },
        },
{
    let mut to_sign: Vec<T> = Vec::new();
    to_sign.push(app_call_tx);
    match maybe_drain {
        None => ClaimToSign {
            to_sign,
            maybe_drain_tx_msg_pack: None,
            maybe_capi_share_tx_msg_pack: None,
        },
        Some(d) => {
            to_sign.push(d.app_call_tx);
            to_sign.push(d.capi_app_call_tx);
            ClaimToSign {
                to_sign,
                maybe_drain_tx_msg_pack: Some(d.drain_tx_msg_pack),
                maybe_capi_share_tx_msg_pack: Some(d.capi_share_tx_msg_pack),
            }
        },
    }
}

/// A claim bundled by `claim_to_sign` passes the check of `check_claim_txs`
/// once signed: one transaction and no passthrough without draining, three
/// and both passthrough transactions with it; the check then says whether
/// to drain.
pub proof fn law_claim_bundle_passes_check(drain: bool)
    ensures
        claim_txs_result(if drain { 3 } else { 1 }, drain, drain) == Ok::<bool, Seq<char>>(drain),
{
}

} // verus!
