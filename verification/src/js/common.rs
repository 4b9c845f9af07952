//! Signed transactions as the frontend hands them back: MessagePack blobs that
//! decode to Algorand signed transactions.

use vstd::prelude::*;
use algonaut::transaction::SignedTransaction;

verus! {

#[verifier::external_type_specification]
#[verifier::external_body]
pub struct ExSignedTransaction(SignedTransaction);

/// A transaction that the user signed in the wallet, as MessagePack bytes.
#[derive(Debug, Clone, PartialEq, Eq)]
pub struct SignedTxFromJs {
    pub blob: Vec<u8>,
}

/// What decoding `blob` as a MessagePack signed transaction gives: the
/// transaction, or the decoder's error message.
pub uninterp spec fn signed_tx_decoding(blob: Seq<u8>) -> Result<SignedTransaction, Seq<char>>;

/// What decoding `blob` fails with: `None` where it decodes, else the
/// decoder's error message.
pub open spec fn signed_tx_decode_error(blob: Seq<u8>) -> Option<Seq<char>> {
    match signed_tx_decoding(blob) {
        Ok(_) => None,
        Err(e) => Some(e),
    }
}

/// The transaction that `blob` decodes to (where it decodes).
pub open spec fn signed_tx_of(blob: Seq<u8>) -> SignedTransaction {
    signed_tx_decoding(blob)->Ok_0
}

/// Decodes `blob` with `rmp_serde::from_slice` into an algonaut
/// `SignedTransaction`. The contract names the outcome `signed_tx_decoding`:
/// decoding is a function of the bytes alone; an error is shown by its
/// `Display` text.
#[verifier::external_body]
fn decode_signed_tx(blob: &[u8]) -> (r: Result<SignedTransaction, String>)
    ensures
        (r is Ok) == (signed_tx_decoding(blob@) is Ok),
        r is Ok ==> r->Ok_0 == signed_tx_decoding(blob@)->Ok_0,
        r is Err ==> r->Err_0@ == signed_tx_decoding(blob@)->Err_0,
{
    match rmp_serde::from_slice::<SignedTransaction>(blob) {
        Ok(tx) => Ok(tx),
        Err(e) => Err(format!("{}", e)),
    }
}

/// Whether the blob of a signed transaction decodes.
pub open spec fn decodes(tx: SignedTxFromJs) -> bool {
    signed_tx_decode_error(tx.blob@) is None
}

/// The error of a blob that does not decode.
pub open spec fn decode_error(tx: SignedTxFromJs) -> Seq<char> {
    signed_tx_decode_error(tx.blob@)->Some_0
}

/// A signed transaction decoded from a blob, together with that blob.
pub struct DecodedTx {
    pub tx: SignedTransaction,
    pub blob: Vec<u8>,
}

/// Whether `d` holds the blob `blob` and the transaction it decodes to.
pub open spec fn decoded_from(d: DecodedTx, blob: Seq<u8>) -> bool {
    d.blob@ == blob && d.tx == signed_tx_of(blob)
}

/// Whether `r` is the outcome of decoding `tx`: a transaction decoded from
/// `tx`'s blob where it decodes, the decoder's error otherwise.
pub open spec fn is_decode_result(r: Result<DecodedTx, String>, tx: SignedTxFromJs) -> bool {
    &&& (r is Ok) == decodes(tx)
    &&& r is Ok ==> decoded_from(r->Ok_0, tx.blob@)
    &&& r is Err ==> r->Err_0@ == decode_error(tx)
}

/// Decodes `blob`, keeping it beside the decoded transaction.
fn decode_blob(blob: &[u8]) -> (r: Result<DecodedTx, String>)
    ensures
        (r is Ok) == (signed_tx_decode_error(blob@) is None),
        r is Ok ==> decoded_from(r->Ok_0, blob@),
        r is Err ==> signed_tx_decode_error(blob@) == Some(r->Err_0@),
{
    match decode_signed_tx(blob) {
        Ok(tx) => Ok(DecodedTx { tx, blob: vstd::slice::slice_to_vec(blob) }),
        Err(e) => Err(e),
    }
}

/// Decodes the signed transaction that the frontend sent.
pub fn signed_js_tx_to_signed_tx(signed_js_tx: &SignedTxFromJs) -> (r: Result<DecodedTx, String>)
    ensures
        is_decode_result(r, *signed_js_tx),
{
    decode_blob(signed_js_tx.blob.as_slice())
}

/// Whether `r` is the outcome of decoding `txs` one after the other, stopping
/// at the first that fails: on success the `i`-th transaction is decoded
/// from the `i`-th blob.
pub open spec fn is_decode_all_result(r: Result<Vec<DecodedTx>, String>, txs: Seq<SignedTxFromJs>) -> bool {
    match r {
        Ok(decoded) => decoded.len() == txs.len() && forall|i: int|
            0 <= i < txs.len() ==> decodes(#[trigger] txs[i]) && decoded_from(decoded@[i], txs[i].blob@),
        Err(e) => exists|i: int|
            0 <= i < txs.len() && !decodes(#[trigger] txs[i]) && e@ == decode_error(txs[i])
                && forall|j: int| 0 <= j < i ==> decodes(#[trigger] txs[j]),
    }
}

/// Decodes the signed transactions that the frontend sent, in order; the
/// first that does not decode gives the error.
pub fn signed_js_txs_to_signed_tx(txs: &[SignedTxFromJs]) -> (r: Result<Vec<DecodedTx>, String>)
    ensures
        is_decode_all_result(r, txs@),
{
    let mut res: Vec<DecodedTx> = Vec::new();
    let mut i: usize = 0;
    while i < txs.len()
        invariant
            i <= txs.len(),
            res.len() == i,
            forall|j: int|
                0 <= j < i ==> decodes(#[trigger] txs@[j]) && decoded_from(res@[j], txs@[j].blob@),
        decreases txs.len() - i,
    {
        match signed_js_tx_to_signed_tx(&txs[i]) {
            Ok(tx) => {
                res.push(tx);
            },
            Err(e) => {
                assert(!decodes(txs@[i as int]));
                return Err(e);
            },
        }
        i = i + 1;
    }
    Ok(res)
}

/// The error of the first blob in `blobs` that does not decode, if any.
pub open spec fn first_decode_error(blobs: Seq<Seq<u8>>) -> Option<Seq<char>>
    decreases blobs.len(),
{
    if blobs.len() == 0 {
        None
    } else if signed_tx_decode_error(blobs[0]) is Some {
        signed_tx_decode_error(blobs[0])
    } else {
        first_decode_error(blobs.drop_first())
    }
}

/// The first error of two lists of blobs decoded one after the other is the
/// first error of the first list, or else that of the second.
pub proof fn lemma_first_decode_error_append(a: Seq<Seq<u8>>, b: Seq<Seq<u8>>)
    ensures
        first_decode_error(a + b) == if first_decode_error(a) is Some {
            first_decode_error(a)
        } else {
            first_decode_error(b)
        },
    decreases a.len(),
{
    if a.len() == 0 {
        assert(a + b =~= b);
    } else {
        assert((a + b).drop_first() =~= a.drop_first() + b);
        assert((a + b)[0] == a[0]);
        lemma_first_decode_error_append(a.drop_first(), b);
    }
}

/// The blobs of the signed transactions.
pub open spec fn blobs(txs: Seq<SignedTxFromJs>) -> Seq<Seq<u8>> {
    txs.map_values(|tx: SignedTxFromJs| tx.blob@)
}

/// Decodes a signed transaction that the frontend passed through as
/// MessagePack bytes.
pub fn decode_passthrough_tx(msg_pack: &[u8]) -> (r: Result<DecodedTx, String>)
    ensures
        (r is Ok) == (signed_tx_decode_error(msg_pack@) is None),
        r is Ok ==> decoded_from(r->Ok_0, msg_pack@),
        r is Err ==> signed_tx_decode_error(msg_pack@) == Some(r->Err_0@),
{
    decode_blob(msg_pack)
}

} // verus!
