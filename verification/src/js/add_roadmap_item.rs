//! The parent of a new roadmap item: the hash of an earlier item, given as
//! base64 text.

use vstd::prelude::*;
use crate::number_text::{dec_digits, u64_to_string, usize_to_string};
use crate::text::concat_str;

verus! {

/// What `data_encoding::BASE64.decode` gives for the bytes `input`: the
/// decoded bytes, or the text of the `DecodeError`.
pub uninterp spec fn base64_decode(input: Seq<u8>) -> Result<Seq<u8>, Seq<char>>;

/// Decodes base64 text with `data_encoding::BASE64.decode`. The contract
/// names the result `base64_decode`; the error is shown by its `Display`.
#[verifier::external_body]
fn decode_base64(input: &[u8]) -> (r: Result<Vec<u8>, String>)
    ensures
        match r {
            Ok(bytes) => base64_decode(input@) is Ok && base64_decode(input@)->Ok_0 == bytes@,
            Err(e) => base64_decode(input@) is Err && base64_decode(input@)->Err_0 == e@,
        },
{
    match data_encoding::BASE64.decode(input) {
        Ok(bytes) => Ok(bytes),
        Err(e) => Err(e.to_string()),
    }
}

/// A hash: 32 bytes.
#[derive(Debug, Clone, Copy, PartialEq, Eq)]
pub struct HashDigest(pub [u8; 32]);

/// The text of a list of bytes, as `Debug` shows it: `[1, 2, 3]`.
pub open spec fn bytes_debug_text(bytes: Seq<u8>) -> Seq<char> {
    "["@ + bytes_list_text(bytes) + "]"@
}

/// The numbers of the bytes, separated by `, `.
pub open spec fn bytes_list_text(bytes: Seq<u8>) -> Seq<char>
    decreases bytes.len(),
{
    if bytes.len() == 0 {
        Seq::empty()
    } else if bytes.len() == 1 {
        dec_digits(bytes[0] as nat)
    } else {
        bytes_list_text(bytes.drop_last()) + ", "@ + dec_digits(bytes.last() as nat)
    }
}

/// `format!("{:?}", bytes)` for a list of bytes.
pub fn bytes_debug_string(bytes: &Vec<u8>) -> (s: String)
    ensures
        s@ == bytes_debug_text(bytes@),
{
    let mut s = "[".to_owned();
    let mut i: usize = 0;
    proof {
        assert(bytes@.subrange(0, 0) =~= Seq::<u8>::empty());
    }
    while i < bytes.len()
        invariant
            i <= bytes@.len(),
            s@ == "["@ + bytes_list_text(bytes@.subrange(0, i as int)),
        decreases bytes@.len() - i,
    {
        let ghost prev = s@;
        if i > 0 {
            s = concat_str(s.as_str(), ", ");
        }
        s = concat_str(s.as_str(), u64_to_string(bytes[i] as u64).as_str());
        proof {
            let t = bytes@.subrange(0, i + 1);
            assert(t.drop_last() =~= bytes@.subrange(0, i as int));
            assert(t.last() == bytes@[i as int]);
            if i == 0 {
                assert(bytes@.subrange(0, 0) =~= Seq::<u8>::empty());
            }
        }
        i = i + 1;
    }
    assert(bytes@.subrange(0, i as int) =~= bytes@);
    concat_str(s.as_str(), "]")
}

/// The error for decoded bytes that are no hash (not 32 of them).
pub open spec fn hash_length_message(bytes: Seq<u8>) -> Seq<char> {
    "Couldn't convert bytes(len: "@ + dec_digits(bytes.len()) + "): "@ + bytes_debug_text(bytes)
        + " into hash. e: "@ + bytes_debug_text(bytes)
}

/// The hash that a parent's text gives, where there is a parent: its text
/// is decoded from base64 and must give 32 bytes.
pub fn hash_str_option_to_hash_option(hash_str: Option<String>) -> (r: Result<
    Option<HashDigest>,
    String,
>)
    ensures
        match hash_str {
            None => r matches Ok(None),
            Some(text) => {
                let decoded = base64_decode(encode_utf8_of(text@));
                match decoded {
                    Err(msg) => r matches Err(e) && e@ == msg,
                    Ok(bytes) => if bytes.len() == 32 {
                        r matches Ok(Some(h)) && h.0@ == bytes
                    } else {
                        r matches Err(e) && e@ == hash_length_message(bytes)
                    },
                }
            },
        },
{
    match hash_str {
        None => Ok(None),
        Some(hash_str) => {
            let bytes = match decode_base64(hash_str.as_str().as_bytes()) {
                Ok(b) => b,
                Err(e) => {
                    return Err(e);
                },
            };
            if bytes.len() == 32 {
                let mut digest: [u8; 32] = [0u8; 32];
                let mut i: usize = 0;
                while i < 32
                    invariant
                        bytes@.len() == 32,
                        i <= 32,
                        forall|k: int| 0 <= k < i ==> digest@[k] == bytes@[k],
                    decreases 32 - i,
                {
                    digest.set(i, bytes[i]);
                    i = i + 1;
                }
                assert(digest@ =~= bytes@);
                Ok(Some(HashDigest(digest)))
            } else {
                let text = concat_str("Couldn't convert bytes(len: ", usize_to_string(bytes.len()).as_str());
                let text = concat_str(text.as_str(), "): ");
                let listed = bytes_debug_string(&bytes);
                let text = concat_str(text.as_str(), listed.as_str());
                let text = concat_str(text.as_str(), " into hash. e: ");
                Err(concat_str(text.as_str(), listed.as_str()))
            }
        },
    }
}

/// The UTF-8 bytes of a text.
pub open spec fn encode_utf8_of(s: Seq<char>) -> Seq<u8> {
    vstd::utf8::encode_utf8(s)
}

} // verus!
