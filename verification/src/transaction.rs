use vstd::prelude::*;
use vstd::string::StringSliceAdditionalSpecFns;

use crate::encoding::{hex_decode, hex_decoded};

verus! {

/// A decoded bitcoin transaction, carried through as it is.
#[verifier::external_type_specification]
#[verifier::external_body]
pub struct ExTransaction(bitcoin::Transaction);

/// A transaction identifier, carried through as it is.
#[verifier::external_type_specification]
#[verifier::external_body]
pub struct ExTxid(bitcoin::Txid);

/// The error type of bitcoin's consensus decoding, carried through as it is.
#[verifier::external_type_specification]
#[verifier::external_body]
pub struct ExEncodeError(bitcoin::consensus::encode::Error);

/// `Clone` of `bitcoin::Transaction`, which the crate derives: the copy
/// equals the original.
pub assume_specification[ <bitcoin::Transaction as Clone>::clone ](tx: &bitcoin::Transaction) -> (res: bitcoin::Transaction)
    ensures
        res == *tx,
;

/// `Clone` of `bitcoin::Txid`, which the crate derives (beside `Copy`):
/// the copy equals the original.
pub assume_specification[ <bitcoin::Txid as Clone>::clone ](id: &bitcoin::Txid) -> (res: bitcoin::Txid)
    ensures
        res == *id,
;

/// The transaction whose consensus encoding is `raw`, byte for byte and
/// with nothing left over; `None` when `raw` is no such encoding.
pub uninterp spec fn consensus_decoded(raw: Seq<u8>) -> Option<bitcoin::Transaction>;

/// Decodes a transaction with `bitcoin::consensus::encode::deserialize`.
/// That function decodes from the bytes alone and fails unless every byte
/// is consumed; the contract names its outcome `consensus_decoded`: success
/// exactly when that is `Some`, and then that transaction. Its decoding is
/// canonical (compact sizes must be minimal, the segwit marker requires a
/// non-empty witness, a transaction without inputs has one encoding), so
/// the contract also claims that no other bytes decode to the same
/// transaction: witness data is kept, not dropped.
#[verifier::external_body]
fn consensus_decode(raw: &[u8]) -> (res: Result<bitcoin::Transaction, bitcoin::consensus::encode::Error>)
    ensures
        res is Ok <==> consensus_decoded(raw@) is Some,
        res matches Ok(tx) ==> tx == consensus_decoded(raw@)->0,
        res matches Ok(tx) ==> forall|other: Seq<u8>|
            #[trigger] consensus_decoded(other) == Some(tx) ==> other == raw@,
{
    bitcoin::consensus::encode::deserialize(raw)
}

/// A compact-size integer of the consensus encoding read at position `i`:
/// its value and the position after it.
pub open spec fn compact_size_at(s: Seq<u8>, i: int) -> Option<(int, int)> {
    if i < 0 || i >= s.len() {
        None
    } else if s[i] < 0xfd {
        Some((s[i] as int, i + 1))
    } else if s[i] == 0xfd {
        if i + 3 <= s.len() {
            Some((s[i + 1] + 256 * s[i + 2], i + 3))
        } else {
            None
        }
    } else if s[i] == 0xfe {
        if i + 5 <= s.len() {
            Some((s[i + 1] + 256 * (s[i + 2] + 256 * (s[i + 3] + 256 * s[i + 4])), i + 5))
        } else {
            None
        }
    } else {
        if i + 9 <= s.len() {
            let low = s[i + 1] + 256 * (s[i + 2] + 256 * (s[i + 3] + 256 * s[i + 4]));
            let high = s[i + 5] + 256 * (s[i + 6] + 256 * (s[i + 7] + 256 * s[i + 8]));
            Some((low + 4294967296 * high, i + 9))
        } else {
            None
        }
    }
}

/// The position after `n` encoded inputs starting at `i` (each: a 36-byte
/// outpoint, a script with its compact size, a 4-byte sequence).
pub open spec fn after_inputs(s: Seq<u8>, i: int, n: nat) -> Option<int>
    decreases n,
{
    if n == 0 {
        Some(i)
    } else {
        match compact_size_at(s, i + 36) {
            Some((len, j)) => if len >= 0 && j + len + 4 <= s.len() {
                after_inputs(s, j + len + 4, (n - 1) as nat)
            } else {
                None
            },
            None => None,
        }
    }
}

/// The position after `n` encoded outputs starting at `i` (each: an 8-byte
/// amount, a script with its compact size).
pub open spec fn after_outputs(s: Seq<u8>, i: int, n: nat) -> Option<int>
    decreases n,
{
    if n == 0 {
        Some(i)
    } else {
        match compact_size_at(s, i + 8) {
            Some((len, j)) => if len >= 0 && j + len <= s.len() {
                after_outputs(s, j + len, (n - 1) as nat)
            } else {
                None
            },
            None => None,
        }
    }
}

/// The position after the input list and the output list, each with its
/// count, that start at `i`.
pub open spec fn after_inputs_and_outputs(s: Seq<u8>, i: int) -> Option<int> {
    match compact_size_at(s, i) {
        Some((n_in, j)) => match after_inputs(s, j, n_in as nat) {
            Some(k) => match compact_size_at(s, k) {
                Some((n_out, l)) => after_outputs(s, l, n_out as nat),
                None => None,
            },
            None => None,
        },
        None => None,
    }
}

/// The bytes of a transaction's encoding without its witness data: for the
/// segwit encoding (BIP 144: version, marker `00`, flag `01`, inputs,
/// outputs, witnesses, lock time) the version, inputs, outputs and lock
/// time; any other encoding as it is.
pub open spec fn non_witness_bytes(raw: Seq<u8>) -> Seq<u8> {
    if raw.len() >= 10 && raw[4] == 0 && raw[5] == 1 {
        match after_inputs_and_outputs(raw, 6) {
            Some(e) => if 6 <= e <= raw.len() - 4 {
                raw.take(4) + raw.subrange(6, e) + raw.skip(raw.len() - 4)
            } else {
                raw
            },
            None => raw,
        }
    } else {
        raw
    }
}

/// Reading within a prefix gives the same result in any longer sequence.
proof fn lemma_compact_size_prefix(s1: Seq<u8>, s2: Seq<u8>, i: int)
    requires
        s1.len() <= s2.len(),
        s2.take(s1.len() as int) == s1,
        compact_size_at(s1, i) is Some,
    ensures
        compact_size_at(s2, i) == compact_size_at(s1, i),
{
    assert forall|k: int| 0 <= k < s1.len() implies s2[k] == s1[k] by {
        assert(s2.take(s1.len() as int)[k] == s2[k]);
    }
}

proof fn lemma_after_inputs_prefix(s1: Seq<u8>, s2: Seq<u8>, i: int, n: nat)
    requires
        s1.len() <= s2.len(),
        s2.take(s1.len() as int) == s1,
        after_inputs(s1, i, n) is Some,
    ensures
        after_inputs(s2, i, n) == after_inputs(s1, i, n),
    decreases n,
{
    if n > 0 {
        lemma_compact_size_prefix(s1, s2, i + 36);
        let (len, j) = compact_size_at(s1, i + 36)->0;
        lemma_after_inputs_prefix(s1, s2, j + len + 4, (n - 1) as nat);
    }
}

proof fn lemma_after_outputs_prefix(s1: Seq<u8>, s2: Seq<u8>, i: int, n: nat)
    requires
        s1.len() <= s2.len(),
        s2.take(s1.len() as int) == s1,
        after_outputs(s1, i, n) is Some,
    ensures
        after_outputs(s2, i, n) == after_outputs(s1, i, n),
    decreases n,
{
    if n > 0 {
        lemma_compact_size_prefix(s1, s2, i + 8);
        let (len, j) = compact_size_at(s1, i + 8)->0;
        lemma_after_outputs_prefix(s1, s2, j + len, (n - 1) as nat);
    }
}

proof fn lemma_after_inputs_and_outputs_prefix(s1: Seq<u8>, s2: Seq<u8>, i: int)
    requires
        s1.len() <= s2.len(),
        s2.take(s1.len() as int) == s1,
        after_inputs_and_outputs(s1, i) is Some,
    ensures
        after_inputs_and_outputs(s2, i) == after_inputs_and_outputs(s1, i),
{
    lemma_compact_size_prefix(s1, s2, i);
    let (n_in, j) = compact_size_at(s1, i)->0;
    lemma_after_inputs_prefix(s1, s2, j, n_in as nat);
    let k = after_inputs(s1, j, n_in as nat)->0;
    lemma_compact_size_prefix(s1, s2, k);
    let (n_out, l) = compact_size_at(s1, k)->0;
    lemma_after_outputs_prefix(s1, s2, l, n_out as nat);
}

/// Witness data never reaches the bytes that identify a transaction: a
/// segwit encoding made of a version, the marker and flag, complete input
/// and output lists, any witness bytes, and a lock time has, once the
/// witness data is taken out, exactly the version, the input and output
/// lists and the lock time, whatever the witness bytes were.
pub proof fn lemma_witness_not_identifying(version: Seq<u8>, lists: Seq<u8>, witness: Seq<u8>, lock_time: Seq<u8>)
    requires
        version.len() == 4,
        lock_time.len() == 4,
        after_inputs_and_outputs(version + seq![0u8, 1u8] + lists, 6) == Some(6 + lists.len() as int),
    ensures
        non_witness_bytes(version + seq![0u8, 1u8] + lists + witness + lock_time) == version + lists
            + lock_time,
{
    let head = version + seq![0u8, 1u8] + lists;
    let raw = head + witness + lock_time;
    assert(raw.take(head.len() as int) =~= head);
    lemma_after_inputs_and_outputs_prefix(head, raw, 6);
    assert(raw[4] == 0 && raw[5] == 1);
    assert(raw.take(4) =~= version);
    assert(raw.subrange(6, 6 + lists.len() as int) =~= lists);
    assert(raw.skip(raw.len() - 4) =~= lock_time);
    assert(non_witness_bytes(raw) =~= version + lists + lock_time);
}

/// The identifier of a transaction: the double SHA-256 of its encoding
/// without witness data.
pub uninterp spec fn txid_of(tx: bitcoin::Transaction) -> bitcoin::Txid;

/// The identifier that `bitcoin::Transaction::txid` computes, which depends
/// on the transaction alone; the contract names it `txid_of`. The source
/// hashes the version, the inputs (whose encoding leaves out the witness),
/// the outputs and the lock time: so the contract also claims that
/// transactions whose encodings agree once the witness data is taken out
/// have the same identifier.
#[verifier::external_body]
pub(crate) fn transaction_id(tx: &bitcoin::Transaction) -> (res: bitcoin::Txid)
    ensures
        res == txid_of(*tx),
        forall|raw: Seq<u8>, other: Seq<u8>|
            #![trigger consensus_decoded(raw), consensus_decoded(other)]
            consensus_decoded(raw) == Some(*tx) && consensus_decoded(other) is Some
                && non_witness_bytes(other) == non_witness_bytes(raw) ==> txid_of(
                consensus_decoded(other)->0,
            ) == res,
{
    tx.txid()
}

/// Why the text that the node gave for a transaction could not be read.
#[derive(Debug, Clone, Copy, PartialEq, Eq, Structural)]
pub enum RawTransactionError {
    /// The text is not hexadecimal (odd length or a non-hex character).
    Hex,
    /// The bytes are not the consensus encoding of one transaction.
    Consensus,
}

/// Reads a transaction from the hexadecimal text that `getrawtransaction`
/// answers: the text is hex-decoded, then consensus-decoded.
pub fn decode_raw_transaction(hex: &str) -> (res: Result<bitcoin::Transaction, RawTransactionError>)
    ensures
        hex_decoded(hex.spec_bytes()) is None <==> res == Err::<bitcoin::Transaction, RawTransactionError>(RawTransactionError::Hex),
        res is Ok <==> (hex_decoded(hex.spec_bytes()) is Some && consensus_decoded(hex_decoded(hex.spec_bytes())->0) is Some),
        res matches Ok(tx) ==> tx == consensus_decoded(hex_decoded(hex.spec_bytes())->0)->0,
        res matches Ok(tx) ==> forall|other: Seq<u8>|
            #[trigger] consensus_decoded(other) == Some(tx) ==> other == hex_decoded(hex.spec_bytes())->0,
{
    let bytes = match hex_decode(hex.as_bytes()) {
        Ok(bytes) => bytes,
        Err(_) => return Err(RawTransactionError::Hex),
    };
    match consensus_decode(bytes.as_slice()) {
        Ok(tx) => Ok(tx),
        Err(_) => Err(RawTransactionError::Consensus),
    }
}

} // verus!
