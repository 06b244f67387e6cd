//! What the cancel and punish transactions share: spending one lock output
//! into one new output, signing that spend, reading keys out of the lock
//! script, and looking up the signatures stored under them.

use vstd::prelude::*;

use crate::codec::{bytes_eq, copy_bytes};
use crate::crypto::{
    ecdsa_sign, ecdsa_signature_of, ecdsa_verifies, ecdsa_verify, is_valid_public_key,
    is_valid_secret_key, valid_public_key, valid_secret_key,
};
use crate::error::{Error, FeeStrategyError};
use crate::fee::{fee_for, input_total, input_value, set_fee, FeePolitic, FeeStrategy};
use crate::script::{items_view, Instr, ScriptItem};
use crate::transaction::{
    segwit_sighash, shape_of, sighash_of, txid, txid_of, weight_of, ConsumableOutput, OutPoint,
    PartialSig, PartialTx, PsbtInput, PsbtOutput, TxIn, TxOut, UnsignedTx, UnsignedTxView,
};

verus! {

/// The signature hash type that commits to all inputs and outputs.
pub const SIGHASH_ALL: u32 = 1;

/// Optional bytes as plain values.
pub open spec fn opt_view(o: Option<Vec<u8>>) -> Option<Seq<u8>> {
    match o {
        Some(v) => Some(v@),
        None => None,
    }
}

/// Two optional byte strings hold the same bytes.
pub open spec fn same_opt_bytes(a: Option<Vec<u8>>, b: Option<Vec<u8>>) -> bool {
    opt_view(a) == opt_view(b)
}

/// A copy of optional bytes.
pub fn copy_opt_bytes(b: &Option<Vec<u8>>) -> (r: Option<Vec<u8>>)
    ensures
        opt_view(r) == opt_view(*b),
{
    match b {
        Some(v) => Some(copy_bytes(v)),
        None => None,
    }
}

/// The unsigned transaction, before its fee, that spends `prev` with
/// `sequence` into one output of the whole value locked by `out_script`:
/// version 2, lock time 0.
pub open spec fn spend_unsigned(prev: ConsumableOutput, sequence: u32, out_script: Seq<u8>) -> UnsignedTxView {
    (
        2i32,
        0u32,
        seq![TxIn { previous_output: prev.out_point, sequence }],
        seq![(prev.tx_out.value, out_script)],
    )
}

/// The fee of that spend.
pub open spec fn spend_fee(
    prev: ConsumableOutput,
    sequence: u32,
    out_script: Seq<u8>,
    strategy: FeeStrategy,
    politic: FeePolitic,
) -> int {
    fee_for(strategy, politic, weight_of(shape_of(spend_unsigned(prev, sequence, out_script))))
}

/// The shape of the spend, all but its output value: its input carries the
/// spent output, its witness script, and `SIGHASH_ALL`; its output carries
/// `out_witness`.
pub open spec fn spend_shape(
    tx: PartialTx,
    prev: ConsumableOutput,
    sequence: u32,
    out_script: Seq<u8>,
    out_witness: Option<Seq<u8>>,
) -> bool {
    let expected = spend_unsigned(prev, sequence, out_script);
    &&& tx.unsigned_tx.version == expected.0
    &&& tx.unsigned_tx.lock_time == expected.1
    &&& tx.unsigned_tx.input@ == expected.2
    &&& tx.unsigned_tx.output@.len() == 1
    &&& tx.unsigned_tx.output@[0].script_pubkey@ == out_script
    &&& tx.inputs@.len() == 1
    &&& match tx.inputs@[0].witness_utxo {
        Some(o) => o@ == prev.tx_out@,
        None => false,
    }
    &&& tx.inputs@[0].partial_sigs@.len() == 0
    &&& tx.inputs@[0].sighash_type == Some(SIGHASH_ALL)
    &&& same_opt_bytes(tx.inputs@[0].witness_script, prev.script_pubkey)
    &&& tx.inputs@[0].final_script_witness is None
    &&& tx.outputs@.len() == 1
    &&& opt_view(tx.outputs@[0].witness_script) == out_witness
}

/// What building the spend gives: the fee errors of the strategy, or the
/// spend whose output holds the spent value less the fee.
pub open spec fn spend_built(
    prev: ConsumableOutput,
    sequence: u32,
    out_script: Seq<u8>,
    out_witness: Option<Seq<u8>>,
    strategy: FeeStrategy,
    politic: FeePolitic,
    r: Result<PartialTx, Error>,
) -> bool {
    let fee = spend_fee(prev, sequence, out_script, strategy, politic);
    if fee > u64::MAX {
        r == Err::<PartialTx, Error>(Error::Fee(FeeStrategyError::AmountOfFeeTooHigh))
    } else if fee > prev.tx_out.value {
        r == Err::<PartialTx, Error>(Error::Fee(FeeStrategyError::NotEnoughAssets))
    } else {
        match r {
            Ok(tx) => spend_shape(tx, prev, sequence, out_script, out_witness)
                && tx.unsigned_tx.output@[0].value == prev.tx_out.value - fee,
            Err(_) => false,
        }
    }
}

/// Builds the spend of `prev` into `out_script` and sets its fee.
pub fn build_spend(
    prev: &ConsumableOutput,
    sequence: u32,
    out_script: Vec<u8>,
    out_witness: Option<Vec<u8>>,
    strategy: &FeeStrategy,
    politic: FeePolitic,
) -> (r: Result<PartialTx, Error>)
    ensures
        spend_built(*prev, sequence, out_script@, opt_view(out_witness), *strategy, politic, r),
        r is Ok ==> r->Ok_0.wf(),
{
    let ghost spk = out_script@;
    let ghost ows = opt_view(out_witness);
    let out = TxOut { value: prev.tx_out.value, script_pubkey: out_script };
    let txin = TxIn { previous_output: prev.out_point, sequence };
    let unsigned_tx = UnsignedTx { version: 2, lock_time: 0, input: vec![txin], output: vec![out] };
    let utxo = TxOut { value: prev.tx_out.value, script_pubkey: copy_bytes(&prev.tx_out.script_pubkey) };
    let input = PsbtInput {
        witness_utxo: Some(utxo),
        partial_sigs: Vec::new(),
        sighash_type: Some(SIGHASH_ALL),
        witness_script: copy_opt_bytes(&prev.script_pubkey),
        final_script_witness: None,
    };
    let mut psbt = PartialTx {
        unsigned_tx,
        inputs: vec![input],
        outputs: vec![PsbtOutput { witness_script: out_witness }],
    };
    proof {
        assert(psbt.unsigned_tx@.2 =~= spend_unsigned(*prev, sequence, spk).2);
        assert(psbt.unsigned_tx@.3 =~= spend_unsigned(*prev, sequence, spk).3);
        assert(psbt.inputs@.drop_last() =~= Seq::<PsbtInput>::empty());
        assert(input_total(psbt.inputs@.drop_last()) == 0);
        assert(input_total(psbt.inputs@) == input_value(psbt.inputs@[0]));
    }
    match set_fee(&mut psbt, strategy, politic) {
        Ok(_) => Ok(psbt),
        Err(e) => Err(Error::Fee(e)),
    }
}

/// The digest that a signature of the first input commits to, with its
/// witness script as script code, or the error for the data missing from
/// the input.
pub open spec fn first_input_digest(psbt: PartialTx) -> Result<Seq<u8>, Error> {
    let input = psbt.inputs@[0];
    match input.witness_utxo {
        None => Err(Error::MissingWitness),
        Some(o) => match input.witness_script {
            None => Err(Error::MissingWitness),
            Some(s) => match input.sighash_type {
                None => Err(Error::MissingSigHashType),
                Some(t) => Ok(sighash_of(psbt.unsigned_tx@, 0, s@, o.value, t)),
            },
        },
    }
}

/// The signature of the first input made with `privkey`.
pub open spec fn first_input_signature(psbt: PartialTx, privkey: Seq<u8>) -> Result<Seq<u8>, Error> {
    match first_input_digest(psbt) {
        Err(e) => Err(e),
        Ok(d) => if valid_secret_key(privkey) {
            Ok(ecdsa_signature_of(d, privkey))
        } else {
            Err(Error::ParseFailed)
        },
    }
}

/// The outcome of checking a signature of the first input.
pub open spec fn first_input_check(psbt: PartialTx, pubkey: Seq<u8>, sig: Seq<u8>) -> Result<(), Error> {
    match first_input_digest(psbt) {
        Err(e) => Err(e),
        Ok(d) => if ecdsa_verifies(d, pubkey, sig) {
            Ok(())
        } else {
            Err(Error::InvalidSignature)
        },
    }
}

/// Signs the first input with its witness script as script code, and its
/// spent value and signature hash type.
pub fn sign_first_input(psbt: &PartialTx, privkey: &Vec<u8>) -> (r: Result<Vec<u8>, Error>)
    requires
        psbt.inputs@.len() >= 1,
        psbt.unsigned_tx.input@.len() >= 1,
    ensures
        match r {
            Ok(s) => first_input_signature(*psbt, privkey@) == Ok::<Seq<u8>, Error>(s@),
            Err(e) => first_input_signature(*psbt, privkey@) == Err::<Seq<u8>, Error>(e),
        },
{
    let utxo = match &psbt.inputs[0].witness_utxo {
        Some(o) => o,
        None => {
            return Err(Error::MissingWitness);
        },
    };
    let script = match &psbt.inputs[0].witness_script {
        Some(s) => s,
        None => {
            return Err(Error::MissingWitness);
        },
    };
    let ty = match psbt.inputs[0].sighash_type {
        Some(t) => t,
        None => {
            return Err(Error::MissingSigHashType);
        },
    };
    if !is_valid_secret_key(privkey) {
        return Err(Error::ParseFailed);
    }
    let digest = segwit_sighash(&psbt.unsigned_tx, 0, script, utxo.value, ty);
    Ok(ecdsa_sign(&digest, privkey))
}

/// Checks a signature of the first input under `pubkey`, over the digest
/// that `sign_first_input` signs.
pub fn verify_first_input(psbt: &PartialTx, pubkey: &Vec<u8>, sig: &Vec<u8>) -> (r: Result<(), Error>)
    requires
        psbt.inputs@.len() >= 1,
        psbt.unsigned_tx.input@.len() >= 1,
    ensures
        r == first_input_check(*psbt, pubkey@, sig@),
{
    let utxo = match &psbt.inputs[0].witness_utxo {
        Some(o) => o,
        None => {
            return Err(Error::MissingWitness);
        },
    };
    let script = match &psbt.inputs[0].witness_script {
        Some(s) => s,
        None => {
            return Err(Error::MissingWitness);
        },
    };
    let ty = match psbt.inputs[0].sighash_type {
        Some(t) => t,
        None => {
            return Err(Error::MissingSigHashType);
        },
    };
    let digest = segwit_sighash(&psbt.unsigned_tx, 0, script, utxo.value, ty);
    if ecdsa_verify(&digest, pubkey, sig) {
        Ok(())
    } else {
        Err(Error::InvalidSignature)
    }
}

/// What linking to a transaction gives: its single output, with the
/// witness script that unlocks it.
pub open spec fn consumable_output_of(psbt: PartialTx, r: Result<ConsumableOutput, Error>) -> bool {
    if psbt.unsigned_tx.output@.len() != 1 {
        r == Err::<ConsumableOutput, Error>(Error::MultiUTXOUnsupported)
    } else {
        match r {
            Ok(o) => {
                &&& o.out_point.txid == txid_of(psbt.unsigned_tx@)
                &&& o.out_point.vout == 0
                &&& o.tx_out@ == psbt.unsigned_tx.output@[0]@
                &&& if psbt.outputs@.len() >= 1 {
                    same_opt_bytes(o.script_pubkey, psbt.outputs@[0].witness_script)
                } else {
                    o.script_pubkey is None
                }
            },
            Err(_) => false,
        }
    }
}

/// The key pushed at position `k` of the parsed lock script;
/// `MissingPublicKey` where no valid key is pushed there, whether the script
/// ends before, holds another opcode, or is cut short at that push.
pub open spec fn key_at(items: Seq<Instr>, k: int) -> Result<Seq<u8>, Error> {
    if k >= items.len() {
        Err(Error::MissingPublicKey)
    } else {
        match items[k] {
            Instr::Push(b) => if valid_public_key(b) {
                Ok(b)
            } else {
                Err(Error::MissingPublicKey)
            },
            Instr::Op(_) => Err(Error::MissingPublicKey),
            Instr::Invalid => Err(Error::MissingPublicKey),
        }
    }
}

/// The first signature stored under `key`.
pub open spec fn find_sig(sigs: Seq<PartialSig>, key: Seq<u8>) -> Option<Seq<u8>>
    decreases sigs.len(),
{
    if sigs.len() == 0 {
        None
    } else if sigs[0].pubkey@ == key {
        Some(sigs[0].sig@)
    } else {
        find_sig(sigs.drop_first(), key)
    }
}

/// Without an entry under `key`, there is no signature for it.
pub proof fn lemma_find_sig_none(sigs: Seq<PartialSig>, key: Seq<u8>)
    requires
        forall|m: int| 0 <= m < sigs.len() ==> (#[trigger] sigs[m]).pubkey@ != key,
    ensures
        find_sig(sigs, key) is None,
    decreases sigs.len(),
{
    if sigs.len() > 0 {
        let rest = sigs.drop_first();
        assert forall|m: int| 0 <= m < rest.len() implies (#[trigger] rest[m]).pubkey@ != key by {
            assert(rest[m] == sigs[m + 1]);
        }
        lemma_find_sig_none(rest, key);
    }
}

/// The signature for a key is the one of its first entry.
pub proof fn lemma_find_sig_first(sigs: Seq<PartialSig>, key: Seq<u8>, j: int)
    requires
        0 <= j < sigs.len(),
        sigs[j].pubkey@ == key,
        forall|m: int| 0 <= m < j ==> (#[trigger] sigs[m]).pubkey@ != key,
    ensures
        find_sig(sigs, key) == Some(sigs[j].sig@),
    decreases j,
{
    if j > 0 {
        let rest = sigs.drop_first();
        assert forall|m: int| 0 <= m < j - 1 implies (#[trigger] rest[m]).pubkey@ != key by {
            assert(rest[m] == sigs[m + 1]);
        }
        lemma_find_sig_first(rest, key, j - 1);
    }
}

/// Replacing an entry by one under the same key leaves the other keys'
/// signatures as they were.
pub proof fn lemma_find_sig_update(sigs: Seq<PartialSig>, j: int, x: PartialSig, key: Seq<u8>)
    requires
        0 <= j < sigs.len(),
        sigs[j].pubkey@ == x.pubkey@,
        key != x.pubkey@,
    ensures
        find_sig(sigs.update(j, x), key) == find_sig(sigs, key),
    decreases sigs.len(),
{
    if j > 0 {
        assert(sigs.update(j, x).drop_first() =~= sigs.drop_first().update(j - 1, x));
        lemma_find_sig_update(sigs.drop_first(), j - 1, x, key);
    } else {
        assert(sigs.update(j, x).drop_first() =~= sigs.drop_first());
    }
}

/// Appending an entry gives its signature to its key only where that key
/// had none.
pub proof fn lemma_find_sig_push(sigs: Seq<PartialSig>, x: PartialSig, key: Seq<u8>)
    ensures
        find_sig(sigs.push(x), key) == (match find_sig(sigs, key) {
            Some(s) => Some(s),
            None => if x.pubkey@ == key {
                Some(x.sig@)
            } else {
                None
            },
        }),
    decreases sigs.len(),
{
    if sigs.len() > 0 {
        assert(sigs.push(x)[0] == sigs[0]);
        assert(sigs.push(x).drop_first() =~= sigs.drop_first().push(x));
        lemma_find_sig_push(sigs.drop_first(), x, key);
    } else {
        assert(sigs.push(x)[0] == x);
        assert(sigs.push(x).drop_first() =~= Seq::<PartialSig>::empty());
        assert(find_sig(Seq::<PartialSig>::empty(), key) is None);
    }
}

/// The position of the first entry stored under `key`.
pub(crate) fn find_key_index(sigs: &Vec<PartialSig>, key: &Vec<u8>) -> (r: Option<usize>)
    ensures
        match r {
            Some(j) => j < sigs@.len() && sigs@[j as int].pubkey@ == key@ && forall|m: int|
                0 <= m < j ==> (#[trigger] sigs@[m]).pubkey@ != key@,
            None => forall|m: int| 0 <= m < sigs@.len() ==> (#[trigger] sigs@[m]).pubkey@ != key@,
        },
{
    let mut i: usize = 0;
    while i < sigs.len()
        invariant
            i <= sigs@.len(),
            forall|m: int| 0 <= m < i ==> (#[trigger] sigs@[m]).pubkey@ != key@,
        decreases sigs.len() - i,
    {
        if sigs[i].pubkey.len() == key.len() && bytes_eq(&sigs[i].pubkey, key) {
            return Some(i);
        }
        i = i + 1;
    }
    None
}

/// A witness stack holds exactly the given items.
pub open spec fn stack_is(w: Vec<Vec<u8>>, items: Seq<Seq<u8>>) -> bool {
    &&& w@.len() == items.len()
    &&& forall|i: int| 0 <= i < items.len() ==> (#[trigger] w@[i])@ == items[i]
}

/// `after` is `before` with only the final witness of its first input set.
pub open spec fn witness_set(before: PartialTx, after: PartialTx, items: Seq<Seq<u8>>) -> bool {
    &&& after.unsigned_tx == before.unsigned_tx
    &&& after.outputs == before.outputs
    &&& after.inputs@.len() == before.inputs@.len()
    &&& forall|i: int| 0 < i < before.inputs@.len() ==> after.inputs@[i] == before.inputs@[i]
    &&& after.inputs@[0].witness_utxo == before.inputs@[0].witness_utxo
    &&& after.inputs@[0].partial_sigs == before.inputs@[0].partial_sigs
    &&& after.inputs@[0].sighash_type == before.inputs@[0].sighash_type
    &&& after.inputs@[0].witness_script == before.inputs@[0].witness_script
    &&& match after.inputs@[0].final_script_witness {
        Some(w) => stack_is(w, items),
        None => false,
    }
}

/// Looks up the first signature stored under `key`.
pub(crate) fn lookup_sig(sigs: &Vec<PartialSig>, key: &Vec<u8>) -> (r: Option<Vec<u8>>)
    ensures
        match r {
            Some(s) => find_sig(sigs@, key@) == Some(s@),
            None => find_sig(sigs@, key@) is None,
        },
{
    let mut i: usize = 0;
    assert(sigs@.subrange(0, sigs@.len() as int) =~= sigs@);
    while i < sigs.len()
        invariant
            i <= sigs@.len(),
            find_sig(sigs@, key@) == find_sig(sigs@.subrange(i as int, sigs@.len() as int), key@),
        decreases sigs.len() - i,
    {
        let ghost rest = sigs@.subrange(i as int, sigs@.len() as int);
        assert(rest.drop_first() =~= sigs@.subrange(i + 1, sigs@.len() as int));
        if sigs[i].pubkey.len() == key.len() && bytes_eq(&sigs[i].pubkey, key) {
            return Some(copy_bytes(&sigs[i].sig));
        }
        i = i + 1;
    }
    None
}

/// Reads the key pushed at position `k` of the parsed lock script.
pub(crate) fn read_key(items: &Vec<ScriptItem>, k: usize) -> (r: Result<Vec<u8>, Error>)
    ensures
        match r {
            Ok(b) => key_at(items_view(items@), k as int) == Ok::<Seq<u8>, Error>(b@),
            Err(e) => key_at(items_view(items@), k as int) == Err::<Seq<u8>, Error>(e),
        },
{
    if k >= items.len() {
        return Err(Error::MissingPublicKey);
    }
    match &items[k] {
        ScriptItem::Push(b) => {
            if is_valid_public_key(b) {
                Ok(copy_bytes(b))
            } else {
                Err(Error::MissingPublicKey)
            }
        },
        ScriptItem::Op(_) => Err(Error::MissingPublicKey),
        ScriptItem::Invalid => Err(Error::MissingPublicKey),
    }
}

/// The output of a single-output transaction, as a later transaction
/// spends it.
pub fn consumable_output(psbt: &PartialTx) -> (r: Result<ConsumableOutput, Error>)
    ensures
        consumable_output_of(*psbt, r),
{
    if psbt.unsigned_tx.output.len() != 1 {
        return Err(Error::MultiUTXOUnsupported);
    }
    let id = txid(&psbt.unsigned_tx);
    let out = &psbt.unsigned_tx.output[0];
    let tx_out = TxOut { value: out.value, script_pubkey: copy_bytes(&out.script_pubkey) };
    let script_pubkey = if psbt.outputs.len() >= 1 {
        copy_opt_bytes(&psbt.outputs[0].witness_script)
    } else {
        None
    };
    Ok(ConsumableOutput { out_point: OutPoint { txid: id, vout: 0 }, tx_out, script_pubkey })
}

} // verus!
