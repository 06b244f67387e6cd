//! The cancel transaction: spends the lock through its timelocked branch and
//! creates the punishable lock.

use vstd::prelude::*;

use crate::codec::{bytes_eq, copy_bytes};
use crate::crypto::valid_public_key;
use crate::error::Error;
use crate::fee::{FeePolitic, FeeStrategy};
use crate::script::{
    instructions, items_view, lemma_lock_failure_keys, lock_script_bytes, p2wsh_bytes,
    parse_script, punishable_script_bytes, to_v0_p2wsh, DataLock, DataPunishableLock, Instr,
    ScriptItem,
};
use crate::spend::{
    build_spend, consumable_output, consumable_output_of, find_key_index, find_sig,
    first_input_check, first_input_signature, key_at, lemma_find_sig_first, lemma_find_sig_none,
    lemma_find_sig_push, lemma_find_sig_update, lookup_sig, read_key, sign_first_input,
    spend_built, verify_first_input, witness_set,
};
use crate::transaction::{
    extract, extract_result, is_finalized, stack_view, ArbitratingTransaction, Broadcastable,
    Cancelable, ConsumableOutput, Cooperable, Finalizable, Forkable, Linkable, PartialSig,
    PartialTx, SignedTx, Tx, unique_keys,
};

verus! {

/// The position, among the instructions of the lock script, of Alice's key
/// of the timelocked multisig; Bob's follows it.
pub const CANCEL_KEY_POSITION: usize = 11;

/// Marker of the cancel transaction.
#[derive(Debug, Clone, Copy)]
pub struct Cancel;

/// What checking the cancel transaction against its template gives: one
/// input spending the lock's script with the lock's timelock as sequence,
/// and one output to the punishable lock's script hash.
pub open spec fn template_check(psbt: PartialTx, lock: DataLock, punish_lock: DataPunishableLock) -> Result<
    (),
    Error,
> {
    if psbt.inputs@.len() != 1 || psbt.unsigned_tx.input@.len() != 1
        || psbt.unsigned_tx.output@.len() != 1 {
        Err(Error::TemplateMismatch)
    } else {
        match psbt.inputs@[0].witness_script {
            None => Err(Error::MissingWitness),
            Some(ws) => if ws@ == lock_script_bytes(lock) && psbt.unsigned_tx.input@[0].sequence
                == lock.timelock && psbt.unsigned_tx.output@[0].script_pubkey@ == p2wsh_bytes(
                punishable_script_bytes(punish_lock),
            ) {
                Ok(())
            } else {
                Err(Error::TemplateMismatch)
            },
        }
    }
}

/// `after` is `before` with `sig` stored under `pubkey` in its first input.
pub open spec fn cooperation_added(before: PartialTx, after: PartialTx, pubkey: Seq<u8>, sig: Seq<u8>) -> bool {
    let b = before.inputs@[0];
    let a = after.inputs@[0];
    &&& after.unsigned_tx == before.unsigned_tx
    &&& after.outputs == before.outputs
    &&& after.inputs@.len() == before.inputs@.len()
    &&& forall|i: int| 0 < i < before.inputs@.len() ==> after.inputs@[i] == before.inputs@[i]
    &&& a.witness_utxo == b.witness_utxo
    &&& a.sighash_type == b.sighash_type
    &&& a.witness_script == b.witness_script
    &&& a.final_script_witness == b.final_script_witness
    &&& find_sig(a.partial_sigs@, pubkey) == Some(sig)
    &&& forall|k: Seq<u8>| k != pubkey ==> #[trigger] find_sig(a.partial_sigs@, k) == find_sig(b.partial_sigs@, k)
    &&& unique_keys(b.partial_sigs@) ==> unique_keys(a.partial_sigs@)
    &&& before.wf() ==> after.wf()
}

/// What finalizing the cancel transaction does, given its witness script
/// and the instructions parsed from it: the result, and the transaction
/// afterwards.
pub open spec fn cancel_finalized_with(
    before: PartialTx,
    after: PartialTx,
    script: Seq<u8>,
    items: Seq<Instr>,
    r: Result<(), Error>,
) -> bool {
    let sigs = before.inputs@[0].partial_sigs@;
    match key_at(items, CANCEL_KEY_POSITION as int) {
        Err(e) => r == Err::<(), Error>(e) && after == before,
        Ok(ka) => match find_sig(sigs, ka) {
            None => r == Err::<(), Error>(Error::MissingSignature) && after == before,
            Some(sa) => match key_at(items, CANCEL_KEY_POSITION as int + 1) {
                Err(e) => r == Err::<(), Error>(e) && after == before,
                Ok(kb) => match find_sig(sigs, kb) {
                    None => r == Err::<(), Error>(Error::MissingSignature) && after == before,
                    Some(sb) => r == Ok::<(), Error>(()) && witness_set(
                        before,
                        after,
                        seq![seq![], sa, sb, seq![], script],
                    ),
                },
            },
        },
    }
}

/// What finalizing the cancel transaction does: the result, and the
/// transaction afterwards.
pub open spec fn cancel_finalized(before: PartialTx, after: PartialTx, r: Result<(), Error>) -> bool {
    match before.inputs@[0].witness_script {
        None => r == Err::<(), Error>(Error::MissingWitness) && after == before,
        Some(ws) => cancel_finalized_with(before, after, ws@, parse_script(ws@), r),
    }
}

/// Finalizing twice changes nothing more: the second call succeeds with the
/// witness stack of the first.
pub proof fn lemma_cancel_finalize_idempotent(
    before: PartialTx,
    once: PartialTx,
    twice: PartialTx,
    r: Result<(), Error>,
)
    requires
        before.inputs@.len() >= 1,
        cancel_finalized(before, once, Ok::<(), Error>(())),
        cancel_finalized(once, twice, r),
    ensures
        r is Ok,
        stack_view(twice.inputs@[0].final_script_witness->Some_0) == stack_view(
            once.inputs@[0].final_script_witness->Some_0,
        ),
{
    let w1 = once.inputs@[0].final_script_witness->Some_0;
    let w2 = twice.inputs@[0].final_script_witness->Some_0;
    assert(stack_view(w1) =~= stack_view(w2));
}

/// Finalizing a cancel transaction whose witness script is the lock's
/// script puts the signatures stored under the lock's failure keys, Alice's
/// then Bob's, into the witness.
pub proof fn lemma_cancel_finalize_uses_failure_keys(
    before: PartialTx,
    after: PartialTx,
    r: Result<(), Error>,
    lock: DataLock,
    sig_alice: Seq<u8>,
    sig_bob: Seq<u8>,
)
    requires
        lock.wf(),
        before.inputs@.len() >= 1,
        before.inputs@[0].witness_script is Some,
        before.inputs@[0].witness_script->Some_0@ == lock_script_bytes(lock),
        valid_public_key(lock.failure.alice@),
        valid_public_key(lock.failure.bob@),
        find_sig(before.inputs@[0].partial_sigs@, lock.failure.alice@) == Some(sig_alice),
        find_sig(before.inputs@[0].partial_sigs@, lock.failure.bob@) == Some(sig_bob),
        cancel_finalized(before, after, r),
    ensures
        r is Ok,
        witness_set(before, after, seq![seq![], sig_alice, sig_bob, seq![], lock_script_bytes(lock)]),
{
    lemma_lock_failure_keys(lock);
}

impl Cancel {
    /// Assembles the witness that spends the lock through its timelocked
    /// multisig: `[empty, sig_alice, sig_bob, empty, script]`. The two keys
    /// are the pushes that follow the threshold of that branch in the
    /// input's witness script, and their signatures are looked up among the
    /// input's partial signatures.
    pub fn finalize(psbt: &mut PartialTx) -> (r: Result<(), Error>)
        requires
            old(psbt).inputs@.len() >= 1,
        ensures
            cancel_finalized(*old(psbt), *final(psbt), r),
            old(psbt).wf() ==> final(psbt).wf(),
    {
        let script = match &psbt.inputs[0].witness_script {
            Some(s) => copy_bytes(s),
            None => {
                return Err(Error::MissingWitness);
            },
        };
        let items = instructions(&script);
        Cancel::finalize_parsed(psbt, script, &items)
    }

    /// Assembles the witness `[empty, sig_alice, sig_bob, empty, script]`
    /// from the instructions parsed from `script`: the keys are the pushes
    /// at the two positions that follow the threshold of the timelocked
    /// multisig.
    pub fn finalize_parsed(psbt: &mut PartialTx, script: Vec<u8>, items: &Vec<ScriptItem>) -> (r: Result<(), Error>)
        requires
            old(psbt).inputs@.len() >= 1,
        ensures
            cancel_finalized_with(*old(psbt), *final(psbt), script@, items_view(items@), r),
            old(psbt).wf() ==> final(psbt).wf(),
    {
        let key_a = read_key(items, CANCEL_KEY_POSITION)?;
        let sig_a = match lookup_sig(&psbt.inputs[0].partial_sigs, &key_a) {
            Some(s) => s,
            None => {
                return Err(Error::MissingSignature);
            },
        };
        let key_b = read_key(items, CANCEL_KEY_POSITION + 1)?;
        let sig_b = match lookup_sig(&psbt.inputs[0].partial_sigs, &key_b) {
            Some(s) => s,
            None => {
                return Err(Error::MissingSignature);
            },
        };
        let mut w: Vec<Vec<u8>> = Vec::new();
        w.push(Vec::new());
        w.push(sig_a);
        w.push(sig_b);
        w.push(Vec::new());
        w.push(script);
        psbt.inputs[0].final_script_witness = Some(w);
        Ok(())
    }

    /// Checks the transaction against the template that the lock data give.
    pub fn verify_template(psbt: &PartialTx, lock: &DataLock, punish_lock: &DataPunishableLock) -> (r: Result<(), Error>)
        requires
            lock.wf(),
            punish_lock.wf(),
        ensures
            r == template_check(*psbt, *lock, *punish_lock),
    {
        if psbt.inputs.len() != 1 || psbt.unsigned_tx.input.len() != 1 || psbt.unsigned_tx.output.len() != 1 {
            return Err(Error::TemplateMismatch);
        }
        let ws = match &psbt.inputs[0].witness_script {
            Some(s) => s,
            None => {
                return Err(Error::MissingWitness);
            },
        };
        let expected_in = lock.script();
        let expected_out = to_v0_p2wsh(&punish_lock.script());
        let spk = &psbt.unsigned_tx.output[0].script_pubkey;
        if ws.len() == expected_in.len() && bytes_eq(ws, &expected_in)
            && psbt.unsigned_tx.input[0].sequence == lock.timelock && spk.len() == expected_out.len()
            && bytes_eq(spk, &expected_out) {
            Ok(())
        } else {
            Err(Error::TemplateMismatch)
        }
    }

    /// Stores a counterparty signature under its public key in the first
    /// input, in place of any signature stored under that key before;
    /// `MissingWitness` if there is no input.
    pub fn add_cooperation(psbt: &mut PartialTx, pubkey: Vec<u8>, sig: Vec<u8>) -> (r: Result<(), Error>)
        ensures
            old(psbt).inputs@.len() == 0 ==> r == Err::<(), Error>(Error::MissingWitness)
                && *final(psbt) == *old(psbt),
            old(psbt).inputs@.len() > 0 ==> r is Ok && cooperation_added(
                *old(psbt),
                *final(psbt),
                pubkey@,
                sig@,
            ),
    {
        if psbt.inputs.len() == 0 {
            return Err(Error::MissingWitness);
        }
        let ghost before = psbt.inputs@[0].partial_sigs@;
        let ghost (pk, sg) = (pubkey@, sig@);
        match find_key_index(&psbt.inputs[0].partial_sigs, &pubkey) {
            Some(j) => {
                let ghost x = PartialSig { pubkey, sig };
                psbt.inputs[0].partial_sigs[j] = PartialSig { pubkey, sig };
                proof {
                    let after = psbt.inputs@[0].partial_sigs@;
                    assert(after =~= before.update(j as int, x));
                    assert(after[j as int] == x);
                    lemma_find_sig_first(after, pk, j as int);
                    assert forall|k: Seq<u8>| k != pk implies #[trigger] find_sig(after, k) == find_sig(before, k) by {
                        lemma_find_sig_update(before, j as int, x, k);
                    }
                    assert forall|a: int, b: int| unique_keys(before) && 0 <= a < b < after.len() implies #[trigger] after[a].pubkey@ != #[trigger] after[b].pubkey@ by {
                        assert(after[a].pubkey@ == before[a].pubkey@);
                        assert(after[b].pubkey@ == before[b].pubkey@);
                    }
                }
            },
            None => {
                let ghost x = PartialSig { pubkey, sig };
                psbt.inputs[0].partial_sigs.push(PartialSig { pubkey, sig });
                proof {
                    let after = psbt.inputs@[0].partial_sigs@;
                    assert(after =~= before.push(x));
                    lemma_find_sig_none(before, pk);
                    lemma_find_sig_push(before, x, pk);
                    assert forall|k: Seq<u8>| k != pk implies #[trigger] find_sig(after, k) == find_sig(before, k) by {
                        lemma_find_sig_push(before, x, k);
                    }
                    assert forall|a: int, b: int| unique_keys(before) && 0 <= a < b < after.len() implies #[trigger] after[a].pubkey@ != #[trigger] after[b].pubkey@ by {
                        if b == before.len() {
                            assert(after[a] == before[a]);
                        }
                    }
                }
            },
        }
        Ok(())
    }

    /// Builds the cancel transaction on the lock's consumable output: the
    /// whole value, less the fee, goes to the punishable lock's script hash,
    /// and the input waits for the lock's timelock. The cancel path must open
    /// before the punish path: `InvalidTimelock` unless the lock's timelock
    /// is below the punishable lock's.
    pub fn initialize(
        prev: &ConsumableOutput,
        lock: &DataLock,
        punish_lock: &DataPunishableLock,
        strategy: &FeeStrategy,
        politic: FeePolitic,
    ) -> (r: Result<PartialTx, Error>)
        requires
            punish_lock.wf(),
        ensures
            lock.timelock >= punish_lock.timelock ==> r == Err::<PartialTx, Error>(
                Error::InvalidTimelock,
            ),
            lock.timelock < punish_lock.timelock ==> spend_built(
                *prev,
                lock.timelock,
                p2wsh_bytes(punishable_script_bytes(*punish_lock)),
                Some(punishable_script_bytes(*punish_lock)),
                *strategy,
                politic,
                r,
            ),
    {
        if lock.timelock >= punish_lock.timelock {
            return Err(Error::InvalidTimelock);
        }
        let script = punish_lock.script();
        let spk = to_v0_p2wsh(&script);
        build_spend(prev, lock.timelock, spk, Some(script), strategy, politic)
    }

    /// Signs the input for the timelocked branch of the lock it spends, with
    /// the witness script as script code and the spent value and signature
    /// hash type of the input.
    pub fn generate_failure_witness(psbt: &PartialTx, privkey: &Vec<u8>) -> (r: Result<Vec<u8>, Error>)
        requires
            psbt.inputs@.len() >= 1,
            psbt.unsigned_tx.input@.len() >= 1,
        ensures
            match r {
                Ok(s) => first_input_signature(*psbt, privkey@) == Ok::<Seq<u8>, Error>(s@),
                Err(e) => first_input_signature(*psbt, privkey@) == Err::<Seq<u8>, Error>(e),
            },
    {
        sign_first_input(psbt, privkey)
    }

    /// Checks a signature of the timelocked branch under `pubkey`, over the
    /// same digest that `generate_failure_witness` signs.
    pub fn verify_failure_witness(psbt: &PartialTx, pubkey: &Vec<u8>, sig: &Vec<u8>) -> (r: Result<(), Error>)
        requires
            psbt.inputs@.len() >= 1,
            psbt.unsigned_tx.input@.len() >= 1,
        ensures
            r == first_input_check(*psbt, pubkey@, sig@),
    {
        verify_first_input(psbt, pubkey, sig)
    }
}

impl ArbitratingTransaction for Tx<Cancel> {
    open spec fn partial(&self) -> PartialTx {
        self.psbt
    }

    fn to_partial(&self) -> (r: &PartialTx) {
        &self.psbt
    }
}

impl Cooperable for Tx<Cancel> {
    open spec fn cooperated(&self, after: Self, pubkey: Seq<u8>, sig: Seq<u8>, r: Result<(), Error>) -> bool {
        if self.psbt.inputs@.len() == 0 {
            r == Err::<(), Error>(Error::MissingWitness) && after == *self
        } else {
            r is Ok && cooperation_added(self.psbt, after.psbt, pubkey, sig)
        }
    }

    fn add_cooperation(&mut self, pubkey: Vec<u8>, sig: Vec<u8>) -> (r: Result<(), Error>) {
        Cancel::add_cooperation(&mut self.psbt, pubkey, sig)
    }
}

impl Finalizable for Tx<Cancel> {
    open spec fn finalized(&self) -> bool {
        is_finalized(self.psbt)
    }

    open spec fn finalize_outcome(&self, after: Self, r: Result<(), Error>) -> bool {
        if self.psbt.inputs@.len() != 1 || self.psbt.unsigned_tx.input@.len() != 1 {
            r == Err::<(), Error>(Error::MissingWitness) && after == *self
        } else {
            cancel_finalized(self.psbt, after.psbt, r)
        }
    }

    fn finalize(&mut self) -> (r: Result<(), Error>) {
        if self.psbt.inputs.len() != 1 || self.psbt.unsigned_tx.input.len() != 1 {
            return Err(Error::MissingWitness);
        }
        Cancel::finalize(&mut self.psbt)
    }
}

impl Broadcastable for Tx<Cancel> {
    open spec fn extracted(&self, r: Result<SignedTx, Error>) -> bool {
        extract_result(self.psbt, r)
    }

    fn extract(&self) -> (r: Result<SignedTx, Error>) {
        extract(&self.psbt)
    }
}

impl Linkable for Tx<Cancel> {
    open spec fn linked(&self, r: Result<ConsumableOutput, Error>) -> bool {
        consumable_output_of(self.psbt, r)
    }

    fn get_consumable_output(&self) -> (r: Result<ConsumableOutput, Error>) {
        consumable_output(&self.psbt)
    }
}

impl Forkable for Tx<Cancel> {
    open spec fn failure_signed(&self, privkey: Seq<u8>, r: Result<Seq<u8>, Error>) -> bool {
        if self.psbt.inputs@.len() == 0 || self.psbt.unsigned_tx.input@.len() == 0 {
            r == Err::<Seq<u8>, Error>(Error::MissingWitness)
        } else {
            r == first_input_signature(self.psbt, privkey)
        }
    }

    open spec fn failure_checked(&self, pubkey: Seq<u8>, sig: Seq<u8>, r: Result<(), Error>) -> bool {
        if self.psbt.inputs@.len() == 0 || self.psbt.unsigned_tx.input@.len() == 0 {
            r == Err::<(), Error>(Error::MissingWitness)
        } else {
            r == first_input_check(self.psbt, pubkey, sig)
        }
    }

    fn generate_failure_witness(&self, privkey: &Vec<u8>) -> (r: Result<Vec<u8>, Error>) {
        if self.psbt.inputs.len() == 0 || self.psbt.unsigned_tx.input.len() == 0 {
            return Err(Error::MissingWitness);
        }
        Cancel::generate_failure_witness(&self.psbt, privkey)
    }

    fn verify_failure_witness(&self, pubkey: &Vec<u8>, sig: &Vec<u8>) -> (r: Result<(), Error>) {
        if self.psbt.inputs.len() == 0 || self.psbt.unsigned_tx.input.len() == 0 {
            return Err(Error::MissingWitness);
        }
        Cancel::verify_failure_witness(&self.psbt, pubkey, sig)
    }
}

impl Cancelable for Tx<Cancel> {}

} // verus!
