//! The punish transaction: once the punishable lock's timelock has passed,
//! Alice alone spends the cancel output with her failure key.

use vstd::prelude::*;

use crate::error::Error;
use crate::fee::{FeePolitic, FeeStrategy};
use crate::crypto::valid_public_key;
use crate::script::{
    instructions, items_view, lemma_punishable_failure_key, parse_script, punishable_script_bytes,
    DataPunishableLock, Instr, ScriptItem,
};
use crate::spend::{
    build_spend, consumable_output, consumable_output_of, find_sig, first_input_check,
    first_input_signature, key_at, lookup_sig, read_key, sign_first_input, spend_built,
    verify_first_input, witness_set,
};
use crate::transaction::{
    extract, extract_result, is_finalized, ArbitratingTransaction, Broadcastable,
    ConsumableOutput, Finalizable, Forkable, Linkable, PartialTx, Punishable, SignedTx, Tx,
};

verus! {

/// The position, among the instructions of the punishable lock script, of
/// the failure key.
pub const PUNISH_KEY_POSITION: usize = 10;

/// Marker of the punish transaction.
#[derive(Debug, Clone, Copy)]
pub struct Punish;

/// What finalizing the punish transaction does, given its witness script
/// and the instructions parsed from it: the result, and the transaction
/// afterwards.
pub open spec fn punish_finalized_with(
    before: PartialTx,
    after: PartialTx,
    script: Seq<u8>,
    items: Seq<Instr>,
    r: Result<(), Error>,
) -> bool {
    match key_at(items, PUNISH_KEY_POSITION as int) {
        Err(e) => r == Err::<(), Error>(e) && after == before,
        Ok(k) => match find_sig(before.inputs@[0].partial_sigs@, k) {
            None => r == Err::<(), Error>(Error::MissingSignature) && after == before,
            Some(s) => r == Ok::<(), Error>(()) && witness_set(before, after, seq![s, seq![], script]),
        },
    }
}

/// What finalizing the punish transaction does: the result, and the
/// transaction afterwards.
pub open spec fn punish_finalized(before: PartialTx, after: PartialTx, r: Result<(), Error>) -> bool {
    match before.inputs@[0].witness_script {
        None => r == Err::<(), Error>(Error::MissingWitness) && after == before,
        Some(ws) => punish_finalized_with(before, after, ws@, parse_script(ws@), r),
    }
}

/// Finalizing a punish transaction whose witness script is the punishable
/// lock's script puts the signature stored under its failure key into the
/// witness: `[sig, empty, script]`.
pub proof fn lemma_punish_finalize_uses_failure_key(
    before: PartialTx,
    after: PartialTx,
    r: Result<(), Error>,
    punish_lock: DataPunishableLock,
    sig: Seq<u8>,
)
    requires
        punish_lock.wf(),
        before.inputs@.len() >= 1,
        before.inputs@[0].witness_script is Some,
        before.inputs@[0].witness_script->Some_0@ == punishable_script_bytes(punish_lock),
        valid_public_key(punish_lock.failure@),
        find_sig(before.inputs@[0].partial_sigs@, punish_lock.failure@) == Some(sig),
        punish_finalized(before, after, r),
    ensures
        r is Ok,
        witness_set(before, after, seq![sig, seq![], punishable_script_bytes(punish_lock)]),
{
    lemma_punishable_failure_key(punish_lock);
}

impl Punish {
    /// Builds the punish transaction on the cancel output: the whole value,
    /// less the fee, goes to `destination`, and the input waits for the
    /// punishable lock's timelock.
    pub fn initialize(
        prev: &ConsumableOutput,
        punish_lock: &DataPunishableLock,
        destination: &Vec<u8>,
        strategy: &FeeStrategy,
        politic: FeePolitic,
    ) -> (r: Result<PartialTx, Error>)
        ensures
            spend_built(*prev, punish_lock.timelock, destination@, None, *strategy, politic, r),
    {
        let spk = crate::codec::copy_bytes(destination);
        build_spend(prev, punish_lock.timelock, spk, None, strategy, politic)
    }

    /// Assembles the witness that spends the punishable lock through its
    /// timelocked branch: `[sig, empty, script]`, where the signature is the
    /// one stored under the failure key of the input's witness script.
    pub fn finalize(psbt: &mut PartialTx) -> (r: Result<(), Error>)
        requires
            old(psbt).inputs@.len() >= 1,
        ensures
            punish_finalized(*old(psbt), *final(psbt), r),
            old(psbt).wf() ==> final(psbt).wf(),
    {
        let script = match &psbt.inputs[0].witness_script {
            Some(s) => crate::codec::copy_bytes(s),
            None => {
                return Err(Error::MissingWitness);
            },
        };
        let items = instructions(&script);
        Punish::finalize_parsed(psbt, script, &items)
    }

    /// Assembles the witness `[sig, empty, script]` from the instructions
    /// parsed from `script`: the signature is the one stored under the push
    /// at the failure key's position.
    pub fn finalize_parsed(psbt: &mut PartialTx, script: Vec<u8>, items: &Vec<ScriptItem>) -> (r: Result<(), Error>)
        requires
            old(psbt).inputs@.len() >= 1,
        ensures
            punish_finalized_with(*old(psbt), *final(psbt), script@, items_view(items@), r),
            old(psbt).wf() ==> final(psbt).wf(),
    {
        let key = read_key(items, PUNISH_KEY_POSITION)?;
        let sig = match lookup_sig(&psbt.inputs[0].partial_sigs, &key) {
            Some(s) => s,
            None => {
                return Err(Error::MissingSignature);
            },
        };
        let mut w: Vec<Vec<u8>> = Vec::new();
        w.push(sig);
        w.push(Vec::new());
        w.push(script);
        psbt.inputs[0].final_script_witness = Some(w);
        Ok(())
    }

    /// Signs the input for the timelocked branch of the punishable lock.
    pub fn generate_failure_witness(psbt: &PartialTx, privkey: &Vec<u8>) -> (r: Result<Vec<u8>, Error>)
        requires
            psbt.inputs@.len() >= 1,
            psbt.unsigned_tx.input@.len() >= 1,
        ensures
            match r {
                Ok(s) => first_input_signature(*psbt, privkey@) == Ok::<Seq<u8>, Error>(s@),
                Err(e) => first_input_signature(*psbt, privkey@) == Err::<Seq<u8>, Error>(e),
            },
    {
        sign_first_input(psbt, privkey)
    }

    /// Checks a signature of the timelocked branch of the punishable lock.
    pub fn verify_failure_witness(psbt: &PartialTx, pubkey: &Vec<u8>, sig: &Vec<u8>) -> (r: Result<(), Error>)
        requires
            psbt.inputs@.len() >= 1,
            psbt.unsigned_tx.input@.len() >= 1,
        ensures
            r == first_input_check(*psbt, pubkey@, sig@),
    {
        verify_first_input(psbt, pubkey, sig)
    }
}

impl ArbitratingTransaction for Tx<Punish> {
    open spec fn partial(&self) -> PartialTx {
        self.psbt
    }

    fn to_partial(&self) -> (r: &PartialTx) {
        &self.psbt
    }
}

impl Finalizable for Tx<Punish> {
    open spec fn finalized(&self) -> bool {
        is_finalized(self.psbt)
    }

    open spec fn finalize_outcome(&self, after: Self, r: Result<(), Error>) -> bool {
        if self.psbt.inputs@.len() != 1 || self.psbt.unsigned_tx.input@.len() != 1 {
            r == Err::<(), Error>(Error::MissingWitness) && after == *self
        } else {
            punish_finalized(self.psbt, after.psbt, r)
        }
    }

    fn finalize(&mut self) -> (r: Result<(), Error>) {
        if self.psbt.inputs.len() != 1 || self.psbt.unsigned_tx.input.len() != 1 {
            return Err(Error::MissingWitness);
        }
        Punish::finalize(&mut self.psbt)
    }
}

impl Broadcastable for Tx<Punish> {
    open spec fn extracted(&self, r: Result<SignedTx, Error>) -> bool {
        extract_result(self.psbt, r)
    }

    fn extract(&self) -> (r: Result<SignedTx, Error>) {
        extract(&self.psbt)
    }
}

impl Linkable for Tx<Punish> {
    open spec fn linked(&self, r: Result<ConsumableOutput, Error>) -> bool {
        consumable_output_of(self.psbt, r)
    }

    fn get_consumable_output(&self) -> (r: Result<ConsumableOutput, Error>) {
        consumable_output(&self.psbt)
    }
}

impl Forkable for Tx<Punish> {
    open spec fn failure_signed(&self, privkey: Seq<u8>, r: Result<Seq<u8>, Error>) -> bool {
        if self.psbt.inputs@.len() == 0 || self.psbt.unsigned_tx.input@.len() == 0 {
            r == Err::<Seq<u8>, Error>(Error::MissingWitness)
        } else {
            r == first_input_signature(self.psbt, privkey)
        }
    }

    open spec fn failure_checked(&self, pubkey: Seq<u8>, sig: Seq<u8>, r: Result<(), Error>) -> bool {
        if self.psbt.inputs@.len() == 0 || self.psbt.unsigned_tx.input@.len() == 0 {
            r == Err::<(), Error>(Error::MissingWitness)
        } else {
            r == first_input_check(self.psbt, pubkey, sig)
        }
    }

    fn generate_failure_witness(&self, privkey: &Vec<u8>) -> (r: Result<Vec<u8>, Error>) {
        if self.psbt.inputs.len() == 0 || self.psbt.unsigned_tx.input.len() == 0 {
            return Err(Error::MissingWitness);
        }
        Punish::generate_failure_witness(&self.psbt, privkey)
    }

    fn verify_failure_witness(&self, pubkey: &Vec<u8>, sig: &Vec<u8>) -> (r: Result<(), Error>) {
        if self.psbt.inputs.len() == 0 || self.psbt.unsigned_tx.input.len() == 0 {
            return Err(Error::MissingWitness);
        }
        Punish::verify_failure_witness(&self.psbt, pubkey, sig)
    }
}

impl Punishable for Tx<Punish> {}

} // verus!
