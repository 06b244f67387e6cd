//! Identities of the arbitrating transactions.

use vstd::prelude::*;

use crate::codec::{copy_bytes, le_u16, lemma_u16_round_trip, push_u16, read_u16, u16_of};
use crate::error::Error;

verus! {

/// The transactions that a swap builds or watches on the arbitrating chain.
#[derive(Debug, Clone, Copy, PartialEq, Eq, Hash, Structural)]
pub enum TxId {
    /// Created by an external wallet to fund the swap.
    Funding,
    /// The core locking transaction.
    Lock,
    /// The happy path: the buyer takes the funds.
    Buy,
    /// The first step of the failure path.
    Cancel,
    /// Returns the funds to their owner after a cancel.
    Refund,
    /// Pays the counterparty when the owner failed to act.
    Punish,
}

/// The two-byte wire tag of each transaction identity.
pub open spec fn tx_id_tag(id: TxId) -> u16 {
    match id {
        TxId::Funding => 1,
        TxId::Lock => 2,
        TxId::Buy => 3,
        TxId::Cancel => 4,
        TxId::Refund => 5,
        TxId::Punish => 6,
    }
}

/// A reference to an output of an earlier transaction.
#[derive(Debug, Clone, Copy)]
pub struct OutPoint {
    pub txid: [u8; 32],
    pub vout: u32,
}

/// An output: an amount in satoshi and the script that locks it.
#[derive(Debug, Clone)]
pub struct TxOut {
    pub value: u64,
    pub script_pubkey: Vec<u8>,
}

/// An input of an unsigned transaction: the output it spends and its sequence.
#[derive(Debug, Clone, Copy)]
pub struct TxIn {
    pub previous_output: OutPoint,
    pub sequence: u32,
}

/// A transaction without signatures, as carried by a partial transaction.
#[derive(Debug, Clone)]
pub struct UnsignedTx {
    pub version: i32,
    pub lock_time: u32,
    pub input: Vec<TxIn>,
    pub output: Vec<TxOut>,
}

/// A signature stored in an input, keyed by the public key that made it.
#[derive(Debug, Clone)]
pub struct PartialSig {
    pub pubkey: Vec<u8>,
    pub sig: Vec<u8>,
}

/// The signing data of one input of a partial transaction.
#[derive(Debug, Clone)]
pub struct PsbtInput {
    pub witness_utxo: Option<TxOut>,
    pub partial_sigs: Vec<PartialSig>,
    pub sighash_type: Option<u32>,
    pub witness_script: Option<Vec<u8>>,
    pub final_script_witness: Option<Vec<Vec<u8>>>,
}

/// The data of one output of a partial transaction.
#[derive(Debug, Clone)]
pub struct PsbtOutput {
    pub witness_script: Option<Vec<u8>>,
}

/// A partially signed transaction: the unsigned transaction and the data
/// that each signer and the finalizer need.
#[derive(Debug, Clone)]
pub struct PartialTx {
    pub unsigned_tx: UnsignedTx,
    pub inputs: Vec<PsbtInput>,
    pub outputs: Vec<PsbtOutput>,
}

/// No two stored signatures share a public key: the signatures form a map
/// from keys.
pub open spec fn unique_keys(sigs: Seq<PartialSig>) -> bool {
    forall|i: int, j: int| 0 <= i < j < sigs.len() ==> #[trigger] sigs[i].pubkey@ != #[trigger] sigs[j].pubkey@
}

impl PartialTx {
    /// Each input's signatures form a map from public keys: no two are
    /// stored under one key.
    pub open spec fn wf(&self) -> bool {
        forall|i: int| 0 <= i < self.inputs@.len() ==> unique_keys(#[trigger] self.inputs@[i].partial_sigs@)
    }
}

/// A partial transaction of the kind that `T` marks.
#[derive(Debug, Clone)]
pub struct Tx<T> {
    pub psbt: PartialTx,
    pub kind: T,
}

/// All that a later transaction needs to spend an output: where it is, what
/// it holds, and the script that unlocks it.
#[derive(Debug, Clone)]
pub struct ConsumableOutput {
    pub out_point: OutPoint,
    pub tx_out: TxOut,
    pub script_pubkey: Option<Vec<u8>>,
}

/// An output as plain values: its amount and its script.
pub type TxOutView = (u64, Seq<u8>);

/// An unsigned transaction as plain values: version, lock time, inputs and
/// outputs.
pub type UnsignedTxView = (i32, u32, Seq<TxIn>, Seq<TxOutView>);

impl View for TxOut {
    type V = TxOutView;

    open spec fn view(&self) -> TxOutView {
        (self.value, self.script_pubkey@)
    }
}

impl View for UnsignedTx {
    type V = UnsignedTxView;

    open spec fn view(&self) -> UnsignedTxView {
        (self.version, self.lock_time, self.input@, self.output@.map_values(|o: TxOut| o@))
    }
}

/// What the weight of an unsigned transaction depends on: its version, lock
/// time, inputs, and the scripts of its outputs (each amount takes a fixed
/// eight bytes).
pub type TxShape = (i32, u32, Seq<TxIn>, Seq<Seq<u8>>);

/// The shape of an unsigned transaction.
pub open spec fn shape_of(tx: UnsignedTxView) -> TxShape {
    (tx.0, tx.1, tx.2, tx.3.map_values(|o: TxOutView| o.1))
}

/// The weight of an unsigned transaction, as the arbitrating chain counts it.
pub uninterp spec fn weight_of(tx: TxShape) -> u64;

/// Declares bitcoin's transaction type, which the trusted conversions below
/// produce.
#[verifier::external_type_specification]
#[verifier::external_body]
pub struct ExBitcoinTransaction(bitcoin::Transaction);

impl UnsignedTx {
    /// Builds bitcoin's transaction from the plain values, one field for
    /// one field; its inputs carry no script signature and no witness. Only
    /// the wrappers below call it, to hand the transaction to bitcoin.
    #[verifier::external_body]
    pub(crate) fn to_bitcoin(&self) -> bitcoin::Transaction {
        let input = self.input.iter().map(|i| bitcoin::TxIn {
            previous_output: bitcoin::OutPoint::new(
                <bitcoin::Txid as bitcoin::hashes::Hash>::from_inner(i.previous_output.txid),
                i.previous_output.vout),
            script_sig: bitcoin::Script::new(),
            sequence: i.sequence,
            witness: vec![],
        }).collect();
        let output = self.output.iter().map(|o| bitcoin::TxOut {
            value: o.value, script_pubkey: bitcoin::Script::from(o.script_pubkey.clone()) }).collect();
        bitcoin::Transaction { version: self.version, lock_time: self.lock_time, input, output }
    }
}

/// Relies on bitcoin's `Transaction::get_weight`: the weight of the
/// transaction, which counts each output amount as eight bytes whatever its
/// value, and so depends on the shape alone.
#[verifier::external_body]
pub(crate) fn unsigned_weight(tx: &UnsignedTx) -> (r: u64)
    ensures
        r == weight_of(shape_of(tx@)),
{
    tx.to_bitcoin().get_weight() as u64
}

/// The identifier of a transaction: the double SHA-256 of its serialization
/// without witnesses.
pub uninterp spec fn txid_of(tx: UnsignedTxView) -> [u8; 32];

/// Relies on bitcoin's `Transaction::txid`: the hash of the transaction
/// without witnesses, which depends on its contents alone.
#[verifier::external_body]
pub(crate) fn txid(tx: &UnsignedTx) -> (r: [u8; 32])
    ensures
        r == txid_of(tx@),
{
    <bitcoin::Txid as bitcoin::hashes::Hash>::into_inner(tx.to_bitcoin().txid())
}

/// The signature hash of an input under the segwit rules.
pub uninterp spec fn sighash_of(
    tx: UnsignedTxView,
    index: int,
    script: Seq<u8>,
    value: u64,
    sighash_type: u32,
) -> Seq<u8>;

/// Relies on bitcoin's `SigHashCache::signature_hash`: the 32-byte BIP-143
/// digest that a signature of input `index` commits to, which depends on its
/// arguments alone.
#[verifier::external_body]
pub(crate) fn segwit_sighash(
    tx: &UnsignedTx,
    index: usize,
    script: &Vec<u8>,
    value: u64,
    sighash_type: u32,
) -> (r: Vec<u8>)
    requires
        index < tx.input@.len(),
    ensures
        r@ == sighash_of(tx@, index as int, script@, value, sighash_type),
        r@.len() == 32,
{
    let t = tx.to_bitcoin();
    let script = bitcoin::Script::from(script.clone());
    let ty = bitcoin::SigHashType::from_u32_consensus(sighash_type);
    let h = bitcoin::util::bip143::SigHashCache::new(&t).signature_hash(index, &script, value, ty);
    h[..].to_vec()
}

/// The transaction identity that a wire tag names.
pub open spec fn tx_id_of_tag(v: nat) -> Option<TxId> {
    if v == 1 {
        Some(TxId::Funding)
    } else if v == 2 {
        Some(TxId::Lock)
    } else if v == 3 {
        Some(TxId::Buy)
    } else if v == 4 {
        Some(TxId::Cancel)
    } else if v == 5 {
        Some(TxId::Refund)
    } else if v == 6 {
        Some(TxId::Punish)
    } else {
        None
    }
}

/// What decoding a transaction identity from `b` gives.
pub open spec fn decode_tx_id(b: Seq<u8>) -> Result<TxId, Error> {
    if b.len() != 2 {
        Err(Error::ParseFailed)
    } else {
        match tx_id_of_tag(u16_of(b[0], b[1])) {
            Some(id) => Ok(id),
            None => Err(Error::UnknownType),
        }
    }
}

/// Decoding an encoded transaction identity gives it back.
pub proof fn lemma_tx_id_round_trip(id: TxId)
    ensures
        decode_tx_id(le_u16(tx_id_tag(id) as nat)) == Ok::<TxId, Error>(id),
{
    lemma_u16_round_trip(tx_id_tag(id) as nat);
}

/// The wire form of transaction identities covers exactly the six tags 1 to
/// 6; every other two-byte value decodes to `UnknownType`.
pub proof fn lemma_tx_id_wire_exhaustive(v: u16)
    ensures
        (1 <= v <= 6) ==> decode_tx_id(le_u16(v as nat)) is Ok && tx_id_tag(
            decode_tx_id(le_u16(v as nat))->Ok_0,
        ) == v,
        !(1 <= v <= 6) ==> decode_tx_id(le_u16(v as nat)) == Err::<TxId, Error>(Error::UnknownType),
{
    lemma_u16_round_trip(v as nat);
}

/// A witness stack as plain values.
pub open spec fn stack_view(w: Vec<Vec<u8>>) -> Seq<Seq<u8>> {
    w@.map_values(|x: Vec<u8>| x@)
}

/// A fully signed transaction, ready to broadcast: the transaction and the
/// witness stack of each input.
#[derive(Debug, Clone)]
pub struct SignedTx {
    pub tx: UnsignedTx,
    pub witness: Vec<Vec<Vec<u8>>>,
}

/// Every input of the partial transaction carries its final witness.
pub open spec fn is_finalized(p: PartialTx) -> bool {
    &&& p.inputs@.len() == p.unsigned_tx.input@.len()
    &&& forall|i: int| 0 <= i < p.inputs@.len() ==> (#[trigger] p.inputs@[i]).final_script_witness is Some
}

/// A copy of a witness stack.
pub fn copy_stack(w: &Vec<Vec<u8>>) -> (r: Vec<Vec<u8>>)
    ensures
        stack_view(r) == stack_view(*w),
{
    let mut r: Vec<Vec<u8>> = Vec::new();
    let mut i: usize = 0;
    while i < w.len()
        invariant
            i <= w@.len(),
            r@.len() == i,
            stack_view(r) == stack_view(*w).take(i as int),
        decreases w.len() - i,
    {
        let ghost prev = r@;
        let c = copy_bytes(&w[i]);
        r.push(c);
        proof {
            assert forall|k: int| 0 <= k < i + 1 implies stack_view(r)[k] == stack_view(*w)[k] by {
                if k < i {
                    assert(r@[k] == prev[k]);
                    assert(stack_view(*w).take(i as int)[k] == prev.map_values(|x: Vec<u8>| x@)[k]);
                }
            }
        }
        i = i + 1;
        assert(stack_view(r) =~= stack_view(*w).take(i as int));
    }
    assert(stack_view(*w).take(i as int) =~= stack_view(*w));
    r
}

impl UnsignedTx {
    /// A copy of the transaction.
    pub fn copy(&self) -> (r: UnsignedTx)
        ensures
            r@ == self@,
    {
        let mut input: Vec<TxIn> = Vec::new();
        let mut i: usize = 0;
        while i < self.input.len()
            invariant
                i <= self.input@.len(),
                input@ == self.input@.take(i as int),
            decreases self.input.len() - i,
        {
            let t = self.input[i];
            input.push(t);
            i = i + 1;
            assert(input@ =~= self.input@.take(i as int));
        }
        let mut output: Vec<TxOut> = Vec::new();
        let mut j: usize = 0;
        while j < self.output.len()
            invariant
                j <= self.output@.len(),
                output@.len() == j,
                output@.map_values(|o: TxOut| o@) == self.output@.map_values(|o: TxOut| o@).take(
                    j as int,
                ),
            decreases self.output.len() - j,
        {
            let o = TxOut { value: self.output[j].value, script_pubkey: copy_bytes(&self.output[j].script_pubkey) };
            let ghost prev = output@;
            output.push(o);
            proof {
                let all = self.output@.map_values(|o: TxOut| o@);
                assert forall|k: int| 0 <= k < j + 1 implies output@.map_values(|o: TxOut| o@)[k] == all[k] by {
                    if k < j {
                        assert(output@[k] == prev[k]);
                        assert(all.take(j as int)[k] == prev.map_values(|o: TxOut| o@)[k]);
                    }
                }
            }
            j = j + 1;
            assert(output@.map_values(|o: TxOut| o@) =~= self.output@.map_values(|o: TxOut| o@).take(
                j as int,
            ));
        }
        assert(input@ =~= self.input@.take(i as int));
        assert(self.input@.take(i as int) =~= self.input@);
        assert(self.output@.map_values(|o: TxOut| o@).take(j as int) =~= self.output@.map_values(
            |o: TxOut| o@,
        ));
        UnsignedTx { version: self.version, lock_time: self.lock_time, input, output }
    }
}

/// What extracting a partial transaction gives: exactly when it is
/// finalized, its unsigned transaction with the final witness of each input;
/// otherwise `MissingWitness`.
pub open spec fn extract_result(psbt: PartialTx, r: Result<SignedTx, Error>) -> bool {
    &&& r is Ok <==> is_finalized(psbt)
    &&& r is Err ==> r == Err::<SignedTx, Error>(Error::MissingWitness)
    &&& match r {
        Ok(s) => s.tx@ == psbt.unsigned_tx@ && s.witness@.len() == psbt.inputs@.len()
            && forall|i: int|
            0 <= i < s.witness@.len() ==> match #[trigger] psbt.inputs@[i].final_script_witness {
                Some(w) => stack_view(s.witness@[i]) == stack_view(w),
                None => false,
            },
        Err(_) => true,
    }
}

/// Signature bytes, or the error, as plain values.
pub open spec fn bytes_result(r: Result<Vec<u8>, Error>) -> Result<Seq<u8>, Error> {
    match r {
        Ok(b) => Ok(b@),
        Err(e) => Err(e),
    }
}

/// Takes the finalized witnesses out of a partial transaction: the
/// broadcastable transaction, or `MissingWitness` while an input lacks its
/// final witness.
pub fn extract(psbt: &PartialTx) -> (r: Result<SignedTx, Error>)
    ensures
        extract_result(*psbt, r),
{
    if psbt.inputs.len() != psbt.unsigned_tx.input.len() {
        return Err(Error::MissingWitness);
    }
    let mut witness: Vec<Vec<Vec<u8>>> = Vec::new();
    let mut i: usize = 0;
    while i < psbt.inputs.len()
        invariant
            i <= psbt.inputs@.len(),
            witness@.len() == i,
            forall|j: int| 0 <= j < i ==> (#[trigger] psbt.inputs@[j]).final_script_witness is Some,
            forall|j: int|
                0 <= j < i ==> match #[trigger] psbt.inputs@[j].final_script_witness {
                    Some(w) => stack_view(witness@[j]) == stack_view(w),
                    None => false,
                },
        decreases psbt.inputs.len() - i,
    {
        match &psbt.inputs[i].final_script_witness {
            Some(w) => {
                witness.push(copy_stack(w));
            },
            None => {
                return Err(Error::MissingWitness);
            },
        }
        i = i + 1;
    }
    Ok(SignedTx { tx: psbt.unsigned_tx.copy(), witness })
}

/// An arbitrating transaction, with the partial form exchanged between the
/// participants.
pub trait ArbitratingTransaction {
    /// The partial transaction, as a value.
    spec fn partial(&self) -> PartialTx;

    /// The partial transaction.
    fn to_partial(&self) -> (r: &PartialTx)
        ensures
            *r == self.partial(),
    ;
}

/// A transaction that needs the counterparty's signature.
pub trait Cooperable: Sized {
    /// What storing `sig` under `pubkey` does: the result, and the
    /// transaction afterwards.
    spec fn cooperated(&self, after: Self, pubkey: Seq<u8>, sig: Seq<u8>, r: Result<(), Error>) -> bool;

    /// Stores a counterparty signature, keyed by its public key.
    fn add_cooperation(&mut self, pubkey: Vec<u8>, sig: Vec<u8>) -> (r: Result<(), Error>)
        ensures
            old(self).cooperated(*final(self), pubkey@, sig@, r),
    ;
}

/// A transaction with a finalization step.
pub trait Finalizable: Sized {
    /// Every input carries its final witness.
    spec fn finalized(&self) -> bool;

    /// What finalizing does: the result, and the transaction afterwards.
    spec fn finalize_outcome(&self, after: Self, r: Result<(), Error>) -> bool;

    /// Assembles the final witnesses.
    fn finalize(&mut self) -> (r: Result<(), Error>)
        ensures
            old(self).finalize_outcome(*final(self), r),
            r is Ok ==> final(self).finalized(),
    ;
}

/// A transaction that this system broadcasts.
pub trait Broadcastable: Finalizable {
    /// What extracting gives.
    spec fn extracted(&self, r: Result<SignedTx, Error>) -> bool;

    /// The broadcastable transaction, available only once finalized.
    fn extract(&self) -> (r: Result<SignedTx, Error>)
        ensures
            r is Ok <==> self.finalized(),
            self.extracted(r),
    ;

    /// Finalizes, then extracts: succeeds exactly when finalizing does, with
    /// the extraction of the finalized transaction.
    fn finalize_and_extract(&mut self) -> (r: Result<SignedTx, Error>)
        ensures
            match r {
                Ok(t) => old(self).finalize_outcome(*final(self), Ok(())) && final(self).extracted(
                    Ok(t),
                ),
                Err(e) => old(self).finalize_outcome(*final(self), Err(e)),
            },
    {
        self.finalize()?;
        self.extract()
    }
}

/// A transaction whose output a later transaction spends.
pub trait Linkable {
    /// What linking gives.
    spec fn linked(&self, r: Result<ConsumableOutput, Error>) -> bool;

    /// All that the spending transaction needs of the output.
    fn get_consumable_output(&self) -> (r: Result<ConsumableOutput, Error>)
        ensures
            self.linked(r),
    ;
}

/// A transaction signed with a regular key on its default path.
pub trait Signable {
    /// Signs the default path.
    fn generate_witness(&mut self, privkey: &Vec<u8>) -> Result<Vec<u8>, Error>;

    /// Checks a signature of the default path.
    fn verify_witness(&mut self, pubkey: &Vec<u8>, sig: &Vec<u8>) -> Result<(), Error>;
}

/// A transaction signed with an adaptor signature on its default path.
pub trait AdaptorSignable {
    /// Makes the adaptor signature of the default path, encrypted to `adaptor`.
    fn generate_adaptor_witness(&mut self, privkey: &Vec<u8>, adaptor: &Vec<u8>) -> Result<Vec<u8>, Error>;

    /// Checks an adaptor signature of the default path.
    fn verify_adaptor_witness(&mut self, pubkey: &Vec<u8>, adaptor: &Vec<u8>, sig: &Vec<u8>) -> Result<(), Error>;
}

/// A transaction whose output has a success path and a timelocked failure
/// path, signed here for the failure path.
pub trait Forkable {
    /// What signing the failure path with `privkey` gives.
    spec fn failure_signed(&self, privkey: Seq<u8>, r: Result<Seq<u8>, Error>) -> bool;

    /// What checking a signature of the failure path gives.
    spec fn failure_checked(&self, pubkey: Seq<u8>, sig: Seq<u8>, r: Result<(), Error>) -> bool;

    /// Signs the failure path.
    fn generate_failure_witness(&self, privkey: &Vec<u8>) -> (r: Result<Vec<u8>, Error>)
        ensures
            self.failure_signed(privkey@, bytes_result(r)),
    ;

    /// Checks a signature of the failure path.
    fn verify_failure_witness(&self, pubkey: &Vec<u8>, sig: &Vec<u8>) -> (r: Result<(), Error>)
        ensures
            self.failure_checked(pubkey@, sig@, r),
    ;
}

/// The funding transaction, made by an external wallet.
pub trait Fundable: Linkable {
    fn get_id(&self) -> (r: TxId)
        ensures
            r == TxId::Funding,
    {
        TxId::Funding
    }
}

/// The lock transaction.
pub trait Lockable: ArbitratingTransaction + Signable + Broadcastable + Linkable {
    fn get_id(&self) -> (r: TxId)
        ensures
            r == TxId::Lock,
    {
        TxId::Lock
    }
}

/// The buy transaction.
pub trait Buyable: ArbitratingTransaction + Signable + AdaptorSignable + Broadcastable + Linkable + Cooperable {
    fn get_id(&self) -> (r: TxId)
        ensures
            r == TxId::Buy,
    {
        TxId::Buy
    }
}

/// The cancel transaction.
pub trait Cancelable: ArbitratingTransaction + Forkable + Broadcastable + Linkable + Cooperable {
    fn get_id(&self) -> (r: TxId)
        ensures
            r == TxId::Cancel,
    {
        TxId::Cancel
    }
}

/// The refund transaction.
pub trait Refundable: ArbitratingTransaction + Signable + AdaptorSignable + Broadcastable + Linkable + Cooperable {
    fn get_id(&self) -> (r: TxId)
        ensures
            r == TxId::Refund,
    {
        TxId::Refund
    }
}

/// The punish transaction.
pub trait Punishable: ArbitratingTransaction + Forkable + Broadcastable + Linkable {
    fn get_id(&self) -> (r: TxId)
        ensures
            r == TxId::Punish,
    {
        TxId::Punish
    }
}

impl TxId {
    /// Writes the two-byte tag.
    pub fn consensus_encode(&self) -> (r: Vec<u8>)
        ensures
            r@ == le_u16(tx_id_tag(*self) as nat),
    {
        let mut r: Vec<u8> = Vec::new();
        push_u16(&mut r, self.tag());
        r
    }

    /// Reads a transaction identity from exactly two bytes.
    pub fn consensus_decode(b: &Vec<u8>) -> (r: Result<TxId, Error>)
        ensures
            r == decode_tx_id(b@),
    {
        if b.len() != 2 {
            return Err(Error::ParseFailed);
        }
        let v = read_u16(b, 0);
        if v == 1 {
            Ok(TxId::Funding)
        } else if v == 2 {
            Ok(TxId::Lock)
        } else if v == 3 {
            Ok(TxId::Buy)
        } else if v == 4 {
            Ok(TxId::Cancel)
        } else if v == 5 {
            Ok(TxId::Refund)
        } else if v == 6 {
            Ok(TxId::Punish)
        } else {
            Err(Error::UnknownType)
        }
    }

    /// The two-byte wire tag.
    pub fn tag(&self) -> (r: u16)
        ensures
            r == tx_id_tag(*self),
    {
        match self {
            TxId::Funding => 1,
            TxId::Lock => 2,
            TxId::Buy => 3,
            TxId::Cancel => 4,
            TxId::Refund => 5,
            TxId::Punish => 6,
        }
    }
}

} // verus!
