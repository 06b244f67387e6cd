//! Protocol messages exchanged between the two participants, the parameter
//! bundles they carry, and the order in which messages are accepted.

use vstd::prelude::*;

use vstd::utf8::{decode_utf8, encode_utf8, valid_utf8};

use crate::codec::{
    copy_bytes, decode_fields, encode_fields, field_bytes, fields_bytes, fields_fit,
    lemma_fields_round_trip, parse_fields, push_field, string_from_utf8, utf8_bytes,
};
use crate::crypto::{commit_to, sha256_of, validate, DleqProof, Proof, SignatureType};
use crate::error::Error;
use crate::fee::FeeStrategy;
use crate::transaction::{PartialTx, TxId};

verus! {

/// The two roles of a swap.
#[derive(Debug, Clone, Copy, PartialEq, Eq, Structural)]
pub enum SwapRole {
    /// Holds the accordant asset and wants the arbitrating one.
    Alice,
    /// Holds the arbitrating asset and wants the accordant one.
    Bob,
}

/// Marks the messages exchanged between the participants.
pub trait ProtocolMessage {}

/// Alice's public parameters: her arbitrating public keys, her accordant
/// spend key and shared view key, where her funds go, and the proof that
/// links her adaptor and spend keys.
#[derive(Debug, Clone)]
pub struct AliceParameters {
    pub buy: Vec<u8>,
    pub cancel: Vec<u8>,
    pub refund: Vec<u8>,
    pub punish: Vec<u8>,
    pub adaptor: Vec<u8>,
    pub destination_address: Vec<u8>,
    pub spend: Vec<u8>,
    pub view: Vec<u8>,
    pub proof: Proof,
    pub cancel_timelock: Option<u32>,
    pub punish_timelock: Option<u32>,
    pub fee_strategy: Option<FeeStrategy>,
}

/// Bob's public parameters: as Alice's without a punish key, and with the
/// address his refund goes to.
#[derive(Debug, Clone)]
pub struct BobParameters {
    pub buy: Vec<u8>,
    pub cancel: Vec<u8>,
    pub refund: Vec<u8>,
    pub adaptor: Vec<u8>,
    pub refund_address: Vec<u8>,
    pub spend: Vec<u8>,
    pub view: Vec<u8>,
    pub proof: Proof,
    pub cancel_timelock: Option<u32>,
    pub punish_timelock: Option<u32>,
    pub fee_strategy: Option<FeeStrategy>,
}

/// Alice's commitments to each of her keys.
#[derive(Debug, Clone)]
pub struct CommitAliceParameters {
    pub buy: Vec<u8>,
    pub cancel: Vec<u8>,
    pub refund: Vec<u8>,
    pub punish: Vec<u8>,
    pub adaptor: Vec<u8>,
    pub spend: Vec<u8>,
    pub view: Vec<u8>,
}

/// Bob's commitments to each of his keys.
#[derive(Debug, Clone)]
pub struct CommitBobParameters {
    pub buy: Vec<u8>,
    pub cancel: Vec<u8>,
    pub refund: Vec<u8>,
    pub adaptor: Vec<u8>,
    pub spend: Vec<u8>,
    pub view: Vec<u8>,
}

/// The values that Alice committed to, her destination address and her
/// proof.
#[derive(Debug, Clone)]
pub struct RevealAliceParameters {
    pub buy: Vec<u8>,
    pub cancel: Vec<u8>,
    pub refund: Vec<u8>,
    pub punish: Vec<u8>,
    pub adaptor: Vec<u8>,
    pub address: Vec<u8>,
    pub spend: Vec<u8>,
    pub view: Vec<u8>,
    pub proof: Proof,
}

/// The values that Bob committed to, his refund address and his proof.
#[derive(Debug, Clone)]
pub struct RevealBobParameters {
    pub buy: Vec<u8>,
    pub cancel: Vec<u8>,
    pub refund: Vec<u8>,
    pub adaptor: Vec<u8>,
    pub address: Vec<u8>,
    pub spend: Vec<u8>,
    pub view: Vec<u8>,
    pub proof: Proof,
}

/// A signature together with the transaction and the role it belongs to.
#[derive(Debug, Clone)]
pub struct TxSignature {
    pub tx_id: TxId,
    pub role: SwapRole,
    pub signature: SignatureType,
}

/// The lock, cancel and refund transactions that Bob builds.
#[derive(Debug, Clone)]
pub struct CoreArbitratingTransactions {
    pub lock: PartialTx,
    pub cancel: PartialTx,
    pub refund: PartialTx,
}

/// A signature of the cancel transaction.
#[derive(Debug, Clone)]
pub struct CosignedArbitratingCancel {
    pub cancel_sig: TxSignature,
}

/// An adaptor signature of the refund transaction.
#[derive(Debug, Clone)]
pub struct SignedAdaptorRefund {
    pub refund_adaptor_sig: TxSignature,
}

/// The buy transaction and Bob's adaptor signature of it.
#[derive(Debug, Clone)]
pub struct SignedAdaptorBuy {
    pub buy: PartialTx,
    pub buy_adaptor_sig: TxSignature,
}

/// Bob to Alice: the lock, cancel and refund transactions, and Bob's
/// signature of the cancel transaction.
#[derive(Debug, Clone)]
pub struct CoreArbitratingSetup {
    pub lock: PartialTx,
    pub cancel: PartialTx,
    pub refund: PartialTx,
    pub cancel_sig: Vec<u8>,
}

/// Alice to Bob: Alice's signature of the cancel transaction and her adaptor
/// signature of the refund transaction.
#[derive(Debug, Clone)]
pub struct RefundProcedureSignatures {
    pub cancel_sig: Vec<u8>,
    pub refund_adaptor_sig: Vec<u8>,
}

/// Bob to Alice: the buy transaction and Bob's adaptor signature of it.
#[derive(Debug, Clone)]
pub struct BuyProcedureSignature {
    pub buy: PartialTx,
    pub buy_adaptor_sig: Vec<u8>,
}

/// An optional courtesy message: the sender has given up the swap, with an
/// optional reason.
#[derive(Debug, Clone)]
pub struct Abort {
    pub error_body: Option<String>,
}

impl ProtocolMessage for CommitAliceParameters {}

impl ProtocolMessage for CommitBobParameters {}

impl ProtocolMessage for RevealAliceParameters {}

impl ProtocolMessage for RevealBobParameters {}

impl ProtocolMessage for CoreArbitratingSetup {}

impl ProtocolMessage for RefundProcedureSignatures {}

impl ProtocolMessage for BuyProcedureSignature {}

impl ProtocolMessage for Abort {}

// Commitments and their openings.

/// `c` commits to each of Alice's keys in `b`.
pub open spec fn alice_commits_to(c: CommitAliceParameters, b: AliceParameters) -> bool {
    &&& c.buy@ == sha256_of(b.buy@)
    &&& c.cancel@ == sha256_of(b.cancel@)
    &&& c.refund@ == sha256_of(b.refund@)
    &&& c.punish@ == sha256_of(b.punish@)
    &&& c.adaptor@ == sha256_of(b.adaptor@)
    &&& c.spend@ == sha256_of(b.spend@)
    &&& c.view@ == sha256_of(b.view@)
}

/// `c` commits to each of Bob's keys in `b`.
pub open spec fn bob_commits_to(c: CommitBobParameters, b: BobParameters) -> bool {
    &&& c.buy@ == sha256_of(b.buy@)
    &&& c.cancel@ == sha256_of(b.cancel@)
    &&& c.refund@ == sha256_of(b.refund@)
    &&& c.adaptor@ == sha256_of(b.adaptor@)
    &&& c.spend@ == sha256_of(b.spend@)
    &&& c.view@ == sha256_of(b.view@)
}

/// Every revealed key of Alice opens its commitment.
pub open spec fn alice_opens(c: CommitAliceParameters, r: RevealAliceParameters) -> bool {
    &&& sha256_of(r.buy@) == c.buy@
    &&& sha256_of(r.cancel@) == c.cancel@
    &&& sha256_of(r.refund@) == c.refund@
    &&& sha256_of(r.punish@) == c.punish@
    &&& sha256_of(r.adaptor@) == c.adaptor@
    &&& sha256_of(r.spend@) == c.spend@
    &&& sha256_of(r.view@) == c.view@
}

/// Every revealed key of Bob opens its commitment.
pub open spec fn bob_opens(c: CommitBobParameters, r: RevealBobParameters) -> bool {
    &&& sha256_of(r.buy@) == c.buy@
    &&& sha256_of(r.cancel@) == c.cancel@
    &&& sha256_of(r.refund@) == c.refund@
    &&& sha256_of(r.adaptor@) == c.adaptor@
    &&& sha256_of(r.spend@) == c.spend@
    &&& sha256_of(r.view@) == c.view@
}

/// The reveal carries exactly the public values of Alice's bundle.
pub open spec fn alice_reveal_of(r: RevealAliceParameters, b: AliceParameters) -> bool {
    &&& r.buy@ == b.buy@
    &&& r.cancel@ == b.cancel@
    &&& r.refund@ == b.refund@
    &&& r.punish@ == b.punish@
    &&& r.adaptor@ == b.adaptor@
    &&& r.address@ == b.destination_address@
    &&& r.spend@ == b.spend@
    &&& r.view@ == b.view@
    &&& r.proof.view_pair() == b.proof.view_pair()
}

/// The reveal carries exactly the public values of Bob's bundle.
pub open spec fn bob_reveal_of(r: RevealBobParameters, b: BobParameters) -> bool {
    &&& r.buy@ == b.buy@
    &&& r.cancel@ == b.cancel@
    &&& r.refund@ == b.refund@
    &&& r.adaptor@ == b.adaptor@
    &&& r.address@ == b.refund_address@
    &&& r.spend@ == b.spend@
    &&& r.view@ == b.view@
    &&& r.proof.view_pair() == b.proof.view_pair()
}

/// Some revealed key of Alice has another digest in `r2` than in `r`.
pub open spec fn alice_digest_changed(r: RevealAliceParameters, r2: RevealAliceParameters) -> bool {
    ||| sha256_of(r2.buy@) != sha256_of(r.buy@)
    ||| sha256_of(r2.cancel@) != sha256_of(r.cancel@)
    ||| sha256_of(r2.refund@) != sha256_of(r.refund@)
    ||| sha256_of(r2.punish@) != sha256_of(r.punish@)
    ||| sha256_of(r2.adaptor@) != sha256_of(r.adaptor@)
    ||| sha256_of(r2.spend@) != sha256_of(r.spend@)
    ||| sha256_of(r2.view@) != sha256_of(r.view@)
}

/// Some revealed key of Bob has another digest in `r2` than in `r`.
pub open spec fn bob_digest_changed(r: RevealBobParameters, r2: RevealBobParameters) -> bool {
    ||| sha256_of(r2.buy@) != sha256_of(r.buy@)
    ||| sha256_of(r2.cancel@) != sha256_of(r.cancel@)
    ||| sha256_of(r2.refund@) != sha256_of(r.refund@)
    ||| sha256_of(r2.adaptor@) != sha256_of(r.adaptor@)
    ||| sha256_of(r2.spend@) != sha256_of(r.spend@)
    ||| sha256_of(r2.view@) != sha256_of(r.view@)
}

/// The commitments made from a bundle are opened by the reveal made from
/// the same bundle.
pub proof fn lemma_alice_commit_reveal_sound(
    b: AliceParameters,
    c: CommitAliceParameters,
    r: RevealAliceParameters,
)
    requires
        alice_commits_to(c, b),
        alice_reveal_of(r, b),
    ensures
        alice_opens(c, r),
{
}

/// The commitments made from a bundle are opened by the reveal made from
/// the same bundle.
pub proof fn lemma_bob_commit_reveal_sound(b: BobParameters, c: CommitBobParameters, r: RevealBobParameters)
    requires
        bob_commits_to(c, b),
        bob_reveal_of(r, b),
    ensures
        bob_opens(c, r),
{
}

/// A reveal altered in a key whose digest thereby changes no longer opens
/// the commitments that the unaltered reveal opened.
pub proof fn lemma_alice_altered_reveal_rejected(
    c: CommitAliceParameters,
    r: RevealAliceParameters,
    r2: RevealAliceParameters,
)
    requires
        alice_opens(c, r),
        alice_digest_changed(r, r2),
    ensures
        !alice_opens(c, r2),
{
}

/// A reveal altered in a key whose digest thereby changes no longer opens
/// the commitments that the unaltered reveal opened.
pub proof fn lemma_bob_altered_reveal_rejected(
    c: CommitBobParameters,
    r: RevealBobParameters,
    r2: RevealBobParameters,
)
    requires
        bob_opens(c, r),
        bob_digest_changed(r, r2),
    ensures
        !bob_opens(c, r2),
{
}

impl CommitAliceParameters {
    /// Commits to each of Alice's keys.
    pub fn from_bundle(bundle: &AliceParameters) -> (r: Self)
        ensures
            alice_commits_to(r, *bundle),
    {
        CommitAliceParameters {
            buy: commit_to(&bundle.buy),
            cancel: commit_to(&bundle.cancel),
            refund: commit_to(&bundle.refund),
            punish: commit_to(&bundle.punish),
            adaptor: commit_to(&bundle.adaptor),
            spend: commit_to(&bundle.spend),
            view: commit_to(&bundle.view),
        }
    }

    /// Checks that every revealed key opens its commitment.
    pub fn verify_openings(&self, reveal: &RevealAliceParameters) -> (r: Result<(), Error>)
        ensures
            r is Ok <==> alice_opens(*self, *reveal),
            r is Err ==> r == Err::<(), Error>(Error::InvalidCommitment),
    {
        validate(&reveal.buy, &self.buy)?;
        validate(&reveal.cancel, &self.cancel)?;
        validate(&reveal.refund, &self.refund)?;
        validate(&reveal.punish, &self.punish)?;
        validate(&reveal.adaptor, &self.adaptor)?;
        validate(&reveal.spend, &self.spend)?;
        validate(&reveal.view, &self.view)?;
        Ok(())
    }

    /// Checks the reveal against the commitments, then its proof: any
    /// commitment that does not open rejects it with `InvalidCommitment`,
    /// and a proof that does not verify with `InvalidProof`.
    pub fn verify<D: DleqProof>(&self, reveal: &RevealAliceParameters, dleq: &D) -> (r: Result<(), Error>)
        ensures
            r == (if !alice_opens(*self, *reveal) {
                Err::<(), Error>(Error::InvalidCommitment)
            } else if !dleq.accepts(reveal.spend@, reveal.adaptor@, reveal.proof.view_pair()) {
                Err::<(), Error>(Error::InvalidProof)
            } else {
                Ok::<(), Error>(())
            }),
    {
        self.verify_openings(reveal)?;
        if dleq.verify(&reveal.spend, &reveal.adaptor, &reveal.proof) {
            Ok(())
        } else {
            Err(Error::InvalidProof)
        }
    }

    /// The outcome of checking the reveal, given the proof system's verdict
    /// on its proof: `InvalidCommitment` if a key does not open its
    /// commitment, else `InvalidProof` if the proof was refused, else `Ok`.
    pub fn verify_with_proof(&self, reveal: &RevealAliceParameters, proven: bool) -> (r: Result<(), Error>)
        ensures
            r == (if !alice_opens(*self, *reveal) {
                Err::<(), Error>(Error::InvalidCommitment)
            } else if !proven {
                Err::<(), Error>(Error::InvalidProof)
            } else {
                Ok::<(), Error>(())
            }),
    {
        self.verify_openings(reveal)?;
        if proven {
            Ok(())
        } else {
            Err(Error::InvalidProof)
        }
    }

    /// Verifies the reveal, then turns it into Alice's bundle.
    pub fn verify_then_bundle<D: DleqProof>(&self, reveal: &RevealAliceParameters, dleq: &D) -> (r: Result<
        AliceParameters,
        Error,
    >)
        ensures
            r is Ok <==> alice_opens(*self, *reveal) && dleq.accepts(
                reveal.spend@,
                reveal.adaptor@,
                reveal.proof.view_pair(),
            ),
            !alice_opens(*self, *reveal) ==> r == Err::<AliceParameters, Error>(Error::InvalidCommitment),
            alice_opens(*self, *reveal) && !dleq.accepts(
                reveal.spend@,
                reveal.adaptor@,
                reveal.proof.view_pair(),
            ) ==> r == Err::<AliceParameters, Error>(Error::InvalidProof),
            match r {
                Ok(b) => alice_reveal_of(*reveal, b) && b.cancel_timelock is None && b.punish_timelock is None
                    && b.fee_strategy is None,
                Err(_) => true,
            },
    {
        self.verify(reveal, dleq)?;
        Ok(reveal.into_bundle())
    }
}

impl CommitBobParameters {
    /// Commits to each of Bob's keys.
    pub fn from_bundle(bundle: &BobParameters) -> (r: Self)
        ensures
            bob_commits_to(r, *bundle),
    {
        CommitBobParameters {
            buy: commit_to(&bundle.buy),
            cancel: commit_to(&bundle.cancel),
            refund: commit_to(&bundle.refund),
            adaptor: commit_to(&bundle.adaptor),
            spend: commit_to(&bundle.spend),
            view: commit_to(&bundle.view),
        }
    }

    /// Checks that every revealed key opens its commitment.
    pub fn verify_openings(&self, reveal: &RevealBobParameters) -> (r: Result<(), Error>)
        ensures
            r is Ok <==> bob_opens(*self, *reveal),
            r is Err ==> r == Err::<(), Error>(Error::InvalidCommitment),
    {
        validate(&reveal.buy, &self.buy)?;
        validate(&reveal.cancel, &self.cancel)?;
        validate(&reveal.refund, &self.refund)?;
        validate(&reveal.adaptor, &self.adaptor)?;
        validate(&reveal.spend, &self.spend)?;
        validate(&reveal.view, &self.view)?;
        Ok(())
    }

    /// Checks the reveal against the commitments, then its proof: any
    /// commitment that does not open rejects it with `InvalidCommitment`,
    /// and a proof that does not verify with `InvalidProof`.
    pub fn verify<D: DleqProof>(&self, reveal: &RevealBobParameters, dleq: &D) -> (r: Result<(), Error>)
        ensures
            r == (if !bob_opens(*self, *reveal) {
                Err::<(), Error>(Error::InvalidCommitment)
            } else if !dleq.accepts(reveal.spend@, reveal.adaptor@, reveal.proof.view_pair()) {
                Err::<(), Error>(Error::InvalidProof)
            } else {
                Ok::<(), Error>(())
            }),
    {
        self.verify_openings(reveal)?;
        if dleq.verify(&reveal.spend, &reveal.adaptor, &reveal.proof) {
            Ok(())
        } else {
            Err(Error::InvalidProof)
        }
    }

    /// The outcome of checking the reveal, given the proof system's verdict
    /// on its proof: `InvalidCommitment` if a key does not open its
    /// commitment, else `InvalidProof` if the proof was refused, else `Ok`.
    pub fn verify_with_proof(&self, reveal: &RevealBobParameters, proven: bool) -> (r: Result<(), Error>)
        ensures
            r == (if !bob_opens(*self, *reveal) {
                Err::<(), Error>(Error::InvalidCommitment)
            } else if !proven {
                Err::<(), Error>(Error::InvalidProof)
            } else {
                Ok::<(), Error>(())
            }),
    {
        self.verify_openings(reveal)?;
        if proven {
            Ok(())
        } else {
            Err(Error::InvalidProof)
        }
    }

    /// Verifies the reveal, then turns it into Bob's bundle.
    pub fn verify_then_bundle<D: DleqProof>(&self, reveal: &RevealBobParameters, dleq: &D) -> (r: Result<
        BobParameters,
        Error,
    >)
        ensures
            r is Ok <==> bob_opens(*self, *reveal) && dleq.accepts(
                reveal.spend@,
                reveal.adaptor@,
                reveal.proof.view_pair(),
            ),
            !bob_opens(*self, *reveal) ==> r == Err::<BobParameters, Error>(Error::InvalidCommitment),
            bob_opens(*self, *reveal) && !dleq.accepts(
                reveal.spend@,
                reveal.adaptor@,
                reveal.proof.view_pair(),
            ) ==> r == Err::<BobParameters, Error>(Error::InvalidProof),
            match r {
                Ok(b) => bob_reveal_of(*reveal, b) && b.cancel_timelock is None && b.punish_timelock is None
                    && b.fee_strategy is None,
                Err(_) => true,
            },
    {
        self.verify(reveal, dleq)?;
        Ok(reveal.into_bundle())
    }
}

impl RevealAliceParameters {
    /// The public values of Alice's bundle.
    pub fn from_bundle(bundle: &AliceParameters) -> (r: Result<Self, Error>)
        ensures
            r is Ok && alice_reveal_of(r->Ok_0, *bundle),
    {
        Ok(RevealAliceParameters {
            buy: copy_bytes(&bundle.buy),
            cancel: copy_bytes(&bundle.cancel),
            refund: copy_bytes(&bundle.refund),
            punish: copy_bytes(&bundle.punish),
            adaptor: copy_bytes(&bundle.adaptor),
            address: copy_bytes(&bundle.destination_address),
            spend: copy_bytes(&bundle.spend),
            view: copy_bytes(&bundle.view),
            proof: bundle.proof.copy(),
        })
    }

    /// Alice's bundle, without timelocks or fee strategy.
    pub fn into_bundle(&self) -> (r: AliceParameters)
        ensures
            alice_reveal_of(*self, r),
            r.cancel_timelock is None,
            r.punish_timelock is None,
            r.fee_strategy is None,
    {
        AliceParameters {
            buy: copy_bytes(&self.buy),
            cancel: copy_bytes(&self.cancel),
            refund: copy_bytes(&self.refund),
            punish: copy_bytes(&self.punish),
            adaptor: copy_bytes(&self.adaptor),
            destination_address: copy_bytes(&self.address),
            spend: copy_bytes(&self.spend),
            view: copy_bytes(&self.view),
            proof: self.proof.copy(),
            cancel_timelock: None,
            punish_timelock: None,
            fee_strategy: None,
        }
    }
}

impl RevealBobParameters {
    /// The public values of Bob's bundle.
    pub fn from_bundle(bundle: &BobParameters) -> (r: Result<Self, Error>)
        ensures
            r is Ok && bob_reveal_of(r->Ok_0, *bundle),
    {
        Ok(RevealBobParameters {
            buy: copy_bytes(&bundle.buy),
            cancel: copy_bytes(&bundle.cancel),
            refund: copy_bytes(&bundle.refund),
            adaptor: copy_bytes(&bundle.adaptor),
            address: copy_bytes(&bundle.refund_address),
            spend: copy_bytes(&bundle.spend),
            view: copy_bytes(&bundle.view),
            proof: bundle.proof.copy(),
        })
    }

    /// Bob's bundle, without timelocks or fee strategy.
    pub fn into_bundle(&self) -> (r: BobParameters)
        ensures
            bob_reveal_of(*self, r),
            r.cancel_timelock is None,
            r.punish_timelock is None,
            r.fee_strategy is None,
    {
        BobParameters {
            buy: copy_bytes(&self.buy),
            cancel: copy_bytes(&self.cancel),
            refund: copy_bytes(&self.refund),
            adaptor: copy_bytes(&self.adaptor),
            refund_address: copy_bytes(&self.address),
            spend: copy_bytes(&self.spend),
            view: copy_bytes(&self.view),
            proof: self.proof.copy(),
            cancel_timelock: None,
            punish_timelock: None,
            fee_strategy: None,
        }
    }
}

/// The bytes of a regular signature.
fn regular_bytes(s: &SignatureType) -> (r: Result<Vec<u8>, Error>)
    ensures
        match *s {
            SignatureType::Regular(b) => r is Ok && r->Ok_0@ == b@,
            _ => r == Err::<Vec<u8>, Error>(Error::TypeMismatch),
        },
{
    match s {
        SignatureType::Regular(b) => Ok(copy_bytes(b)),
        _ => Err(Error::TypeMismatch),
    }
}

/// The bytes of an adaptor signature.
fn adaptor_bytes(s: &SignatureType) -> (r: Result<Vec<u8>, Error>)
    ensures
        match *s {
            SignatureType::Adaptor(b) => r is Ok && r->Ok_0@ == b@,
            _ => r == Err::<Vec<u8>, Error>(Error::TypeMismatch),
        },
{
    match s {
        SignatureType::Adaptor(b) => Ok(copy_bytes(b)),
        _ => Err(Error::TypeMismatch),
    }
}

/// `s` is the signature of the transaction, by the role, of the kind, with
/// the bytes given.
pub open spec fn signature_is(s: TxSignature, tx_id: TxId, role: SwapRole, regular: bool, bytes: Seq<u8>) -> bool {
    &&& s.tx_id == tx_id
    &&& s.role == role
    &&& match s.signature {
        SignatureType::Regular(b) => regular && b@ == bytes,
        SignatureType::Adaptor(b) => !regular && b@ == bytes,
        SignatureType::Adapted(_) => false,
    }
}

impl CoreArbitratingSetup {
    /// Bob's setup message from his transactions and his regular signature
    /// of the cancel transaction; `TypeMismatch` if the signature is of
    /// another kind.
    pub fn from_bundles(txs: CoreArbitratingTransactions, sig: &CosignedArbitratingCancel) -> (r: Result<
        Self,
        Error,
    >)
        ensures
            match sig.cancel_sig.signature {
                SignatureType::Regular(b) => r is Ok && r->Ok_0.lock == txs.lock && r->Ok_0.cancel
                    == txs.cancel && r->Ok_0.refund == txs.refund && r->Ok_0.cancel_sig@ == b@,
                _ => r == Err::<Self, Error>(Error::TypeMismatch),
            },
    {
        let cancel_sig = regular_bytes(&sig.cancel_sig.signature)?;
        Ok(CoreArbitratingSetup { lock: txs.lock, cancel: txs.cancel, refund: txs.refund, cancel_sig })
    }

    /// The three transactions of the message.
    pub fn into_core_transactions(self) -> (r: CoreArbitratingTransactions)
        ensures
            r.lock == self.lock,
            r.cancel == self.cancel,
            r.refund == self.refund,
    {
        CoreArbitratingTransactions { lock: self.lock, cancel: self.cancel, refund: self.refund }
    }

    /// Bob's regular signature of the cancel transaction.
    pub fn into_cosigned_cancel(&self) -> (r: CosignedArbitratingCancel)
        ensures
            signature_is(r.cancel_sig, TxId::Cancel, SwapRole::Bob, true, self.cancel_sig@),
    {
        CosignedArbitratingCancel {
            cancel_sig: TxSignature {
                tx_id: TxId::Cancel,
                role: SwapRole::Bob,
                signature: SignatureType::Regular(copy_bytes(&self.cancel_sig)),
            },
        }
    }
}

impl RefundProcedureSignatures {
    /// Alice's message from her regular cancel signature and her adaptor
    /// refund signature; `TypeMismatch` if either is of another kind.
    pub fn from_bundles(sig: &CosignedArbitratingCancel, adaptor_sig: &SignedAdaptorRefund) -> (r: Result<
        Self,
        Error,
    >)
        ensures
            match (sig.cancel_sig.signature, adaptor_sig.refund_adaptor_sig.signature) {
                (SignatureType::Regular(c), SignatureType::Adaptor(a)) => r is Ok && r->Ok_0.cancel_sig@
                    == c@ && r->Ok_0.refund_adaptor_sig@ == a@,
                _ => r == Err::<Self, Error>(Error::TypeMismatch),
            },
    {
        let cancel_sig = regular_bytes(&sig.cancel_sig.signature)?;
        let refund_adaptor_sig = adaptor_bytes(&adaptor_sig.refund_adaptor_sig.signature)?;
        Ok(RefundProcedureSignatures { cancel_sig, refund_adaptor_sig })
    }

    /// Alice's regular signature of the cancel transaction.
    pub fn into_cosigned_cancel(&self) -> (r: CosignedArbitratingCancel)
        ensures
            signature_is(r.cancel_sig, TxId::Cancel, SwapRole::Alice, true, self.cancel_sig@),
    {
        CosignedArbitratingCancel {
            cancel_sig: TxSignature {
                tx_id: TxId::Cancel,
                role: SwapRole::Alice,
                signature: SignatureType::Regular(copy_bytes(&self.cancel_sig)),
            },
        }
    }

    /// Alice's adaptor signature of the refund transaction.
    pub fn into_adaptor_refund(&self) -> (r: SignedAdaptorRefund)
        ensures
            signature_is(r.refund_adaptor_sig, TxId::Refund, SwapRole::Alice, false, self.refund_adaptor_sig@),
    {
        SignedAdaptorRefund {
            refund_adaptor_sig: TxSignature {
                tx_id: TxId::Refund,
                role: SwapRole::Alice,
                signature: SignatureType::Adaptor(copy_bytes(&self.refund_adaptor_sig)),
            },
        }
    }
}

impl BuyProcedureSignature {
    /// Bob's message from the buy transaction and his adaptor signature of
    /// it; `TypeMismatch` if the signature is of another kind.
    pub fn from_bundle(bundle: SignedAdaptorBuy) -> (r: Result<Self, Error>)
        ensures
            match bundle.buy_adaptor_sig.signature {
                SignatureType::Adaptor(b) => r is Ok && r->Ok_0.buy == bundle.buy
                    && r->Ok_0.buy_adaptor_sig@ == b@,
                _ => r == Err::<Self, Error>(Error::TypeMismatch),
            },
    {
        let buy_adaptor_sig = adaptor_bytes(&bundle.buy_adaptor_sig.signature)?;
        Ok(BuyProcedureSignature { buy: bundle.buy, buy_adaptor_sig })
    }

    /// The buy transaction and Bob's adaptor signature of it.
    pub fn into_bundle(self) -> (r: SignedAdaptorBuy)
        ensures
            r.buy == self.buy,
            signature_is(r.buy_adaptor_sig, TxId::Buy, SwapRole::Bob, false, self.buy_adaptor_sig@),
    {
        let sig = copy_bytes(&self.buy_adaptor_sig);
        SignedAdaptorBuy {
            buy: self.buy,
            buy_adaptor_sig: TxSignature {
                tx_id: TxId::Buy,
                role: SwapRole::Bob,
                signature: SignatureType::Adaptor(sig),
            },
        }
    }
}

impl CommitAliceParameters {
    /// The fields in wire order.
    pub open spec fn fields(&self) -> Seq<Seq<u8>> {
        seq![self.buy@, self.cancel@, self.refund@, self.punish@, self.adaptor@, self.spend@, self.view@]
    }

    /// Writes the fields in order.
    pub fn consensus_encode(&self) -> (r: Vec<u8>)
        requires
            fields_fit(self.fields()),
        ensures
            r@ == fields_bytes(self.fields()),
    {
        let fs: Vec<&Vec<u8>> = vec![&self.buy, &self.cancel, &self.refund, &self.punish, &self.adaptor, &self.spend, &self.view];
        assert(fs@.map_values(|f: &Vec<u8>| f@) =~= self.fields());
        encode_fields(&fs)
    }

    /// Reads the fields from bytes that hold them and nothing more.
    pub fn consensus_decode(b: &Vec<u8>) -> (r: Result<Self, Error>)
        ensures
            match r {
                Ok(m) => parse_fields(b@, 7) == Some(m.fields()),
                Err(e) => e == Error::ParseFailed && parse_fields(b@, 7) is None,
            },
    {
        match decode_fields(b, 7) {
            None => Err(Error::ParseFailed),
            Some(v) => {
                let m = CommitAliceParameters {
                    buy: copy_bytes(&v[0]),
                    cancel: copy_bytes(&v[1]),
                    refund: copy_bytes(&v[2]),
                    punish: copy_bytes(&v[3]),
                    adaptor: copy_bytes(&v[4]),
                    spend: copy_bytes(&v[5]),
                    view: copy_bytes(&v[6]),
                };
                assert(m.fields() =~= v@.map_values(|f: Vec<u8>| f@));
                Ok(m)
            },
        }
    }
}

impl CommitBobParameters {
    /// The fields in wire order.
    pub open spec fn fields(&self) -> Seq<Seq<u8>> {
        seq![self.buy@, self.cancel@, self.refund@, self.adaptor@, self.spend@, self.view@]
    }

    /// Writes the fields in order.
    pub fn consensus_encode(&self) -> (r: Vec<u8>)
        requires
            fields_fit(self.fields()),
        ensures
            r@ == fields_bytes(self.fields()),
    {
        let fs: Vec<&Vec<u8>> = vec![&self.buy, &self.cancel, &self.refund, &self.adaptor, &self.spend, &self.view];
        assert(fs@.map_values(|f: &Vec<u8>| f@) =~= self.fields());
        encode_fields(&fs)
    }

    /// Reads the fields from bytes that hold them and nothing more.
    pub fn consensus_decode(b: &Vec<u8>) -> (r: Result<Self, Error>)
        ensures
            match r {
                Ok(m) => parse_fields(b@, 6) == Some(m.fields()),
                Err(e) => e == Error::ParseFailed && parse_fields(b@, 6) is None,
            },
    {
        match decode_fields(b, 6) {
            None => Err(Error::ParseFailed),
            Some(v) => {
                let m = CommitBobParameters {
                    buy: copy_bytes(&v[0]),
                    cancel: copy_bytes(&v[1]),
                    refund: copy_bytes(&v[2]),
                    adaptor: copy_bytes(&v[3]),
                    spend: copy_bytes(&v[4]),
                    view: copy_bytes(&v[5]),
                };
                assert(m.fields() =~= v@.map_values(|f: Vec<u8>| f@));
                Ok(m)
            },
        }
    }
}

impl RevealAliceParameters {
    /// The fields in wire order.
    pub open spec fn fields(&self) -> Seq<Seq<u8>> {
        seq![self.buy@, self.cancel@, self.refund@, self.punish@, self.adaptor@, self.address@, self.spend@, self.view@, self.proof.arbitrating@, self.proof.accordant@]
    }

    /// Writes the fields in order.
    pub fn consensus_encode(&self) -> (r: Vec<u8>)
        requires
            fields_fit(self.fields()),
        ensures
            r@ == fields_bytes(self.fields()),
    {
        let fs: Vec<&Vec<u8>> = vec![&self.buy, &self.cancel, &self.refund, &self.punish, &self.adaptor, &self.address, &self.spend, &self.view, &self.proof.arbitrating, &self.proof.accordant];
        assert(fs@.map_values(|f: &Vec<u8>| f@) =~= self.fields());
        encode_fields(&fs)
    }

    /// Reads the fields from bytes that hold them and nothing more.
    pub fn consensus_decode(b: &Vec<u8>) -> (r: Result<Self, Error>)
        ensures
            match r {
                Ok(m) => parse_fields(b@, 10) == Some(m.fields()),
                Err(e) => e == Error::ParseFailed && parse_fields(b@, 10) is None,
            },
    {
        match decode_fields(b, 10) {
            None => Err(Error::ParseFailed),
            Some(v) => {
                let m = RevealAliceParameters {
                    buy: copy_bytes(&v[0]),
                    cancel: copy_bytes(&v[1]),
                    refund: copy_bytes(&v[2]),
                    punish: copy_bytes(&v[3]),
                    adaptor: copy_bytes(&v[4]),
                    address: copy_bytes(&v[5]),
                    spend: copy_bytes(&v[6]),
                    view: copy_bytes(&v[7]),
                    proof: Proof { arbitrating: copy_bytes(&v[8]), accordant: copy_bytes(&v[9]) },
                };
                assert(m.fields() =~= v@.map_values(|f: Vec<u8>| f@));
                Ok(m)
            },
        }
    }
}

impl RevealBobParameters {
    /// The fields in wire order.
    pub open spec fn fields(&self) -> Seq<Seq<u8>> {
        seq![self.buy@, self.cancel@, self.refund@, self.adaptor@, self.address@, self.spend@, self.view@, self.proof.arbitrating@, self.proof.accordant@]
    }

    /// Writes the fields in order.
    pub fn consensus_encode(&self) -> (r: Vec<u8>)
        requires
            fields_fit(self.fields()),
        ensures
            r@ == fields_bytes(self.fields()),
    {
        let fs: Vec<&Vec<u8>> = vec![&self.buy, &self.cancel, &self.refund, &self.adaptor, &self.address, &self.spend, &self.view, &self.proof.arbitrating, &self.proof.accordant];
        assert(fs@.map_values(|f: &Vec<u8>| f@) =~= self.fields());
        encode_fields(&fs)
    }

    /// Reads the fields from bytes that hold them and nothing more.
    pub fn consensus_decode(b: &Vec<u8>) -> (r: Result<Self, Error>)
        ensures
            match r {
                Ok(m) => parse_fields(b@, 9) == Some(m.fields()),
                Err(e) => e == Error::ParseFailed && parse_fields(b@, 9) is None,
            },
    {
        match decode_fields(b, 9) {
            None => Err(Error::ParseFailed),
            Some(v) => {
                let m = RevealBobParameters {
                    buy: copy_bytes(&v[0]),
                    cancel: copy_bytes(&v[1]),
                    refund: copy_bytes(&v[2]),
                    adaptor: copy_bytes(&v[3]),
                    address: copy_bytes(&v[4]),
                    spend: copy_bytes(&v[5]),
                    view: copy_bytes(&v[6]),
                    proof: Proof { arbitrating: copy_bytes(&v[7]), accordant: copy_bytes(&v[8]) },
                };
                assert(m.fields() =~= v@.map_values(|f: Vec<u8>| f@));
                Ok(m)
            },
        }
    }
}

/// Decoding an encoded message gives back its fields.
pub proof fn lemma_commit_alice_round_trip(m: CommitAliceParameters)
    requires
        fields_fit(m.fields()),
    ensures
        parse_fields(fields_bytes(m.fields()), 7) == Some(m.fields()),
{
    lemma_fields_round_trip(m.fields());
}

/// Decoding an encoded message gives back its fields.
pub proof fn lemma_commit_bob_round_trip(m: CommitBobParameters)
    requires
        fields_fit(m.fields()),
    ensures
        parse_fields(fields_bytes(m.fields()), 6) == Some(m.fields()),
{
    lemma_fields_round_trip(m.fields());
}

/// Decoding an encoded message gives back its fields.
pub proof fn lemma_reveal_alice_round_trip(m: RevealAliceParameters)
    requires
        fields_fit(m.fields()),
    ensures
        parse_fields(fields_bytes(m.fields()), 10) == Some(m.fields()),
{
    lemma_fields_round_trip(m.fields());
}

/// Decoding an encoded message gives back its fields.
pub proof fn lemma_reveal_bob_round_trip(m: RevealBobParameters)
    requires
        fields_fit(m.fields()),
    ensures
        parse_fields(fields_bytes(m.fields()), 9) == Some(m.fields()),
{
    lemma_fields_round_trip(m.fields());
}

impl RefundProcedureSignatures {
    /// The fields in wire order.
    pub open spec fn fields(&self) -> Seq<Seq<u8>> {
        seq![self.cancel_sig@, self.refund_adaptor_sig@]
    }

    /// Writes the fields in order.
    pub fn consensus_encode(&self) -> (r: Vec<u8>)
        requires
            fields_fit(self.fields()),
        ensures
            r@ == fields_bytes(self.fields()),
    {
        let fs: Vec<&Vec<u8>> = vec![&self.cancel_sig, &self.refund_adaptor_sig];
        assert(fs@.map_values(|f: &Vec<u8>| f@) =~= self.fields());
        encode_fields(&fs)
    }

    /// Reads the fields from bytes that hold them and nothing more.
    pub fn consensus_decode(b: &Vec<u8>) -> (r: Result<Self, Error>)
        ensures
            match r {
                Ok(m) => parse_fields(b@, 2) == Some(m.fields()),
                Err(e) => e == Error::ParseFailed && parse_fields(b@, 2) is None,
            },
    {
        match decode_fields(b, 2) {
            None => Err(Error::ParseFailed),
            Some(v) => {
                let m = RefundProcedureSignatures {
                    cancel_sig: copy_bytes(&v[0]),
                    refund_adaptor_sig: copy_bytes(&v[1]),
                };
                assert(m.fields() =~= v@.map_values(|f: Vec<u8>| f@));
                Ok(m)
            },
        }
    }
}

/// Decoding an encoded message gives back its fields.
pub proof fn lemma_refund_procedure_round_trip(m: RefundProcedureSignatures)
    requires
        fields_fit(m.fields()),
    ensures
        parse_fields(fields_bytes(m.fields()), 2) == Some(m.fields()),
{
    lemma_fields_round_trip(m.fields());
}

/// The body of an abort message as characters.
pub open spec fn body_view(body: Option<String>) -> Option<Seq<char>> {
    match body {
        Some(s) => Some(s@),
        None => None,
    }
}

/// An abort message on the wire: `0` without a body; `1`, then the body's
/// UTF-8 bytes as one field, with one.
pub open spec fn abort_bytes(body: Option<Seq<char>>) -> Seq<u8> {
    match body {
        None => seq![0u8],
        Some(s) => seq![1u8] + field_bytes(encode_utf8(s)),
    }
}

/// What decoding an abort message from `b` gives.
pub open spec fn decode_abort(b: Seq<u8>) -> Result<Option<Seq<char>>, Error> {
    if b.len() == 0 {
        Err(Error::ParseFailed)
    } else if b[0] == 0 {
        if b.len() == 1 {
            Ok(None)
        } else {
            Err(Error::ParseFailed)
        }
    } else if b[0] == 1 {
        match parse_fields(b.drop_first(), 1) {
            Some(fs) => if valid_utf8(fs[0]) {
                Ok(Some(decode_utf8(fs[0])))
            } else {
                Err(Error::ParseFailed)
            },
            None => Err(Error::ParseFailed),
        }
    } else {
        Err(Error::UnknownType)
    }
}

/// The body fits the two-byte length of a field.
pub open spec fn abort_fits(body: Option<Seq<char>>) -> bool {
    match body {
        Some(s) => encode_utf8(s).len() < 65536,
        None => true,
    }
}

/// Decoding an encoded abort message gives back its body.
pub proof fn lemma_abort_round_trip(body: Option<Seq<char>>)
    requires
        abort_fits(body),
    ensures
        decode_abort(abort_bytes(body)) == Ok::<Option<Seq<char>>, Error>(body),
{
    match body {
        None => {},
        Some(s) => {
            let f = encode_utf8(s);
            lemma_fields_round_trip(seq![f]);
            assert(fields_bytes(seq![f]) =~= field_bytes(f)) by {
                assert(seq![f].drop_first() =~= Seq::<Seq<u8>>::empty());
                assert(fields_bytes(Seq::<Seq<u8>>::empty()) == Seq::<u8>::empty());
                assert(seq![f][0] == f);
                assert(field_bytes(f) + Seq::<u8>::empty() =~= field_bytes(f));
            }
            assert(abort_bytes(body).drop_first() =~= field_bytes(f));
            vstd::utf8::encode_utf8_valid_utf8(s);
            vstd::utf8::encode_utf8_decode_utf8(s);
        },
    }
}

impl Abort {
    /// Writes the message.
    pub fn consensus_encode(&self) -> (r: Vec<u8>)
        requires
            abort_fits(body_view(self.error_body)),
        ensures
            r@ == abort_bytes(body_view(self.error_body)),
    {
        let mut r: Vec<u8> = Vec::new();
        match &self.error_body {
            None => {
                r.push(0);
                assert(r@ =~= seq![0u8]);
            },
            Some(s) => {
                r.push(1);
                let b = utf8_bytes(s);
                push_field(&mut r, &b);
                assert(r@ =~= seq![1u8] + field_bytes(encode_utf8(s@)));
            },
        }
        r
    }

    /// Reads the message from bytes that hold it and nothing more.
    pub fn consensus_decode(b: &Vec<u8>) -> (r: Result<Abort, Error>)
        ensures
            match r {
                Ok(m) => decode_abort(b@) == Ok::<Option<Seq<char>>, Error>(body_view(m.error_body)),
                Err(e) => decode_abort(b@) == Err::<Option<Seq<char>>, Error>(e),
            },
    {
        if b.len() == 0 {
            return Err(Error::ParseFailed);
        }
        if b[0] == 0 {
            if b.len() == 1 {
                return Ok(Abort { error_body: None });
            }
            return Err(Error::ParseFailed);
        }
        if b[0] != 1 {
            return Err(Error::UnknownType);
        }
        let rest = crate::codec::copy_range(b, 1, b.len());
        assert(rest@ =~= b@.drop_first());
        match decode_fields(&rest, 1) {
            None => Err(Error::ParseFailed),
            Some(v) => {
                let f = copy_bytes(&v[0]);
                match string_from_utf8(f) {
                    Some(s) => Ok(Abort { error_body: Some(s) }),
                    None => Err(Error::ParseFailed),
                }
            },
        }
    }
}

// The order in which messages are accepted.

/// The kinds of protocol message.
#[derive(Debug, Clone, Copy, PartialEq, Eq, Structural)]
pub enum MessageKind {
    CommitAlice,
    CommitBob,
    RevealAlice,
    RevealBob,
    CoreArbitratingSetup,
    RefundProcedureSignatures,
    BuyProcedureSignature,
    Abort,
}

/// Which messages a participant has accepted so far, and whether the swap
/// was aborted.
#[derive(Debug, Clone, Copy, PartialEq, Eq, Structural)]
pub struct ProtocolState {
    pub commit_alice: bool,
    pub commit_bob: bool,
    pub reveal_alice: bool,
    pub reveal_bob: bool,
    pub core_setup: bool,
    pub refund_procedure: bool,
    pub buy_procedure: bool,
    pub aborted: bool,
}

/// Whether a message of kind `k` is accepted in state `s`: both commits
/// before either reveal, both reveals before the setup, then the refund
/// procedure, then the buy procedure; each once; nothing after an abort.
pub open spec fn accepts(s: ProtocolState, k: MessageKind) -> bool {
    !s.aborted && match k {
        MessageKind::CommitAlice => !s.commit_alice,
        MessageKind::CommitBob => !s.commit_bob,
        MessageKind::RevealAlice => s.commit_alice && s.commit_bob && !s.reveal_alice,
        MessageKind::RevealBob => s.commit_alice && s.commit_bob && !s.reveal_bob,
        MessageKind::CoreArbitratingSetup => s.reveal_alice && s.reveal_bob && !s.core_setup,
        MessageKind::RefundProcedureSignatures => s.core_setup && !s.refund_procedure,
        MessageKind::BuyProcedureSignature => s.refund_procedure && !s.buy_procedure,
        MessageKind::Abort => true,
    }
}

/// The state after accepting a message of kind `k`.
pub open spec fn after(s: ProtocolState, k: MessageKind) -> ProtocolState {
    match k {
        MessageKind::CommitAlice => ProtocolState { commit_alice: true, ..s },
        MessageKind::CommitBob => ProtocolState { commit_bob: true, ..s },
        MessageKind::RevealAlice => ProtocolState { reveal_alice: true, ..s },
        MessageKind::RevealBob => ProtocolState { reveal_bob: true, ..s },
        MessageKind::CoreArbitratingSetup => ProtocolState { core_setup: true, ..s },
        MessageKind::RefundProcedureSignatures => ProtocolState { refund_procedure: true, ..s },
        MessageKind::BuyProcedureSignature => ProtocolState { buy_procedure: true, ..s },
        MessageKind::Abort => ProtocolState { aborted: true, ..s },
    }
}

/// Each accepted message had all those before it in the sequence accepted.
pub open spec fn in_order(s: ProtocolState) -> bool {
    &&& (s.reveal_alice || s.reveal_bob) ==> s.commit_alice && s.commit_bob
    &&& s.core_setup ==> s.reveal_alice && s.reveal_bob
    &&& s.refund_procedure ==> s.core_setup
    &&& s.buy_procedure ==> s.refund_procedure
}

/// Accepting messages keeps the sequence: from a state in order, every
/// accepted message leads to a state in order.
pub proof fn lemma_accept_keeps_order(s: ProtocolState, k: MessageKind)
    requires
        in_order(s),
        accepts(s, k),
    ensures
        in_order(after(s, k)),
{
}

impl ProtocolState {
    /// The state before any message.
    pub fn new() -> (r: Self)
        ensures
            !r.commit_alice && !r.commit_bob && !r.reveal_alice && !r.reveal_bob && !r.core_setup
                && !r.refund_procedure && !r.buy_procedure && !r.aborted,
            in_order(r),
    {
        ProtocolState {
            commit_alice: false,
            commit_bob: false,
            reveal_alice: false,
            reveal_bob: false,
            core_setup: false,
            refund_procedure: false,
            buy_procedure: false,
            aborted: false,
        }
    }

    /// Records a message of kind `k`, or rejects it with
    /// `UnexpectedMessage` and leaves the state as it was.
    pub fn accept(&mut self, k: MessageKind) -> (r: Result<(), Error>)
        ensures
            accepts(*old(self), k) ==> r is Ok && *final(self) == after(*old(self), k),
            !accepts(*old(self), k) ==> r == Err::<(), Error>(Error::UnexpectedMessage)
                && *final(self) == *old(self),
    {
        let ok = !self.aborted && match k {
            MessageKind::CommitAlice => !self.commit_alice,
            MessageKind::CommitBob => !self.commit_bob,
            MessageKind::RevealAlice => self.commit_alice && self.commit_bob && !self.reveal_alice,
            MessageKind::RevealBob => self.commit_alice && self.commit_bob && !self.reveal_bob,
            MessageKind::CoreArbitratingSetup => self.reveal_alice && self.reveal_bob
                && !self.core_setup,
            MessageKind::RefundProcedureSignatures => self.core_setup && !self.refund_procedure,
            MessageKind::BuyProcedureSignature => self.refund_procedure && !self.buy_procedure,
            MessageKind::Abort => true,
        };
        if !ok {
            return Err(Error::UnexpectedMessage);
        }
        match k {
            MessageKind::CommitAlice => self.commit_alice = true,
            MessageKind::CommitBob => self.commit_bob = true,
            MessageKind::RevealAlice => self.reveal_alice = true,
            MessageKind::RevealBob => self.reveal_bob = true,
            MessageKind::CoreArbitratingSetup => self.core_setup = true,
            MessageKind::RefundProcedureSignatures => self.refund_procedure = true,
            MessageKind::BuyProcedureSignature => self.buy_procedure = true,
            MessageKind::Abort => self.aborted = true,
        }
        Ok(())
    }

    /// Whether the swap was aborted.
    pub fn is_aborted(&self) -> (r: bool)
        ensures
            r == self.aborted,
    {
        self.aborted
    }
}

} // verus!
