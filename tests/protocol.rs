use farcaster_swap::cancel::Cancel;
use farcaster_swap::crypto::{DleqProof, PairBinding, Proof, SignatureType};
use farcaster_swap::error::{Error, FeeStrategyError};
use farcaster_swap::fee::{FeePolitic, FeeStrategy, SatPerVByte};
use farcaster_swap::protocol::{
    AliceParameters, BobParameters, BuyProcedureSignature, CommitAliceParameters, CommitBobParameters,
    CoreArbitratingSetup, CoreArbitratingTransactions, CosignedArbitratingCancel, MessageKind,
    ProtocolState, RefundProcedureSignatures, RevealAliceParameters, RevealBobParameters,
    SignedAdaptorBuy, SignedAdaptorRefund, SwapRole, TxSignature,
};
use farcaster_swap::script::{DataLock, DataPunishableLock, DoubleKeys};
use farcaster_swap::transaction::{ConsumableOutput, OutPoint, PartialSig, PartialTx, TxId, TxOut};

use bitcoin::secp256k1::{PublicKey, Secp256k1, SecretKey};


fn secret(seed: u8) -> Vec<u8> {
    vec![seed; 32]
}

fn public(seed: u8) -> Vec<u8> {
    let secp = Secp256k1::new();
    PublicKey::from_secret_key(&secp, &SecretKey::from_slice(&secret(seed)).unwrap()).serialize().to_vec()
}

fn alice() -> AliceParameters {
    AliceParameters {
        buy: public(1),
        cancel: public(2),
        refund: public(3),
        punish: public(4),
        adaptor: public(5),
        destination_address: vec![0x00, 0x14, 1, 2, 3],
        spend: vec![6; 32],
        view: vec![7; 32],
        proof: Proof { arbitrating: public(5), accordant: vec![6; 32] },
        cancel_timelock: Some(10),
        punish_timelock: Some(20),
        fee_strategy: None,
    }
}

fn bob() -> BobParameters {
    BobParameters {
        buy: public(11),
        cancel: public(12),
        refund: public(13),
        adaptor: public(15),
        refund_address: vec![0x00, 0x14, 9, 9],
        spend: vec![16; 32],
        view: vec![17; 32],
        proof: Proof { arbitrating: public(15), accordant: vec![16; 32] },
        cancel_timelock: Some(10),
        punish_timelock: Some(20),
        fee_strategy: None,
    }
}

#[test]
fn commits_then_reveals_verify() {
    let a = alice();
    let b = bob();
    let ca = CommitAliceParameters::from_bundle(&a);
    let cb = CommitBobParameters::from_bundle(&b);
    let ra = RevealAliceParameters::from_bundle(&a).unwrap();
    let rb = RevealBobParameters::from_bundle(&b).unwrap();
    assert_eq!(ca.verify(&ra, &PairBinding), Ok(()));
    assert_eq!(cb.verify(&rb, &PairBinding), Ok(()));
    let back = ca.verify_then_bundle(&ra, &PairBinding).unwrap();
    assert_eq!(back.buy, a.buy);
    assert_eq!(back.destination_address, a.destination_address);
    assert_eq!(back.cancel_timelock, None);
    let back = cb.verify_then_bundle(&rb, &PairBinding).unwrap();
    assert_eq!(back.refund_address, b.refund_address);
}

#[test]
fn commitment_is_sha256_of_key() {
    let a = alice();
    let ca = CommitAliceParameters::from_bundle(&a);
    assert_eq!(ca.buy.len(), 32);
    assert_ne!(ca.buy, a.buy);
    assert_ne!(ca.buy, ca.cancel);
    // SHA-256 of the empty string.
    let mut e = alice();
    e.view = vec![];
    let ce = CommitAliceParameters::from_bundle(&e);
    assert_eq!(ce.view[..4], [0xe3, 0xb0, 0xc4, 0x42]);
}

#[test]
fn wrong_commitment() {
    let a = alice();
    let ca = CommitAliceParameters::from_bundle(&a);
    let mut ra = RevealAliceParameters::from_bundle(&a).unwrap();
    ra.buy[3] ^= 1;
    assert_eq!(ca.verify(&ra, &PairBinding), Err(Error::InvalidCommitment));
    assert_eq!(ca.verify_then_bundle(&ra, &PairBinding).err(), Some(Error::InvalidCommitment));
    let mut state = ProtocolState::new();
    state.accept(MessageKind::CommitAlice).unwrap();
    state.accept(MessageKind::CommitBob).unwrap();

    let b = bob();
    let cb = CommitBobParameters::from_bundle(&b);
    for field in 0..6 {
        let mut rb = RevealBobParameters::from_bundle(&b).unwrap();
        let v = match field {
            0 => &mut rb.buy,
            1 => &mut rb.cancel,
            2 => &mut rb.refund,
            3 => &mut rb.adaptor,
            4 => &mut rb.spend,
            _ => &mut rb.view,
        };
        v[0] ^= 0x80;
        assert_eq!(cb.verify(&rb, &PairBinding), Err(Error::InvalidCommitment));
    }
}

#[test]
fn invalid_proof() {
    let a = alice();
    let ca = CommitAliceParameters::from_bundle(&a);
    let mut ra = RevealAliceParameters::from_bundle(&a).unwrap();
    ra.proof.accordant[0] ^= 1;
    assert_eq!(ca.verify(&ra, &PairBinding), Err(Error::InvalidProof));
}

#[test]
fn message_order() {
    let mut s = ProtocolState::new();
    assert_eq!(s.accept(MessageKind::RevealAlice), Err(Error::UnexpectedMessage));
    assert_eq!(s, ProtocolState::new());
    s.accept(MessageKind::CommitAlice).unwrap();
    assert_eq!(s.accept(MessageKind::RevealBob), Err(Error::UnexpectedMessage));
    assert_eq!(s.accept(MessageKind::CommitAlice), Err(Error::UnexpectedMessage));
    s.accept(MessageKind::CommitBob).unwrap();
    assert_eq!(s.accept(MessageKind::CoreArbitratingSetup), Err(Error::UnexpectedMessage));
    s.accept(MessageKind::RevealBob).unwrap();
    s.accept(MessageKind::RevealAlice).unwrap();
    assert_eq!(s.accept(MessageKind::BuyProcedureSignature), Err(Error::UnexpectedMessage));
    s.accept(MessageKind::CoreArbitratingSetup).unwrap();
    let before = s;
    assert_eq!(s.accept(MessageKind::BuyProcedureSignature), Err(Error::UnexpectedMessage));
    assert_eq!(s, before);
    s.accept(MessageKind::RefundProcedureSignatures).unwrap();
    s.accept(MessageKind::BuyProcedureSignature).unwrap();
    assert!(s.buy_procedure && !s.is_aborted());
}

#[test]
fn abort_after_commits() {
    let mut s = ProtocolState::new();
    s.accept(MessageKind::CommitAlice).unwrap();
    s.accept(MessageKind::CommitBob).unwrap();
    s.accept(MessageKind::Abort).unwrap();
    assert!(s.is_aborted());
    let before = s;
    assert_eq!(s.accept(MessageKind::RevealBob), Err(Error::UnexpectedMessage));
    assert_eq!(s, before);
}

fn lock_data() -> DataLock {
    DataLock {
        timelock: 10,
        success: DoubleKeys { alice: public(1), bob: public(11) },
        failure: DoubleKeys { alice: public(2), bob: public(12) },
    }
}

fn punish_data() -> DataPunishableLock {
    DataPunishableLock {
        timelock: 20,
        success: DoubleKeys { alice: public(3), bob: public(13) },
        failure: public(4),
    }
}

fn lock_output(value: u64) -> ConsumableOutput {
    let script = lock_data().script();
    ConsumableOutput {
        out_point: OutPoint { txid: [9; 32], vout: 0 },
        tx_out: TxOut { value, script_pubkey: farcaster_swap::script::DataLock::script(&lock_data()) },
        script_pubkey: Some(script),
    }
}

#[test]
fn scripts_have_the_documented_shape() {
    let l = lock_data().script();
    assert_eq!(l.len(), 1 + 71 + 1 + 1 + 2 + 71 + 1);
    assert_eq!(l[0], 0x63);
    assert_eq!(l[1], 0x52);
    assert_eq!(l[2], 33);
    assert_eq!(l[72], 0x67);
    assert_eq!(l[73], 0x5a); // OP_10
    assert_eq!(l[74], 0xb2);
    let p = punish_data().script();
    assert_eq!(p[0], 0x63);
    assert_eq!(&p[73..75], &[0x01, 20]); // 20 is pushed as one byte
    assert_eq!(&p[p.len() - 2..], &[0xac, 0x68]);
}

#[test]
fn cancel_happy_path() {
    let prev = lock_output(100_000);
    let strategy = FeeStrategy::Range { start: SatPerVByte::from_sat(1), end: SatPerVByte::from_sat(2) };
    let mut tx = Cancel::initialize(&prev, &lock_data(), &punish_data(), &strategy, FeePolitic::Conservative).unwrap();
    assert_eq!(tx.unsigned_tx.version, 2);
    assert_eq!(tx.unsigned_tx.input[0].sequence, 10);
    assert_eq!(tx.unsigned_tx.output.len(), 1);
    // One input, one p2wsh output: 94 bytes, 376 weight units, at 2 sat each.
    assert_eq!(tx.unsigned_tx.output[0].value, 100_000 - 752);
    assert_eq!(tx.unsigned_tx.output[0].script_pubkey[..2], [0x00, 0x20]);
    assert_eq!(tx.unsigned_tx.output[0].script_pubkey.len(), 34);
    assert_eq!(tx.outputs[0].witness_script, Some(punish_data().script()));

    assert_eq!(Cancel::finalize(&mut tx), Err(Error::MissingSignature));
    assert!(tx.inputs[0].final_script_witness.is_none());

    let sig_a = Cancel::generate_failure_witness(&tx, &secret(2)).unwrap();
    let sig_b = Cancel::generate_failure_witness(&tx, &secret(12)).unwrap();
    assert_eq!(Cancel::verify_failure_witness(&tx, &public(2), &sig_a), Ok(()));
    assert_eq!(Cancel::verify_failure_witness(&tx, &public(12), &sig_a), Err(Error::InvalidSignature));
    tx.inputs[0].partial_sigs.push(PartialSig { pubkey: public(12), sig: sig_b.clone() });
    tx.inputs[0].partial_sigs.push(PartialSig { pubkey: public(2), sig: sig_a.clone() });
    assert_eq!(Cancel::finalize(&mut tx), Ok(()));
    let w = tx.inputs[0].final_script_witness.clone().unwrap();
    assert_eq!(w, vec![vec![], sig_a, sig_b, vec![], lock_data().script()]);
    assert_eq!(Cancel::finalize(&mut tx), Ok(()));
    assert_eq!(tx.inputs[0].final_script_witness.clone().unwrap(), w);
}

#[test]
fn cancel_insufficient_funds() {
    let prev = lock_output(700);
    let strategy = FeeStrategy::Fixed(SatPerVByte::from_sat(2));
    let r = Cancel::initialize(&prev, &lock_data(), &punish_data(), &strategy, FeePolitic::Aggressive);
    assert_eq!(r.err(), Some(Error::Fee(FeeStrategyError::NotEnoughAssets)));
}

#[test]
fn cancel_missing_data() {
    let prev = lock_output(100_000);
    let strategy = FeeStrategy::Fixed(SatPerVByte::from_sat(1));
    let mut tx = Cancel::initialize(&prev, &lock_data(), &punish_data(), &strategy, FeePolitic::Aggressive).unwrap();
    assert_eq!(Cancel::generate_failure_witness(&tx, &vec![0; 32]), Err(Error::ParseFailed));
    tx.inputs[0].sighash_type = None;
    assert_eq!(Cancel::generate_failure_witness(&tx, &secret(2)), Err(Error::MissingSigHashType));
    tx.inputs[0].witness_script = Some(vec![0x63, 0x52]);
    assert_eq!(Cancel::finalize(&mut tx), Err(Error::MissingPublicKey));
    tx.inputs[0].witness_script = None;
    assert_eq!(Cancel::finalize(&mut tx), Err(Error::MissingWitness));
    assert_eq!(Cancel::generate_failure_witness(&tx, &secret(2)), Err(Error::MissingWitness));
}

fn empty_tx() -> PartialTx {
    Cancel::initialize(
        &lock_output(50_000),
        &lock_data(),
        &punish_data(),
        &FeeStrategy::Fixed(SatPerVByte::from_sat(1)),
        FeePolitic::Aggressive,
    )
    .unwrap()
}

#[test]
fn setup_messages_carry_signatures() {
    let txs = CoreArbitratingTransactions { lock: empty_tx(), cancel: empty_tx(), refund: empty_tx() };
    let bob_cancel = CosignedArbitratingCancel {
        cancel_sig: TxSignature { tx_id: TxId::Cancel, role: SwapRole::Bob, signature: SignatureType::Regular(vec![1, 2]) },
    };
    let setup = CoreArbitratingSetup::from_bundles(txs, &bob_cancel).unwrap();
    assert_eq!(setup.cancel_sig, vec![1, 2]);
    let c = setup.into_cosigned_cancel();
    assert_eq!(c.cancel_sig.tx_id, TxId::Cancel);
    assert_eq!(c.cancel_sig.role, SwapRole::Bob);
    let txs = setup.into_core_transactions();
    assert_eq!(txs.lock.unsigned_tx.version, 2);

    let wrong = CosignedArbitratingCancel {
        cancel_sig: TxSignature { tx_id: TxId::Cancel, role: SwapRole::Bob, signature: SignatureType::Adaptor(vec![1]) },
    };
    assert_eq!(CoreArbitratingSetup::from_bundles(txs, &wrong).err(), Some(Error::TypeMismatch));

    let alice_cancel = CosignedArbitratingCancel {
        cancel_sig: TxSignature { tx_id: TxId::Cancel, role: SwapRole::Alice, signature: SignatureType::Regular(vec![3]) },
    };
    let refund = SignedAdaptorRefund {
        refund_adaptor_sig: TxSignature { tx_id: TxId::Refund, role: SwapRole::Alice, signature: SignatureType::Adaptor(vec![4]) },
    };
    let m = RefundProcedureSignatures::from_bundles(&alice_cancel, &refund).unwrap();
    assert_eq!(m.cancel_sig, vec![3]);
    assert_eq!(m.refund_adaptor_sig, vec![4]);
    assert_eq!(m.into_cosigned_cancel().cancel_sig.role, SwapRole::Alice);
    assert_eq!(m.into_adaptor_refund().refund_adaptor_sig.tx_id, TxId::Refund);
    assert_eq!(RefundProcedureSignatures::from_bundles(&refund_as_cancel(), &refund).err(), Some(Error::TypeMismatch));

    let buy = SignedAdaptorBuy {
        buy: empty_tx(),
        buy_adaptor_sig: TxSignature { tx_id: TxId::Buy, role: SwapRole::Bob, signature: SignatureType::Adaptor(vec![5]) },
    };
    let m = BuyProcedureSignature::from_bundle(buy).unwrap();
    assert_eq!(m.buy_adaptor_sig, vec![5]);
    let back = m.into_bundle();
    assert_eq!(back.buy_adaptor_sig.tx_id, TxId::Buy);
    assert_eq!(back.buy_adaptor_sig.role, SwapRole::Bob);
}

fn refund_as_cancel() -> CosignedArbitratingCancel {
    CosignedArbitratingCancel {
        cancel_sig: TxSignature { tx_id: TxId::Cancel, role: SwapRole::Alice, signature: SignatureType::Adapted(vec![3]) },
    }
}

#[test]
fn signature_narrowing() {
    assert_eq!(SignatureType::Regular(vec![1]).try_into_regular(), Ok(vec![1]));
    assert_eq!(SignatureType::Adapted(vec![1]).try_into_regular(), Err(Error::TypeMismatch));
    assert_eq!(SignatureType::Adapted(vec![2]).try_into_adapted(), Ok(vec![2]));
    assert_eq!(SignatureType::Adaptor(vec![3]).try_into_adaptor(), Ok(vec![3]));
    assert_eq!(SignatureType::Regular(vec![3]).try_into_adaptor(), Err(Error::TypeMismatch));
    assert_eq!(SignatureType::Adaptor(vec![]).tag(), 0);
    assert_eq!(SignatureType::Adapted(vec![]).tag(), 1);
    assert_eq!(SignatureType::Regular(vec![]).tag(), 2);
}

/// Runs a message through the participant's checks, recording it only when
/// they pass.
fn receive(state: &mut ProtocolState, kind: MessageKind, check: Result<(), Error>) -> Result<(), Error> {
    check?;
    state.accept(kind)
}

#[test]
fn happy_path() {
    let a = alice();
    let b = bob();
    let mut alice_state = ProtocolState::new();

    // Commits, then reveals.
    let ca = CommitAliceParameters::from_bundle(&a);
    let cb = CommitBobParameters::from_bundle(&b);
    alice_state.accept(MessageKind::CommitAlice).unwrap();
    let cb_wire = cb.consensus_encode();
    let cb_received = CommitBobParameters::consensus_decode(&cb_wire).unwrap();
    alice_state.accept(MessageKind::CommitBob).unwrap();
    let rb = RevealBobParameters::from_bundle(&b).unwrap();
    let rb_received = RevealBobParameters::consensus_decode(&rb.consensus_encode()).unwrap();
    receive(&mut alice_state, MessageKind::RevealBob, cb_received.verify(&rb_received, &PairBinding)).unwrap();
    let ra = RevealAliceParameters::from_bundle(&a).unwrap();
    assert_eq!(ca.verify(&ra, &PairBinding), Ok(()));
    alice_state.accept(MessageKind::RevealAlice).unwrap();
    let bob_bundle = cb_received.verify_then_bundle(&rb_received, &PairBinding).unwrap();
    assert_eq!(bob_bundle.refund_address, b.refund_address);

    // Bob builds the cancel transaction at 2 sat/vB, conservatively.
    let strategy = FeeStrategy::Range { start: SatPerVByte::from_sat(1), end: SatPerVByte::from_sat(2) };
    let prev = lock_output(100_000);
    let cancel = Cancel::initialize(&prev, &lock_data(), &punish_data(), &strategy, FeePolitic::Conservative).unwrap();
    let bob_sig = Cancel::generate_failure_witness(&cancel, &secret(12)).unwrap();
    let txs = CoreArbitratingTransactions { lock: empty_tx(), cancel, refund: empty_tx() };
    let bob_cancel = CosignedArbitratingCancel {
        cancel_sig: TxSignature { tx_id: TxId::Cancel, role: SwapRole::Bob, signature: SignatureType::Regular(bob_sig.clone()) },
    };
    let setup = CoreArbitratingSetup::from_bundles(txs, &bob_cancel).unwrap();
    alice_state.accept(MessageKind::CoreArbitratingSetup).unwrap();

    // Alice checks Bob's cancel signature, cosigns, and answers.
    let bob_cosig = setup.into_cosigned_cancel();
    let mut cancel = setup.into_core_transactions().cancel;
    assert_eq!(Cancel::verify_template(&cancel, &lock_data(), &punish_data()), Ok(()));
    let bob_bytes = bob_cosig.cancel_sig.signature.clone().try_into_regular().unwrap();
    assert_eq!(Cancel::verify_failure_witness(&cancel, &public(12), &bob_bytes), Ok(()));
    let alice_sig = Cancel::generate_failure_witness(&cancel, &secret(2)).unwrap();
    let alice_cancel = CosignedArbitratingCancel {
        cancel_sig: TxSignature { tx_id: TxId::Cancel, role: SwapRole::Alice, signature: SignatureType::Regular(alice_sig.clone()) },
    };
    let refund = SignedAdaptorRefund {
        refund_adaptor_sig: TxSignature { tx_id: TxId::Refund, role: SwapRole::Alice, signature: SignatureType::Adaptor(vec![0xaa; 65]) },
    };
    let procedure = RefundProcedureSignatures::from_bundles(&alice_cancel, &refund).unwrap();
    alice_state.accept(MessageKind::RefundProcedureSignatures).unwrap();

    let buy = SignedAdaptorBuy {
        buy: empty_tx(),
        buy_adaptor_sig: TxSignature { tx_id: TxId::Buy, role: SwapRole::Bob, signature: SignatureType::Adaptor(vec![0xbb; 65]) },
    };
    let buy_msg = BuyProcedureSignature::from_bundle(buy).unwrap();
    alice_state.accept(MessageKind::BuyProcedureSignature).unwrap();
    assert_eq!(buy_msg.into_bundle().buy_adaptor_sig.tx_id, TxId::Buy);

    // Either side can now complete the cancel transaction.
    Cancel::add_cooperation(&mut cancel, public(2), procedure.cancel_sig.clone()).unwrap();
    Cancel::add_cooperation(&mut cancel, public(12), bob_bytes).unwrap();
    assert_eq!(Cancel::finalize(&mut cancel), Ok(()));
    let signed = farcaster_swap::transaction::extract(&cancel).unwrap();
    assert_eq!(signed.witness[0][1], alice_sig);
    assert_eq!(signed.witness[0][2], bob_sig);
    assert_eq!(signed.tx.output[0].value, 100_000 - 752);
    assert!(!alice_state.is_aborted());
}

#[test]
fn wrong_commitment_does_not_advance() {
    let b = bob();
    let cb = CommitBobParameters::from_bundle(&b);
    let mut rb = RevealBobParameters::from_bundle(&b).unwrap();
    rb.buy[0] ^= 1;
    let mut s = ProtocolState::new();
    s.accept(MessageKind::CommitAlice).unwrap();
    s.accept(MessageKind::CommitBob).unwrap();
    let before = s;
    assert_eq!(receive(&mut s, MessageKind::RevealBob, cb.verify(&rb, &PairBinding)), Err(Error::InvalidCommitment));
    assert_eq!(s, before);
    assert!(!s.reveal_bob);
}

#[test]
fn verification_outcome_for_each_verdict() {
    let a = alice();
    let ca = CommitAliceParameters::from_bundle(&a);
    let ra = RevealAliceParameters::from_bundle(&a).unwrap();
    assert_eq!(ca.verify_with_proof(&ra, true), Ok(()));
    assert_eq!(ca.verify_with_proof(&ra, false), Err(Error::InvalidProof));
    let mut bad = RevealAliceParameters::from_bundle(&a).unwrap();
    bad.view[31] ^= 4;
    assert_eq!(ca.verify_with_proof(&bad, true), Err(Error::InvalidCommitment));
    assert_eq!(ca.verify_openings(&bad), Err(Error::InvalidCommitment));
    let b = bob();
    let cb = CommitBobParameters::from_bundle(&b);
    let rb = RevealBobParameters::from_bundle(&b).unwrap();
    assert_eq!(cb.verify_with_proof(&rb, false), Err(Error::InvalidProof));
    assert_eq!(cb.verify_openings(&rb), Ok(()));
}

#[test]
fn pair_binding_checks_each_component() {
    let spend = vec![6u8; 32];
    let adaptor = public(5);
    let proof = Proof::binding(&adaptor, &spend);
    assert!(PairBinding.verify(&spend, &adaptor, &proof));
    assert!(!PairBinding.verify(&vec![7u8; 32], &adaptor, &proof));
    assert!(!PairBinding.verify(&spend, &public(6), &proof));
    assert!(!PairBinding.verify(&spend, &adaptor, &Proof::binding(&public(6), &spend)));

    // A reveal whose proof does not bind its keys is refused with InvalidProof.
    let mut a = alice();
    a.proof = Proof::binding(&public(6), &a.spend);
    let ca = CommitAliceParameters::from_bundle(&a);
    let ra = RevealAliceParameters::from_bundle(&a).unwrap();
    assert_eq!(ca.verify(&ra, &PairBinding), Err(Error::InvalidProof));
    assert_eq!(ca.verify_then_bundle(&ra, &PairBinding).err(), Some(Error::InvalidProof));
}
