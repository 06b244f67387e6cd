use farcaster_swap::cancel::Cancel;
use farcaster_swap::error::{Error, FeeStrategyError};
use farcaster_swap::fee::{validate_fee, FeePolitic, FeeStrategy, SatPerVByte};
use farcaster_swap::punish::Punish;
use farcaster_swap::script::{DataLock, DataPunishableLock, DoubleKeys, ScriptItem};
use farcaster_swap::transaction::{
    extract, Broadcastable, Cancelable, ConsumableOutput, Cooperable, Finalizable, Forkable, Linkable,
    OutPoint, Punishable, Tx, TxId, TxOut,
};

use bitcoin::secp256k1::{PublicKey, Secp256k1, SecretKey};

fn secret(seed: u8) -> Vec<u8> {
    vec![seed; 32]
}

fn public(seed: u8) -> Vec<u8> {
    let secp = Secp256k1::new();
    PublicKey::from_secret_key(&secp, &SecretKey::from_slice(&secret(seed)).unwrap()).serialize().to_vec()
}

fn lock_data() -> DataLock {
    DataLock {
        timelock: 10,
        success: DoubleKeys { alice: public(1), bob: public(11) },
        failure: DoubleKeys { alice: public(2), bob: public(12) },
    }
}

fn punish_data() -> DataPunishableLock {
    DataPunishableLock {
        timelock: 20,
        success: DoubleKeys { alice: public(3), bob: public(13) },
        failure: public(4),
    }
}

fn lock_output(value: u64) -> ConsumableOutput {
    ConsumableOutput {
        out_point: OutPoint { txid: [9; 32], vout: 0 },
        tx_out: TxOut { value, script_pubkey: vec![0x00, 0x20, 1, 2, 3] },
        script_pubkey: Some(lock_data().script()),
    }
}

fn conservative_two() -> FeeStrategy {
    FeeStrategy::Range { start: SatPerVByte::from_sat(1), end: SatPerVByte::from_sat(2) }
}

fn cancel_tx() -> Tx<Cancel> {
    let psbt = Cancel::initialize(&lock_output(100_000), &lock_data(), &punish_data(), &conservative_two(), FeePolitic::Conservative)
        .unwrap();
    Tx { psbt, kind: Cancel }
}

#[test]
fn cancel_lifecycle() {
    let mut tx = cancel_tx();
    assert_eq!(Cancelable::get_id(&tx), TxId::Cancel);
    assert_eq!(Cancel::verify_template(&tx.psbt, &lock_data(), &punish_data()), Ok(()));
    assert_eq!(validate_fee(&tx.psbt, &conservative_two(), FeePolitic::Conservative), Ok(true));
    assert_eq!(validate_fee(&tx.psbt, &conservative_two(), FeePolitic::Aggressive), Ok(false));

    // Nothing to broadcast before finalization.
    assert_eq!(tx.extract().err(), Some(Error::MissingWitness));
    assert_eq!(tx.finalize_and_extract().err(), Some(Error::MissingSignature));

    let sig_a = tx.generate_failure_witness(&secret(2)).unwrap();
    let sig_b = tx.generate_failure_witness(&secret(12)).unwrap();
    assert_eq!(tx.verify_failure_witness(&public(12), &sig_b), Ok(()));
    tx.add_cooperation(public(2), vec![0xde, 0xad]).unwrap();
    tx.add_cooperation(public(2), sig_a.clone()).unwrap();
    tx.add_cooperation(public(12), sig_b.clone()).unwrap();
    let signed = tx.finalize_and_extract().unwrap();
    assert_eq!(signed.witness.len(), 1);
    assert_eq!(signed.witness[0], vec![vec![], sig_a, sig_b, vec![], lock_data().script()]);
    assert_eq!(signed.tx.input[0].sequence, 10);
    assert_eq!(signed.tx.output[0].value, tx.psbt.unsigned_tx.output[0].value);
}

#[test]
fn cancel_template_mismatch() {
    let tx = cancel_tx();
    let mut other = punish_data();
    other.timelock = 21;
    assert_eq!(Cancel::verify_template(&tx.psbt, &lock_data(), &other), Err(Error::TemplateMismatch));
    let mut lock = lock_data();
    lock.timelock = 11;
    assert_eq!(Cancel::verify_template(&tx.psbt, &lock, &punish_data()), Err(Error::TemplateMismatch));
    let mut bare = tx.psbt.clone();
    bare.inputs[0].witness_script = None;
    assert_eq!(Cancel::verify_template(&bare, &lock_data(), &punish_data()), Err(Error::MissingWitness));
}

#[test]
fn consumable_output_links_to_the_txid() {
    let tx = cancel_tx();
    let out = tx.get_consumable_output().unwrap();
    assert_eq!(out.out_point.vout, 0);
    assert_ne!(out.out_point.txid, [0; 32]);
    assert_ne!(out.out_point.txid, [9; 32]);
    assert_eq!(out.tx_out.value, tx.psbt.unsigned_tx.output[0].value);
    assert_eq!(out.script_pubkey, Some(punish_data().script()));
    let again = tx.get_consumable_output().unwrap();
    assert_eq!(again.out_point.txid, out.out_point.txid);
}

#[test]
fn punish_path() {
    let cancel = cancel_tx();
    let prev = cancel.get_consumable_output().unwrap();
    let destination = vec![0x00, 0x14, 7, 7, 7, 7, 7, 7, 7, 7, 7, 7, 7, 7, 7, 7, 7, 7, 7, 7, 7, 7];
    let psbt = Punish::initialize(&prev, &punish_data(), &destination, &conservative_two(), FeePolitic::Aggressive).unwrap();
    let mut tx = Tx { psbt, kind: Punish };
    assert_eq!(Punishable::get_id(&tx), TxId::Punish);
    assert_eq!(tx.psbt.unsigned_tx.input[0].sequence, 20);
    assert_eq!(tx.psbt.unsigned_tx.output[0].script_pubkey, destination);
    assert!(tx.psbt.unsigned_tx.output[0].value < prev.tx_out.value);

    let sig = tx.generate_failure_witness(&secret(4)).unwrap();
    assert_eq!(tx.verify_failure_witness(&public(4), &sig), Ok(()));
    assert_eq!(tx.verify_failure_witness(&public(3), &sig), Err(Error::InvalidSignature));
    assert_eq!(tx.finalize(), Err(Error::MissingSignature));
    tx.psbt.inputs[0].partial_sigs.push(farcaster_swap::transaction::PartialSig { pubkey: public(4), sig: sig.clone() });
    let signed = tx.finalize_and_extract().unwrap();
    assert_eq!(signed.witness[0], vec![sig, vec![], punish_data().script()]);
}

#[test]
fn punish_insufficient_funds() {
    let prev = ConsumableOutput {
        out_point: OutPoint { txid: [3; 32], vout: 0 },
        tx_out: TxOut { value: 100, script_pubkey: vec![0x00, 0x20] },
        script_pubkey: Some(punish_data().script()),
    };
    let r = Punish::initialize(&prev, &punish_data(), &vec![0x51], &FeeStrategy::Fixed(SatPerVByte::from_sat(5)), FeePolitic::Aggressive);
    assert_eq!(r.err(), Some(Error::Fee(FeeStrategyError::NotEnoughAssets)));
}

#[test]
fn extract_needs_every_input() {
    let tx = cancel_tx();
    assert_eq!(extract(&tx.psbt).err(), Some(Error::MissingWitness));
}

#[test]
fn cancel_requires_timelock_order() {
    let mut late = lock_data();
    late.timelock = 20;
    let r = Cancel::initialize(&lock_output(100_000), &late, &punish_data(), &conservative_two(), FeePolitic::Conservative);
    assert_eq!(r.err(), Some(Error::InvalidTimelock));
    late.timelock = 25;
    let free = FeeStrategy::Fixed(SatPerVByte::from_sat(0));
    let r = Cancel::initialize(&lock_output(100_000), &late, &punish_data(), &free, FeePolitic::Conservative);
    assert_eq!(r.err(), Some(Error::InvalidTimelock));
    late.timelock = 19;
    assert!(Cancel::initialize(&lock_output(100_000), &late, &punish_data(), &free, FeePolitic::Conservative).is_ok());
}

#[test]
fn cooperation_replaces_earlier_signature() {
    let mut tx = cancel_tx();
    tx.add_cooperation(public(2), vec![1]).unwrap();
    tx.add_cooperation(public(12), vec![2]).unwrap();
    tx.add_cooperation(public(2), vec![3]).unwrap();
    let sigs = &tx.psbt.inputs[0].partial_sigs;
    assert_eq!(sigs.len(), 2);
    assert_eq!(sigs[0].pubkey, public(2));
    assert_eq!(sigs[0].sig, vec![3]);
    assert_eq!(sigs[1].sig, vec![2]);
    let mut none = cancel_tx();
    none.psbt.inputs.clear();
    assert_eq!(none.add_cooperation(public(2), vec![1]), Err(Error::MissingWitness));
}

#[test]
fn finalize_from_parsed_instructions() {
    let mut tx = cancel_tx();
    tx.add_cooperation(vec![0xaa; 33], vec![1]).unwrap();
    tx.add_cooperation(public(12), vec![2]).unwrap();
    let mut items: Vec<ScriptItem> = (0..11).map(|_| ScriptItem::Op(0x61)).collect();
    items.push(ScriptItem::Push(public(12)));
    items.push(ScriptItem::Push(public(12)));
    let script = vec![0x51];
    assert_eq!(Cancel::finalize_parsed(&mut tx.psbt, script.clone(), &items), Ok(()));
    assert_eq!(tx.psbt.inputs[0].final_script_witness, Some(vec![vec![], vec![2], vec![2], vec![], script.clone()]));

    let mut short = cancel_tx();
    assert_eq!(Cancel::finalize_parsed(&mut short.psbt, script.clone(), &items[..12].to_vec()), Err(Error::MissingSignature));
    short.add_cooperation(public(12), vec![2]).unwrap();
    assert_eq!(Cancel::finalize_parsed(&mut short.psbt, script.clone(), &items[..12].to_vec()), Err(Error::MissingPublicKey));
    let mut bad = items.clone();
    bad[11] = ScriptItem::Invalid;
    assert_eq!(Cancel::finalize_parsed(&mut short.psbt, script.clone(), &bad), Err(Error::MissingPublicKey));
    bad[11] = ScriptItem::Op(0xac);
    assert_eq!(Cancel::finalize_parsed(&mut short.psbt, script.clone(), &bad), Err(Error::MissingPublicKey));

    let mut p = cancel_tx();
    p.add_cooperation(public(4), vec![9]).unwrap();
    let mut pitems: Vec<ScriptItem> = (0..10).map(|_| ScriptItem::Op(0x61)).collect();
    pitems.push(ScriptItem::Push(public(4)));
    assert_eq!(Punish::finalize_parsed(&mut p.psbt, script.clone(), &pitems), Ok(()));
    assert_eq!(p.psbt.inputs[0].final_script_witness, Some(vec![vec![9], vec![], script]));
}
