use farcaster_swap::error::FeeStrategyError;
use farcaster_swap::fee::{apply_fee, set_fee, Amount, FeePolitic, FeeStrategy, SatPerVByte};
use farcaster_swap::transaction::{OutPoint, PartialTx, PsbtInput, PsbtOutput, TxIn, TxOut, UnsignedTx};

fn input(value: Option<u64>) -> PsbtInput {
    PsbtInput {
        witness_utxo: value.map(|v| TxOut { value: v, script_pubkey: vec![0x00, 0x14] }),
        partial_sigs: vec![],
        sighash_type: Some(1),
        witness_script: None,
        final_script_witness: None,
    }
}

fn tx(values: &[Option<u64>], outputs: usize) -> PartialTx {
    PartialTx {
        unsigned_tx: UnsignedTx {
            version: 2,
            lock_time: 0,
            input: values
                .iter()
                .enumerate()
                .map(|(i, _)| TxIn { previous_output: OutPoint { txid: [7; 32], vout: i as u32 }, sequence: 0 })
                .collect(),
            output: (0..outputs).map(|_| TxOut { value: 0, script_pubkey: vec![0u8; 34] }).collect(),
        },
        inputs: values.iter().map(|v| input(*v)).collect(),
        outputs: (0..outputs).map(|_| PsbtOutput { witness_script: None }).collect(),
    }
}

#[test]
fn sat_per_vbyte_keeps_its_rate() {
    let r = SatPerVByte::from_sat(42);
    assert_eq!(r.as_sat(), 42);
    assert_eq!(r.as_native_unit(), Amount::from_sat(42));
    assert_eq!(Amount::from_sat(9).as_sat(), 9);
}

#[test]
fn resolve_follows_politic() {
    let range = FeeStrategy::Range { start: SatPerVByte::from_sat(1), end: SatPerVByte::from_sat(5) };
    assert_eq!(range.resolve(FeePolitic::Aggressive).as_sat(), 1);
    assert_eq!(range.resolve(FeePolitic::Conservative).as_sat(), 5);
    let fixed = FeeStrategy::Fixed(SatPerVByte::from_sat(3));
    assert_eq!(fixed.resolve(FeePolitic::Aggressive).as_sat(), 3);
    assert_eq!(fixed.resolve(FeePolitic::Conservative).as_sat(), 3);
}

#[test]
fn insufficient_funds() {
    let mut t = tx(&[Some(1_000)], 1);
    let s = FeeStrategy::Fixed(SatPerVByte::from_sat(2));
    let r = apply_fee(&mut t, &s, FeePolitic::Conservative, 600);
    assert_eq!(r, Err(FeeStrategyError::NotEnoughAssets));
    assert_eq!(t.unsigned_tx.output[0].value, 0);
}

#[test]
fn range_strategy_aggressive() {
    let mut t = tx(&[Some(10_000)], 1);
    let s = FeeStrategy::Range { start: SatPerVByte::from_sat(1), end: SatPerVByte::from_sat(5) };
    let r = apply_fee(&mut t, &s, FeePolitic::Aggressive, 500);
    assert_eq!(r, Ok(Amount::from_sat(500)));
    assert_eq!(t.unsigned_tx.output[0].value, 9_500);
}

#[test]
fn range_strategy_conservative_sums_inputs() {
    let mut t = tx(&[Some(6_000), Some(4_000)], 1);
    let s = FeeStrategy::Range { start: SatPerVByte::from_sat(1), end: SatPerVByte::from_sat(5) };
    let r = apply_fee(&mut t, &s, FeePolitic::Conservative, 500);
    assert_eq!(r, Ok(Amount::from_sat(2_500)));
    assert_eq!(t.unsigned_tx.output[0].value, 7_500);
}

#[test]
fn fee_equal_to_inputs_leaves_zero() {
    let mut t = tx(&[Some(1_200)], 1);
    let s = FeeStrategy::Fixed(SatPerVByte::from_sat(2));
    assert_eq!(apply_fee(&mut t, &s, FeePolitic::Aggressive, 600), Ok(Amount::from_sat(1_200)));
    assert_eq!(t.unsigned_tx.output[0].value, 0);
}

#[test]
fn missing_input_metadata() {
    let mut t = tx(&[Some(1_000), None], 1);
    let s = FeeStrategy::Fixed(SatPerVByte::from_sat(1));
    assert_eq!(apply_fee(&mut t, &s, FeePolitic::Aggressive, 10), Err(FeeStrategyError::MissingInputsMetadata));
}

#[test]
fn fee_overflow() {
    let mut t = tx(&[Some(1_000)], 1);
    let s = FeeStrategy::Fixed(SatPerVByte::from_sat(u64::MAX));
    assert_eq!(apply_fee(&mut t, &s, FeePolitic::Aggressive, 2), Err(FeeStrategyError::AmountOfFeeTooHigh));
}

#[test]
fn several_outputs_refused() {
    let mut t = tx(&[Some(1_000)], 2);
    let s = FeeStrategy::Fixed(SatPerVByte::from_sat(1));
    assert_eq!(apply_fee(&mut t, &s, FeePolitic::Aggressive, 10), Err(FeeStrategyError::MultiUTXOUnsupported));
    let mut none = tx(&[Some(1_000)], 0);
    assert_eq!(apply_fee(&mut none, &s, FeePolitic::Aggressive, 10), Err(FeeStrategyError::MultiUTXOUnsupported));
}

#[test]
fn set_fee_uses_unsigned_weight() {
    // 4 + 1 + 41 + 1 + 43 + 4 = 94 bytes without witness, so 376 weight units.
    let mut t = tx(&[Some(10_000)], 1);
    let s = FeeStrategy::Fixed(SatPerVByte::from_sat(2));
    assert_eq!(set_fee(&mut t, &s, FeePolitic::Conservative), Ok(Amount::from_sat(752)));
    assert_eq!(t.unsigned_tx.output[0].value, 10_000 - 752);
}

#[test]
fn sat_per_vbyte_wire_and_text() {
    let r = SatPerVByte::from_sat(0x0102_0304_0506_0708);
    let b = r.consensus_encode();
    assert_eq!(b, vec![8, 7, 6, 5, 4, 3, 2, 1]);
    assert_eq!(SatPerVByte::consensus_decode(&b), Ok(r));
    assert_eq!(SatPerVByte::consensus_decode(&vec![1, 2, 3]), Err(farcaster_swap::error::Error::ParseFailed));
    assert_eq!(SatPerVByte::from_str("25"), Ok(SatPerVByte::from_sat(25)));
    assert_eq!(SatPerVByte::from_str("+7"), Ok(SatPerVByte::from_sat(7)));
    assert_eq!(SatPerVByte::from_str("18446744073709551615"), Ok(SatPerVByte::from_sat(u64::MAX)));
    assert_eq!(SatPerVByte::from_str("18446744073709551616"), Err(farcaster_swap::error::Error::ParseFailed));
    assert_eq!(SatPerVByte::from_str(""), Err(farcaster_swap::error::Error::ParseFailed));
    assert_eq!(SatPerVByte::from_str("1.5"), Err(farcaster_swap::error::Error::ParseFailed));
}

#[test]
fn validate_fee_after_set_fee() {
    let mut t = tx(&[Some(10_000)], 1);
    let s = FeeStrategy::Fixed(SatPerVByte::from_sat(3));
    set_fee(&mut t, &s, FeePolitic::Aggressive).unwrap();
    assert_eq!(farcaster_swap::fee::validate_fee(&t, &s, FeePolitic::Aggressive), Ok(true));
    let other = FeeStrategy::Fixed(SatPerVByte::from_sat(2));
    assert_eq!(farcaster_swap::fee::validate_fee(&t, &other, FeePolitic::Aggressive), Ok(false));
    let missing = tx(&[None], 1);
    assert_eq!(farcaster_swap::fee::validate_fee(&missing, &s, FeePolitic::Aggressive), Err(FeeStrategyError::MissingInputsMetadata));
}
