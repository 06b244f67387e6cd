//! Fee strategies and the weight-based fee applied to a partial transaction.

use vstd::prelude::*;

use crate::codec::{le_u64, lemma_u64_round_trip, push_u64, read_u64, u64_of};
use crate::error::{Error, FeeStrategyError};
use crate::transaction::{shape_of, unsigned_weight, weight_of, PartialTx, PsbtInput, TxOut};

verus! {

/// An amount of the arbitrating chain's native asset, in satoshi.
#[derive(Debug, Clone, Copy, PartialEq, Eq, Structural)]
pub struct Amount(pub u64);

impl Amount {
    pub fn from_sat(satoshi: u64) -> (r: Amount)
        ensures
            r.0 == satoshi,
    {
        Amount(satoshi)
    }

    pub fn as_sat(&self) -> (r: u64)
        ensures
            r == self.0,
    {
        self.0
    }
}

/// A fee rate in satoshi per virtual byte of weight.
#[derive(Debug, Clone, Copy, PartialEq, Eq, Structural)]
pub struct SatPerVByte(pub Amount);

impl SatPerVByte {
    pub fn from_sat(satoshi: u64) -> (r: SatPerVByte)
        ensures
            r.0.0 == satoshi,
    {
        SatPerVByte(Amount::from_sat(satoshi))
    }

    pub fn as_sat(&self) -> (r: u64)
        ensures
            r == self.0.0,
    {
        self.0.as_sat()
    }

    pub fn as_native_unit(&self) -> (r: Amount)
        ensures
            r == self.0,
    {
        self.0
    }
}

/// What decoding a fee rate from `b` gives.
pub open spec fn decode_rate(b: Seq<u8>) -> Result<u64, Error> {
    if b.len() != 8 {
        Err(Error::ParseFailed)
    } else {
        Ok(u64_of(b[0], b[1], b[2], b[3], b[4], b[5], b[6], b[7]))
    }
}

/// Decoding an encoded fee rate gives it back.
pub proof fn lemma_rate_round_trip(rate: SatPerVByte)
    ensures
        decode_rate(le_u64(rate.0.0)) == Ok::<u64, Error>(rate.0.0),
{
    lemma_u64_round_trip(rate.0.0);
}

/// A decimal digit.
pub open spec fn is_digit(c: char) -> bool {
    '0' <= c <= '9'
}

/// The number that a string of decimal digits writes.
pub open spec fn decimal_value(s: Seq<char>) -> nat
    decreases s.len(),
{
    if s.len() == 0 {
        0
    } else {
        decimal_value(s.drop_last()) * 10 + (s.last() as nat - '0' as nat) as nat
    }
}

/// The unsigned 64-bit number that a text writes: an optional `+`, then one
/// or more decimal digits of a value that fits.
pub open spec fn u64_text(s: Seq<char>) -> Option<u64> {
    let d = if s.len() > 0 && s[0] == '+' {
        s.drop_first()
    } else {
        s
    };
    if d.len() > 0 && (forall|i: int| 0 <= i < d.len() ==> is_digit(#[trigger] d[i]))
        && decimal_value(d) <= u64::MAX {
        Some(decimal_value(d) as u64)
    } else {
        None
    }
}

/// Relies on std's `u64::from_str`: an optional `+` followed by decimal
/// digits, refused when empty, when another character occurs, or when the
/// value does not fit.
#[verifier::external_body]
fn parse_u64(s: &str) -> (r: Option<u64>)
    ensures
        r == u64_text(s@),
{
    s.parse::<u64>().ok()
}

impl SatPerVByte {
    /// Writes the rate as eight little-endian bytes.
    pub fn consensus_encode(&self) -> (r: Vec<u8>)
        ensures
            r@ == le_u64(self.0.0),
    {
        let mut r: Vec<u8> = Vec::new();
        push_u64(&mut r, self.0.0);
        r
    }

    /// Reads a rate from exactly eight little-endian bytes.
    pub fn consensus_decode(b: &Vec<u8>) -> (r: Result<SatPerVByte, Error>)
        ensures
            match r {
                Ok(v) => decode_rate(b@) == Ok::<u64, Error>(v.0.0),
                Err(e) => decode_rate(b@) == Err::<u64, Error>(e),
            },
    {
        if b.len() != 8 {
            return Err(Error::ParseFailed);
        }
        Ok(SatPerVByte::from_sat(read_u64(b, 0)))
    }

    /// Reads a rate in satoshi per virtual byte from its decimal text.
    pub fn from_str(s: &str) -> (r: Result<SatPerVByte, Error>)
        ensures
            match u64_text(s@) {
                Some(v) => r == Ok::<SatPerVByte, Error>(SatPerVByte(Amount(v))),
                None => r == Err::<SatPerVByte, Error>(Error::ParseFailed),
            },
    {
        match parse_u64(s) {
            Some(v) => Ok(SatPerVByte::from_sat(v)),
            None => Err(Error::ParseFailed),
        }
    }
}

/// Which end of a fee range to take.
#[derive(Debug, Clone, Copy, PartialEq, Eq, Structural)]
pub enum FeePolitic {
    /// The low end: cheaper, slower.
    Aggressive,
    /// The high end: faster, more expensive.
    Conservative,
}

/// A fixed fee rate, or a range of rates to choose from by politic.
#[derive(Debug, Clone, Copy, PartialEq, Eq, Structural)]
pub enum FeeStrategy {
    Fixed(SatPerVByte),
    Range { start: SatPerVByte, end: SatPerVByte },
}

/// The rate that a strategy gives under a politic.
pub open spec fn rate_of(strategy: FeeStrategy, politic: FeePolitic) -> u64 {
    match strategy {
        FeeStrategy::Fixed(r) => r.0.0,
        FeeStrategy::Range { start, end } => match politic {
            FeePolitic::Aggressive => start.0.0,
            FeePolitic::Conservative => end.0.0,
        },
    }
}

impl FeeStrategy {
    /// The rate to apply under `politic`.
    pub fn resolve(&self, politic: FeePolitic) -> (r: SatPerVByte)
        ensures
            r.0.0 == rate_of(*self, politic),
    {
        match self {
            FeeStrategy::Fixed(r) => *r,
            FeeStrategy::Range { start, end } => match politic {
                FeePolitic::Aggressive => *start,
                FeePolitic::Conservative => *end,
            },
        }
    }
}

/// Every input carries the output it spends.
pub open spec fn all_inputs_have_metadata(inputs: Seq<PsbtInput>) -> bool {
    forall|i: int| 0 <= i < inputs.len() ==> (#[trigger] inputs[i]).witness_utxo is Some
}

/// The value of the spent output of an input, zero where it is not known.
pub open spec fn input_value(input: PsbtInput) -> int {
    match input.witness_utxo {
        Some(o) => o.value as int,
        None => 0,
    }
}

/// The total value that the inputs spend.
pub open spec fn input_total(inputs: Seq<PsbtInput>) -> int
    decreases inputs.len(),
{
    if inputs.len() == 0 {
        0
    } else {
        input_total(inputs.drop_last()) + input_value(inputs.last())
    }
}

/// The fee for `weight` under a strategy and politic, as an unbounded integer.
pub open spec fn fee_for(strategy: FeeStrategy, politic: FeePolitic, weight: u64) -> int {
    rate_of(strategy, politic) as int * weight as int
}

/// What setting the fee does to a partial transaction of the given weight:
/// the result, and the transaction afterwards.
pub open spec fn fee_set(
    before: PartialTx,
    after: PartialTx,
    strategy: FeeStrategy,
    politic: FeePolitic,
    weight: u64,
    r: Result<Amount, FeeStrategyError>,
) -> bool {
    let fee = fee_for(strategy, politic, weight);
    let total = input_total(before.inputs@);
    if !all_inputs_have_metadata(before.inputs@) {
        r == Err::<Amount, _>(FeeStrategyError::MissingInputsMetadata) && after == before
    } else if fee > u64::MAX {
        r == Err::<Amount, _>(FeeStrategyError::AmountOfFeeTooHigh) && after == before
    } else if before.unsigned_tx.output.len() != 1 {
        r == Err::<Amount, _>(FeeStrategyError::MultiUTXOUnsupported) && after == before
    } else if fee > total {
        r == Err::<Amount, _>(FeeStrategyError::NotEnoughAssets) && after == before
    } else {
        &&& r == Ok::<Amount, FeeStrategyError>(Amount(fee as u64))
        &&& after.inputs == before.inputs
        &&& after.outputs == before.outputs
        &&& after.unsigned_tx.version == before.unsigned_tx.version
        &&& after.unsigned_tx.lock_time == before.unsigned_tx.lock_time
        &&& after.unsigned_tx.input == before.unsigned_tx.input
        &&& after.unsigned_tx.output.len() == 1
        &&& after.unsigned_tx.output[0].value == total - fee
        &&& after.unsigned_tx.output[0].script_pubkey
            == before.unsigned_tx.output[0].script_pubkey
    }
}

/// Sets the fee of `tx` for a given weight: the single output receives the
/// total of the inputs less `rate * weight`, and the fee is returned.
pub fn apply_fee(
    tx: &mut PartialTx,
    strategy: &FeeStrategy,
    politic: FeePolitic,
    weight: u64,
) -> (r: Result<Amount, FeeStrategyError>)
    requires
        input_total(old(tx).inputs@) <= u64::MAX,
    ensures
        fee_set(*old(tx), *final(tx), *strategy, politic, weight, r),
{
    let total = sum_inputs(&tx.inputs)?;
    let rate = strategy.resolve(politic);
    let fee = match rate.as_native_unit().as_sat().checked_mul(weight) {
        Some(f) => f,
        None => {
            return Err(FeeStrategyError::AmountOfFeeTooHigh);
        },
    };
    if tx.unsigned_tx.output.len() != 1 {
        return Err(FeeStrategyError::MultiUTXOUnsupported);
    }
    if fee > total {
        return Err(FeeStrategyError::NotEnoughAssets);
    }
    tx.unsigned_tx.output[0].value = total - fee;
    Ok(Amount::from_sat(fee))
}

/// The total of a prefix grows by the value of the next input.
proof fn lemma_input_total_prefix(inputs: Seq<PsbtInput>, n: int)
    requires
        0 <= n <= inputs.len(),
    ensures
        input_total(inputs.take(n)) <= input_total(inputs),
        n > 0 ==> input_total(inputs.take(n)) == input_total(inputs.take(n - 1))
            + input_value(inputs[n - 1]),
    decreases inputs.len(),
{
    if n > 0 {
        assert(inputs.take(n).drop_last() =~= inputs.take(n - 1));
    }
    if n < inputs.len() {
        lemma_input_total_prefix(inputs.drop_last(), n);
        assert(inputs.drop_last().take(n) =~= inputs.take(n));
    } else {
        assert(inputs.take(n) =~= inputs);
    }
}

/// Calculates and sets the fee of `tx` by the weight of its unsigned
/// transaction, and returns the fee set.
///
/// The single output receives the total of the inputs less `rate * weight`,
/// where the rate is the one that the strategy gives under the politic; the
/// call fails exactly when an input lacks its metadata, the fee overflows,
/// the transaction does not have one output, or the fee exceeds the inputs.
pub fn set_fee(tx: &mut PartialTx, strategy: &FeeStrategy, politic: FeePolitic) -> (r: Result<
    Amount,
    FeeStrategyError,
>)
    requires
        input_total(old(tx).inputs@) <= u64::MAX,
    ensures
        fee_set(*old(tx), *final(tx), *strategy, politic, weight_of(shape_of(old(tx).unsigned_tx@)), r),
{
    let weight = unsigned_weight(&tx.unsigned_tx);
    apply_fee(tx, strategy, politic, weight)
}

/// The total value of the outputs.
pub open spec fn output_total(outputs: Seq<TxOut>) -> int
    decreases outputs.len(),
{
    if outputs.len() == 0 {
        0
    } else {
        output_total(outputs.drop_last()) + outputs.last().value
    }
}

/// Whether the fee that `tx` pays is the one that the strategy gives for
/// `weight` under the politic: the inputs less the outputs equal
/// `rate * weight`.
pub open spec fn fee_check(tx: PartialTx, strategy: FeeStrategy, politic: FeePolitic, weight: u64) -> Result<
    bool,
    FeeStrategyError,
> {
    let fee = fee_for(strategy, politic, weight);
    if !all_inputs_have_metadata(tx.inputs@) {
        Err(FeeStrategyError::MissingInputsMetadata)
    } else if fee > u64::MAX {
        Err(FeeStrategyError::AmountOfFeeTooHigh)
    } else {
        Ok(input_total(tx.inputs@) == output_total(tx.unsigned_tx.output@) + fee)
    }
}

/// Sums the values that the inputs spend, or reports the first input
/// without metadata.
fn sum_inputs(inputs: &Vec<PsbtInput>) -> (r: Result<u64, FeeStrategyError>)
    requires
        input_total(inputs@) <= u64::MAX,
    ensures
        match r {
            Ok(t) => all_inputs_have_metadata(inputs@) && t == input_total(inputs@),
            Err(e) => !all_inputs_have_metadata(inputs@) && e
                == FeeStrategyError::MissingInputsMetadata,
        },
{
    let mut total: u64 = 0;
    let mut i: usize = 0;
    while i < inputs.len()
        invariant
            i <= inputs@.len(),
            input_total(inputs@) <= u64::MAX,
            all_inputs_have_metadata(inputs@.take(i as int)),
            total == input_total(inputs@.take(i as int)),
        decreases inputs.len() - i,
    {
        proof {
            lemma_input_total_prefix(inputs@, i as int + 1);
            assert(inputs@.take(i as int + 1).drop_last() =~= inputs@.take(i as int));
        }
        match &inputs[i].witness_utxo {
            Some(o) => {
                total = total + o.value;
            },
            None => {
                return Err(FeeStrategyError::MissingInputsMetadata);
            },
        }
        i = i + 1;
        proof {
            let t = inputs@.take(i as int);
            assert forall|j: int| 0 <= j < t.len() implies (#[trigger] t[j]).witness_utxo is Some by {
                if j < i - 1 {
                    assert(t[j] == inputs@.take(i - 1)[j]);
                }
            }
        }
    }
    assert(inputs@.take(i as int) =~= inputs@);
    Ok(total)
}

/// The total of a prefix of the outputs grows by the next output.
proof fn lemma_output_total_prefix(outputs: Seq<TxOut>, n: int)
    requires
        0 < n <= outputs.len(),
    ensures
        output_total(outputs.take(n)) == output_total(outputs.take(n - 1)) + outputs[n - 1].value,
{
    assert(outputs.take(n).drop_last() =~= outputs.take(n - 1));
}

/// Checks that `tx` pays the fee that the strategy gives for `weight` under
/// the politic.
pub fn check_fee(tx: &PartialTx, strategy: &FeeStrategy, politic: FeePolitic, weight: u64) -> (r: Result<
    bool,
    FeeStrategyError,
>)
    requires
        input_total(tx.inputs@) <= u64::MAX,
    ensures
        r == fee_check(*tx, *strategy, politic, weight),
{
    let total = sum_inputs(&tx.inputs)?;
    let rate = strategy.resolve(politic);
    let fee = match rate.as_native_unit().as_sat().checked_mul(weight) {
        Some(f) => f,
        None => {
            return Err(FeeStrategyError::AmountOfFeeTooHigh);
        },
    };
    let mut spent: u64 = 0;
    let mut i: usize = 0;
    while i < tx.unsigned_tx.output.len()
        invariant
            i <= tx.unsigned_tx.output@.len(),
            spent as int == output_total(tx.unsigned_tx.output@.take(i as int)),
            spent <= total,
            fee as int == fee_for(*strategy, politic, weight),
            total == input_total(tx.inputs@),
            all_inputs_have_metadata(tx.inputs@),
        decreases tx.unsigned_tx.output.len() - i,
    {
        proof {
            lemma_output_total_prefix(tx.unsigned_tx.output@, i as int + 1);
        }
        if tx.unsigned_tx.output[i].value > total - spent {
            proof {
                lemma_output_total_grows(tx.unsigned_tx.output@, i as int + 1);
                assert(output_total(tx.unsigned_tx.output@.take(i as int + 1)) == spent + tx.unsigned_tx.output@[i as int].value);
                assert(output_total(tx.unsigned_tx.output@) > total);
                assert(fee as int == fee_for(*strategy, politic, weight));
            }
            return Ok(false);
        }
        spent = spent + tx.unsigned_tx.output[i].value;
        i = i + 1;
    }
    assert(tx.unsigned_tx.output@.take(i as int) =~= tx.unsigned_tx.output@);
    Ok(total - spent == fee)
}

/// The total of all outputs is at least that of a prefix.
proof fn lemma_output_total_grows(outputs: Seq<TxOut>, n: int)
    requires
        0 <= n <= outputs.len(),
    ensures
        output_total(outputs.take(n)) <= output_total(outputs),
    decreases outputs.len(),
{
    if n < outputs.len() {
        lemma_output_total_grows(outputs.drop_last(), n);
        assert(outputs.drop_last().take(n) =~= outputs.take(n));
    } else {
        assert(outputs.take(n) =~= outputs);
    }
}

/// Validates that the fee of `tx` is the one that the strategy gives under
/// the politic for the weight of its unsigned transaction.
pub fn validate_fee(tx: &PartialTx, strategy: &FeeStrategy, politic: FeePolitic) -> (r: Result<
    bool,
    FeeStrategyError,
>)
    requires
        input_total(tx.inputs@) <= u64::MAX,
    ensures
        r == fee_check(*tx, *strategy, politic, weight_of(shape_of(tx.unsigned_tx@))),
{
    let weight = unsigned_weight(&tx.unsigned_tx);
    check_fee(tx, strategy, politic, weight)
}

/// A fee set by `set_fee` passes `validate_fee` under the same strategy and
/// politic: setting the fee leaves the weight as it was.
pub proof fn lemma_set_fee_validates(
    before: PartialTx,
    after: PartialTx,
    strategy: FeeStrategy,
    politic: FeePolitic,
    r: Amount,
)
    requires
        fee_set(
            before,
            after,
            strategy,
            politic,
            weight_of(shape_of(before.unsigned_tx@)),
            Ok::<Amount, FeeStrategyError>(r),
        ),
    ensures
        shape_of(after.unsigned_tx@) == shape_of(before.unsigned_tx@),
        fee_check(after, strategy, politic, weight_of(shape_of(after.unsigned_tx@))) == Ok::<
            bool,
            FeeStrategyError,
        >(true),
{
    let a = shape_of(after.unsigned_tx@);
    let b = shape_of(before.unsigned_tx@);
    assert(a.3 =~= b.3);
    assert(a.2 == b.2);
    let outs = after.unsigned_tx.output@;
    assert(outs.drop_last() =~= Seq::<TxOut>::empty());
    assert(output_total(outs.drop_last()) == 0);
    assert(output_total(outs) == outs[0].value);
}

} // verus!
