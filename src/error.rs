//! The closed taxonomy of errors that the core reports.

use vstd::prelude::*;

verus! {

/// Errors raised while computing or applying a fee.
#[derive(Debug, Clone, Copy, PartialEq, Eq, Structural)]
pub enum FeeStrategyError {
    /// The fee amount does not fit in the native amount type.
    AmountOfFeeTooHigh,
    /// The inputs do not cover the fee.
    NotEnoughAssets,
    /// An input carries no witness-UTXO metadata.
    MissingInputsMetadata,
    /// The transaction does not have exactly one output.
    MultiUTXOUnsupported,
}

/// Errors of the swap core.
#[derive(Debug, Clone, Copy, PartialEq, Eq, Structural)]
pub enum Error {
    /// A regular signature does not verify.
    InvalidSignature,
    /// An adaptor signature does not verify.
    InvalidAdaptorSignature,
    /// A cross-group proof does not verify.
    InvalidProof,
    /// A revealed value does not open its commitment.
    InvalidCommitment,
    /// A tagged value holds another variant than the one asked for.
    TypeMismatch,
    /// Bytes or text could not be parsed.
    ParseFailed,
    /// A wire tag names no known variant.
    UnknownType,
    /// The transaction does not have exactly one output.
    MultiUTXOUnsupported,
    /// A witness script or witness UTXO is missing.
    MissingWitness,
    /// A public key could not be found.
    MissingPublicKey,
    /// A signature could not be found.
    MissingSignature,
    /// The input carries no signature hash type.
    MissingSigHashType,
    /// The lock's timelock does not come before the punishable lock's.
    InvalidTimelock,
    /// A transaction does not follow the template its lock data gives.
    TemplateMismatch,
    /// The message is not accepted in the current protocol state.
    UnexpectedMessage,
    /// A fee could not be set.
    Fee(FeeStrategyError),
}

} // verus!
