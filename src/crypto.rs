//! Cryptographic types and capabilities: commitments, tagged signatures,
//! cross-group proofs, and the primitives of the arbitrating curve.

use vstd::prelude::*;

use crate::codec::{
    bytes_eq, copy_bytes, copy_range, decode_fields, field_bytes, fields_bytes, le_u16,
    lemma_fields_round_trip, lemma_u16_round_trip, parse_fields, push_field, push_u16, read_u16, u16_of,
};
use crate::error::Error;

verus! {

/// The SHA-256 digest of a byte string.
pub uninterp spec fn sha256_of(b: Seq<u8>) -> Seq<u8>;

/// Relies on bitcoin's `sha256::Hash::hash`: the 32-byte SHA-256 digest of
/// the bytes, which depends on them alone.
#[verifier::external_body]
pub(crate) fn sha256(b: &Vec<u8>) -> (r: Vec<u8>)
    ensures
        r@ == sha256_of(b@),
        r@.len() == 32,
{
    <bitcoin::hashes::sha256::Hash as bitcoin::hashes::Hash>::hash(b.as_slice()).to_vec()
}

/// Whether bytes encode a public key on the arbitrating curve.
pub uninterp spec fn valid_public_key(b: Seq<u8>) -> bool;

/// Relies on bitcoin's `PublicKey::from_slice`: accepts 33 or 65 bytes that
/// encode a point of the curve, and nothing else.
#[verifier::external_body]
pub(crate) fn is_valid_public_key(b: &Vec<u8>) -> (r: bool)
    ensures
        r == valid_public_key(b@),
        r ==> b@.len() == 33 || b@.len() == 65,
{
    bitcoin::PublicKey::from_slice(b.as_slice()).is_ok()
}

/// Whether bytes encode a secret scalar of the arbitrating curve.
pub uninterp spec fn valid_secret_key(b: Seq<u8>) -> bool;

/// The deterministic ECDSA signature of a 32-byte digest, DER-encoded.
pub uninterp spec fn ecdsa_signature_of(digest: Seq<u8>, secret: Seq<u8>) -> Seq<u8>;

/// Relies on secp256k1's `SecretKey::from_slice`: accepts 32 bytes that
/// encode a non-zero scalar below the group order.
#[verifier::external_body]
pub(crate) fn is_valid_secret_key(b: &Vec<u8>) -> (r: bool)
    ensures
        r == valid_secret_key(b@),
        r ==> b@.len() == 32,
{
    bitcoin::secp256k1::SecretKey::from_slice(b.as_slice()).is_ok()
}

/// Relies on secp256k1's `Secp256k1::sign` (RFC 6979 nonces, so the result
/// depends on its arguments alone) and `Signature::serialize_der`.
#[verifier::external_body]
pub(crate) fn ecdsa_sign(digest: &Vec<u8>, secret: &Vec<u8>) -> (r: Vec<u8>)
    requires
        digest@.len() == 32,
        valid_secret_key(secret@),
    ensures
        r@ == ecdsa_signature_of(digest@, secret@),
{
    let sk = bitcoin::secp256k1::SecretKey::from_slice(secret.as_slice()).unwrap();
    let msg = bitcoin::secp256k1::Message::from_slice(digest.as_slice()).unwrap();
    bitcoin::secp256k1::Secp256k1::signing_only().sign(&msg, &sk).serialize_der().to_vec()
}

/// Whether a DER-encoded signature verifies for a 32-byte digest under a
/// serialized public key.
pub uninterp spec fn ecdsa_verifies(digest: Seq<u8>, pubkey: Seq<u8>, sig: Seq<u8>) -> bool;

/// Relies on secp256k1's `Secp256k1::verify`, after `Signature::from_der`
/// and `PublicKey::from_slice`: false where either does not parse.
#[verifier::external_body]
pub(crate) fn ecdsa_verify(digest: &Vec<u8>, pubkey: &Vec<u8>, sig: &Vec<u8>) -> (r: bool)
    requires
        digest@.len() == 32,
    ensures
        r == ecdsa_verifies(digest@, pubkey@, sig@),
{
    let msg = bitcoin::secp256k1::Message::from_slice(digest.as_slice()).unwrap();
    match (bitcoin::secp256k1::Signature::from_der(sig.as_slice()),
        bitcoin::secp256k1::PublicKey::from_slice(pubkey.as_slice())) {
        (Ok(sig), Ok(pk)) => bitcoin::secp256k1::Secp256k1::verification_only().verify(&msg, &sig, &pk).is_ok(),
        _ => false,
    }
}

/// Commits to bytes: their SHA-256 digest.
pub fn commit_to(b: &Vec<u8>) -> (r: Vec<u8>)
    ensures
        r@ == sha256_of(b@),
        r@.len() == 32,
{
    sha256(b)
}

/// Checks that bytes open a commitment.
pub fn validate(b: &Vec<u8>, commitment: &Vec<u8>) -> (r: Result<(), Error>)
    ensures
        r is Ok <==> sha256_of(b@) == commitment@,
        r is Err ==> r == Err::<(), Error>(Error::InvalidCommitment),
{
    let c = commit_to(b);
    if c.len() == commitment.len() && bytes_eq(&c, commitment) {
        Ok(())
    } else {
        Err(Error::InvalidCommitment)
    }
}

/// A signature of the arbitrating chain, tagged with its kind.
#[derive(Debug, Clone)]
pub enum SignatureType {
    /// An encrypted signature, to be decrypted with an adaptor secret.
    Adaptor(Vec<u8>),
    /// A regular signature obtained by decrypting an adaptor signature.
    Adapted(Vec<u8>),
    /// A regular signature.
    Regular(Vec<u8>),
}

impl SignatureType {
    /// The wire tag of the kind: `Adaptor` 0, `Adapted` 1, `Regular` 2.
    pub fn tag(&self) -> (r: u16)
        ensures
            r == match *self {
                SignatureType::Adaptor(_) => 0u16,
                SignatureType::Adapted(_) => 1u16,
                SignatureType::Regular(_) => 2u16,
            },
    {
        match self {
            SignatureType::Adaptor(_) => 0,
            SignatureType::Adapted(_) => 1,
            SignatureType::Regular(_) => 2,
        }
    }

    /// The regular signature, or `TypeMismatch`.
    pub fn try_into_regular(self) -> (r: Result<Vec<u8>, Error>)
        ensures
            match self {
                SignatureType::Regular(s) => r == Ok::<Vec<u8>, Error>(s),
                _ => r == Err::<Vec<u8>, Error>(Error::TypeMismatch),
            },
    {
        match self {
            SignatureType::Regular(s) => Ok(s),
            _ => Err(Error::TypeMismatch),
        }
    }

    /// The adapted signature, or `TypeMismatch`.
    pub fn try_into_adapted(self) -> (r: Result<Vec<u8>, Error>)
        ensures
            match self {
                SignatureType::Adapted(s) => r == Ok::<Vec<u8>, Error>(s),
                _ => r == Err::<Vec<u8>, Error>(Error::TypeMismatch),
            },
    {
        match self {
            SignatureType::Adapted(s) => Ok(s),
            _ => Err(Error::TypeMismatch),
        }
    }

    /// The adaptor signature, or `TypeMismatch`.
    pub fn try_into_adaptor(self) -> (r: Result<Vec<u8>, Error>)
        ensures
            match self {
                SignatureType::Adaptor(s) => r == Ok::<Vec<u8>, Error>(s),
                _ => r == Err::<Vec<u8>, Error>(Error::TypeMismatch),
            },
    {
        match self {
            SignatureType::Adaptor(s) => Ok(s),
            _ => Err(Error::TypeMismatch),
        }
    }
}

impl SignatureType {
    /// The signature bytes, whatever the kind.
    pub open spec fn payload(&self) -> Seq<u8> {
        match *self {
            SignatureType::Adaptor(b) => b@,
            SignatureType::Adapted(b) => b@,
            SignatureType::Regular(b) => b@,
        }
    }

    /// The wire tag of the kind.
    pub open spec fn spec_tag(&self) -> u16 {
        match *self {
            SignatureType::Adaptor(_) => 0,
            SignatureType::Adapted(_) => 1,
            SignatureType::Regular(_) => 2,
        }
    }

    /// Writes the tag, then the signature bytes as one field.
    pub fn consensus_encode(&self) -> (r: Vec<u8>)
        requires
            self.payload().len() < 65536,
        ensures
            r@ == le_u16(self.spec_tag() as nat) + field_bytes(self.payload()),
    {
        let mut r: Vec<u8> = Vec::new();
        push_u16(&mut r, self.tag());
        match self {
            SignatureType::Adaptor(b) => push_field(&mut r, b),
            SignatureType::Adapted(b) => push_field(&mut r, b),
            SignatureType::Regular(b) => push_field(&mut r, b),
        }
        r
    }

    /// Reads a tagged signature from bytes that hold it and nothing more.
    pub fn consensus_decode(b: &Vec<u8>) -> (r: Result<SignatureType, Error>)
        ensures
            match r {
                Ok(s) => decode_signature(b@) == Ok::<(u16, Seq<u8>), Error>((s.spec_tag(), s.payload())),
                Err(e) => decode_signature(b@) == Err::<(u16, Seq<u8>), Error>(e),
            },
    {
        if b.len() < 2 {
            return Err(Error::ParseFailed);
        }
        let tag = read_u16(b, 0);
        if tag > 2 {
            return Err(Error::UnknownType);
        }
        let rest = copy_range(b, 2, b.len());
        match decode_fields(&rest, 1) {
            None => Err(Error::ParseFailed),
            Some(v) => {
                let f = copy_bytes(&v[0]);
                if tag == 0 {
                    Ok(SignatureType::Adaptor(f))
                } else if tag == 1 {
                    Ok(SignatureType::Adapted(f))
                } else {
                    Ok(SignatureType::Regular(f))
                }
            },
        }
    }
}

/// What decoding a tagged signature from `b` gives: its tag and its bytes.
pub open spec fn decode_signature(b: Seq<u8>) -> Result<(u16, Seq<u8>), Error> {
    if b.len() < 2 {
        Err(Error::ParseFailed)
    } else if u16_of(b[0], b[1]) > 2 {
        Err(Error::UnknownType)
    } else {
        match parse_fields(b.subrange(2, b.len() as int), 1) {
            Some(fs) => Ok((u16_of(b[0], b[1]) as u16, fs[0])),
            None => Err(Error::ParseFailed),
        }
    }
}

/// Decoding an encoded signature gives back its kind and its bytes.
pub proof fn lemma_signature_round_trip(s: SignatureType)
    requires
        s.payload().len() < 65536,
    ensures
        decode_signature(le_u16(s.spec_tag() as nat) + field_bytes(s.payload())) == Ok::<
            (u16, Seq<u8>),
            Error,
        >((s.spec_tag(), s.payload())),
{
    let t = s.spec_tag();
    let p = s.payload();
    let b = le_u16(t as nat) + field_bytes(p);
    lemma_u16_round_trip(t as nat);
    assert(b[0] == le_u16(t as nat)[0] && b[1] == le_u16(t as nat)[1]);
    lemma_fields_round_trip(seq![p]);
    assert(fields_bytes(seq![p]) =~= field_bytes(p)) by {
        assert(seq![p].drop_first() =~= Seq::<Seq<u8>>::empty());
        assert(fields_bytes(Seq::<Seq<u8>>::empty()) == Seq::<u8>::empty());
        assert(seq![p][0] == p);
        assert(field_bytes(p) + Seq::<u8>::empty() =~= field_bytes(p));
    }
    assert(b.subrange(2, b.len() as int) =~= field_bytes(p));
}

/// A key of the swap, tagged with its kind.
#[derive(Debug, Clone)]
pub enum KeyType {
    /// A public key of the arbitrating chain.
    PublicArbitrating(Vec<u8>),
    /// A public key of the accordant chain.
    PublicAccordant(Vec<u8>),
    /// A private key shared with the counterparty, such as the view key.
    SharedPrivate(Vec<u8>),
}

impl KeyType {
    /// The wire tag of the kind: `PublicArbitrating` 0, `PublicAccordant` 1,
    /// `SharedPrivate` 2.
    pub fn tag(&self) -> (r: u16)
        ensures
            r == match *self {
                KeyType::PublicArbitrating(_) => 0u16,
                KeyType::PublicAccordant(_) => 1u16,
                KeyType::SharedPrivate(_) => 2u16,
            },
    {
        match self {
            KeyType::PublicArbitrating(_) => 0,
            KeyType::PublicAccordant(_) => 1,
            KeyType::SharedPrivate(_) => 2,
        }
    }

    /// The arbitrating public key, or `TypeMismatch`.
    pub fn try_into_arbitrating_pubkey(self) -> (r: Result<Vec<u8>, Error>)
        ensures
            match self {
                KeyType::PublicArbitrating(k) => r == Ok::<Vec<u8>, Error>(k),
                _ => r == Err::<Vec<u8>, Error>(Error::TypeMismatch),
            },
    {
        match self {
            KeyType::PublicArbitrating(k) => Ok(k),
            _ => Err(Error::TypeMismatch),
        }
    }

    /// The accordant public key, or `TypeMismatch`.
    pub fn try_into_accordant_pubkey(self) -> (r: Result<Vec<u8>, Error>)
        ensures
            match self {
                KeyType::PublicAccordant(k) => r == Ok::<Vec<u8>, Error>(k),
                _ => r == Err::<Vec<u8>, Error>(Error::TypeMismatch),
            },
    {
        match self {
            KeyType::PublicAccordant(k) => Ok(k),
            _ => Err(Error::TypeMismatch),
        }
    }

    /// The shared private key, or `TypeMismatch`.
    pub fn try_into_shared_private(self) -> (r: Result<Vec<u8>, Error>)
        ensures
            match self {
                KeyType::SharedPrivate(k) => r == Ok::<Vec<u8>, Error>(k),
                _ => r == Err::<Vec<u8>, Error>(Error::TypeMismatch),
            },
    {
        match self {
            KeyType::SharedPrivate(k) => Ok(k),
            _ => Err(Error::TypeMismatch),
        }
    }
}

/// A cross-group discrete-logarithm equality proof, as the pair of points
/// it links: one on the arbitrating curve, one on the accordant curve.
#[derive(Debug, Clone)]
pub struct Proof {
    /// The point on the arbitrating curve.
    pub arbitrating: Vec<u8>,
    /// The point on the accordant curve.
    pub accordant: Vec<u8>,
}

impl Proof {
    pub open spec fn view_pair(&self) -> (Seq<u8>, Seq<u8>) {
        (self.arbitrating@, self.accordant@)
    }

    /// A copy of the proof.
    pub fn copy(&self) -> (r: Proof)
        ensures
            r.view_pair() == self.view_pair(),
    {
        Proof { arbitrating: copy_bytes(&self.arbitrating), accordant: copy_bytes(&self.accordant) }
    }
}

/// Marks a proof as linking the arbitrating and the accordant groups.
pub trait CrossGroupDLEQ {}

impl CrossGroupDLEQ for Proof {}

/// A proof system that checks that an accordant spend point and an
/// arbitrating adaptor point are the images of one scalar.
pub trait DleqProof {
    /// The verdict of the proof system on a spend point, an adaptor point
    /// and a proof, as plain values.
    spec fn accepts(&self, spend: Seq<u8>, adaptor: Seq<u8>, proof: (Seq<u8>, Seq<u8>)) -> bool;

    /// Whether `proof` shows that `spend` and `adaptor` share their scalar.
    fn verify(&self, spend: &Vec<u8>, adaptor: &Vec<u8>, proof: &Proof) -> (r: bool)
        ensures
            r == self.accepts(spend@, adaptor@, proof.view_pair()),
    ;
}

/// The proof check that compares points only: it accepts a proof exactly
/// when the proof's arbitrating point is the adaptor key and its accordant
/// point is the spend key. It shows nothing about their discrete logarithms;
/// a cross-group proof system implements `DleqProof` with its own check.
#[derive(Debug, Clone, Copy)]
pub struct PairBinding;

impl DleqProof for PairBinding {
    open spec fn accepts(&self, spend: Seq<u8>, adaptor: Seq<u8>, proof: (Seq<u8>, Seq<u8>)) -> bool {
        proof.0 == adaptor && proof.1 == spend
    }

    fn verify(&self, spend: &Vec<u8>, adaptor: &Vec<u8>, proof: &Proof) -> (r: bool) {
        proof.arbitrating.len() == adaptor.len() && bytes_eq(&proof.arbitrating, adaptor)
            && proof.accordant.len() == spend.len() && bytes_eq(&proof.accordant, spend)
    }
}

impl Proof {
    /// The proof that names `adaptor` and `spend` as its pair of points.
    pub fn binding(adaptor: &Vec<u8>, spend: &Vec<u8>) -> (r: Proof)
        ensures
            r.view_pair() == (adaptor@, spend@),
    {
        Proof { arbitrating: copy_bytes(adaptor), accordant: copy_bytes(spend) }
    }
}

/// The binding check accepts the proof made for a pair of points, and
/// refuses it once the spend key, the adaptor key or the proof is replaced
/// by another value.
pub proof fn lemma_pair_binding(
    spend: Seq<u8>,
    adaptor: Seq<u8>,
    other_spend: Seq<u8>,
    other_adaptor: Seq<u8>,
    other_proof: (Seq<u8>, Seq<u8>),
)
    ensures
        PairBinding.accepts(spend, adaptor, (adaptor, spend)),
        other_spend != spend ==> !PairBinding.accepts(other_spend, adaptor, (adaptor, spend)),
        other_adaptor != adaptor ==> !PairBinding.accepts(spend, other_adaptor, (adaptor, spend)),
        other_proof != (adaptor, spend) ==> !PairBinding.accepts(spend, adaptor, other_proof),
{
}

/// A cryptographic engine used inside the arbitrating transactions.
pub trait CryptoEngine {}

/// The means of arbitration of a chain.
pub trait Script {}

/// ECDSA signatures inside the scripting layer of the arbitrating chain.
#[derive(Debug, Clone, Copy)]
pub struct ECDSAScripts;

/// Schnorr signatures inside the scripting layer of the arbitrating chain.
#[derive(Debug, Clone, Copy)]
pub struct TrSchnorrScripts;

/// MuSig2 off-chain multi-signatures for a single key on chain.
#[derive(Debug, Clone, Copy)]
pub struct TrMuSig2;

impl CryptoEngine for ECDSAScripts {}

impl Script for ECDSAScripts {}

impl Script for TrSchnorrScripts {}

impl Script for TrMuSig2 {}

/// The means of arbitration that a swap may use.
#[derive(Debug, Clone, Copy)]
pub enum Scripts {
    ECDSAScripts(ECDSAScripts),
    TrSchnorrScripts(TrSchnorrScripts),
    TrMusig2(TrMuSig2),
}

} // verus!
