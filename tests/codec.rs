use farcaster_swap::crypto::{Proof, SignatureType};
use farcaster_swap::error::Error;
use farcaster_swap::protocol::{Abort, CommitAliceParameters, CommitBobParameters, RevealAliceParameters, RevealBobParameters};
use farcaster_swap::transaction::TxId;

const ALL: [TxId; 6] = [TxId::Funding, TxId::Lock, TxId::Buy, TxId::Cancel, TxId::Refund, TxId::Punish];

#[test]
fn tx_id_wire_tags() {
    for (i, id) in ALL.iter().enumerate() {
        let b = id.consensus_encode();
        assert_eq!(b, vec![(i + 1) as u8, 0]);
        assert_eq!(TxId::consensus_decode(&b), Ok(*id));
        assert_eq!(id.tag(), (i + 1) as u16);
    }
}

#[test]
fn tx_id_unknown_values() {
    for v in [0u16, 7, 0x0100, 0xffff] {
        let b = vec![(v % 256) as u8, (v / 256) as u8];
        assert_eq!(TxId::consensus_decode(&b), Err(Error::UnknownType));
    }
    let mut known = 0;
    for v in 0..=u16::MAX {
        let b = vec![(v % 256) as u8, (v / 256) as u8];
        if TxId::consensus_decode(&b).is_ok() {
            known += 1;
        }
    }
    assert_eq!(known, 6);
}

#[test]
fn tx_id_wrong_length() {
    assert_eq!(TxId::consensus_decode(&vec![1]), Err(Error::ParseFailed));
    assert_eq!(TxId::consensus_decode(&vec![1, 0, 0]), Err(Error::ParseFailed));
    assert_eq!(TxId::consensus_decode(&vec![]), Err(Error::ParseFailed));
}

fn bytes(seed: u8, n: usize) -> Vec<u8> {
    (0..n).map(|i| seed.wrapping_add(i as u8)).collect()
}

#[test]
fn commit_alice_round_trip() {
    let m = CommitAliceParameters {
        buy: bytes(1, 32),
        cancel: bytes(2, 32),
        refund: bytes(3, 32),
        punish: bytes(4, 32),
        adaptor: bytes(5, 32),
        spend: bytes(6, 32),
        view: bytes(7, 32),
    };
    let b = m.consensus_encode();
    assert_eq!(b.len(), 7 * 34);
    assert_eq!(&b[0..3], &[32, 0, 1]);
    let d = CommitAliceParameters::consensus_decode(&b).unwrap();
    assert_eq!(d.buy, m.buy);
    assert_eq!(d.punish, m.punish);
    assert_eq!(d.view, m.view);
    let mut longer = b.clone();
    longer.push(0);
    assert_eq!(CommitAliceParameters::consensus_decode(&longer).err(), Some(Error::ParseFailed));
    assert_eq!(CommitAliceParameters::consensus_decode(&b[..b.len() - 1].to_vec()).err(), Some(Error::ParseFailed));
}

#[test]
fn commit_bob_round_trip() {
    let m = CommitBobParameters {
        buy: bytes(1, 32),
        cancel: bytes(2, 32),
        refund: bytes(3, 32),
        adaptor: bytes(5, 32),
        spend: bytes(6, 32),
        view: bytes(7, 32),
    };
    let d = CommitBobParameters::consensus_decode(&m.consensus_encode()).unwrap();
    assert_eq!(d.buy, m.buy);
    assert_eq!(d.adaptor, m.adaptor);
    assert_eq!(d.view, m.view);
}

#[test]
fn reveal_round_trips() {
    let a = RevealAliceParameters {
        buy: bytes(1, 33),
        cancel: bytes(2, 33),
        refund: bytes(3, 33),
        punish: bytes(4, 33),
        adaptor: bytes(5, 33),
        address: bytes(9, 22),
        spend: bytes(6, 32),
        view: bytes(7, 32),
        proof: Proof { arbitrating: bytes(5, 33), accordant: bytes(6, 32) },
    };
    let d = RevealAliceParameters::consensus_decode(&a.consensus_encode()).unwrap();
    assert_eq!(d.address, a.address);
    assert_eq!(d.punish, a.punish);
    assert_eq!(d.proof.arbitrating, a.proof.arbitrating);
    assert_eq!(d.proof.accordant, a.proof.accordant);

    let b = RevealBobParameters {
        buy: bytes(1, 33),
        cancel: bytes(2, 33),
        refund: bytes(3, 33),
        adaptor: bytes(5, 33),
        address: vec![],
        spend: bytes(6, 32),
        view: bytes(7, 32),
        proof: Proof { arbitrating: bytes(5, 33), accordant: bytes(6, 32) },
    };
    let d = RevealBobParameters::consensus_decode(&b.consensus_encode()).unwrap();
    assert_eq!(d.address, b.address);
    assert_eq!(d.view, b.view);
}

#[test]
fn abort_round_trip() {
    let m = Abort { error_body: Some("x".to_string()) };
    let b = m.consensus_encode();
    assert_eq!(b, vec![1, 1, 0, b'x']);
    assert_eq!(Abort::consensus_decode(&b).unwrap().error_body, Some("x".to_string()));
    let none = Abort { error_body: None };
    assert_eq!(none.consensus_encode(), vec![0]);
    assert_eq!(Abort::consensus_decode(&vec![0]).unwrap().error_body, None);
    let text = Abort { error_body: Some("délai dépassé".to_string()) };
    let d = Abort::consensus_decode(&text.consensus_encode()).unwrap();
    assert_eq!(d.error_body, text.error_body);
}

#[test]
fn abort_bad_input() {
    assert_eq!(Abort::consensus_decode(&vec![]).err(), Some(Error::ParseFailed));
    assert_eq!(Abort::consensus_decode(&vec![2]).err(), Some(Error::UnknownType));
    assert_eq!(Abort::consensus_decode(&vec![0, 0]).err(), Some(Error::ParseFailed));
    assert_eq!(Abort::consensus_decode(&vec![1, 2, 0, b'x']).err(), Some(Error::ParseFailed));
    assert_eq!(Abort::consensus_decode(&vec![1, 1, 0, 0xff]).err(), Some(Error::ParseFailed));
}

#[test]
fn signature_type_round_trip() {
    let s = SignatureType::Adapted(vec![9, 8, 7]);
    let b = s.consensus_encode();
    assert_eq!(b, vec![1, 0, 3, 0, 9, 8, 7]);
    match SignatureType::consensus_decode(&b).unwrap() {
        SignatureType::Adapted(v) => assert_eq!(v, vec![9, 8, 7]),
        other => panic!("decoded {:?}", other),
    }
    let r = SignatureType::Regular(vec![]).consensus_encode();
    assert_eq!(r, vec![2, 0, 0, 0]);
    assert!(matches!(SignatureType::consensus_decode(&r), Ok(SignatureType::Regular(_))));
    assert!(matches!(SignatureType::consensus_decode(&vec![0, 0, 1, 0, 5]), Ok(SignatureType::Adaptor(_))));
    assert_eq!(SignatureType::consensus_decode(&vec![3, 0, 0, 0]).err(), Some(Error::UnknownType));
    assert_eq!(SignatureType::consensus_decode(&vec![2]).err(), Some(Error::ParseFailed));
    assert_eq!(SignatureType::consensus_decode(&vec![2, 0, 5, 0, 1]).err(), Some(Error::ParseFailed));
}

#[test]
fn wire_format_matches_strict_encoding() {
    let body = Some("x".to_string());
    let ours = Abort { error_body: body.clone() }.consensus_encode();
    assert_eq!(ours, strict_encoding::strict_serialize(&body).unwrap());
    let none: Option<String> = None;
    assert_eq!(Abort { error_body: None }.consensus_encode(), strict_encoding::strict_serialize(&none).unwrap());
    let back: Option<String> = strict_encoding::strict_deserialize(&ours).unwrap();
    assert_eq!(back, body);

    let m = CommitBobParameters {
        buy: bytes(1, 32),
        cancel: bytes(2, 32),
        refund: bytes(3, 32),
        adaptor: bytes(5, 32),
        spend: bytes(6, 32),
        view: bytes(7, 32),
    };
    let mut expected = Vec::new();
    for f in [&m.buy, &m.cancel, &m.refund, &m.adaptor, &m.spend, &m.view] {
        expected.extend(strict_encoding::strict_serialize(f).unwrap());
    }
    assert_eq!(m.consensus_encode(), expected);
}

#[test]
fn refund_procedure_round_trip() {
    let m = farcaster_swap::protocol::RefundProcedureSignatures { cancel_sig: bytes(1, 71), refund_adaptor_sig: bytes(2, 65) };
    let b = m.consensus_encode();
    assert_eq!(b.len(), 2 + 71 + 2 + 65);
    let d = farcaster_swap::protocol::RefundProcedureSignatures::consensus_decode(&b).unwrap();
    assert_eq!(d.cancel_sig, m.cancel_sig);
    assert_eq!(d.refund_adaptor_sig, m.refund_adaptor_sig);
    assert_eq!(farcaster_swap::protocol::RefundProcedureSignatures::consensus_decode(&b[..10].to_vec()).err(), Some(Error::ParseFailed));
}

#[test]
fn key_type_narrowing() {
    check_key(farcaster_swap::crypto::KeyType::PublicArbitrating(vec![2; 33]), 0);
    check_key(farcaster_swap::crypto::KeyType::PublicAccordant(vec![3; 32]), 1);
    check_key(farcaster_swap::crypto::KeyType::SharedPrivate(vec![4; 32]), 2);
}

fn check_key(k: farcaster_swap::crypto::KeyType, tag: u16) {
    assert_eq!(k.tag(), tag);
    let a = k.clone().try_into_arbitrating_pubkey();
    let b = k.clone().try_into_accordant_pubkey();
    let c = k.try_into_shared_private();
    let oks = [a.is_ok(), b.is_ok(), c.is_ok()];
    assert_eq!(oks.iter().filter(|x| **x).count(), 1);
    assert!(oks[tag as usize]);
    for r in [a, b, c] {
        if let Err(e) = r {
            assert_eq!(e, Error::TypeMismatch);
        }
    }
}
