use consensus_node::block::GenesisHash;
use consensus_node::handshake::{
    inbound, outbound, Error, Handshake, HandshakeProto, MissingField, PublicKey, SecretKey,
    SessionId, Signature, Signed, TIMEOUT_SECONDS,
};
use rand::rngs::StdRng;
use rand::{Rng, SeedableRng};
use zksync_consensus_crypto::ByteFmt;
use zksync_consensus_roles::{node, validator};

/// A fresh validator key, as the outside crate has it and as the library
/// has it.
fn key(seed: u64) -> (validator::SecretKey, SecretKey) {
    let outside: validator::SecretKey = StdRng::seed_from_u64(seed).gen();
    let ours = SecretKey::decode(outside.encode()).unwrap();
    (outside, ours)
}

fn genesis(byte: u8) -> GenesisHash {
    GenesisHash(vec![byte; 32])
}

fn session() -> SessionId {
    SessionId(vec![0x42])
}

#[test]
fn handshake_happy_path() {
    let (ka_outside, ka) = key(1);
    let (kb_outside, kb) = key(2);
    let a = outbound(&ka, genesis(1), session(), kb.public());
    let b = inbound(&kb, genesis(1), session(), Ok(a.request().clone())).unwrap();
    let reply = b.reply().clone();
    assert_eq!(b.finish(Ok(())), Ok(ka.public()));
    assert_eq!(a.finish(Ok(reply)), Ok(()));
    assert_eq!(ka.public(), PublicKey(ka_outside.public().encode()));
    assert_eq!(kb.public(), PublicKey(kb_outside.public().encode()));
}

#[test]
fn handshake_genesis_mismatch() {
    let (_, ka) = key(1);
    let (_, kb) = key(2);
    let a = outbound(&ka, genesis(1), session(), kb.public());
    let b = inbound(&kb, genesis(2), session(), Ok(a.request().clone()));
    assert_eq!(b.err(), Some(Error::GenesisMismatch));
    // Had the other side answered all the same, we would have refused it too.
    let reply = Handshake::new(&kb, genesis(2), session());
    assert_eq!(a.finish(Ok(reply)), Err(Error::GenesisMismatch));
    // As it closed the stream instead, we see the stream fail.
    let a = outbound(&ka, genesis(1), session(), kb.public());
    assert_eq!(
        a.finish(Err("closed".to_string())),
        Err(Error::Stream("closed".to_string()))
    );
}

#[test]
fn handshake_session_id_mismatch() {
    let (_, ka) = key(1);
    let (_, kb) = key(2);
    let recorded = Handshake::new(&ka, genesis(1), SessionId(vec![0x41]));
    let b = inbound(&kb, genesis(1), session(), Ok(recorded.clone()));
    assert_eq!(b.err(), Some(Error::SessionIdMismatch));
    let a = outbound(&kb, genesis(1), session(), ka.public());
    assert_eq!(a.finish(Ok(recorded)), Err(Error::SessionIdMismatch));
}

#[test]
fn handshake_peer_mismatch() {
    let (_, ka) = key(1);
    let (_, kb) = key(2);
    let (_, kc) = key(3);
    let a = outbound(&ka, genesis(1), session(), kb.public());
    let reply = Handshake::new(&kc, genesis(1), session());
    assert_eq!(a.finish(Ok(reply)), Err(Error::PeerMismatch));
}

#[test]
fn handshake_bad_signature() {
    let (_, ka) = key(1);
    let (_, kb) = key(2);
    // The signature of another key under the expected key.
    let mut forged = Handshake::new(&kb, genesis(1), session());
    forged.session_id.key = ka.public();
    let b = inbound(&kb, genesis(1), session(), Ok(forged.clone()));
    assert_eq!(b.err(), Some(Error::Signature));
    let a = outbound(&kb, genesis(1), session(), ka.public());
    assert_eq!(a.finish(Ok(forged)), Err(Error::Signature));
    // Bytes that are no signature, and bytes that are no key.
    let mut garbled = Handshake::new(&ka, genesis(1), session());
    garbled.session_id.sig = Signature(vec![1, 2, 3]);
    assert_eq!(
        garbled.check_inbound(&genesis(1), &session()),
        Err(Error::Signature)
    );
    let mut garbled = Handshake::new(&ka, genesis(1), session());
    garbled.session_id.key = PublicKey(vec![]);
    assert_eq!(
        garbled.check_inbound(&genesis(1), &session()),
        Err(Error::Signature)
    );
}

#[test]
fn checks_come_in_order() {
    let (_, ka) = key(1);
    let (_, kb) = key(2);
    let mut h = Handshake::new(&ka, genesis(1), SessionId(vec![0x41]));
    h.session_id.sig = Signature(vec![0]);
    // Everything is wrong: the genesis is reported.
    assert_eq!(
        h.check_outbound(&genesis(2), &session(), &kb.public()),
        Err(Error::GenesisMismatch)
    );
    assert_eq!(
        h.check_inbound(&genesis(2), &session()),
        Err(Error::GenesisMismatch)
    );
    // Then the session id.
    assert_eq!(
        h.check_outbound(&genesis(1), &session(), &kb.public()),
        Err(Error::SessionIdMismatch)
    );
    assert_eq!(
        h.check_inbound(&genesis(1), &session()),
        Err(Error::SessionIdMismatch)
    );
    // Then the peer, before the signature.
    assert_eq!(
        h.check_outbound(&genesis(1), &SessionId(vec![0x41]), &kb.public()),
        Err(Error::PeerMismatch)
    );
    assert_eq!(
        h.check_outbound(&genesis(1), &SessionId(vec![0x41]), &ka.public()),
        Err(Error::Signature)
    );
    assert_eq!(
        h.check_inbound(&genesis(1), &SessionId(vec![0x41])),
        Err(Error::Signature)
    );
}

#[test]
fn decisions_given_the_signature() {
    let h = Handshake {
        session_id: Signed {
            msg: SessionId(vec![0x42]),
            key: PublicKey(vec![7, 7]),
            sig: Signature(vec![8, 8]),
        },
        genesis: genesis(1),
    };
    let key = PublicKey(vec![7, 7]);
    let other = PublicKey(vec![7, 8]);
    assert_eq!(h.decide_outbound(&genesis(1), &session(), &key, true), Ok(()));
    assert_eq!(
        h.decide_outbound(&genesis(1), &session(), &key, false),
        Err(Error::Signature)
    );
    assert_eq!(
        h.decide_outbound(&genesis(1), &session(), &other, true),
        Err(Error::PeerMismatch)
    );
    assert_eq!(
        h.decide_outbound(&genesis(1), &SessionId(vec![]), &key, true),
        Err(Error::SessionIdMismatch)
    );
    assert_eq!(
        h.decide_outbound(&genesis(2), &session(), &key, true),
        Err(Error::GenesisMismatch)
    );
    assert_eq!(
        h.decide_inbound(&genesis(1), &session(), true),
        Ok(key.clone())
    );
    assert_eq!(
        h.decide_inbound(&genesis(1), &session(), false),
        Err(Error::Signature)
    );
    assert_eq!(
        h.decide_inbound(&genesis(1), &SessionId(vec![0x42, 0]), true),
        Err(Error::SessionIdMismatch)
    );
    assert_eq!(
        h.decide_inbound(&genesis(2), &SessionId(vec![0x42, 0]), false),
        Err(Error::GenesisMismatch)
    );
}

#[test]
fn stream_failures() {
    let (_, ka) = key(1);
    let (_, kb) = key(2);
    let b = inbound(&kb, genesis(1), session(), Err("timeout".to_string()));
    assert_eq!(b.err(), Some(Error::Stream("timeout".to_string())));
    let request = Handshake::new(&ka, genesis(1), session());
    let b = inbound(&kb, genesis(1), session(), Ok(request)).unwrap();
    assert_eq!(
        b.finish(Err("broken pipe".to_string())),
        Err(Error::Stream("broken pipe".to_string()))
    );
}

#[test]
fn our_message_is_signed_as_the_validator_crate_signs() {
    let (outside, ours) = key(4);
    let signed = outside.sign_msg(node::SessionId(vec![0x42]));
    let h = Handshake::new(&ours, genesis(3), session());
    assert_eq!(
        h,
        Handshake {
            session_id: Signed {
                msg: session(),
                key: PublicKey(signed.key.encode()),
                sig: Signature(signed.sig.encode()),
            },
            genesis: genesis(3),
        }
    );
    assert!(h.session_id.verify());
    assert_eq!(ours.sign_msg(session()), h.session_id);
    let a = outbound(&ours, genesis(3), session(), PublicKey(vec![]));
    assert_eq!(a.request(), &h);
    // Another session gives another signature, which does not pass here.
    let other = ours.sign_msg(SessionId(vec![0x43]));
    assert_ne!(other.sig, h.session_id.sig);
    let replayed = Signed {
        msg: session(),
        key: other.key,
        sig: other.sig,
    };
    assert!(!replayed.verify());
}

#[test]
fn secret_key_decoding() {
    let (outside, ours) = key(5);
    assert_eq!(ours.public().0, outside.public().encode());
    assert!(SecretKey::decode(vec![]).is_none());
    assert!(SecretKey::decode(vec![0xFF; 32]).is_none());
    assert!(SecretKey::decode(vec![1, 2, 3]).is_none());
}

#[test]
fn wire_format_requires_both_fields() {
    let (_, ka) = key(1);
    let h = Handshake::new(&ka, genesis(1), session());
    let proto = h.build();
    assert_eq!(
        proto,
        HandshakeProto {
            session_id: Some(h.session_id.clone()),
            genesis: Some(genesis(1)),
        }
    );
    assert_eq!(Handshake::read(&proto), Ok(h.clone()));
    let no_genesis = HandshakeProto {
        session_id: Some(h.session_id.clone()),
        genesis: None,
    };
    assert_eq!(Handshake::read(&no_genesis), Err(MissingField::Genesis));
    let no_session = HandshakeProto {
        session_id: None,
        genesis: Some(genesis(1)),
    };
    assert_eq!(Handshake::read(&no_session), Err(MissingField::SessionId));
    let nothing = HandshakeProto {
        session_id: None,
        genesis: None,
    };
    assert_eq!(Handshake::read(&nothing), Err(MissingField::SessionId));
}

#[test]
fn deadline_is_five_seconds() {
    assert_eq!(TIMEOUT_SECONDS, 5);
}
