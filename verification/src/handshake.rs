//! The handshake that two validators perform on a fresh encrypted stream.
//!
//! Each side sends one message: the id of the stream, signed with its
//! validator key, and the hash of its genesis. The side that opened the
//! stream sends first and knows whom it expects. The side that accepted it
//! answers only after the first message has passed every check, and learns
//! the peer's key from it.
//!
//! Sending and receiving are left to the caller, who has the stream and the
//! deadline: each function here takes what was received, or how the transport
//! failed, and says how the handshake goes on.
use crate::block::GenesisHash;
use crate::bytes::bytes_eq;
use crate::crypto::{
    derive_public_key, public_key_of, session_signature, session_signature_valid, sign_session_id,
    verify_session_signature,
};
use vstd::prelude::*;

verus! {

/// Seconds that a handshake may take, from its start to its end.
pub const TIMEOUT_SECONDS: u64 = 5;

/// The id of an authentication session: the encoded id of the stream.
#[derive(Debug, PartialEq, Eq)]
pub struct SessionId(pub Vec<u8>);

impl View for SessionId {
    type V = Seq<u8>;

    open spec fn view(&self) -> Seq<u8> {
        self.0@
    }
}

impl Clone for SessionId {
    fn clone(&self) -> (r: Self)
        ensures
            r@ == self@,
    {
        SessionId(self.0.clone())
    }
}

/// An encoded public key of a validator.
#[derive(Debug, PartialEq, Eq, Hash)]
pub struct PublicKey(pub Vec<u8>);

impl View for PublicKey {
    type V = Seq<u8>;

    open spec fn view(&self) -> Seq<u8> {
        self.0@
    }
}

impl Clone for PublicKey {
    fn clone(&self) -> (r: Self)
        ensures
            r@ == self@,
    {
        PublicKey(self.0.clone())
    }
}

/// An encoded signature of a validator.
#[derive(Debug, PartialEq, Eq, Hash)]
pub struct Signature(pub Vec<u8>);

impl View for Signature {
    type V = Seq<u8>;

    open spec fn view(&self) -> Seq<u8> {
        self.0@
    }
}

impl Clone for Signature {
    fn clone(&self) -> (r: Self)
        ensures
            r@ == self@,
    {
        Signature(self.0.clone())
    }
}

/// A session id with the key that is said to have signed it and the
/// signature. The signature is not known to be valid.
#[derive(Debug, PartialEq, Eq)]
pub struct Signed {
    /// The session id that was signed.
    pub msg: SessionId,
    /// The public key of the signer.
    pub key: PublicKey,
    /// The signature.
    pub sig: Signature,
}

/// Mathematical value of a [`Signed`].
pub struct SignedView {
    pub msg: Seq<u8>,
    pub key: Seq<u8>,
    pub sig: Seq<u8>,
}

impl SignedView {
    /// Whether the signature over the session id verifies against the key.
    pub open spec fn valid(self) -> bool {
        session_signature_valid(self.msg, self.key, self.sig)
    }
}

impl View for Signed {
    type V = SignedView;

    open spec fn view(&self) -> SignedView {
        SignedView { msg: self.msg@, key: self.key@, sig: self.sig@ }
    }
}

impl Clone for Signed {
    fn clone(&self) -> (r: Self)
        ensures
            r@ == self@,
    {
        Signed { msg: self.msg.clone(), key: self.key.clone(), sig: self.sig.clone() }
    }
}

impl Signed {
    /// Verifies the signature on the session id.
    pub fn verify(&self) -> (ok: bool)
        ensures
            ok == self@.valid(),
    {
        verify_session_signature(&self.msg.0, &self.key.0, &self.sig.0)
    }
}

/// A secret key of a validator.
pub struct SecretKey {
    bytes: Vec<u8>,
    public: PublicKey,
}

/// Mathematical value of a [`SecretKey`].
pub struct SecretKeyView {
    pub bytes: Seq<u8>,
    pub public: Seq<u8>,
}

impl SecretKeyView {
    /// The public key is the one that belongs to the secret key.
    pub open spec fn wf(self) -> bool {
        public_key_of(self.bytes) == Some(self.public)
    }

    /// The session id as this key signs it.
    pub open spec fn sign(self, msg: Seq<u8>) -> SignedView {
        SignedView { msg, key: self.public, sig: session_signature(self.bytes, msg) }
    }

    /// The handshake message of the owner of this key.
    pub open spec fn handshake(self, genesis: Seq<u8>, session_id: Seq<u8>) -> HandshakeView {
        HandshakeView { session_id: self.sign(session_id), genesis }
    }
}

impl View for SecretKey {
    type V = SecretKeyView;

    closed spec fn view(&self) -> SecretKeyView {
        SecretKeyView { bytes: self.bytes@, public: self.public@ }
    }
}

impl SecretKey {
    #[verifier::type_invariant]
    pub open spec fn inv(&self) -> bool {
        self@.wf()
    }

    /// Reads a secret key from its encoding. Fails when the bytes do not
    /// decode to a secret key.
    pub fn decode(bytes: Vec<u8>) -> (r: Option<SecretKey>)
        ensures
            match r {
                Some(key) => key@.bytes == bytes@ && key@.wf(),
                None => public_key_of(bytes@) is None,
            },
    {
        match derive_public_key(&bytes) {
            Some(public) => Some(SecretKey { bytes, public: PublicKey(public) }),
            None => None,
        }
    }

    /// Public key that belongs to this secret key.
    pub fn public(&self) -> (r: PublicKey)
        ensures
            r@ == self@.public,
            self@.wf(),
    {
        proof {
            use_type_invariant(self);
        }
        self.public.clone()
    }

    /// Signs a session id.
    pub fn sign_msg(&self, msg: SessionId) -> (r: Signed)
        ensures
            r@ == self@.sign(msg@),
    {
        proof {
            use_type_invariant(self);
        }
        let sig = Signature(sign_session_id(&self.bytes, &msg.0));
        Signed { msg, key: self.public.clone(), sig }
    }
}

/// First message exchanged by validators after establishing encryption.
#[derive(Debug, PartialEq, Eq)]
pub struct Handshake {
    /// Session id signed with the validator key: authenticates the peer as
    /// the owner of that key.
    pub session_id: Signed,
    /// Hash of the genesis. Only nodes with the same genesis belong to the
    /// same network.
    pub genesis: GenesisHash,
}

/// Mathematical value of a [`Handshake`].
pub struct HandshakeView {
    pub session_id: SignedView,
    pub genesis: Seq<u8>,
}

/// Why a handshake failed.
#[derive(Debug, PartialEq, Eq)]
pub enum Error {
    /// The peer has another genesis.
    GenesisMismatch,
    /// The peer signed another session id.
    SessionIdMismatch,
    /// The peer is not the validator that was expected.
    PeerMismatch,
    /// The peer's signature does not verify.
    Signature,
    /// The stream failed, or the deadline passed.
    Stream(String),
}

impl HandshakeView {
    /// The message as it is written for the wire: both fields present.
    pub open spec fn build(self) -> ProtoView {
        ProtoView { session_id: Some(self.session_id), genesis: Some(self.genesis) }
    }

    /// What the side that opened the stream, expecting `peer`, answers to
    /// this message of the other side, given whether its signature verifies:
    /// genesis, session id and key are held against what is expected, in
    /// that order, and the signature counts last.
    pub open spec fn outbound_decision(
        self,
        genesis: Seq<u8>,
        session_id: Seq<u8>,
        peer: Seq<u8>,
        signature_ok: bool,
    ) -> Result<(), Error> {
        if self.genesis != genesis {
            Err(Error::GenesisMismatch)
        } else if self.session_id.msg != session_id {
            Err(Error::SessionIdMismatch)
        } else if self.session_id.key != peer {
            Err(Error::PeerMismatch)
        } else if !signature_ok {
            Err(Error::Signature)
        } else {
            Ok(())
        }
    }

    /// What the side that accepted the stream answers to this message of the
    /// other side, given whether its signature verifies: genesis and session
    /// id are held against what is expected, in that order, and the
    /// signature counts last. A message that passes gives the key of the
    /// peer.
    pub open spec fn inbound_decision(
        self,
        genesis: Seq<u8>,
        session_id: Seq<u8>,
        signature_ok: bool,
    ) -> Result<Seq<u8>, Error> {
        if self.genesis != genesis {
            Err(Error::GenesisMismatch)
        } else if self.session_id.msg != session_id {
            Err(Error::SessionIdMismatch)
        } else if !signature_ok {
            Err(Error::Signature)
        } else {
            Ok(self.session_id.key)
        }
    }

    /// What the side that opened the stream, expecting `peer`, answers to
    /// this message of the other side.
    pub open spec fn outbound_verdict(
        self,
        genesis: Seq<u8>,
        session_id: Seq<u8>,
        peer: Seq<u8>,
    ) -> Result<(), Error> {
        self.outbound_decision(genesis, session_id, peer, self.session_id.valid())
    }

    /// What the side that accepted the stream answers to this message of the
    /// other side.
    pub open spec fn inbound_verdict(self, genesis: Seq<u8>, session_id: Seq<u8>) -> Result<
        Seq<u8>,
        Error,
    > {
        self.inbound_decision(genesis, session_id, self.session_id.valid())
    }
}

impl View for Handshake {
    type V = HandshakeView;

    open spec fn view(&self) -> HandshakeView {
        HandshakeView { session_id: self.session_id@, genesis: self.genesis@ }
    }
}

impl Clone for Handshake {
    fn clone(&self) -> (r: Self)
        ensures
            r@ == self@,
    {
        Handshake { session_id: self.session_id.clone(), genesis: self.genesis.clone() }
    }
}

/// A handshake message as it comes off the wire: either field may be absent.
#[derive(Debug, PartialEq, Eq)]
pub struct HandshakeProto {
    pub session_id: Option<Signed>,
    pub genesis: Option<GenesisHash>,
}

/// Mathematical value of a [`HandshakeProto`].
pub struct ProtoView {
    pub session_id: Option<SignedView>,
    pub genesis: Option<Seq<u8>>,
}

impl ProtoView {
    /// What reading the message gives: both fields are required, and of two
    /// absent fields the session id is reported.
    pub open spec fn read(self) -> Result<HandshakeView, MissingField> {
        match (self.session_id, self.genesis) {
            (None, _) => Err(MissingField::SessionId),
            (Some(_), None) => Err(MissingField::Genesis),
            (Some(session_id), Some(genesis)) => Ok(HandshakeView { session_id, genesis }),
        }
    }
}

impl View for HandshakeProto {
    type V = ProtoView;

    open spec fn view(&self) -> ProtoView {
        ProtoView {
            session_id: match self.session_id {
                Some(signed) => Some(signed@),
                None => None,
            },
            genesis: match self.genesis {
                Some(hash) => Some(hash@),
                None => None,
            },
        }
    }
}

/// The field that a message off the wire lacks.
#[derive(Clone, Copy, Debug, PartialEq, Eq, Structural)]
pub enum MissingField {
    SessionId,
    Genesis,
}

impl Handshake {
    /// The handshake message of the owner of `me` on the stream with the
    /// given id, in the network with the given genesis.
    pub fn new(me: &SecretKey, genesis: GenesisHash, session_id: SessionId) -> (r: Handshake)
        ensures
            r@ == me@.handshake(genesis@, session_id@),
    {
        Handshake { session_id: me.sign_msg(session_id), genesis }
    }

    /// Reads a message off the wire. Both fields are required; of two absent
    /// fields the session id is reported.
    pub fn read(r: &HandshakeProto) -> (h: Result<Handshake, MissingField>)
        ensures
            match r@.read() {
                Ok(v) => h is Ok && h->Ok_0@ == v,
                Err(e) => h == Err::<Handshake, MissingField>(e),
            },
    {
        let session_id = match &r.session_id {
            Some(signed) => signed.clone(),
            None => {
                return Err(MissingField::SessionId);
            },
        };
        let genesis = match &r.genesis {
            Some(hash) => hash.clone(),
            None => {
                return Err(MissingField::Genesis);
            },
        };
        Ok(Handshake { session_id, genesis })
    }

    /// Writes the message for the wire, with both fields present.
    pub fn build(&self) -> (r: HandshakeProto)
        ensures
            r@ == self@.build(),
    {
        HandshakeProto {
            session_id: Some(self.session_id.clone()),
            genesis: Some(self.genesis.clone()),
        }
    }

    /// Decides on the message of the peer on the side that opened the
    /// stream, given whether the signature of the message verifies.
    pub fn decide_outbound(
        &self,
        genesis: &GenesisHash,
        session_id: &SessionId,
        peer: &PublicKey,
        signature_ok: bool,
    ) -> (r: Result<(), Error>)
        ensures
            r == self@.outbound_decision(genesis@, session_id@, peer@, signature_ok),
    {
        if !bytes_eq(&self.genesis.0, &genesis.0) {
            Err(Error::GenesisMismatch)
        } else if !bytes_eq(&self.session_id.msg.0, &session_id.0) {
            Err(Error::SessionIdMismatch)
        } else if !bytes_eq(&self.session_id.key.0, &peer.0) {
            Err(Error::PeerMismatch)
        } else if !signature_ok {
            Err(Error::Signature)
        } else {
            Ok(())
        }
    }

    /// Decides on the message of the peer on the side that accepted the
    /// stream, given whether the signature of the message verifies.
    pub fn decide_inbound(
        &self,
        genesis: &GenesisHash,
        session_id: &SessionId,
        signature_ok: bool,
    ) -> (r: Result<PublicKey, Error>)
        ensures
            match self@.inbound_decision(genesis@, session_id@, signature_ok) {
                Ok(key) => r is Ok && r->Ok_0@ == key,
                Err(e) => r == Err::<PublicKey, Error>(e),
            },
    {
        if !bytes_eq(&self.genesis.0, &genesis.0) {
            Err(Error::GenesisMismatch)
        } else if !bytes_eq(&self.session_id.msg.0, &session_id.0) {
            Err(Error::SessionIdMismatch)
        } else if !signature_ok {
            Err(Error::Signature)
        } else {
            Ok(self.session_id.key.clone())
        }
    }

    /// Checks the message of the peer on the side that opened the stream.
    pub fn check_outbound(
        &self,
        genesis: &GenesisHash,
        session_id: &SessionId,
        peer: &PublicKey,
    ) -> (r: Result<(), Error>)
        ensures
            r == self@.outbound_verdict(genesis@, session_id@, peer@),
    {
        self.decide_outbound(genesis, session_id, peer, self.session_id.verify())
    }

    /// Checks the message of the peer on the side that accepted the stream.
    pub fn check_inbound(&self, genesis: &GenesisHash, session_id: &SessionId) -> (r: Result<
        PublicKey,
        Error,
    >)
        ensures
            match self@.inbound_verdict(genesis@, session_id@) {
                Ok(key) => r is Ok && r->Ok_0@ == key,
                Err(e) => r == Err::<PublicKey, Error>(e),
            },
    {
        self.decide_inbound(genesis, session_id, self.session_id.verify())
    }
}

/// A handshake on a stream that we opened: our message is to be sent, the
/// peer's message is awaited.
#[derive(Debug)]
pub struct Outbound {
    request: Handshake,
    peer: PublicKey,
}

/// Mathematical value of an [`Outbound`].
pub struct OutboundView {
    pub request: HandshakeView,
    pub peer: Seq<u8>,
}

impl View for Outbound {
    type V = OutboundView;

    closed spec fn view(&self) -> OutboundView {
        OutboundView { request: self.request@, peer: self.peer@ }
    }
}

/// Starts the handshake on a stream that we opened to the validator `peer`.
/// The message to send first is [`Outbound::request`].
pub fn outbound(me: &SecretKey, genesis: GenesisHash, session_id: SessionId, peer: PublicKey) -> (r:
    Outbound)
    ensures
        r@.request == me@.handshake(genesis@, session_id@),
        r@.peer == peer@,
{
    Outbound { request: Handshake::new(me, genesis, session_id), peer }
}

impl Outbound {
    /// Our message, to be sent before the peer's message is received.
    pub fn request(&self) -> (r: &Handshake)
        ensures
            r@ == self@.request,
    {
        &self.request
    }

    /// Ends the handshake with the peer's message, or with the failure of the
    /// stream while sending or receiving. The peer must have our genesis, have
    /// signed the id of this stream, be the validator we expect, and its
    /// signature must verify: the first of these that fails is the error.
    pub fn finish(self, reply: Result<Handshake, String>) -> (r: Result<(), Error>)
        ensures
            r == match reply {
                Ok(h) => h@.outbound_verdict(
                    self@.request.genesis,
                    self@.request.session_id.msg,
                    self@.peer,
                ),
                Err(e) => Err(Error::Stream(e)),
            },
    {
        match reply {
            Ok(h) => h.check_outbound(&self.request.genesis, &self.request.session_id.msg, &self.peer),
            Err(e) => Err(Error::Stream(e)),
        }
    }
}

/// A handshake on a stream that we accepted, after the peer's message has
/// passed: our message is to be sent.
#[derive(Debug)]
pub struct Inbound {
    reply: Handshake,
    peer: PublicKey,
}

/// Mathematical value of an [`Inbound`].
pub struct InboundView {
    pub reply: HandshakeView,
    pub peer: Seq<u8>,
}

impl View for Inbound {
    type V = InboundView;

    closed spec fn view(&self) -> InboundView {
        InboundView { reply: self.reply@, peer: self.peer@ }
    }
}

/// Goes on with the handshake on a stream that we accepted, once the peer's
/// message was received or the stream failed. The peer must have our genesis
/// and have signed the id of this stream, and its signature must verify: the
/// first of these that fails is the error. The message to send back is
/// [`Inbound::reply`].
pub fn inbound(
    me: &SecretKey,
    genesis: GenesisHash,
    session_id: SessionId,
    request: Result<Handshake, String>,
) -> (r: Result<Inbound, Error>)
    ensures
        match request {
            Ok(h) => match h@.inbound_verdict(genesis@, session_id@) {
                Ok(key) => r is Ok && r->Ok_0@ == (InboundView {
                    reply: me@.handshake(genesis@, session_id@),
                    peer: key,
                }),
                Err(e) => r == Err::<Inbound, Error>(e),
            },
            Err(e) => r == Err::<Inbound, Error>(Error::Stream(e)),
        },
{
    match request {
        Ok(h) => match h.check_inbound(&genesis, &session_id) {
            Ok(peer) => Ok(Inbound { reply: Handshake::new(me, genesis, session_id), peer }),
            Err(e) => Err(e),
        },
        Err(e) => Err(Error::Stream(e)),
    }
}

impl Inbound {
    /// Our message, to be sent back to the peer.
    pub fn reply(&self) -> (r: &Handshake)
        ensures
            r@ == self@.reply,
    {
        &self.reply
    }

    /// Ends the handshake once our message was sent, or the stream failed
    /// while sending: the key of the authenticated peer, or the failure.
    pub fn finish(self, sent: Result<(), String>) -> (r: Result<PublicKey, Error>)
        ensures
            match sent {
                Ok(_) => r is Ok && r->Ok_0@ == self@.peer,
                Err(e) => r == Err::<PublicKey, Error>(Error::Stream(e)),
            },
    {
        match sent {
            Ok(_) => Ok(self.peer),
            Err(e) => Err(Error::Stream(e)),
        }
    }
}

/// Whether a handshake between two validators on one stream succeeds on both
/// sides, with no failure of the stream: `a` opens the stream and expects the
/// validator `peer`, `b` accepts it.
pub open spec fn handshake_succeeds(
    a: SecretKeyView,
    genesis_a: Seq<u8>,
    b: SecretKeyView,
    genesis_b: Seq<u8>,
    session_id: Seq<u8>,
    peer: Seq<u8>,
) -> bool {
    &&& a.handshake(genesis_a, session_id).inbound_verdict(genesis_b, session_id) is Ok
    &&& b.handshake(genesis_b, session_id).outbound_verdict(genesis_a, session_id, peer) is Ok
}

/// A handshake succeeds on both sides exactly when both have the same
/// genesis, the signatures of both verify, and the accepting side signs with
/// the key that the opening side expects. The accepting side then learns the
/// key of the opening side.
pub proof fn lemma_handshake_symmetry(
    a: SecretKeyView,
    genesis_a: Seq<u8>,
    b: SecretKeyView,
    genesis_b: Seq<u8>,
    session_id: Seq<u8>,
    peer: Seq<u8>,
)
    ensures
        handshake_succeeds(a, genesis_a, b, genesis_b, session_id, peer) <==> {
            &&& genesis_a == genesis_b
            &&& a.sign(session_id).valid()
            &&& b.sign(session_id).valid()
            &&& b.public == peer
        },
        handshake_succeeds(a, genesis_a, b, genesis_b, session_id, peer) ==> a.handshake(
            genesis_a,
            session_id,
        ).inbound_verdict(genesis_b, session_id) == Ok::<Seq<u8>, Error>(a.public),
{
}

/// A message from a network with another genesis is refused on either side
/// with `GenesisMismatch`, whatever else it holds.
pub proof fn lemma_genesis_isolation(
    h: HandshakeView,
    genesis: Seq<u8>,
    session_id: Seq<u8>,
    peer: Seq<u8>,
)
    requires
        h.genesis != genesis,
    ensures
        h.inbound_verdict(genesis, session_id) == Err::<Seq<u8>, Error>(Error::GenesisMismatch),
        h.outbound_verdict(genesis, session_id, peer) == Err::<(), Error>(Error::GenesisMismatch),
{
}

/// A signed session id taken from another session is refused on either side:
/// with `SessionIdMismatch` when the genesis agrees.
pub proof fn lemma_replay_is_refused(
    h: HandshakeView,
    genesis: Seq<u8>,
    session_id: Seq<u8>,
    peer: Seq<u8>,
)
    requires
        h.session_id.msg != session_id,
    ensures
        h.inbound_verdict(genesis, session_id) is Err,
        h.outbound_verdict(genesis, session_id, peer) is Err,
        h.genesis == genesis ==> h.inbound_verdict(genesis, session_id) == Err::<Seq<u8>, Error>(
            Error::SessionIdMismatch,
        ),
        h.genesis == genesis ==> h.outbound_verdict(genesis, session_id, peer) == Err::<(), Error>(
            Error::SessionIdMismatch,
        ),
{
}

/// On the side that opened the stream, a message of this network and this
/// session that carries another key than the expected one is refused with
/// `PeerMismatch`, whether or not its signature verifies.
pub proof fn lemma_peer_binding(
    h: HandshakeView,
    genesis: Seq<u8>,
    session_id: Seq<u8>,
    peer: Seq<u8>,
)
    requires
        h.genesis == genesis,
        h.session_id.msg == session_id,
        h.session_id.key != peer,
    ensures
        h.outbound_verdict(genesis, session_id, peer) == Err::<(), Error>(Error::PeerMismatch),
{
}

/// Reading what `build` wrote gives the message back.
pub proof fn lemma_read_build(h: HandshakeView)
    ensures
        h.build().read() == Ok::<HandshakeView, MissingField>(h),
{
}

} // verus!
