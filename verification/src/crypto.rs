//! The calls this library makes into the consensus crates.
//!
//! Hashing, BLS signatures and quorum certificates are not verified here. Each
//! function below makes one such call on plain bytes, and its contract is
//! believed, not proved. What a call returns is given a name, so that the rest
//! of the library can speak about it exactly.
use vstd::prelude::*;
use zksync_consensus_crypto::keccak256::Keccak256;
use zksync_consensus_crypto::ByteFmt;
use zksync_consensus_roles::node;
use zksync_consensus_roles::validator;
use zksync_protobuf::ProtoFmt;

verus! {

/// The Keccak-256 digest of `data`.
pub uninterp spec fn keccak256(data: Seq<u8>) -> Seq<u8>;

/// What an encoded quorum certificate certifies: the number and the payload hash
/// of its block header. `None` when the bytes are no encoding of a certificate.
pub uninterp spec fn certified_header(proof: Seq<u8>) -> Option<(u64, Seq<u8>)>;

/// What an encoded genesis specifies: its first block and its hash.
/// `None` when the bytes are no encoding of a valid genesis.
pub uninterp spec fn genesis_summary(encoded: Seq<u8>) -> Option<(u64, Seq<u8>)>;

/// Whether the quorum certificate encoded by `proof` passes verification
/// against the genesis encoded by `genesis`.
pub uninterp spec fn certificate_valid(proof: Seq<u8>, genesis: Seq<u8>) -> bool;

/// The encoded public key that belongs to an encoded validator secret key.
/// `None` when the bytes are no encoding of a secret key.
pub uninterp spec fn public_key_of(secret: Seq<u8>) -> Option<Seq<u8>>;

/// The encoded signature of the secret key `secret` over the session id.
pub uninterp spec fn session_signature(secret: Seq<u8>, session_id: Seq<u8>) -> Seq<u8>;

/// Whether `key` and `sig` encode a validator public key and a signature, and
/// the signature over the session id verifies against the key.
pub uninterp spec fn session_signature_valid(
    session_id: Seq<u8>,
    key: Seq<u8>,
    sig: Seq<u8>,
) -> bool;

/// Calls `Keccak256::new` of `zksync_consensus_crypto`. Claimed: the bytes
/// returned are the digest of `data`, the same for the same input.
#[verifier::external_body]
pub(crate) fn keccak256_digest(data: &Vec<u8>) -> (digest: Vec<u8>)
    ensures
        digest@ == keccak256(data@),
{
    Keccak256::new(data).as_bytes().to_vec()
}

/// Calls `zksync_protobuf::decode` for a `validator::CommitQC` and reads the
/// header of the decoded certificate. Claimed: whether decoding succeeds, and
/// the number and payload hash read, depend on the bytes alone.
#[verifier::external_body]
pub(crate) fn decode_certified_header(proof: &Vec<u8>) -> (r: Option<(u64, Vec<u8>)>)
    ensures
        match r {
            Some((number, payload)) => certified_header(proof@) == Some((number, payload@)),
            None => certified_header(proof@) is None,
        },
{
    let qc: validator::CommitQC = zksync_protobuf::decode(proof).ok()?;
    let payload = qc.header().payload.build().keccak256?;
    Some((qc.header().number.0, payload))
}

/// Calls `zksync_protobuf::decode` for a `validator::Genesis` and reads its
/// first block and its hash. Claimed: whether decoding succeeds, and the two
/// values read, depend on the bytes alone.
#[verifier::external_body]
pub(crate) fn decode_genesis(encoded: &Vec<u8>) -> (r: Option<(u64, Vec<u8>)>)
    ensures
        match r {
            Some((first, hash)) => genesis_summary(encoded@) == Some((first, hash@)),
            None => genesis_summary(encoded@) is None,
        },
{
    let genesis: validator::Genesis = zksync_protobuf::decode(encoded).ok()?;
    let hash = genesis.hash().build().keccak256?;
    Some((genesis.first_block.0, hash))
}

/// Calls `validator::CommitQC::verify` on the decoded certificate and genesis.
/// Both must decode. Claimed: the outcome depends on the two encodings alone.
#[verifier::external_body]
pub(crate) fn verify_certificate(proof: &Vec<u8>, genesis: &Vec<u8>) -> (ok: bool)
    requires
        certified_header(proof@) is Some,
        genesis_summary(genesis@) is Some,
    ensures
        ok == certificate_valid(proof@, genesis@),
{
    let qc: validator::CommitQC = zksync_protobuf::decode(proof).unwrap();
    let genesis: validator::Genesis = zksync_protobuf::decode(genesis).unwrap();
    qc.verify(&genesis).is_ok()
}

/// Decodes a `validator::SecretKey` and calls its `public`. Claimed: whether
/// the bytes decode, and the encoded public key, depend on the bytes alone.
#[verifier::external_body]
pub(crate) fn derive_public_key(secret: &Vec<u8>) -> (r: Option<Vec<u8>>)
    ensures
        match r {
            Some(key) => public_key_of(secret@) == Some(key@),
            None => public_key_of(secret@) is None,
        },
{
    let key = validator::SecretKey::decode(secret).ok()?;
    Some(key.public().encode())
}

/// Calls `validator::SecretKey::sign_msg` on a `node::SessionId`. The secret
/// key must decode. Claimed: the encoded signature depends on the key and the
/// session id alone.
#[verifier::external_body]
pub(crate) fn sign_session_id(secret: &Vec<u8>, session_id: &Vec<u8>) -> (sig: Vec<u8>)
    requires
        public_key_of(secret@) is Some,
    ensures
        sig@ == session_signature(secret@, session_id@),
{
    let key = validator::SecretKey::decode(secret).unwrap();
    key.sign_msg(node::SessionId(session_id.clone())).sig.encode()
}

/// Calls `validator::Signed::verify` on a signed `node::SessionId`. Claimed:
/// the answer is `true` exactly when key and signature decode and the
/// signature verifies, and depends on the three byte strings alone.
#[verifier::external_body]
pub(crate) fn verify_session_signature(
    session_id: &Vec<u8>,
    key: &Vec<u8>,
    sig: &Vec<u8>,
) -> (ok: bool)
    ensures
        ok == session_signature_valid(session_id@, key@, sig@),
{
    let Ok(key) = validator::PublicKey::decode(key) else { return false; };
    let Ok(sig) = validator::Signature::decode(sig) else { return false; };
    let msg = node::SessionId(session_id.clone());
    validator::Signed { msg, key, sig }.verify().is_ok()
}

} // verus!
