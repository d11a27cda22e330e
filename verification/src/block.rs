//! Finalized blocks, their headers and hashes, and the quorum certificates and
//! genesis they are verified against.
//!
//! A certificate and a genesis are carried in their encoded form, together
//! with the few values the block store reads from them. Their constructors
//! decode once, so that the values read always agree with the encoding.
use crate::bytes::{append_bytes, bytes_eq};
use crate::crypto::{
    certificate_valid, certified_header, decode_certified_header, decode_genesis, genesis_summary,
    keccak256, keccak256_digest, verify_certificate,
};
use vstd::bytes::{spec_u64_to_le_bytes, u64_to_le_bytes};
use vstd::prelude::*;

verus! {

/// Sequential number of a block.
#[derive(Clone, Copy, Debug, PartialEq, Eq, PartialOrd, Ord, Hash, Structural)]
pub struct BlockNumber(pub u64);

impl BlockNumber {
    /// The number after this one.
    pub fn next(self) -> (r: BlockNumber)
        requires
            self.0 < u64::MAX,
        ensures
            r.0 == self.0 + 1,
    {
        BlockNumber(self.0 + 1)
    }
}

/// Hash of a block header.
#[derive(Debug, PartialEq, Eq, Hash)]
pub struct BlockHash(pub Vec<u8>);

impl View for BlockHash {
    type V = Seq<u8>;

    open spec fn view(&self) -> Seq<u8> {
        self.0@
    }
}

impl Clone for BlockHash {
    fn clone(&self) -> (r: Self)
        ensures
            r@ == self@,
    {
        BlockHash(self.0.clone())
    }
}

/// Hash of a block payload.
#[derive(Debug, PartialEq, Eq, Hash)]
pub struct PayloadHash(pub Vec<u8>);

impl View for PayloadHash {
    type V = Seq<u8>;

    open spec fn view(&self) -> Seq<u8> {
        self.0@
    }
}

impl Clone for PayloadHash {
    fn clone(&self) -> (r: Self)
        ensures
            r@ == self@,
    {
        PayloadHash(self.0.clone())
    }
}

/// Hash of a genesis: the identifier of a network.
#[derive(Debug, PartialEq, Eq, Hash)]
pub struct GenesisHash(pub Vec<u8>);

impl View for GenesisHash {
    type V = Seq<u8>;

    open spec fn view(&self) -> Seq<u8> {
        self.0@
    }
}

impl Clone for GenesisHash {
    fn clone(&self) -> (r: Self)
        ensures
            r@ == self@,
    {
        GenesisHash(self.0.clone())
    }
}

/// Payload of a block. The store does not interpret it.
#[derive(Debug, PartialEq, Eq)]
pub struct Payload(pub Vec<u8>);

impl View for Payload {
    type V = Seq<u8>;

    open spec fn view(&self) -> Seq<u8> {
        self.0@
    }
}

impl Clone for Payload {
    fn clone(&self) -> (r: Self)
        ensures
            r@ == self@,
    {
        Payload(self.0.clone())
    }
}

impl Payload {
    /// Hash of the payload: its Keccak-256 digest.
    pub fn hash(&self) -> (r: PayloadHash)
        ensures
            r@ == keccak256(self@),
    {
        PayloadHash(keccak256_digest(&self.0))
    }
}

/// The view of an optional block hash.
pub open spec fn parent_view(parent: Option<BlockHash>) -> Option<Seq<u8>> {
    match parent {
        Some(hash) => Some(hash@),
        None => None,
    }
}

/// A block header.
#[derive(Debug, PartialEq, Eq)]
pub struct BlockHeader {
    /// Number of the block.
    pub number: BlockNumber,
    /// Hash of the header of the block before it, if this block has one.
    pub parent: Option<BlockHash>,
    /// Hash of the payload of the block.
    pub payload: PayloadHash,
}

/// Mathematical value of a [`BlockHeader`].
pub struct HeaderView {
    pub number: u64,
    pub parent: Option<Seq<u8>>,
    pub payload: Seq<u8>,
}

impl HeaderView {
    /// The bytes a header is hashed over: the number in eight little-endian
    /// bytes, then a zero byte for no parent or a one byte and the parent
    /// hash, then the payload hash.
    pub open spec fn encoding(self) -> Seq<u8> {
        let parent = match self.parent {
            Some(hash) => seq![1u8] + hash,
            None => seq![0u8],
        };
        spec_u64_to_le_bytes(self.number) + parent + self.payload
    }

    /// Hash of the header: the Keccak-256 digest of its encoding.
    pub open spec fn hash(self) -> Seq<u8> {
        keccak256(self.encoding())
    }

    /// What verification answers for a block with this header, given the
    /// hash of its payload and whether its certificate verifies: the payload
    /// hash is held against the header first, then the certificate counts.
    pub open spec fn verdict(self, payload_hash: Seq<u8>, certificate_ok: bool) -> Result<
        (),
        BlockValidationError,
    > {
        if payload_hash != self.payload {
            Err(BlockValidationError::HashMismatch)
        } else if !certificate_ok {
            Err(BlockValidationError::Justification)
        } else {
            Ok(())
        }
    }

    /// Whether a block with this header names a block with the header
    /// `previous` as its parent.
    pub open spec fn follows(self, previous: HeaderView) -> bool {
        self.parent == Some(previous.hash())
    }
}

impl View for BlockHeader {
    type V = HeaderView;

    open spec fn view(&self) -> HeaderView {
        HeaderView {
            number: self.number.0,
            parent: parent_view(self.parent),
            payload: self.payload@,
        }
    }
}

impl Clone for BlockHeader {
    fn clone(&self) -> (r: Self)
        ensures
            r@ == self@,
    {
        let parent = match &self.parent {
            Some(hash) => Some(hash.clone()),
            None => None,
        };
        BlockHeader { number: self.number, parent, payload: self.payload.clone() }
    }
}

impl BlockHeader {
    /// The bytes the header is hashed over.
    pub fn encode(&self) -> (bytes: Vec<u8>)
        ensures
            bytes@ == self@.encoding(),
    {
        let mut bytes = u64_to_le_bytes(self.number.0);
        match &self.parent {
            Some(hash) => {
                bytes.push(1u8);
                append_bytes(&mut bytes, &hash.0);
            },
            None => {
                bytes.push(0u8);
            },
        }
        append_bytes(&mut bytes, &self.payload.0);
        assert(bytes@ =~= self@.encoding());
        bytes
    }

    /// Hash of the header.
    pub fn hash(&self) -> (r: BlockHash)
        ensures
            r@ == self@.hash(),
    {
        BlockHash(keccak256_digest(&self.encode()))
    }

    /// Whether this header names the block with the given hash as its parent.
    pub fn has_parent(&self, hash: &BlockHash) -> (r: bool)
        ensures
            r == (self@.parent == Some(hash@)),
    {
        match &self.parent {
            Some(parent) => bytes_eq(&parent.0, &hash.0),
            None => false,
        }
    }

    /// Whether this header names `previous` as its parent.
    pub fn follows(&self, previous: &BlockHeader) -> (r: bool)
        ensures
            r == self@.follows(previous@),
    {
        self.has_parent(&previous.hash())
    }

    /// The answer of verification for a block with this header, given the
    /// hash of its payload and whether its certificate verifies.
    pub fn verdict(&self, payload_hash: &PayloadHash, certificate_ok: bool) -> (r: Result<
        (),
        BlockValidationError,
    >)
        ensures
            r == self@.verdict(payload_hash@, certificate_ok),
    {
        if !bytes_eq(&payload_hash.0, &self.payload.0) {
            Err(BlockValidationError::HashMismatch)
        } else if !certificate_ok {
            Err(BlockValidationError::Justification)
        } else {
            Ok(())
        }
    }
}

/// Genesis of a network: where its chain starts and who may finalize blocks.
#[derive(Debug, PartialEq, Eq)]
pub struct Genesis {
    first_block: BlockNumber,
    hash: GenesisHash,
    encoded: Vec<u8>,
}

/// Mathematical value of a [`Genesis`].
pub struct GenesisView {
    pub first_block: u64,
    pub hash: Seq<u8>,
    pub encoded: Seq<u8>,
}

impl GenesisView {
    /// The first block and the hash are those that the encoding specifies.
    pub open spec fn wf(self) -> bool {
        genesis_summary(self.encoded) == Some((self.first_block, self.hash))
    }
}

impl View for Genesis {
    type V = GenesisView;

    closed spec fn view(&self) -> GenesisView {
        GenesisView {
            first_block: self.first_block.0,
            hash: self.hash@,
            encoded: self.encoded@,
        }
    }
}

impl Clone for Genesis {
    fn clone(&self) -> (r: Self)
        ensures
            r@ == self@,
    {
        proof {
            use_type_invariant(self);
        }
        Genesis {
            first_block: self.first_block,
            hash: self.hash.clone(),
            encoded: self.encoded.clone(),
        }
    }
}

impl Genesis {
    #[verifier::type_invariant]
    pub open spec fn inv(&self) -> bool {
        self@.wf()
    }

    /// Reads a genesis from its encoding. Fails when the bytes do not decode
    /// to a valid genesis.
    pub fn decode(encoded: Vec<u8>) -> (r: Option<Genesis>)
        ensures
            match r {
                Some(genesis) => genesis@.encoded == encoded@ && genesis@.wf(),
                None => genesis_summary(encoded@) is None,
            },
    {
        match decode_genesis(&encoded) {
            Some((first, hash)) => Some(
                Genesis { first_block: BlockNumber(first), hash: GenesisHash(hash), encoded },
            ),
            None => None,
        }
    }

    /// Number of the first block of the chain.
    pub fn first_block(&self) -> (r: BlockNumber)
        ensures
            r.0 == self@.first_block,
            self@.wf(),
    {
        proof {
            use_type_invariant(self);
        }
        self.first_block
    }

    /// Hash of the genesis.
    pub fn hash(&self) -> (r: GenesisHash)
        ensures
            r@ == self@.hash,
            self@.wf(),
    {
        proof {
            use_type_invariant(self);
        }
        self.hash.clone()
    }

    /// The encoding this genesis was read from.
    pub fn encoded(&self) -> (r: &Vec<u8>)
        ensures
            r@ == self@.encoded,
            self@.wf(),
    {
        proof {
            use_type_invariant(self);
        }
        &self.encoded
    }
}

/// A quorum certificate: the proof that a block header was finalized.
#[derive(Debug, PartialEq, Eq)]
pub struct CommitQC {
    header: BlockHeader,
    encoded: Vec<u8>,
}

/// Mathematical value of a [`CommitQC`].
pub struct CommitQCView {
    pub header: HeaderView,
    pub encoded: Seq<u8>,
}

impl CommitQCView {
    /// The header carries the number and payload hash that the encoding certifies.
    pub open spec fn wf(self) -> bool {
        certified_header(self.encoded) == Some((self.header.number, self.header.payload))
    }

    /// Whether the certificate passes verification against `genesis`.
    pub open spec fn valid(self, genesis: GenesisView) -> bool {
        certificate_valid(self.encoded, genesis.encoded)
    }
}

impl View for CommitQC {
    type V = CommitQCView;

    closed spec fn view(&self) -> CommitQCView {
        CommitQCView { header: self.header@, encoded: self.encoded@ }
    }
}

impl Clone for CommitQC {
    fn clone(&self) -> (r: Self)
        ensures
            r@ == self@,
    {
        proof {
            use_type_invariant(self);
        }
        CommitQC { header: self.header.clone(), encoded: self.encoded.clone() }
    }
}

impl CommitQC {
    #[verifier::type_invariant]
    pub open spec fn inv(&self) -> bool {
        self@.wf()
    }

    /// Reads a certificate from its encoding. The header takes its number and
    /// payload hash from the certificate and its parent from the caller.
    /// Fails when the bytes do not decode to a certificate.
    pub fn new(parent: Option<BlockHash>, encoded: Vec<u8>) -> (r: Option<CommitQC>)
        ensures
            match r {
                Some(qc) => {
                    &&& qc@.encoded == encoded@
                    &&& qc@.header.parent == parent_view(parent)
                    &&& qc@.wf()
                },
                None => certified_header(encoded@) is None,
            },
    {
        match decode_certified_header(&encoded) {
            Some((number, payload)) => {
                let header = BlockHeader {
                    number: BlockNumber(number),
                    parent,
                    payload: PayloadHash(payload),
                };
                Some(CommitQC { header, encoded })
            },
            None => None,
        }
    }

    /// Header of the certified block.
    pub fn header(&self) -> (r: &BlockHeader)
        ensures
            r@ == self@.header,
            self@.wf(),
    {
        proof {
            use_type_invariant(self);
        }
        &self.header
    }

    /// The encoding this certificate was read from.
    pub fn encoded(&self) -> (r: &Vec<u8>)
        ensures
            r@ == self@.encoded,
            self@.wf(),
    {
        proof {
            use_type_invariant(self);
        }
        &self.encoded
    }

    /// Verifies the certificate against the genesis.
    pub fn verify(&self, genesis: &Genesis) -> (ok: bool)
        ensures
            ok == self@.valid(genesis@),
    {
        proof {
            use_type_invariant(self);
        }
        verify_certificate(&self.encoded, genesis.encoded())
    }
}

/// Why a block failed verification.
#[derive(Clone, Copy, Debug, PartialEq, Eq, Structural)]
pub enum BlockValidationError {
    /// The payload does not hash to the payload hash in the header.
    HashMismatch,
    /// The quorum certificate does not verify against the genesis.
    Justification,
}

/// A block that has been finalized by the consensus protocol.
#[derive(Debug, PartialEq, Eq)]
pub struct FinalBlock {
    /// Payload of the block.
    pub payload: Payload,
    /// What guarantees that the block is final.
    pub justification: CommitQC,
}

/// Mathematical value of a [`FinalBlock`].
pub struct BlockView {
    pub payload: Seq<u8>,
    pub justification: CommitQCView,
}

impl BlockView {
    /// Header of the block.
    pub open spec fn header(self) -> HeaderView {
        self.justification.header
    }

    /// Number of the block.
    pub open spec fn number(self) -> u64 {
        self.justification.header.number
    }

    /// What verification against `genesis` answers.
    pub open spec fn verdict(self, genesis: GenesisView) -> Result<(), BlockValidationError> {
        self.header().verdict(keccak256(self.payload), self.justification.valid(genesis))
    }

    /// Whether the block passes verification against `genesis`.
    pub open spec fn valid(self, genesis: GenesisView) -> bool {
        self.verdict(genesis) is Ok
    }
}

impl View for FinalBlock {
    type V = BlockView;

    open spec fn view(&self) -> BlockView {
        BlockView { payload: self.payload@, justification: self.justification@ }
    }
}

impl Clone for FinalBlock {
    fn clone(&self) -> (r: Self)
        ensures
            r@ == self@,
    {
        FinalBlock { payload: self.payload.clone(), justification: self.justification.clone() }
    }
}

impl FinalBlock {
    /// Header of the block.
    pub fn header(&self) -> (r: &BlockHeader)
        ensures
            r@ == self@.header(),
    {
        self.justification.header()
    }

    /// Number of the block.
    pub fn number(&self) -> (r: BlockNumber)
        ensures
            r.0 == self@.number(),
    {
        self.justification.header().number
    }

    /// Verifies the block against the genesis.
    pub fn verify(&self, genesis: &Genesis) -> (r: Result<(), BlockValidationError>)
        ensures
            r == self@.verdict(genesis@),
    {
        let payload_hash = self.payload.hash();
        let certificate_ok = self.justification.verify(genesis);
        self.header().verdict(&payload_hash, certificate_ok)
    }
}

} // verus!
