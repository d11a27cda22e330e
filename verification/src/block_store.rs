//! The store of finalized blocks: a queue of accepted blocks in front of a
//! persistent store, and the two frontiers that observers wait on.
//!
//! The store here is the state and its transitions. Reading and writing the
//! persistent store, waiting and notifying are left to the caller: each
//! function takes what the caller has read and says what to do next.
use crate::block::{
    BlockNumber, BlockValidationError, BlockView, CommitQC, CommitQCView, FinalBlock, Genesis,
    GenesisView, HeaderView,
};
use std::collections::VecDeque;
use vstd::prelude::*;

verus! {

/// State of the store: a contiguous range of blocks.
#[derive(Debug, PartialEq, Eq)]
pub struct BlockStoreState {
    /// Stored block with the lowest number.
    pub first: BlockNumber,
    /// Certificate of the stored block with the highest number.
    /// `None` iff the store is empty.
    pub last: Option<CommitQC>,
}

/// A contiguous range of block numbers: from `first` to `last`, or empty.
#[derive(Clone, Copy, Debug, PartialEq, Eq)]
pub struct BlockRange {
    /// The lowest number of the range.
    pub first: BlockNumber,
    /// The highest number of the range. `None` iff the range is empty.
    pub last: Option<BlockNumber>,
}

/// Where a block number stands relative to the end of a range.
#[derive(Clone, Copy, Debug, PartialEq, Eq, Structural)]
pub enum Position {
    /// Beyond the next number: numbers before it are missing.
    Pending,
    /// Below the next number.
    Duplicate,
    /// The next number.
    Next,
}

impl BlockRange {
    /// Whether the range holds `number`.
    pub open spec fn holds(self, number: u64) -> bool {
        match self.last {
            Some(last) => self.first.0 <= number <= last.0,
            None => false,
        }
    }

    /// The number after the range: the number after `last`, or `first`.
    pub open spec fn end(self) -> int {
        match self.last {
            Some(last) => last.0 + 1,
            None => self.first.0 as int,
        }
    }

    /// Where `number` stands relative to the end of the range.
    pub open spec fn place(self, number: u64) -> Position {
        if self.end() < number {
            Position::Pending
        } else if self.end() > number {
            Position::Duplicate
        } else {
            Position::Next
        }
    }

    /// Checks whether the range holds `number`.
    pub fn contains(&self, number: BlockNumber) -> (r: bool)
        ensures
            r == self.holds(number.0),
    {
        match self.last {
            Some(last) => self.first.0 <= number.0 && number.0 <= last.0,
            None => false,
        }
    }

    /// The number after the range.
    pub fn next(&self) -> (r: BlockNumber)
        requires
            self.end() <= u64::MAX,
        ensures
            r.0 == self.end(),
    {
        match self.last {
            Some(last) => last.next(),
            None => self.first,
        }
    }

    /// Where `number` stands relative to the end of the range.
    pub fn position(&self, number: BlockNumber) -> (r: Position)
        ensures
            r == self.place(number.0),
    {
        match self.last {
            Some(last) => if number.0 <= last.0 {
                Position::Duplicate
            } else if number.0 - 1 == last.0 {
                Position::Next
            } else {
                Position::Pending
            },
            None => if number.0 < self.first.0 {
                Position::Duplicate
            } else if number.0 == self.first.0 {
                Position::Next
            } else {
                Position::Pending
            },
        }
    }
}

/// Mathematical value of a [`BlockStoreState`].
pub struct StateView {
    pub first: u64,
    pub last: Option<CommitQCView>,
}

impl StateView {
    /// The numbers of the range.
    pub open spec fn range(self) -> BlockRange {
        BlockRange {
            first: BlockNumber(self.first),
            last: match self.last {
                Some(last) => Some(BlockNumber(last.header.number)),
                None => None,
            },
        }
    }

    /// Whether the block with the given number is in the range.
    pub open spec fn contains(self, number: u64) -> bool {
        self.range().holds(number)
    }

    /// Number of the next block that can be stored.
    pub open spec fn next(self) -> int {
        self.range().end()
    }
}

/// The view of an optional certificate.
pub open spec fn last_view(last: Option<CommitQC>) -> Option<CommitQCView> {
    match last {
        Some(qc) => Some(qc@),
        None => None,
    }
}

impl View for BlockStoreState {
    type V = StateView;

    open spec fn view(&self) -> StateView {
        StateView { first: self.first.0, last: last_view(self.last) }
    }
}

impl Clone for BlockStoreState {
    fn clone(&self) -> (r: Self)
        ensures
            r@ == self@,
    {
        let last = match &self.last {
            Some(qc) => Some(qc.clone()),
            None => None,
        };
        BlockStoreState { first: self.first, last }
    }
}

impl BlockStoreState {
    /// The numbers of the range.
    pub fn range(&self) -> (r: BlockRange)
        ensures
            r == self@.range(),
    {
        let last = match &self.last {
            Some(last) => Some(last.header().number),
            None => None,
        };
        BlockRange { first: self.first, last }
    }

    /// Checks whether the block with the given number is stored.
    pub fn contains(&self, number: BlockNumber) -> (r: bool)
        ensures
            r == self@.contains(number.0),
    {
        self.range().contains(number)
    }

    /// Number of the next block that can be stored.
    pub fn next(&self) -> (r: BlockNumber)
        requires
            self@.next() <= u64::MAX,
        ensures
            r.0 == self@.next(),
    {
        self.range().next()
    }
}

/// What became of a block handed to [`BlockStore::queue_block`].
#[derive(Clone, Copy, Debug, PartialEq, Eq, Structural)]
pub enum Queued {
    /// Blocks before it are missing. Nothing changed: hand it in again once
    /// the queued frontier has reached its number.
    Pending,
    /// The store already holds a block with this number. Nothing changed.
    Duplicate,
    /// The block was appended to the queue.
    Accepted,
}

/// Why a block was refused by [`BlockStore::queue_block`].
#[derive(Clone, Copy, Debug, PartialEq, Eq, Structural)]
pub enum QueueError {
    /// The block does not verify against the genesis.
    Invalid(BlockValidationError),
    /// The block does not name the last queued block as its parent.
    ParentMismatch,
}

/// Why a store could not be constructed.
#[derive(Clone, Copy, Debug, PartialEq, Eq, Structural)]
pub enum StartError {
    /// The last certificate does not verify against the genesis.
    Last,
    /// The range holds the first block, but no block was handed in.
    FirstBlockMissing,
    /// The first block does not verify against the genesis.
    FirstBlock(BlockValidationError),
}

/// Where to find a block, as answered by [`BlockStore::block`].
#[derive(Debug, PartialEq, Eq)]
pub enum Lookup {
    /// The store does not hold the block.
    Missing,
    /// The block waits in the queue: here is a copy.
    Queued(FinalBlock),
    /// The block is in the persistent store, to be read from there.
    Persisted,
}

/// Where a block number is to be found, as answered by [`locate`].
#[derive(Clone, Copy, Debug, PartialEq, Eq, Structural)]
pub enum Location {
    /// Nowhere: the queued range does not hold the number.
    Missing,
    /// In the persistent store.
    Persisted,
    /// In the queue, at this index.
    Queue(u64),
}

/// Where the block with the given number is to be found, given the persisted
/// and the queued range of a store.
pub open spec fn location(persisted: BlockRange, queued: BlockRange, number: u64) -> Location {
    if !queued.holds(number) {
        Location::Missing
    } else if persisted.holds(number) {
        Location::Persisted
    } else {
        Location::Queue((number - persisted.end()) as u64)
    }
}

/// Finds where the block with the given number is, given the persisted and
/// the queued range of a store, which start at the same number.
pub fn locate(persisted: &BlockRange, queued: &BlockRange, number: BlockNumber) -> (r: Location)
    requires
        persisted.first == queued.first,
    ensures
        r == location(*persisted, *queued, number.0),
        r matches Location::Queue(index) ==> index == number.0 - persisted.end(),
{
    if !queued.contains(number) {
        Location::Missing
    } else if persisted.contains(number) {
        Location::Persisted
    } else {
        let start: u64 = match persisted.last {
            Some(last) => last.0 + 1,
            None => persisted.first.0,
        };
        Location::Queue(number.0 - start)
    }
}

/// Whether a block that is next in line is let into the queue, given how
/// its verification went and, if a block is queued or persisted before it,
/// whether it names that block as its parent. A failed verification is
/// reported before a wrong parent.
pub open spec fn admission(
    verified: Result<(), BlockValidationError>,
    follows_last: Option<bool>,
) -> Result<(), QueueError> {
    match verified {
        Err(e) => Err(QueueError::Invalid(e)),
        Ok(_) => if follows_last == Some(false) {
            Err(QueueError::ParentMismatch)
        } else {
            Ok(())
        },
    }
}

/// Decides whether a block that is next in line is let into the queue.
pub fn decide_admission(verified: Result<(), BlockValidationError>, follows_last: Option<bool>) -> (r: Result<
    (),
    QueueError,
>)
    ensures
        r == admission(verified, follows_last),
{
    match verified {
        Err(e) => Err(QueueError::Invalid(e)),
        Ok(_) => match follows_last {
            Some(false) => Err(QueueError::ParentMismatch),
            _ => Ok(()),
        },
    }
}

/// Whether a store can start, given whether the last certificate found in
/// the persistent store verifies, whether the range found holds the first
/// block of the genesis, and how the verification of that block went if one
/// was handed in. A failing certificate is reported first; the first block
/// matters only if the range holds it.
pub open spec fn start_decision(
    last_ok: Option<bool>,
    holds_first: bool,
    first_block: Option<Result<(), BlockValidationError>>,
) -> Result<(), StartError> {
    if last_ok == Some(false) {
        Err(StartError::Last)
    } else if !holds_first {
        Ok(())
    } else {
        match first_block {
            None => Err(StartError::FirstBlockMissing),
            Some(Err(e)) => Err(StartError::FirstBlock(e)),
            Some(Ok(_)) => Ok(()),
        }
    }
}

/// Decides whether a store can start.
pub fn decide_start(
    last_ok: Option<bool>,
    holds_first: bool,
    first_block: Option<Result<(), BlockValidationError>>,
) -> (r: Result<(), StartError>)
    ensures
        r == start_decision(last_ok, holds_first, first_block),
{
    match last_ok {
        Some(false) => Err(StartError::Last),
        _ => if !holds_first {
            Ok(())
        } else {
            match first_block {
                None => Err(StartError::FirstBlockMissing),
                Some(Err(e)) => Err(StartError::FirstBlock(e)),
                Some(Ok(_)) => Ok(()),
            }
        },
    }
}

/// An in-memory queue of blocks in front of a persistent store.
#[derive(Debug)]
pub struct BlockStore {
    genesis: Genesis,
    inner: Inner,
}

/// What changes in a store: the two ranges and the queue.
#[derive(Debug)]
struct Inner {
    queued_state: BlockStoreState,
    persisted_state: BlockStoreState,
    queue: VecDeque<FinalBlock>,
}

/// Mathematical value of a [`BlockStore`].
pub struct StoreModel {
    pub genesis: GenesisView,
    /// What the persistent store has acknowledged.
    pub persisted: StateView,
    /// What the store has accepted: persisted or queued.
    pub queued: StateView,
    /// Blocks accepted and not yet known to be persisted, oldest first.
    pub queue: Seq<BlockView>,
}

impl StoreModel {
    /// Header of the block that comes before position `i` of the queue:
    /// the block queued before it, or the last persisted one.
    pub open spec fn previous(self, i: int) -> Option<HeaderView> {
        if i > 0 {
            Some(self.queue[i - 1].header())
        } else {
            match self.persisted.last {
                Some(last) => Some(last.header),
                None => None,
            }
        }
    }

    /// The block at position `i` of the queue names the block before it as
    /// its parent, if there is a block before it.
    pub open spec fn linked(self, i: int) -> bool {
        match self.previous(i) {
            Some(header) => self.queue[i].header().parent == Some(header.hash()),
            None => true,
        }
    }

    /// What holds of every store: both ranges start at the first block of the
    /// genesis; the queue continues the persisted range without a gap, and
    /// the queued range ends where the queue ends; each queued block names
    /// the block before it as its parent; the queued blocks and the last
    /// persisted certificate verify against the genesis.
    pub open spec fn inv(self) -> bool {
        &&& self.genesis.wf()
        &&& self.persisted.first == self.genesis.first_block
        &&& self.queued.first == self.genesis.first_block
        &&& self.persisted.next() + self.queue.len() == self.queued.next()
        &&& forall|i: int|
            0 <= i < self.queue.len() ==> #[trigger] self.queue[i].number() == self.persisted.next()
                + i
        &&& self.queued.last == if self.queue.len() > 0 {
            Some(self.queue.last().justification)
        } else {
            self.persisted.last
        }
        &&& forall|i: int| 0 <= i < self.queue.len() ==> #[trigger] self.linked(i)
        &&& forall|i: int| 0 <= i < self.queue.len() ==> #[trigger] self.queue[i].valid(self.genesis)
        &&& match self.persisted.last {
            Some(last) => last.valid(self.genesis),
            None => true,
        }
    }

    /// What a new store answers to the last certificate and the first block
    /// read from the persistent store.
    pub open spec fn start_verdict(
        genesis: GenesisView,
        last: Option<CommitQCView>,
        first_block: Option<BlockView>,
    ) -> Result<(), StartError> {
        start_decision(
            match last {
                Some(last) => Some(last.valid(genesis)),
                None => None,
            },
            (StateView { first: genesis.first_block, last }).contains(genesis.first_block),
            match first_block {
                Some(block) => Some(block.verdict(genesis)),
                None => None,
            },
        )
    }

    /// The store right after construction: nothing queued.
    pub open spec fn start(genesis: GenesisView, last: Option<CommitQCView>) -> StoreModel {
        let state = StateView { first: genesis.first_block, last };
        StoreModel { genesis, persisted: state, queued: state, queue: Seq::empty() }
    }

    /// Where the block with the given number is to be found: nowhere, in the
    /// persistent store, or in the queue, and then which block it is.
    pub open spec fn lookup(self, number: u64) -> Option<Option<BlockView>> {
        match location(self.persisted.range(), self.queued.range(), number) {
            Location::Missing => None,
            Location::Persisted => Some(None),
            Location::Queue(index) => Some(Some(self.queue[index as int])),
        }
    }

    /// Whether `block` names the last queued block as its parent, if there
    /// is one.
    pub open spec fn follows_last(self, block: BlockView) -> Option<bool> {
        match self.queued.last {
            Some(last) => Some(block.header().follows(last.header)),
            None => None,
        }
    }

    /// What the store answers to a block handed in for queueing: a block
    /// that is not next in line is pending or a duplicate, whatever it holds;
    /// the block next in line is verified and held against the last queued
    /// block.
    pub open spec fn queue_verdict(self, block: BlockView) -> Result<Queued, QueueError> {
        match self.queued.range().place(block.number()) {
            Position::Pending => Ok(Queued::Pending),
            Position::Duplicate => Ok(Queued::Duplicate),
            Position::Next => match admission(
                block.verdict(self.genesis),
                self.follows_last(block),
            ) {
                Ok(_) => Ok(Queued::Accepted),
                Err(e) => Err(e),
            },
        }
    }

    /// The store with `block` appended to the queue.
    pub open spec fn push(self, block: BlockView) -> StoreModel {
        StoreModel {
            queued: StateView { first: self.queued.first, last: Some(block.justification) },
            queue: self.queue.push(block),
            ..self
        }
    }

    /// The store after `block` was handed in for queueing.
    pub open spec fn queue_block(self, block: BlockView) -> StoreModel {
        if self.queue_verdict(block) == Ok::<Queued, QueueError>(Queued::Accepted) {
            self.push(block)
        } else {
            self
        }
    }

    /// The store after the oldest queued block was persisted.
    pub open spec fn persist(self) -> StoreModel {
        if self.queue.len() > 0 {
            StoreModel {
                persisted: StateView {
                    first: self.persisted.first,
                    last: Some(self.queue[0].justification),
                },
                queue: self.queue.drop_first(),
                ..self
            }
        } else {
            self
        }
    }
}

impl View for BlockStore {
    type V = StoreModel;

    closed spec fn view(&self) -> StoreModel {
        self.inner.store(self.genesis@)
    }
}

impl Inner {
    /// The store that these ranges and this queue make with `genesis`.
    spec fn store(&self, genesis: GenesisView) -> StoreModel {
        StoreModel {
            genesis,
            persisted: self.persisted_state@,
            queued: self.queued_state@,
            queue: self.queue@.map_values(|block: FinalBlock| block@),
        }
    }

    /// Appends a block to the queue and moves the queued range up to it.
    fn push(&mut self, block: FinalBlock, Ghost(genesis): Ghost<GenesisView>)
        ensures
            final(self).store(genesis) == old(self).store(genesis).push(block@),
    {
        self.queued_state.last = Some(block.justification.clone());
        self.queue.push_back(block);
        assert(self.store(genesis).queue =~= old(self).store(genesis).push(block@).queue);
    }

    /// Moves the oldest queued block to the persisted range.
    fn pop(&mut self, Ghost(genesis): Ghost<GenesisView>)
        ensures
            final(self).store(genesis) == old(self).store(genesis).persist(),
    {
        match self.queue.pop_front() {
            Some(block) => {
                self.persisted_state.last = Some(block.justification);
                assert(self.store(genesis).queue =~= old(self).store(genesis).persist().queue);
            },
            None => {
                assert(self.store(genesis).queue =~= old(self).store(genesis).queue);
            },
        }
    }
}

/// The task that moves queued blocks into the persistent store.
#[must_use]
#[derive(Debug)]
pub struct BlockStoreRunner {}

/// Failure of a call into the persistent store.
#[derive(Debug, PartialEq, Eq)]
pub enum StorageError {
    /// The call was canceled.
    Canceled,
    /// The persistent store failed.
    Internal(String),
}

/// What the runner is told.
#[derive(Debug, PartialEq, Eq)]
pub enum RunnerEvent {
    /// The runner starts, or the queue may have changed.
    Wake,
    /// The block last handed out to be stored is now durable.
    Stored,
    /// Waiting, or storing the block last handed out, has failed.
    Failed(StorageError),
}

/// What the runner is to do next.
#[derive(Debug, PartialEq, Eq)]
pub enum RunnerAction {
    /// Wait until the queue is not empty, then wake the runner.
    Wait,
    /// Store this block persistently, then tell the runner how it went.
    Store(FinalBlock),
    /// Stop, with this result.
    Stop(Result<(), String>),
}

impl BlockStoreRunner {
    /// One step of the background task. A `Stored` event moves the oldest
    /// queued block to the persisted range. A cancellation stops the runner
    /// without an error, a failure of the persistent store stops it with that
    /// error. Otherwise the runner hands out the oldest queued block, or waits
    /// when the queue is empty.
    pub fn run(&self, store: &mut BlockStore, event: RunnerEvent) -> (action: RunnerAction)
        ensures
            old(store)@.inv(),
            final(store)@.inv(),
            final(store)@ == if event is Stored {
                old(store)@.persist()
            } else {
                old(store)@
            },
            match event {
                RunnerEvent::Failed(StorageError::Canceled) => action == RunnerAction::Stop(
                    Ok::<(), String>(()),
                ),
                RunnerEvent::Failed(StorageError::Internal(err)) => action == RunnerAction::Stop(
                    Err::<(), String>(err),
                ),
                _ => match action {
                    RunnerAction::Wait => final(store)@.queue.len() == 0,
                    RunnerAction::Store(block) => {
                        &&& final(store)@.queue.len() > 0
                        &&& block@ == final(store)@.queue[0]
                        &&& block@.number() == final(store)@.persisted.next()
                    },
                    RunnerAction::Stop(_) => false,
                },
            },
    {
        proof {
            use_type_invariant(&*store);
        }
        match event {
            RunnerEvent::Failed(StorageError::Canceled) => RunnerAction::Stop(Ok(())),
            RunnerEvent::Failed(StorageError::Internal(err)) => RunnerAction::Stop(Err(err)),
            RunnerEvent::Stored => {
                store.persist();
                store.next_to_store()
            },
            RunnerEvent::Wake => store.next_to_store(),
        }
    }
}

impl BlockStore {
    #[verifier::type_invariant]
    pub open spec fn inv(&self) -> bool {
        self@.inv()
    }

    /// Constructs a store from what the persistent store reports: its
    /// genesis, its last certificate, and its block at the first number of
    /// the genesis if `last` says that it holds one. The certificate and the
    /// first block are verified against the genesis.
    pub fn new(genesis: Genesis, last: Option<CommitQC>, first_block: Option<FinalBlock>) -> (r:
        Result<(BlockStore, BlockStoreRunner), StartError>)
        ensures
            match r {
                Ok((store, _)) => {
                    &&& StoreModel::start_verdict(
                        genesis@,
                        last_view(last),
                        first_block_view(first_block),
                    ) is Ok
                    &&& store@ == StoreModel::start(genesis@, last_view(last))
                    &&& store@.inv()
                },
                Err(e) => StoreModel::start_verdict(
                    genesis@,
                    last_view(last),
                    first_block_view(first_block),
                ) == Err::<(), StartError>(e),
            },
    {
        let last_ok = match &last {
            Some(qc) => Some(qc.verify(&genesis)),
            None => None,
        };
        let verified = match &first_block {
            Some(block) => Some(block.verify(&genesis)),
            None => None,
        };
        let first = genesis.first_block();
        let state = BlockStoreState { first, last };
        if let Err(e) = decide_start(last_ok, state.contains(first), verified) {
            return Err(e);
        }
        let inner = Inner {
            persisted_state: state.clone(),
            queued_state: state,
            queue: VecDeque::new(),
        };
        assert(inner.store(genesis@).queue =~= Seq::empty());
        Ok((BlockStore { genesis, inner }, BlockStoreRunner {  }))
    }

    /// Genesis specification for this store.
    pub fn genesis(&self) -> (r: &Genesis)
        ensures
            r@ == self@.genesis,
    {
        &self.genesis
    }

    /// Finds a block: in the queue, in the persistent store, or nowhere.
    pub fn block(&self, number: BlockNumber) -> (r: Lookup)
        ensures
            self@.inv(),
            match r {
                Lookup::Missing => self@.lookup(number.0) == None::<Option<BlockView>>,
                Lookup::Persisted => self@.lookup(number.0) == Some(None::<BlockView>),
                Lookup::Queued(block) => self@.lookup(number.0) == Some(Some(block@)),
            },
    {
        proof {
            use_type_invariant(self);
        }
        let persisted = self.inner.persisted_state.range();
        let queued = self.inner.queued_state.range();
        match locate(&persisted, &queued, number) {
            Location::Missing => Lookup::Missing,
            Location::Persisted => Lookup::Persisted,
            Location::Queue(index) => {
                let len: usize = self.inner.queue.len();
                proof {
                    assert(self.inner.queue@.len() == self@.queue.len());
                    assert(index < len);
                    assert(self@.queue[index as int] == self.inner.queue@[index as int]@);
                }
                Lookup::Queued(self.inner.queue[index as usize].clone())
            },
        }
    }

    /// Hands a block in to be queued and persisted eventually. The block is
    /// appended once all blocks before it are queued; until then the answer
    /// is `Pending` and the caller hands it in again later. A block whose
    /// number is already queued changes nothing. A block that does not verify
    /// against the genesis, or does not name the last queued block as its
    /// parent, is refused and changes nothing.
    pub fn queue_block(&mut self, block: &FinalBlock) -> (r: Result<Queued, QueueError>)
        ensures
            old(self)@.inv(),
            final(self)@.inv(),
            r == old(self)@.queue_verdict(block@),
            final(self)@ == old(self)@.queue_block(block@),
    {
        proof {
            use_type_invariant(&*self);
        }
        match self.inner.queued_state.range().position(block.number()) {
            Position::Pending => {
                return Ok(Queued::Pending);
            },
            Position::Duplicate => {
                return Ok(Queued::Duplicate);
            },
            Position::Next => {},
        }
        let verified = block.verify(&self.genesis);
        let follows_last = match &self.inner.queued_state.last {
            Some(last) => Some(block.header().follows(last.header())),
            None => None,
        };
        if let Err(e) = decide_admission(verified, follows_last) {
            return Err(e);
        }
        let ghost genesis = self.genesis@;
        proof {
            lemma_push_inv(self@, block@);
        }
        let mut inner = self.take();
        inner.push(block.clone(), Ghost(genesis));
        self.inner = inner;
        Ok(Queued::Accepted)
    }

    /// Whether the block with the given number is queued to be stored: the
    /// caller waits until this holds.
    pub fn wait_until_queued(&self, number: BlockNumber) -> (done: bool)
        ensures
            done == (number.0 < self@.queued.next()),
    {
        match self.inner.queued_state.range().position(number) {
            Position::Duplicate => true,
            _ => false,
        }
    }

    /// Whether the block with the given number is stored persistently: the
    /// caller waits until this holds.
    pub fn wait_until_persisted(&self, number: BlockNumber) -> (done: bool)
        ensures
            done == (number.0 < self@.persisted.next()),
    {
        match self.inner.persisted_state.range().position(number) {
            Position::Duplicate => true,
            _ => false,
        }
    }

    /// The range of blocks that the store holds, queued ones included.
    pub fn subscribe(&self) -> (r: BlockStoreState)
        ensures
            r@ == self@.queued,
    {
        self.inner.queued_state.clone()
    }

    /// The next block to be queued and the next block to be persisted, for
    /// the metrics of the same names.
    pub fn scrape_metrics(&self) -> (r: (u64, u64))
        requires
            self@.queued.next() <= u64::MAX,
        ensures
            r.0 == self@.queued.next(),
            r.1 == self@.persisted.next(),
    {
        proof {
            use_type_invariant(self);
        }
        (self.inner.queued_state.next().0, self.inner.persisted_state.next().0)
    }

    /// Moves the oldest queued block to the persisted range.
    fn persist(&mut self)
        ensures
            old(self)@.inv(),
            final(self)@.inv(),
            final(self)@ == old(self)@.persist(),
    {
        let ghost genesis = self.genesis@;
        proof {
            use_type_invariant(&*self);
            lemma_persist_inv(self@);
        }
        let mut inner = self.take();
        inner.pop(Ghost(genesis));
        self.inner = inner;
    }

    /// Takes the ranges and the queue out of the store, to be changed and
    /// put back. The store is left empty meanwhile.
    fn take(&mut self) -> (inner: Inner)
        ensures
            inner.store(old(self).genesis@) == old(self)@,
            final(self).genesis@ == old(self).genesis@,
    {
        proof {
            use_type_invariant(&*self);
        }
        let first = self.inner.persisted_state.first;
        let mut inner = Inner {
            queued_state: BlockStoreState { first, last: None },
            persisted_state: BlockStoreState { first, last: None },
            queue: VecDeque::new(),
        };
        assert(inner.store(self.genesis@).queue =~= Seq::empty());
        std::mem::swap(&mut self.inner, &mut inner);
        inner
    }

    /// The oldest queued block, to be stored next, or the order to wait.
    fn next_to_store(&self) -> (action: RunnerAction)
        ensures
            match action {
                RunnerAction::Wait => self@.queue.len() == 0,
                RunnerAction::Store(block) => {
                    &&& self@.queue.len() > 0
                    &&& block@ == self@.queue[0]
                    &&& block@.number() == self@.persisted.next()
                },
                RunnerAction::Stop(_) => false,
            },
    {
        proof {
            use_type_invariant(self);
            if self@.queue.len() > 0 {
                assert(self@.queue[0].number() == self@.persisted.next() + 0);
            }
        }
        if self.inner.queue.len() > 0 {
            RunnerAction::Store(self.inner.queue[0].clone())
        } else {
            RunnerAction::Wait
        }
    }
}

/// The view of an optional block.
pub open spec fn first_block_view(block: Option<FinalBlock>) -> Option<BlockView> {
    match block {
        Some(block) => Some(block@),
        None => None,
    }
}

/// Appending an accepted block keeps what holds of every store.
pub proof fn lemma_push_inv(store: StoreModel, block: BlockView)
    requires
        store.inv(),
        store.queue_verdict(block) == Ok::<Queued, QueueError>(Queued::Accepted),
    ensures
        store.push(block).inv(),
{
    let after = store.push(block);
    let n = store.queue.len() as int;
    assert forall|i: int| 0 <= i < after.queue.len() implies #[trigger] after.queue[i].number()
        == after.persisted.next() + i by {
        if i < n {
            assert(after.queue[i] == store.queue[i]);
            assert(store.queue[i].number() == store.persisted.next() + i);
        }
    }
    assert forall|i: int| 0 <= i < after.queue.len() implies #[trigger] after.linked(i) by {
        if i < n {
            assert(store.linked(i));
            assert(after.queue[i] == store.queue[i]);
            assert(after.previous(i) == store.previous(i));
        } else if n > 0 {
            assert(after.queue[i - 1] == store.queue.last());
        }
    }
    assert forall|i: int| 0 <= i < after.queue.len() implies #[trigger] after.queue[i].valid(
        after.genesis,
    ) by {
        if i < n {
            assert(store.queue[i].valid(store.genesis));
        }
    }
}

/// Moving the oldest queued block to the persisted range keeps what holds of
/// every store.
pub proof fn lemma_persist_inv(store: StoreModel)
    requires
        store.inv(),
    ensures
        store.persist().inv(),
{
    let after = store.persist();
    if store.queue.len() > 0 {
        assert(store.queue[0].number() == store.persisted.next() + 0);
        assert(store.queue[0].valid(store.genesis));
        assert forall|i: int| 0 <= i < after.queue.len() implies #[trigger] after.queue[i].number()
            == after.persisted.next() + i by {
            assert(after.queue[i] == store.queue[i + 1]);
            assert(store.queue[i + 1].number() == store.persisted.next() + (i + 1));
        }
        assert forall|i: int| 0 <= i < after.queue.len() implies #[trigger] after.linked(i) by {
            assert(after.queue[i] == store.queue[i + 1]);
            assert(store.linked(i + 1));
            if i > 0 {
                assert(after.queue[i - 1] == store.queue[i]);
            }
        }
        assert forall|i: int| 0 <= i < after.queue.len() implies #[trigger] after.queue[i].valid(
            after.genesis,
        ) by {
            assert(after.queue[i] == store.queue[i + 1]);
            assert(store.queue[i + 1].valid(store.genesis));
        }
        if after.queue.len() > 0 {
            assert(after.queue.last() == store.queue.last());
        }
    }
}

} // verus!
