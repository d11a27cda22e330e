//! Runs of the block store: what holds after any sequence of blocks handed in
//! and blocks persisted.
use crate::block::{BlockView, CommitQCView, GenesisView, HeaderView};
use crate::block_store::{lemma_persist_inv, lemma_push_inv, QueueError, Queued, StoreModel};
use vstd::prelude::*;

verus! {

/// One change that callers can make to a store.
pub enum Step {
    /// A block is handed in for queueing.
    Queue(BlockView),
    /// The persistent store acknowledges the oldest queued block.
    Persist,
}

/// The header of an optional certificate.
pub open spec fn last_header(last: Option<CommitQCView>) -> Option<HeaderView> {
    match last {
        Some(qc) => Some(qc.header),
        None => None,
    }
}

/// Whether `blocks` continue a chain: they are numbered from `start` on
/// without a gap, each names the block before it as its parent, the first one
/// names `previous` if there is one, and all verify against `genesis`.
pub open spec fn is_chain(
    genesis: GenesisView,
    previous: Option<HeaderView>,
    start: int,
    blocks: Seq<BlockView>,
) -> bool {
    &&& forall|i: int| 0 <= i < blocks.len() ==> (#[trigger] blocks[i]).number() == start + i
    &&& forall|i: int| 0 <= i < blocks.len() ==> (#[trigger] blocks[i]).valid(genesis)
    &&& forall|i: int|
        0 < i < blocks.len() ==> (#[trigger] blocks[i]).header().parent == Some(
            blocks[i - 1].header().hash(),
        )
    &&& blocks.len() > 0 && previous is Some ==> blocks[0].header().parent == Some(
        previous->0.hash(),
    )
}

impl StoreModel {
    /// Whether handing in `block` appends it to the queue.
    pub open spec fn accepts(self, block: BlockView) -> bool {
        self.queue_verdict(block) == Ok::<Queued, QueueError>(Queued::Accepted)
    }

    /// The store after one step.
    pub open spec fn step(self, step: Step) -> StoreModel {
        match step {
            Step::Queue(block) => self.queue_block(block),
            Step::Persist => self.persist(),
        }
    }

    /// The store after a sequence of steps.
    pub open spec fn run(self, steps: Seq<Step>) -> StoreModel
        decreases steps.len(),
    {
        if steps.len() == 0 {
            self
        } else {
            self.run(steps.drop_last()).step(steps.last())
        }
    }

    /// The blocks that a sequence of steps appends to the queue, in order.
    pub open spec fn accepted(self, steps: Seq<Step>) -> Seq<BlockView>
        decreases steps.len(),
    {
        if steps.len() == 0 {
            Seq::empty()
        } else {
            let before = self.accepted(steps.drop_last());
            match steps.last() {
                Step::Queue(block) => if self.run(steps.drop_last()).accepts(block) {
                    before.push(block)
                } else {
                    before
                },
                Step::Persist => before,
            }
        }
    }
}

/// How many acknowledgements of the persistent store a sequence of steps holds.
pub open spec fn acknowledgements(steps: Seq<Step>) -> nat
    decreases steps.len(),
{
    if steps.len() == 0 {
        0
    } else {
        let before = acknowledgements(steps.drop_last());
        match steps.last() {
            Step::Queue(_) => before,
            Step::Persist => before + 1,
        }
    }
}

/// A step never moves a frontier back, keeps the persisted frontier at or
/// below the queued one, and keeps what holds of every store.
pub proof fn lemma_step_monotone(store: StoreModel, step: Step)
    requires
        store.inv(),
    ensures
        store.step(step).inv(),
        store.step(step).genesis == store.genesis,
        store.step(step).queued.next() >= store.queued.next(),
        store.step(step).persisted.next() >= store.persisted.next(),
        store.step(step).persisted.next() <= store.step(step).queued.next(),
{
    match step {
        Step::Queue(block) => {
            if store.accepts(block) {
                lemma_push_inv(store, block);
            }
        },
        Step::Persist => {
            lemma_persist_inv(store);
            if store.queue.len() > 0 {
                assert(store.queue[0].number() == store.persisted.next() + 0);
            }
        },
    }
}

/// Over any sequence of steps, neither the queued nor the persisted frontier
/// ever moves back, the persisted one stays at or below the queued one, and
/// what holds of every store keeps holding: the queue continues the persisted
/// range without a gap.
pub proof fn lemma_run_monotone(store: StoreModel, steps: Seq<Step>)
    requires
        store.inv(),
    ensures
        store.run(steps).inv(),
        store.run(steps).genesis == store.genesis,
        store.run(steps).queued.next() >= store.queued.next(),
        store.run(steps).persisted.next() >= store.persisted.next(),
        store.run(steps).persisted.next() <= store.run(steps).queued.next(),
        store.run(steps).persisted.next() + store.run(steps).queue.len() == store.run(
            steps,
        ).queued.next(),
    decreases steps.len(),
{
    if steps.len() > 0 {
        lemma_run_monotone(store, steps.drop_last());
        lemma_step_monotone(store.run(steps.drop_last()), steps.last());
    }
}

/// The blocks accepted since a store was constructed form one chain that
/// continues the range found in the persistent store: numbered without a gap
/// from its end, each block the parent of the next, all verified. The queue is
/// the end of that chain, and the blocks before it are the ones persisted
/// since.
pub proof fn lemma_accepted_blocks_form_chain(
    genesis: GenesisView,
    last: Option<CommitQCView>,
    steps: Seq<Step>,
)
    requires
        StoreModel::start(genesis, last).inv(),
    ensures
        ({
            let store = StoreModel::start(genesis, last);
            let blocks = store.accepted(steps);
            let end = store.run(steps);
            &&& is_chain(genesis, last_header(last), store.queued.next(), blocks)
            &&& end.queue.len() <= blocks.len()
            &&& end.queue == blocks.skip(blocks.len() - end.queue.len())
            &&& end.queued.next() == store.queued.next() + blocks.len()
            &&& end.persisted.next() == store.queued.next() + blocks.len() - end.queue.len()
            &&& end.queued.last == if blocks.len() > 0 {
                Some(blocks.last().justification)
            } else {
                last
            }
        }),
    decreases steps.len(),
{
    let store = StoreModel::start(genesis, last);
    let blocks = store.accepted(steps);
    let end = store.run(steps);
    if steps.len() == 0 {
        assert(end.queue =~= blocks.skip(blocks.len() - end.queue.len()));
    } else {
        let head = steps.drop_last();
        lemma_accepted_blocks_form_chain(genesis, last, head);
        lemma_run_monotone(store, head);
        let mid = store.run(head);
        let before = store.accepted(head);
        match steps.last() {
            Step::Queue(block) => {
                if mid.accepts(block) {
                    assert(blocks == before.push(block));
                    assert(end == mid.push(block));
                    assert forall|i: int| 0 <= i < blocks.len() implies (
                    #[trigger] blocks[i]).number() == store.queued.next() + i by {
                        if i < before.len() {
                            assert(blocks[i] == before[i]);
                        }
                    }
                    assert forall|i: int| 0 <= i < blocks.len() implies (
                    #[trigger] blocks[i]).valid(genesis) by {
                        if i < before.len() {
                            assert(blocks[i] == before[i]);
                        }
                    }
                    assert forall|i: int| 0 < i < blocks.len() implies (
                    #[trigger] blocks[i]).header().parent == Some(
                        blocks[i - 1].header().hash(),
                    ) by {
                        assert(blocks[i - 1] == before[i - 1]);
                        if i < before.len() {
                            assert(blocks[i] == before[i]);
                        }
                    }
                    if before.len() > 0 {
                        assert(blocks[0] == before[0]);
                    }
                    assert(end.queue =~= blocks.skip(blocks.len() - end.queue.len()));
                } else {
                    assert(end == mid);
                }
            },
            Step::Persist => {
                if mid.queue.len() > 0 {
                    assert(end.queue =~= blocks.skip(blocks.len() - end.queue.len()));
                    assert(mid.queue[0].number() == mid.persisted.next() + 0);
                    if end.queue.len() == 0 {
                        assert(mid.queue.last() == mid.queue[0]);
                    } else {
                        assert(end.queue.last() == mid.queue.last());
                    }
                }
            },
        }
    }
}

/// A block whose number is already queued is answered as a duplicate and
/// changes nothing.
pub proof fn lemma_stale_block_is_ignored(store: StoreModel, block: BlockView)
    requires
        block.number() < store.queued.next(),
    ensures
        store.queue_verdict(block) == Ok::<Queued, QueueError>(Queued::Duplicate),
        store.queue_block(block) == store,
{
}

/// Handing the same block in a second time changes nothing, and succeeds if
/// the first time did.
pub proof fn lemma_queue_block_idempotent(store: StoreModel, block: BlockView)
    ensures
        store.queue_block(block).queue_block(block) == store.queue_block(block),
        store.queue_verdict(block) is Ok ==> store.queue_block(block).queue_verdict(block) is Ok,
        store.accepts(block) ==> store.queue_block(block).queue_verdict(block) == Ok::<
            Queued,
            QueueError,
        >(Queued::Duplicate),
{
}

/// Every block of the queued range is found: in the persistent store if the
/// persisted range holds its number, else in the queue, under its number.
pub proof fn lemma_queued_blocks_are_found(store: StoreModel, number: u64)
    requires
        store.inv(),
        store.queued.contains(number),
    ensures
        store.lookup(number) is Some,
        store.lookup(number) == Some(None::<BlockView>) <==> store.persisted.contains(number),
        match store.lookup(number) {
            Some(Some(block)) => block.number() == number && store.queue.contains(block),
            _ => true,
        },
{
    if !store.persisted.contains(number) {
        let i = number - store.persisted.next();
        assert(0 <= i < store.queue.len());
        assert(store.queue[i].number() == store.persisted.next() + i);
    }
}

/// The persisted frontier advances only on acknowledgements of the
/// persistent store, by one block for each: after any sequence of steps it
/// is at most as many blocks ahead as acknowledgements were given.
pub proof fn lemma_persisted_only_when_acknowledged(store: StoreModel, steps: Seq<Step>)
    requires
        store.inv(),
    ensures
        store.run(steps).persisted.next() <= store.persisted.next() + acknowledgements(steps),
    decreases steps.len(),
{
    if steps.len() > 0 {
        let head = steps.drop_last();
        lemma_persisted_only_when_acknowledged(store, head);
        lemma_run_monotone(store, head);
        let mid = store.run(head);
        if mid.queue.len() > 0 {
            assert(mid.queue[0].number() == mid.persisted.next() + 0);
        }
    }
}

} // verus!
