//! Command pools of a queue: which command buffer each recording gets, when a
//! pool is reset, and what one submission of command buffers asks for.
use vstd::prelude::*;
use crate::command::{CommandState, SemaphoreInfo};

verus! {

/// The usage count that marks a pool whose command buffers were submitted and
/// that must be reset before it hands out another one.
pub const SUBMITTED: i32 = -1i32;

/// A command pool: how many command buffers it holds and how many are in use.
#[derive(Clone, Copy, Debug, PartialEq, Eq, Structural)]
pub struct PoolState {
    pub capacity: u32,
    pub used: i32,
}

/// The usage count of a pool once it has been reset if it needed to be.
pub open spec fn spec_effective_used(p: PoolState) -> int {
    if p.used == SUBMITTED {
        0
    } else {
        p.used as int
    }
}

/// Whether a pool's usage count is one it can hold.
pub open spec fn spec_pool_wf(p: PoolState) -> bool {
    SUBMITTED <= p.used <= p.capacity
}

/// The command buffer that recording takes from a pool.
#[derive(Clone, Copy, Debug, PartialEq, Eq, Structural)]
pub struct Acquired {
    /// Whether the pool must be reset before the buffer is used.
    pub reset: bool,
    /// The index of the command buffer in the pool.
    pub index: u32,
}

/// The command pools of a queue.
pub struct QueueState {
    pools: Vec<PoolState>,
}

impl View for QueueState {
    type V = Seq<PoolState>;

    closed spec fn view(&self) -> Seq<PoolState> {
        self.pools@
    }
}

impl QueueState {
    /// Every pool's usage count is one it can hold.
    #[verifier::type_invariant]
    closed spec fn wf(&self) -> bool {
        forall|i: int| 0 <= i < self.pools@.len() ==> spec_pool_wf(#[trigger] self.pools@[i])
    }

    /// Whether recording from `pool` gets a command buffer: the pool exists
    /// and, once reset if need be, has one left.
    pub open spec fn spec_can_acquire(&self, pool: u32) -> bool {
        &&& pool < self@.len()
        &&& spec_effective_used(self@[pool as int]) < self@[pool as int].capacity
        &&& spec_effective_used(self@[pool as int]) < i32::MAX
    }

    /// Takes the pools out, leaving none.
    fn take_pools(&mut self) -> (r: Vec<PoolState>)
        ensures
            r@ == old(self)@,
            final(self)@.len() == 0,
            forall|i: int| 0 <= i < r@.len() ==> spec_pool_wf(#[trigger] r@[i]),
    {
        proof {
            use_type_invariant(&*self);
        }
        let mut emptied = QueueState { pools: Vec::new() };
        std::mem::swap(self, &mut emptied);
        let QueueState { pools } = emptied;
        pools
    }

    /// `command_pools` pools of `per_pool` command buffers each, all unused.
    pub fn new(command_pools: u32, per_pool: u32) -> (r: QueueState)
        ensures
            r@.len() == command_pools,
            forall|i: int| 0 <= i < command_pools ==> #[trigger] r@[i] == (PoolState { capacity: per_pool, used: 0 }),
    {
        let mut pools: Vec<PoolState> = Vec::new();
        let mut i: u32 = 0;
        while i < command_pools
            invariant
                i <= command_pools,
                pools@.len() == i,
                forall|k: int| 0 <= k < i ==> #[trigger] pools@[k] == (PoolState { capacity: per_pool, used: 0 }),
            decreases command_pools - i,
        {
            pools.push(PoolState { capacity: per_pool, used: 0 });
            i = i + 1;
        }
        QueueState { pools }
    }

    /// The number of command pools.
    pub fn pool_count(&self) -> (r: usize)
        ensures
            r == self@.len(),
    {
        self.pools.len()
    }

    /// Whether recording from `pool` gets a command buffer.
    pub fn can_acquire(&self, pool: u32) -> (r: bool)
        ensures
            r == self.spec_can_acquire(pool),
    {
        proof {
            use_type_invariant(self);
        }
        if (pool as usize) < self.pools.len() {
            let p = self.pools[pool as usize];
            let used: i32 = if p.used == SUBMITTED {
                0
            } else {
                p.used
            };
            (used as i64) < (p.capacity as i64) && used < i32::MAX
        } else {
            false
        }
    }

    /// Takes the next command buffer of `pool`, resetting the pool first if
    /// its buffers were submitted.
    pub fn acquire(&mut self, pool: u32) -> (r: Acquired)
        requires
            old(self).spec_can_acquire(pool),
        ensures
            r.reset == (old(self)@[pool as int].used == SUBMITTED),
            r.index == spec_effective_used(old(self)@[pool as int]),
            final(self)@ == old(self)@.update(
                pool as int,
                PoolState { capacity: old(self)@[pool as int].capacity, used: (r.index + 1) as i32 },
            ),
    {
        let mut pools = self.take_pools();
        let p = pools[pool as usize];
        let reset = p.used == SUBMITTED;
        let index: i32 = if reset {
            0
        } else {
            p.used
        };
        pools.set(pool as usize, PoolState { capacity: p.capacity, used: index + 1 });
        *self = QueueState { pools };
        Acquired { reset, index: index as u32 }
    }

    /// Marks `pool` as submitted: its next recording resets it first.
    pub fn mark_submitted(&mut self, pool: u32)
        requires
            pool < old(self)@.len(),
        ensures
            final(self)@ == old(self)@.update(
                pool as int,
                PoolState { capacity: old(self)@[pool as int].capacity, used: SUBMITTED },
            ),
    {
        let mut pools = self.take_pools();
        let p = pools[pool as usize];
        pools.set(pool as usize, PoolState { capacity: p.capacity, used: SUBMITTED });
        *self = QueueState { pools };
    }
}

/// One submission of command buffers to a queue.
pub struct SubmitPlan {
    /// The pool that all the command buffers came from.
    pub pool: u32,
    /// Every semaphore wait of the command buffers, in their order.
    pub waits: Vec<SemaphoreInfo>,
    /// Every semaphore signal of the command buffers, in their order.
    pub signals: Vec<SemaphoreInfo>,
}

/// The waits of `cbs`, one command buffer after another.
pub open spec fn spec_all_waits(cbs: Seq<CommandState>) -> Seq<SemaphoreInfo> {
    cbs.map_values(|c: CommandState| c.wait@).flatten()
}

/// The signals of `cbs`, one command buffer after another.
pub open spec fn spec_all_signals(cbs: Seq<CommandState>) -> Seq<SemaphoreInfo> {
    cbs.map_values(|c: CommandState| c.signal@).flatten()
}

/// Whether every command buffer of `cbs` came from the same pool.
pub open spec fn spec_same_pool(cbs: Seq<CommandState>) -> bool {
    forall|i: int| 0 <= i < cbs.len() ==> #[trigger] cbs[i].pool == cbs[0].pool
}

fn append_infos(out: &mut Vec<SemaphoreInfo>, more: &Vec<SemaphoreInfo>)
    ensures
        final(out)@ == old(out)@ + more@,
{
    let mut i: usize = 0;
    while i < more.len()
        invariant
            0 <= i <= more@.len(),
            out@ == old(out)@ + more@.take(i as int),
        decreases more@.len() - i,
    {
        out.push(more[i]);
        i = i + 1;
        assert(out@ =~= old(out)@ + more@.take(i as int));
    }
    assert(more@.take(more@.len() as int) =~= more@);
}

/// Plans the submission of `cbs`: nothing to submit when there are none;
/// else the pool they came from, and all their waits and signals in order.
pub fn plan_submit(cbs: &Vec<CommandState>) -> (r: Option<SubmitPlan>)
    requires
        spec_same_pool(cbs@),
    ensures
        cbs@.len() == 0 <==> r is None,
        r matches Some(p) ==> {
            &&& p.pool == cbs@[0].pool
            &&& p.waits@ == spec_all_waits(cbs@)
            &&& p.signals@ == spec_all_signals(cbs@)
        },
{
    if cbs.len() == 0 {
        return None;
    }
    let mut waits: Vec<SemaphoreInfo> = Vec::new();
    let mut signals: Vec<SemaphoreInfo> = Vec::new();
    let mut i: usize = 0;
    while i < cbs.len()
        invariant
            0 <= i <= cbs@.len(),
            waits@ == spec_all_waits(cbs@.take(i as int)),
            signals@ == spec_all_signals(cbs@.take(i as int)),
        decreases cbs@.len() - i,
    {
        append_infos(&mut waits, &cbs[i].wait);
        append_infos(&mut signals, &cbs[i].signal);
        proof {
            let t = cbs@.take(i as int);
            let t1 = cbs@.take(i as int + 1);
            assert(t1 =~= t.push(cbs@[i as int]));
            let fw = |c: CommandState| c.wait@;
            let fs = |c: CommandState| c.signal@;
            assert(t1.map_values(fw) =~= t.map_values(fw).push(cbs@[i as int].wait@));
            assert(t1.map_values(fs) =~= t.map_values(fs).push(cbs@[i as int].signal@));
            t.map_values(fw).lemma_flatten_push(cbs@[i as int].wait@);
            t.map_values(fs).lemma_flatten_push(cbs@[i as int].signal@);
        }
        i = i + 1;
    }
    assert(cbs@.take(cbs@.len() as int) =~= cbs@);
    Some(SubmitPlan { pool: cbs[0].pool, waits, signals })
}

} // verus!
