//! The pool coordinator's bookkeeping: which queue takes the next request,
//! and when every worker has ended startup.

use vstd::prelude::*;
use vstd::string::*;
use crate::statement::GeyserPluginPostgresError;

verus! {

/// Routing state of a pool of workers, each with a queue of its own.
pub struct ParallelClient {
    workers: usize,
    next_queue: usize,
}

impl ParallelClient {
    /// The number of workers.
    pub closed spec fn workers(&self) -> usize {
        self.workers
    }

    /// The queue that takes the next request.
    pub closed spec fn next(&self) -> usize {
        self.next_queue
    }

    /// A pool has at least one worker, and the next queue is one of theirs.
    pub open spec fn valid(&self) -> bool {
        self.next() < self.workers()
    }

    /// A pool of `workers` workers whose first request goes to queue 0; a
    /// configuration error for a pool without workers.
    pub fn new(workers: usize) -> (r: Result<Self, GeyserPluginPostgresError>)
        ensures
            r is Ok <==> workers > 0,
            r matches Ok(pool) ==> pool.valid() && pool.workers() == workers && pool.next() == 0,
            r matches Err(e) ==> e matches GeyserPluginPostgresError::ConfigurationError { msg }
                && msg@ == "\"threads\" must be at least 1"@,
    {
        if workers == 0 {
            Err(
                GeyserPluginPostgresError::ConfigurationError {
                    msg: String::from_str("\"threads\" must be at least 1"),
                },
            )
        } else {
            Ok(ParallelClient { workers, next_queue: 0 })
        }
    }

    /// How many workers the pool has.
    pub fn worker_count(&self) -> (r: usize)
        ensures
            r == self.workers(),
    {
        self.workers
    }

    /// The queue for the next request: the queues take turns.
    pub fn route(&mut self) -> (queue: usize)
        requires
            old(self).valid(),
        ensures
            final(self).valid(),
            final(self).workers() == old(self).workers(),
            queue == old(self).next(),
            final(self).next() == (old(self).next() + 1) % (old(self).workers() as int),
    {
        let queue: usize = self.next_queue;
        if queue + 1 == self.workers {
            self.next_queue = 0;
        } else {
            self.next_queue = queue + 1;
        }
        assert(self.next_queue == (queue + 1) % (self.workers as int)) by {
            if queue + 1 == self.workers {
                assert((queue + 1) % (self.workers as int) == 0) by (nonlinear_arith)
                    requires
                        queue + 1 == self.workers,
                        self.workers > 0,
                ;
            } else {
                assert((queue + 1) % (self.workers as int) == queue + 1) by (nonlinear_arith)
                    requires
                        0 <= queue + 1 < self.workers,
                ;
            }
        }
        queue
    }

    /// Whether startup is persisted: every worker has counted its startup as
    /// done.
    pub fn is_drained(&self, startup_done_count: usize) -> (r: bool)
        ensures
            r == (startup_done_count == self.workers()),
    {
        startup_done_count == self.workers
    }
}

/// The queue that takes the request `steps` requests from now.
pub open spec fn queue_after(next: usize, workers: usize, steps: nat) -> int {
    (next + steps) % (workers as int)
}

/// Queues take turns: after as many requests as there are workers the same
/// queue is next again, and any two requests fewer than that apart go to
/// different queues.
pub proof fn lemma_queues_take_turns(next: usize, workers: usize, i: nat, j: nat)
    requires
        next < workers,
        i < j < i + workers,
    ensures
        queue_after(next, workers, (i + workers) as nat) == queue_after(next, workers, i),
        queue_after(next, workers, i) != queue_after(next, workers, j),
        0 <= queue_after(next, workers, i) < workers,
{
    let w = workers as int;
    let a = next + i;
    let b = next + j;
    vstd::arithmetic::div_mod::lemma_mod_add_multiples_vanish(a, w);
    vstd::arithmetic::div_mod::lemma_mod_pos_bound(a, w);
    if a % w == b % w {
        vstd::arithmetic::div_mod::lemma_fundamental_div_mod(a, w);
        vstd::arithmetic::div_mod::lemma_fundamental_div_mod(b, w);
        let qa = a / w;
        let qb = b / w;
        assert(b - a == w * (qb - qa)) by (nonlinear_arith)
            requires
                a == w * qa + a % w,
                b == w * qb + b % w,
                a % w == b % w,
        ;
        assert(false) by (nonlinear_arith)
            requires
                b - a == w * (qb - qa),
                0 < b - a < w,
        ;
    }
}

} // verus!
