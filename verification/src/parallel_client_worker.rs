//! The dispatch worker: what to do with each thing that comes off the
//! request queue.

use vstd::prelude::*;
use crate::account::DbAccountInfo;
use crate::block_handler::{block_statement, DbBlockInfo};
use crate::config::{missing_tls_material, GeyserPluginPostgresConfig};
use crate::postgres_client::{
    account_update_effect, is_startup_flush, is_statement, lemma_one_rooted_upsert_per_slot,
    PostgresClient, SimplePostgresClient,
};
use crate::slot_handler::{slot_statement, SlotStatus};
use crate::statement::{GeyserPluginPostgresError, Operation, Statement};
use crate::transaction_handler::{transaction_statement, DbTransaction};

verus! {

/// An account update and whether it belongs to startup.
pub struct UpdateAccountRequest {
    pub account: DbAccountInfo,
    pub is_startup: bool,
}

/// A slot status change.
pub struct UpdateSlotRequest {
    pub slot: u64,
    pub parent: Option<u64>,
    pub slot_status: SlotStatus,
}

/// A transaction to log.
pub struct LogTransactionRequest {
    pub transaction_info: DbTransaction,
}

/// Block metadata to store.
pub struct UpdateBlockMetadataRequest {
    pub block_info: DbBlockInfo,
}

/// One unit of work on the queue.
pub enum WorkRequest {
    UpdateAccount(Box<UpdateAccountRequest>),
    UpdateSlot(Box<UpdateSlotRequest>),
    LogTransaction(Box<LogTransactionRequest>),
    UpdateBlockMetadata(Box<UpdateBlockMetadataRequest>),
}

/// What one turn of the worker's loop found.
pub enum WorkEvent {
    /// The exit flag is set.
    Exit,
    /// A request came off the queue.
    Request(WorkRequest),
    /// Nothing came within the waiting time.
    Timeout,
    /// The queue failed otherwise, as when every sender is gone.
    Disconnected,
}

/// How the loop goes on.
#[derive(Clone, Copy, Debug, PartialEq, Eq, Structural)]
pub enum Verdict {
    /// Take the next turn.
    Continue,
    /// Leave the loop.
    Stop,
    /// End the whole process at once.
    Abort,
}

/// Where a worker is in its life.
#[derive(Clone, Copy, Debug, PartialEq, Eq, Structural)]
pub enum WorkerState {
    Running,
    Draining,
    Stopped,
}

/// What the loop has to do for one turn: execute `statements` in order; on
/// the failure of any of them follow `on_failure` (`Abort` ends the process
/// before anything further is executed, `Continue` goes on with the next
/// statement); count this worker's startup as done where
/// `startup_acknowledged` is set; then follow `next`.
pub struct WorkPlan {
    pub statements: Vec<Statement>,
    pub on_failure: Verdict,
    pub startup_acknowledged: bool,
    pub next: Verdict,
}

/// What a failed statement leads to: the end of the process where database
/// errors are fatal, the next statement otherwise.
pub open spec fn failure_policy(panic_on_db_errors: bool) -> Verdict {
    if panic_on_db_errors {
        Verdict::Abort
    } else {
        Verdict::Continue
    }
}

/// The only statement of a list of at most one.
pub open spec fn only(statements: Seq<Statement>) -> Option<Statement> {
    if statements.len() == 0 {
        None
    } else {
        Some(statements[0])
    }
}

/// A worker bound to one sink.
pub struct ParallelClientWorker {
    client: SimplePostgresClient,
    is_startup_done: bool,
    state: WorkerState,
}

impl ParallelClientWorker {
    /// The worker's sink.
    pub closed spec fn client(&self) -> &SimplePostgresClient {
        &self.client
    }

    /// Whether this worker has ended startup.
    pub closed spec fn startup_done(&self) -> bool {
        self.is_startup_done
    }

    /// Where the worker is in its life.
    pub closed spec fn state(&self) -> WorkerState {
        self.state
    }

    /// The worker's invariant: that of its sink.
    pub open spec fn valid(&self) -> bool {
        self.client().valid()
    }

    /// Whether `other` is this worker, unchanged.
    pub open spec fn unchanged(&self, other: &ParallelClientWorker) -> bool {
        &&& self.client().same_state(other.client())
        &&& self.startup_done() == other.startup_done()
        &&& self.state() == other.state()
    }

    /// What a turn does that finds `event` while the worker runs.
    pub open spec fn turn(
        &self,
        post: &ParallelClientWorker,
        event: WorkEvent,
        is_startup_done: bool,
        plan: WorkPlan,
    ) -> bool {
        let pre = self;
        match event {
            WorkEvent::Exit => {
                &&& plan.statements@.len() == 0
                &&& !plan.startup_acknowledged
                &&& plan.next == Verdict::Stop
                &&& pre.client().same_state(post.client())
                &&& post.startup_done() == pre.startup_done()
                &&& post.state() == WorkerState::Draining
            },
            WorkEvent::Disconnected => {
                &&& plan.statements@.len() == 0
                &&& !plan.startup_acknowledged
                &&& plan.next == (if plan.on_failure == Verdict::Abort {
                    Verdict::Abort
                } else {
                    Verdict::Stop
                })
                &&& pre.client().same_state(post.client())
                &&& post.startup_done() == pre.startup_done()
                &&& post.state() == WorkerState::Draining
            },
            WorkEvent::Timeout => {
                &&& plan.next == Verdict::Continue
                &&& post.state() == WorkerState::Running
                &&& plan.startup_acknowledged == (is_startup_done && !pre.startup_done())
                &&& post.startup_done() == (pre.startup_done() || is_startup_done)
                &&& if plan.startup_acknowledged {
                    &&& is_startup_flush(
                        plan.statements@,
                        pre.client().selector(),
                        pre.client().pending(),
                        pre.client().slots(),
                    )
                    &&& pre.client().same_setup(post.client())
                    &&& post.client().pending().len() == 0
                    &&& post.client().slots().len() == 0
                } else {
                    &&& plan.statements@.len() == 0
                    &&& pre.client().same_state(post.client())
                }
            },
            WorkEvent::Request(request) => {
                &&& plan.next == Verdict::Continue
                &&& post.state() == WorkerState::Running
                &&& !plan.startup_acknowledged
                &&& post.startup_done() == pre.startup_done()
                &&& plan.statements@.len() <= 1
                &&& match request {
                    WorkRequest::UpdateAccount(u) => account_update_effect(
                        pre.client(),
                        post.client(),
                        u.account@,
                        u.is_startup,
                        only(plan.statements@),
                    ),
                    WorkRequest::UpdateSlot(u) => {
                        &&& pre.client().same_state(post.client())
                        &&& plan.statements@.len() == 1
                        &&& is_statement(
                            plan.statements@[0],
                            Operation::UpdateSlotStatus,
                            slot_statement(u.slot, u.parent, u.slot_status),
                        )
                    },
                    WorkRequest::LogTransaction(u) => {
                        &&& pre.client().same_state(post.client())
                        &&& plan.statements@.len() == 1
                        &&& is_statement(
                            plan.statements@[0],
                            Operation::LogTransaction,
                            transaction_statement(
                                u.transaction_info.signature@,
                                u.transaction_info.slot,
                                u.transaction_info.index,
                                u.transaction_info.is_vote,
                            ),
                        )
                    },
                    WorkRequest::UpdateBlockMetadata(u) => {
                        &&& pre.client().same_state(post.client())
                        &&& plan.statements@.len() == 1
                        &&& is_statement(
                            plan.statements@[0],
                            Operation::UpdateBlockMetadata,
                            block_statement(
                                u.block_info.slot,
                                u.block_info.blockhash@,
                                u.block_info.block_height,
                            ),
                        )
                    },
                }
            },
        }
    }

    /// A running worker that has not ended startup, on a fresh sink; the
    /// configuration's error where the sink cannot be made.
    pub fn new(config: GeyserPluginPostgresConfig) -> (r: Result<Self, GeyserPluginPostgresError>)
        ensures
            match missing_tls_material(config) {
                Some(msg) => r matches Err(
                    GeyserPluginPostgresError::ConfigurationError { msg: m },
                ) && m@ == msg,
                None => r matches Ok(worker) && {
                    &&& worker.valid()
                    &&& worker.state() == WorkerState::Running
                    &&& !worker.startup_done()
                    &&& worker.client().batch_limit() == config.batch_size
                    &&& worker.client().selector() == config.accounts_selector
                    &&& worker.client().pending().len() == 0
                    &&& worker.client().slots().len() == 0
                },
            },
    {
        match SimplePostgresClient::new(config) {
            Ok(client) => Ok(
                ParallelClientWorker { client, is_startup_done: false, state: WorkerState::Running },
            ),
            Err(err) => Err(err),
        }
    }

    /// One turn of the loop. A request goes to the sink. A timeout ends
    /// startup, once, when the startup flag is set: the sink's flush is
    /// planned and the worker's startup is to be counted as done. The exit
    /// flag and a failed queue end the loop, the latter by ending the
    /// process where database errors are fatal. A worker that no longer
    /// runs plans nothing and stops.
    pub fn do_work(&mut self, event: WorkEvent, is_startup_done: bool, panic_on_db_errors: bool) -> (plan:
        WorkPlan)
        requires
            old(self).valid(),
        ensures
            final(self).valid(),
            plan.on_failure == failure_policy(panic_on_db_errors),
            old(self).state() == WorkerState::Running ==> old(self).turn(
                final(self),
                event,
                is_startup_done,
                plan,
            ),
            old(self).state() != WorkerState::Running ==> {
                &&& old(self).unchanged(final(self))
                &&& plan.statements@.len() == 0
                &&& !plan.startup_acknowledged
                &&& plan.next == Verdict::Stop
            },
            old(self).startup_done() ==> !plan.startup_acknowledged && final(self).startup_done(),
    {
        let on_failure = if panic_on_db_errors {
            Verdict::Abort
        } else {
            Verdict::Continue
        };
        let mut plan = WorkPlan {
            statements: Vec::new(),
            on_failure,
            startup_acknowledged: false,
            next: Verdict::Continue,
        };
        if self.state != WorkerState::Running {
            plan.next = Verdict::Stop;
            return plan;
        }
        match event {
            WorkEvent::Exit => {
                self.state = WorkerState::Draining;
                plan.next = Verdict::Stop;
            },
            WorkEvent::Disconnected => {
                self.state = WorkerState::Draining;
                plan.next = if panic_on_db_errors {
                    Verdict::Abort
                } else {
                    Verdict::Stop
                };
            },
            WorkEvent::Timeout => {
                if !self.is_startup_done && is_startup_done {
                    plan.statements = self.client.notify_end_of_startup();
                    self.is_startup_done = true;
                    plan.startup_acknowledged = true;
                }
            },
            WorkEvent::Request(request) => match request {
                WorkRequest::UpdateAccount(u) => {
                    let u: UpdateAccountRequest = *u;
                    if let Some(s) = self.client.update_account(u.account, u.is_startup) {
                        plan.statements.push(s);
                    }
                },
                WorkRequest::UpdateSlot(u) => {
                    let s = self.client.update_slot_status(u.slot, u.parent, u.slot_status);
                    plan.statements.push(s);
                },
                WorkRequest::LogTransaction(u) => {
                    let u: LogTransactionRequest = *u;
                    let s = self.client.log_transaction(u.transaction_info);
                    plan.statements.push(s);
                },
                WorkRequest::UpdateBlockMetadata(u) => {
                    let u: UpdateBlockMetadataRequest = *u;
                    let s = self.client.update_block_metadata(u.block_info);
                    plan.statements.push(s);
                },
            },
        }
        plan
    }

    /// The loop has ended: the worker is stopped.
    pub fn finish(&mut self)
        ensures
            final(self).state() == WorkerState::Stopped,
            final(self).client().same_state(old(self).client()),
            final(self).startup_done() == old(self).startup_done(),
    {
        self.state = WorkerState::Stopped;
    }

    /// Where the worker is in its life.
    pub fn current_state(&self) -> (r: WorkerState)
        ensures
            r == self.state(),
    {
        self.state
    }

    /// Whether this worker has ended startup.
    pub fn has_ended_startup(&self) -> (r: bool)
        ensures
            r == self.startup_done(),
    {
        self.is_startup_done
    }

    /// How many startup accounts wait in the worker's sink.
    pub fn pending_len(&self) -> (r: usize)
        ensures
            r == self.client().pending().len(),
    {
        self.client.pending_len()
    }

    /// How many distinct slots the worker's sink has seen during startup.
    pub fn slots_len(&self) -> (r: usize)
        ensures
            r == self.client().slots().len(),
    {
        self.client.slots_len()
    }
}

impl WorkPlan {
    /// How the loop goes on after one of the plan's statements was
    /// executed: on after a success, by the plan's policy after a failure.
    pub fn after_statement(&self, succeeded: bool) -> (r: Verdict)
        ensures
            r == if succeeded {
                Verdict::Continue
            } else {
                self.on_failure
            },
    {
        if succeeded {
            Verdict::Continue
        } else {
            self.on_failure
        }
    }
}

/// A worker counts its startup as done at most once: after a turn that
/// did, no later turn does, and the worker stays past startup.
pub proof fn lemma_startup_counted_once(
    pre: &ParallelClientWorker,
    mid: &ParallelClientWorker,
    post: &ParallelClientWorker,
    first: WorkEvent,
    first_flag: bool,
    first_plan: WorkPlan,
    second: WorkEvent,
    second_flag: bool,
    second_plan: WorkPlan,
)
    requires
        pre.turn(mid, first, first_flag, first_plan),
        first_plan.startup_acknowledged,
        mid.turn(post, second, second_flag, second_plan),
    ensures
        mid.startup_done(),
        !second_plan.startup_acknowledged,
        post.startup_done(),
{
}

/// A turn that ends startup leaves nothing pending and no slot noted, and
/// plans one Rooted upsert for each slot that was noted.
pub proof fn lemma_end_of_startup_roots_every_slot(
    pre: &ParallelClientWorker,
    post: &ParallelClientWorker,
    event: WorkEvent,
    is_startup_done: bool,
    plan: WorkPlan,
    slot: u64,
) -> (place: int)
    requires
        pre.valid(),
        pre.turn(post, event, is_startup_done, plan),
        plan.startup_acknowledged,
        pre.client().slots().contains(slot),
    ensures
        post.client().slots().len() == 0,
        post.client().pending().len() == 0,
        plan.statements@.len() == 1 + pre.client().slots().len(),
        0 <= place < pre.client().slots().len(),
        pre.client().slots()[place] == slot,
        is_statement(
            plan.statements@[place + 1],
            Operation::FlushSlots,
            slot_statement(slot, None, SlotStatus::Rooted),
        ),
        forall|other: int|
            0 <= other < pre.client().slots().len() && pre.client().slots()[other] == slot
                ==> other == place,
{
    lemma_one_rooted_upsert_per_slot(
        plan.statements@,
        pre.client().selector(),
        pre.client().pending(),
        pre.client().slots(),
        slot,
    )
}

} // verus!
