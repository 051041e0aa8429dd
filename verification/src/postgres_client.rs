//! The database sink: batching of startup accounts, the slots seen during
//! startup, and the statements each operation gives.

use std::collections::HashSet;
use vstd::prelude::*;
use vstd::std_specs::hash::*;
use vstd::string::*;
use crate::account::{
    account_query, all_account_handlers, batch_query, encode_account, encode_batch,
    handler_enabled, handler_schema, records, registered_handlers, AccountHandlerId, AccountRecord,
    AccountsSelectorConfig, DbAccountInfo,
};
use crate::block_handler::{block_schema, block_statement, BlockHandler, DbBlockInfo};
use crate::config::{
    missing_tls_error, missing_tls_material, plan_follows, ConnectionPlan,
    GeyserPluginPostgresConfig,
};
use crate::slot_handler::{slot_schema, slot_statement, SlotHandler, SlotStatus};
use crate::statement::{GeyserPluginPostgresError, Operation, Statement};
use crate::transaction_handler::{
    transaction_schema, transaction_statement, DbTransaction, TransactionHandler,
};

verus! {

/// The slots seen so far, with `slot` noted: appended unless already there.
pub open spec fn with_slot(slots: Seq<u64>, slot: u64) -> Seq<u64> {
    if slots.contains(slot) {
        slots
    } else {
        slots.push(slot)
    }
}

/// Whether `statement` belongs to `operation` and carries `query`.
pub open spec fn is_statement(statement: Statement, operation: Operation, query: Seq<char>) -> bool {
    statement.operation == operation && statement.query@ == query
}

/// The statements that end startup: the remaining accounts as one batch,
/// then one Rooted upsert per slot seen, in the order in which the slots
/// were first seen.
pub open spec fn is_startup_flush(
    statements: Seq<Statement>,
    selector: Option<AccountsSelectorConfig>,
    pending: Seq<AccountRecord>,
    slots: Seq<u64>,
) -> bool {
    &&& statements.len() == 1 + slots.len()
    &&& is_statement(statements[0], Operation::FlushAccounts, batch_query(selector, pending))
    &&& forall|i: int|
        0 <= i < slots.len() ==> is_statement(
            #[trigger] statements[i + 1],
            Operation::FlushSlots,
            slot_statement(slots[i], None, SlotStatus::Rooted),
        )
}

/// What one account update does to a sink and what it gives. During startup
/// the slot is noted and the account joins the pending batch; a batch that
/// has reached the batch size is given as one statement and emptied. After
/// startup the sink stays as it is and the account's own text is given,
/// unless it is empty.
pub open spec fn account_update_effect(
    pre: &SimplePostgresClient,
    post: &SimplePostgresClient,
    account: AccountRecord,
    is_startup: bool,
    r: Option<Statement>,
) -> bool {
    let batch = pre.pending().push(account);
    let text = account_query(pre.selector(), account);
    &&& pre.same_setup(post)
    &&& is_startup ==> post.slots() == with_slot(pre.slots(), account.slot)
    &&& is_startup && batch.len() >= pre.batch_limit() ==> {
        &&& post.pending().len() == 0
        &&& r matches Some(s) && is_statement(
            s,
            Operation::UpdateAccountBatch,
            batch_query(pre.selector(), batch),
        )
    }
    &&& is_startup && batch.len() < pre.batch_limit() ==> {
        &&& post.pending() == batch
        &&& r is None
    }
    &&& !is_startup ==> pre.same_state(post)
    &&& !is_startup && text.len() == 0 ==> r is None
    &&& !is_startup && text.len() > 0 ==> {
        r matches Some(s) && is_statement(s, Operation::UpdateAccount, text)
    }
}

/// What a database sink does. No operation touches the database: each gives
/// the statements to execute, in order, and has already changed the sink's
/// state as if they had been executed, whether they then succeed or not.
pub trait PostgresClient {
    /// The sink's invariant.
    spec fn valid(&self) -> bool;

    /// Takes one account update.
    fn update_account(&mut self, account: DbAccountInfo, is_startup: bool) -> (r: Option<Statement>)
        requires
            old(self).valid(),
        ensures
            final(self).valid(),
    ;

    /// Takes one slot status change.
    fn update_slot_status(&mut self, slot: u64, parent: Option<u64>, status: SlotStatus) -> (r:
        Statement)
        requires
            old(self).valid(),
        ensures
            final(self).valid(),
    ;

    /// Ends startup.
    fn notify_end_of_startup(&mut self) -> (r: Vec<Statement>)
        requires
            old(self).valid(),
        ensures
            final(self).valid(),
    ;

    /// Takes one transaction.
    fn log_transaction(&mut self, transaction_info: DbTransaction) -> (r: Statement)
        requires
            old(self).valid(),
        ensures
            final(self).valid(),
    ;

    /// Takes the metadata of one block.
    fn update_block_metadata(&mut self, block_info: DbBlockInfo) -> (r: Statement)
        requires
            old(self).valid(),
        ensures
            final(self).valid(),
    ;
}

/// A sink for one database connection.
pub struct SimplePostgresClient {
    batch_size: usize,
    slots_at_startup: HashSet<u64>,
    slot_order: Vec<u64>,
    pending_account_updates: Vec<DbAccountInfo>,
    account_selector: Option<AccountsSelectorConfig>,
}

impl SimplePostgresClient {
    /// The number of pending accounts at which the batch is flushed.
    pub closed spec fn batch_limit(&self) -> usize {
        self.batch_size
    }

    /// The startup accounts that wait for the next flush, oldest first.
    pub closed spec fn pending(&self) -> Seq<AccountRecord> {
        records(self.pending_account_updates@)
    }

    /// The slots seen during startup, in the order in which they were first
    /// seen.
    pub closed spec fn slots(&self) -> Seq<u64> {
        self.slot_order@
    }

    /// The set of slots seen is the set of those in the order of their
    /// first appearance.
    pub closed spec fn indexed(&self) -> bool {
        self.slot_order@.to_set() == self.slots_at_startup@
    }

    /// The selector that narrows the handlers, if one is configured.
    pub closed spec fn selector(&self) -> Option<AccountsSelectorConfig> {
        self.account_selector
    }

    /// Whether `other` has the same configuration as `self`.
    pub open spec fn same_setup(&self, other: &SimplePostgresClient) -> bool {
        self.batch_limit() == other.batch_limit() && self.selector() == other.selector()
    }

    /// Whether `other` has the same configuration, pending accounts and
    /// slots seen as `self`.
    pub open spec fn same_state(&self, other: &SimplePostgresClient) -> bool {
        self.same_setup(other) && self.pending() == other.pending() && self.slots()
            == other.slots()
    }

    /// Decides how to connect: with TLS where the configuration asks for it,
    /// plain otherwise. The three TLS files are named together or not at
    /// all: where TLS is asked for or any of them is named, a configuration
    /// that does not name all three is refused with the name of the first
    /// that is missing.
    pub fn connect_to_db(config: &GeyserPluginPostgresConfig) -> (r: Result<
        ConnectionPlan,
        GeyserPluginPostgresError,
    >)
        ensures
            match missing_tls_material(*config) {
                Some(msg) => r matches Err(
                    GeyserPluginPostgresError::ConfigurationError { msg: m },
                ) && m@ == msg,
                None => r matches Ok(plan) && plan_follows(plan, *config),
            },
    {
        let use_ssl = match config.use_ssl {
            Some(true) => true,
            _ => false,
        };
        let named = config.server_ca.is_some() || config.client_cert.is_some()
            || config.client_key.is_some();
        if !use_ssl && !named {
            return Ok(ConnectionPlan::Plain { connection_str: config.connection_str.clone() });
        }
        let server_ca = match &config.server_ca {
            Some(s) => s.clone(),
            None => {
                return Err(missing_tls_error("server_ca", use_ssl));
            },
        };
        let client_cert = match &config.client_cert {
            Some(s) => s.clone(),
            None => {
                return Err(missing_tls_error("client_cert", use_ssl));
            },
        };
        let client_key = match &config.client_key {
            Some(s) => s.clone(),
            None => {
                return Err(missing_tls_error("client_key", use_ssl));
            },
        };
        if use_ssl {
            Ok(
                ConnectionPlan::Tls {
                    connection_str: config.connection_str.clone(),
                    server_ca,
                    client_cert,
                    client_key,
                },
            )
        } else {
            Ok(ConnectionPlan::Plain { connection_str: config.connection_str.clone() })
        }
    }

    /// A sink with nothing pending and no slot seen, for a configuration
    /// whose connection can be planned; the configuration's error otherwise.
    pub fn new(config: GeyserPluginPostgresConfig) -> (r: Result<Self, GeyserPluginPostgresError>)
        ensures
            match missing_tls_material(config) {
                Some(msg) => r matches Err(
                    GeyserPluginPostgresError::ConfigurationError { msg: m },
                ) && m@ == msg,
                None => r matches Ok(client) && {
                    &&& client.valid()
                    &&& client.batch_limit() == config.batch_size
                    &&& client.selector() == config.accounts_selector
                    &&& client.pending().len() == 0
                    &&& client.slots().len() == 0
                },
            },
    {
        match Self::connect_to_db(&config) {
            Err(err) => Err(err),
            Ok(_) => {
                let client = SimplePostgresClient {
                    batch_size: config.batch_size,
                    slots_at_startup: HashSet::new(),
                    slot_order: Vec::new(),
                    pending_account_updates: Vec::new(),
                    account_selector: config.accounts_selector,
                };
                assert(client.slot_order@.to_set() =~= client.slots_at_startup@);
                Ok(client)
            },
        }
    }

    /// How many startup accounts wait for the next flush.
    pub fn pending_len(&self) -> (r: usize)
        ensures
            r == self.pending().len(),
    {
        self.pending_account_updates.len()
    }

    /// How many distinct slots were seen during startup.
    pub fn slots_len(&self) -> (r: usize)
        ensures
            r == self.slots().len(),
    {
        self.slot_order.len()
    }

    /// Whether `slot` was seen during startup.
    pub fn has_slot(&self, slot: u64) -> (r: bool)
        requires
            self.valid(),
        ensures
            r == self.slots().contains(slot),
    {
        broadcast use group_hash_axioms;

        self.slots_at_startup.contains(&slot)
    }

    /// Notes a slot seen during startup.
    fn note_slot(&mut self, slot: u64)
        requires
            old(self).slots().no_duplicates(),
            old(self).indexed(),
        ensures
            final(self).slots() == with_slot(old(self).slots(), slot),
            final(self).slots().no_duplicates(),
            final(self).indexed(),
            final(self).pending() == old(self).pending(),
            final(self).pending_account_updates == old(self).pending_account_updates,
            old(self).same_setup(final(self)),
    {
        broadcast use group_hash_axioms;

        let fresh = self.slots_at_startup.insert(slot);
        if fresh {
            self.slot_order.push(slot);
        }
        proof {
            lemma_with_slot(old(self).slot_order@, slot);
        }
    }
}

impl PostgresClient for SimplePostgresClient {
    /// Every slot seen is noted once, and a pending batch is either empty or
    /// below the batch size.
    open spec fn valid(&self) -> bool {
        &&& self.slots().no_duplicates()
        &&& self.indexed()
        &&& (self.pending().len() == 0 || self.pending().len() < self.batch_limit())
    }

    /// During startup the account joins the pending batch and its slot is
    /// noted; when the batch has reached the batch size it is encoded as one
    /// statement and the batch is emptied. After startup the account is
    /// encoded at once, and nothing is given where no handler writes
    /// anything for it.
    fn update_account(&mut self, account: DbAccountInfo, is_startup: bool) -> (r: Option<Statement>)
        ensures
            account_update_effect(old(self), final(self), account@, is_startup, r),
    {
        if is_startup {
            self.note_slot(account.slot);
            proof {
                assert(records(self.pending_account_updates@.push(account)) =~= records(
                    self.pending_account_updates@,
                ).push(account@));
            }
            self.pending_account_updates.push(account);
            if self.pending_account_updates.len() >= self.batch_size {
                let query = encode_batch(&self.account_selector, &self.pending_account_updates);
                self.pending_account_updates = Vec::new();
                return Some(Statement { operation: Operation::UpdateAccountBatch, query });
            }
            return None;
        }
        let query = encode_account(&self.account_selector, &account);
        if query.as_str().is_empty() {
            None
        } else {
            Some(Statement { operation: Operation::UpdateAccount, query })
        }
    }

    /// The slot's upsert; the sink is unchanged.
    fn update_slot_status(&mut self, slot: u64, parent: Option<u64>, status: SlotStatus) -> (r:
        Statement)
        ensures
            old(self).same_state(final(self)),
            is_statement(r, Operation::UpdateSlotStatus, slot_statement(slot, parent, status)),
    {
        Statement { operation: Operation::UpdateSlotStatus, query: SlotHandler::update(slot, parent, status) }
    }

    /// The pending accounts as one batch, whatever their number, then one
    /// Rooted upsert for each slot seen; afterwards nothing is pending and no
    /// slot is noted.
    fn notify_end_of_startup(&mut self) -> (r: Vec<Statement>)
        ensures
            old(self).same_setup(final(self)),
            final(self).pending().len() == 0,
            final(self).slots().len() == 0,
            is_startup_flush(r@, old(self).selector(), old(self).pending(), old(self).slots()),
    {
        let mut statements: Vec<Statement> = Vec::new();
        let query = encode_batch(&self.account_selector, &self.pending_account_updates);
        statements.push(Statement { operation: Operation::FlushAccounts, query });
        let mut i: usize = 0;
        while i < self.slot_order.len()
            invariant
                i <= self.slot_order@.len(),
                statements@.len() == 1 + i,
                is_statement(
                    statements@[0],
                    Operation::FlushAccounts,
                    batch_query(self.selector(), self.pending()),
                ),
                forall|k: int|
                    0 <= k < i ==> is_statement(
                        #[trigger] statements@[k + 1],
                        Operation::FlushSlots,
                        slot_statement(self.slot_order@[k], None, SlotStatus::Rooted),
                    ),
            decreases self.slot_order@.len() - i,
        {
            let query = SlotHandler::update(self.slot_order[i], None, SlotStatus::Rooted);
            statements.push(Statement { operation: Operation::FlushSlots, query });
            i += 1;
        }
        self.pending_account_updates = Vec::new();
        self.slots_at_startup = HashSet::new();
        self.slot_order = Vec::new();
        assert(self.slot_order@.to_set() =~= self.slots_at_startup@);
        statements
    }

    /// The transaction's insert; the sink is unchanged.
    fn log_transaction(&mut self, transaction_info: DbTransaction) -> (r: Statement)
        ensures
            old(self).same_state(final(self)),
            is_statement(
                r,
                Operation::LogTransaction,
                transaction_statement(
                    transaction_info.signature@,
                    transaction_info.slot,
                    transaction_info.index,
                    transaction_info.is_vote,
                ),
            ),
    {
        Statement {
            operation: Operation::LogTransaction,
            query: TransactionHandler::update(&transaction_info),
        }
    }

    /// The block's insert; the sink is unchanged.
    fn update_block_metadata(&mut self, block_info: DbBlockInfo) -> (r: Statement)
        ensures
            old(self).same_state(final(self)),
            is_statement(
                r,
                Operation::UpdateBlockMetadata,
                block_statement(block_info.slot, block_info.blockhash@, block_info.block_height),
            ),
    {
        Statement {
            operation: Operation::UpdateBlockMetadata,
            query: BlockHandler::update(&block_info),
        }
    }
}

/// The schemas of those of `handlers` that are switched on, in order.
pub open spec fn handler_schemas(
    selector: Option<AccountsSelectorConfig>,
    handlers: Seq<AccountHandlerId>,
) -> Seq<char>
    decreases handlers.len(),
{
    if handlers.len() == 0 {
        Seq::<char>::empty()
    } else if handler_enabled(selector, handlers.last()) {
        handler_schemas(selector, handlers.drop_last()) + handler_schema(handlers.last())
    } else {
        handler_schemas(selector, handlers.drop_last())
    }
}

/// Everything that is created before the first write: the schemas of the
/// account handlers that are switched on, then those of slots, blocks and
/// transactions.
pub open spec fn schema(selector: Option<AccountsSelectorConfig>) -> Seq<char> {
    handler_schemas(selector, registered_handlers()) + slot_schema() + block_schema()
        + transaction_schema()
}

/// The slot from which startup accounts are written when those already
/// stored are skipped: the highest stored slot less the cushion, and never
/// below zero.
pub open spec fn batch_starting_slot(highest: u64, cushion: u64) -> u64 {
    if highest >= cushion {
        (highest - cushion) as u64
    } else {
        0
    }
}

/// Prepares the database for a pool of sinks.
pub struct PostgresClientBuilder {}

impl PostgresClientBuilder {
    /// The statement that creates what the sinks write to.
    pub fn init_query(config: &GeyserPluginPostgresConfig) -> (r: Statement)
        ensures
            is_statement(r, Operation::BuildClient, schema(config.accounts_selector)),
    {
        let all = all_account_handlers();
        let mut q = String::new();
        let mut i: usize = 0;
        while i < all.len()
            invariant
                i <= all@.len(),
                q@ == handler_schemas(config.accounts_selector, all@.take(i as int)),
            decreases all@.len() - i,
        {
            let id = all[i];
            proof {
                let next = all@.take(i + 1);
                assert(next.drop_last() =~= all@.take(i as int));
                assert(next.last() == id);
            }
            let part = id.init(config);
            q.append(part.as_str());
            i += 1;
        }
        assert(all@.take(i as int) =~= all@);
        let slots = SlotHandler::init();
        q.append(slots.as_str());
        let blocks = BlockHandler::init();
        q.append(blocks.as_str());
        let transactions = TransactionHandler::init();
        q.append(transactions.as_str());
        Statement { operation: Operation::BuildClient, query: q }
    }

    /// Where startup begins to write, given the highest slot that is already
    /// stored: nothing is skipped unless the configuration asks for it, and
    /// then only what lies below that slot less the cushion.
    pub fn build_pararallel_postgres_client(
        config: &GeyserPluginPostgresConfig,
        highest_available_slot: u64,
    ) -> (r: Option<u64>)
        ensures
            r == if config.skip_upsert_existing_accounts_at_startup {
                Some(
                    batch_starting_slot(
                        highest_available_slot,
                        config.safe_batch_starting_slot_cushion,
                    ),
                )
            } else {
                None::<u64>
            },
    {
        if config.skip_upsert_existing_accounts_at_startup {
            Some(highest_available_slot.saturating_sub(config.safe_batch_starting_slot_cushion))
        } else {
            None
        }
    }
}

/// While its batch size is at least one, a valid sink holds fewer pending
/// accounts than its batch size.
pub proof fn lemma_pending_below_batch_size(client: &SimplePostgresClient)
    requires
        client.valid(),
        client.batch_limit() >= 1,
    ensures
        client.pending().len() < client.batch_limit(),
{
}

/// Noting a slot adds it to the slots seen and to nothing else, and keeps
/// every slot noted once.
pub proof fn lemma_with_slot(slots: Seq<u64>, slot: u64)
    requires
        slots.no_duplicates(),
    ensures
        with_slot(slots, slot).no_duplicates(),
        with_slot(slots, slot).to_set() == slots.to_set().insert(slot),
{
    let after = with_slot(slots, slot);
    assert forall|s: u64| after.to_set().contains(s) <==> slots.to_set().insert(slot).contains(
        s,
    ) by {
        if after.contains(s) {
            let k = choose|k: int| 0 <= k < after.len() && after[k] == s;
            if k < slots.len() {
                assert(slots[k] == s);
            }
        }
        if slots.contains(s) {
            let k = choose|k: int| 0 <= k < slots.len() && slots[k] == s;
            assert(after[k] == s);
        }
        if s == slot && !slots.contains(slot) {
            assert(after[slots.len() as int] == slot);
        }
    }
    assert(after.to_set() =~= slots.to_set().insert(slot));
}

/// In the statements that end startup, every slot seen has exactly one
/// place, and the statement at that place is its Rooted upsert.
pub proof fn lemma_one_rooted_upsert_per_slot(
    statements: Seq<Statement>,
    selector: Option<AccountsSelectorConfig>,
    pending: Seq<AccountRecord>,
    slots: Seq<u64>,
    slot: u64,
) -> (place: int)
    requires
        is_startup_flush(statements, selector, pending, slots),
        slots.no_duplicates(),
        slots.contains(slot),
    ensures
        0 <= place < slots.len(),
        slots[place] == slot,
        is_statement(
            statements[place + 1],
            Operation::FlushSlots,
            slot_statement(slot, None, SlotStatus::Rooted),
        ),
        forall|other: int| 0 <= other < slots.len() && slots[other] == slot ==> other == place,
        statements.len() == 1 + slots.len(),
{
    let place = choose|k: int| 0 <= k < slots.len() && slots[k] == slot;
    place
}

} // verus!
