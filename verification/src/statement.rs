//! Statements handed to the database, and the errors their failure gives.

use vstd::prelude::*;
use vstd::string::*;

verus! {

/// The operation a statement belongs to; it names the operation when the
/// statement fails.
#[derive(Clone, Copy, Debug, PartialEq, Eq, Structural)]
pub enum Operation {
    UpdateAccountBatch,
    UpdateAccount,
    UpdateSlotStatus,
    FlushAccounts,
    FlushSlots,
    LogTransaction,
    UpdateBlockMetadata,
    BuildClient,
}

impl Operation {
    /// The operation's name in an error message.
    pub open spec fn label(self) -> Seq<char> {
        match self {
            Operation::UpdateAccountBatch => "update_account_batch"@,
            Operation::UpdateAccount => "update_account"@,
            Operation::UpdateSlotStatus => "update_slot_status"@,
            Operation::FlushAccounts => "notify_end_of_startup][flush_accounst_error"@,
            Operation::FlushSlots => "notify_end_of_startup][flush_slots"@,
            Operation::LogTransaction => "log_transaction"@,
            Operation::UpdateBlockMetadata => "update_block_metadata"@,
            Operation::BuildClient => "build_pararallel_postgres_client"@,
        }
    }

    /// The operation's name in an error message.
    pub fn as_str(&self) -> (r: &'static str)
        ensures
            r@ == self.label(),
    {
        match self {
            Operation::UpdateAccountBatch => "update_account_batch",
            Operation::UpdateAccount => "update_account",
            Operation::UpdateSlotStatus => "update_slot_status",
            Operation::FlushAccounts => "notify_end_of_startup][flush_accounst_error",
            Operation::FlushSlots => "notify_end_of_startup][flush_slots",
            Operation::LogTransaction => "log_transaction",
            Operation::UpdateBlockMetadata => "update_block_metadata",
            Operation::BuildClient => "build_pararallel_postgres_client",
        }
    }
}

/// What can go wrong between configuration and the database.
#[derive(Debug)]
pub enum GeyserPluginPostgresError {
    /// The configuration is incomplete or inconsistent.
    ConfigurationError { msg: String },
    /// The connection could not be established.
    ConnectionError { msg: String },
    /// The database refused a statement.
    DataSchemaError { msg: String },
    /// An account handler failed on one account.
    AccountsUpdateError { msg: String },
}

impl GeyserPluginPostgresError {
    /// The message the error carries.
    pub open spec fn message(self) -> Seq<char> {
        match self {
            GeyserPluginPostgresError::ConfigurationError { msg } => msg@,
            GeyserPluginPostgresError::ConnectionError { msg } => msg@,
            GeyserPluginPostgresError::DataSchemaError { msg } => msg@,
            GeyserPluginPostgresError::AccountsUpdateError { msg } => msg@,
        }
    }

    /// The message the error carries.
    pub fn to_text(&self) -> (r: String)
        ensures
            r@ == self.message(),
    {
        match self {
            GeyserPluginPostgresError::ConfigurationError { msg } => msg.clone(),
            GeyserPluginPostgresError::ConnectionError { msg } => msg.clone(),
            GeyserPluginPostgresError::DataSchemaError { msg } => msg.clone(),
            GeyserPluginPostgresError::AccountsUpdateError { msg } => msg.clone(),
        }
    }
}

/// The message of a failed statement: the operation in brackets, then the
/// database's own words.
pub open spec fn failure_message(operation: Operation, detail: Seq<char>) -> Seq<char> {
    "["@ + operation.label() + "] error=["@ + detail + "]"@
}

/// One text to hand to the database's batch execution, whole.
#[derive(Clone, Debug)]
pub struct Statement {
    pub operation: Operation,
    pub query: String,
}

impl Statement {
    /// The error to report when the database refused this statement with
    /// `detail`.
    pub fn failure(&self, detail: &str) -> (r: GeyserPluginPostgresError)
        ensures
            r matches GeyserPluginPostgresError::DataSchemaError { msg } && msg@
                == failure_message(self.operation, detail@),
    {
        let mut msg = String::from_str("[");
        msg.append(self.operation.as_str());
        msg.append("] error=[");
        msg.append(detail);
        msg.append("]");
        GeyserPluginPostgresError::DataSchemaError { msg }
    }
}

} // verus!
