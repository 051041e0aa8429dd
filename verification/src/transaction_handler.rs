//! Transaction records.

use vstd::prelude::*;
use vstd::string::*;
use crate::encoding::{base58, base58_text};
use crate::text::{decimal, decimal_text};

verus! {

/// One transaction as it is logged.
#[derive(Clone, Debug)]
pub struct DbTransaction {
    pub signature: Vec<u8>,
    pub slot: u64,
    pub index: u64,
    pub is_vote: bool,
}

/// The insert of a transaction; one that is already stored stays as it is.
pub open spec fn transaction_statement(
    signature: Seq<u8>,
    slot: u64,
    index: u64,
    is_vote: bool,
) -> Seq<char> {
    "INSERT INTO transaction (signature, slot, index, is_vote) VALUES ('"@ + base58_text(signature)
        + "', "@ + decimal_text(slot as nat) + ", "@ + decimal_text(index as nat) + ", "@ + (
    if is_vote {
        "true"@
    } else {
        "false"@
    }) + ") ON CONFLICT (signature, slot) DO NOTHING;"@
}

/// The schema of the transaction table.
pub open spec fn transaction_schema() -> Seq<char> {
    "CREATE TABLE IF NOT EXISTS transaction (signature VARCHAR(88) NOT NULL, slot NUMERIC(20) NOT NULL, index NUMERIC(20) NOT NULL, is_vote BOOL NOT NULL, PRIMARY KEY (signature, slot));"@
}

/// Encodes transactions.
pub struct TransactionHandler {}

impl TransactionHandler {
    /// The transaction table's schema.
    pub fn init() -> (r: String)
        ensures
            r@ == transaction_schema(),
    {
        String::from_str(
            "CREATE TABLE IF NOT EXISTS transaction (signature VARCHAR(88) NOT NULL, slot NUMERIC(20) NOT NULL, index NUMERIC(20) NOT NULL, is_vote BOOL NOT NULL, PRIMARY KEY (signature, slot));",
        )
    }

    /// The insert for one transaction.
    pub fn update(transaction_info: &DbTransaction) -> (r: String)
        ensures
            r@ == transaction_statement(
                transaction_info.signature@,
                transaction_info.slot,
                transaction_info.index,
                transaction_info.is_vote,
            ),
    {
        let signature = base58(transaction_info.signature.as_slice());
        let slot = decimal(transaction_info.slot);
        let index = decimal(transaction_info.index);
        let mut q = String::from_str(
            "INSERT INTO transaction (signature, slot, index, is_vote) VALUES ('",
        );
        q.append(signature.as_str());
        q.append("', ");
        q.append(slot.as_str());
        q.append(", ");
        q.append(index.as_str());
        q.append(", ");
        q.append(if transaction_info.is_vote {
            "true"
        } else {
            "false"
        });
        q.append(") ON CONFLICT (signature, slot) DO NOTHING;");
        q
    }
}

} // verus!
