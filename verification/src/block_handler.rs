//! Block metadata records.

use vstd::prelude::*;
use vstd::string::*;
use crate::encoding::{base58, base58_text};
use crate::slot_handler::parent_text;
use crate::text::{decimal, decimal_text};

verus! {

/// Metadata of one block.
#[derive(Clone, Debug)]
pub struct DbBlockInfo {
    pub slot: u64,
    pub blockhash: Vec<u8>,
    pub block_height: Option<u64>,
}

/// The insert of a block's metadata; a block that is already stored stays
/// as it is.
pub open spec fn block_statement(slot: u64, blockhash: Seq<u8>, block_height: Option<u64>) -> Seq<
    char,
> {
    "INSERT INTO block (slot, blockhash, block_height) VALUES ("@ + decimal_text(slot as nat)
        + ", '"@ + base58_text(blockhash) + "', "@ + parent_text(block_height)
        + ") ON CONFLICT (slot) DO NOTHING;"@
}

/// The schema of the block table.
pub open spec fn block_schema() -> Seq<char> {
    "CREATE TABLE IF NOT EXISTS block (slot NUMERIC(20) PRIMARY KEY, blockhash VARCHAR(44) NOT NULL, block_height NUMERIC(20));"@
}

/// Encodes block metadata.
pub struct BlockHandler {}

impl BlockHandler {
    /// The block table's schema.
    pub fn init() -> (r: String)
        ensures
            r@ == block_schema(),
    {
        String::from_str(
            "CREATE TABLE IF NOT EXISTS block (slot NUMERIC(20) PRIMARY KEY, blockhash VARCHAR(44) NOT NULL, block_height NUMERIC(20));",
        )
    }

    /// The insert for one block.
    pub fn update(block_info: &DbBlockInfo) -> (r: String)
        ensures
            r@ == block_statement(block_info.slot, block_info.blockhash@, block_info.block_height),
    {
        let slot = decimal(block_info.slot);
        let hash = base58(block_info.blockhash.as_slice());
        let height = match block_info.block_height {
            Some(h) => decimal(h),
            None => String::from_str("NULL"),
        };
        let mut q = String::from_str("INSERT INTO block (slot, blockhash, block_height) VALUES (");
        q.append(slot.as_str());
        q.append(", '");
        q.append(hash.as_str());
        q.append("', ");
        q.append(height.as_str());
        q.append(") ON CONFLICT (slot) DO NOTHING;");
        q
    }
}

} // verus!
