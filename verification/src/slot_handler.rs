//! Slot status upserts and the rule by which a stored status gives way.

use vstd::prelude::*;
use vstd::string::*;
use crate::text::{decimal, decimal_text};

verus! {

/// How far a slot has progressed.
#[derive(Clone, Copy, Debug, PartialEq, Eq, Structural)]
pub enum SlotStatus {
    Processed,
    Confirmed,
    Rooted,
}

impl SlotStatus {
    /// Position in the order Processed, Confirmed, Rooted.
    pub open spec fn rank(self) -> nat {
        match self {
            SlotStatus::Processed => 0,
            SlotStatus::Confirmed => 1,
            SlotStatus::Rooted => 2,
        }
    }

    /// The status as it is stored.
    pub open spec fn name(self) -> Seq<char> {
        match self {
            SlotStatus::Processed => "processed"@,
            SlotStatus::Confirmed => "confirmed"@,
            SlotStatus::Rooted => "rooted"@,
        }
    }

    /// Position in the order Processed, Confirmed, Rooted.
    pub fn progress(&self) -> (r: u64)
        ensures
            r == self.rank(),
    {
        match self {
            SlotStatus::Processed => 0,
            SlotStatus::Confirmed => 1,
            SlotStatus::Rooted => 2,
        }
    }

    /// The status as it is stored.
    pub fn as_str(&self) -> (r: &'static str)
        ensures
            r@ == self.name(),
    {
        match self {
            SlotStatus::Processed => "processed",
            SlotStatus::Confirmed => "confirmed",
            SlotStatus::Rooted => "rooted",
        }
    }
}

/// A parent slot as a value in a statement: its number, or NULL.
pub open spec fn parent_text(parent: Option<u64>) -> Seq<char> {
    match parent {
        Some(p) => decimal_text(p as nat),
        None => "NULL"@,
    }
}

/// The upsert of a slot's status. A stored row gives way only to a status of
/// equal or later progress, and keeps its parent where none is given.
pub open spec fn slot_statement(slot: u64, parent: Option<u64>, status: SlotStatus) -> Seq<char> {
    "INSERT INTO slot AS s (slot, parent, status, progress) VALUES ("@ + decimal_text(slot as nat)
        + ", "@ + parent_text(parent) + ", '"@ + status.name() + "', "@ + decimal_text(
        status.rank(),
    )
        + ") ON CONFLICT (slot) DO UPDATE SET parent=COALESCE(excluded.parent, s.parent), status=excluded.status, progress=excluded.progress WHERE s.progress <= excluded.progress;"@
}

/// The schema of the slot table.
pub open spec fn slot_schema() -> Seq<char> {
    "CREATE TABLE IF NOT EXISTS slot (slot NUMERIC(20) PRIMARY KEY, parent NUMERIC(20), status VARCHAR(16) NOT NULL, progress SMALLINT NOT NULL);"@
}

/// The query for the highest slot that is stored, 0 where none is.
pub open spec fn highest_slot_query_text() -> Seq<char> {
    "SELECT COALESCE(MAX(slot), 0)::BIGINT FROM slot"@
}

/// The status a slot's row holds once `incoming` was applied to it under the
/// statement's guard: the incoming status unless a later one is stored.
pub open spec fn stored_status_after(stored: Option<SlotStatus>, incoming: SlotStatus) -> SlotStatus {
    match stored {
        None => incoming,
        Some(s) => if s.rank() <= incoming.rank() {
            incoming
        } else {
            s
        },
    }
}

/// Encodes slot status changes.
pub struct SlotHandler {}

impl SlotHandler {
    /// The slot table's schema.
    pub fn init() -> (r: String)
        ensures
            r@ == slot_schema(),
    {
        String::from_str(
            "CREATE TABLE IF NOT EXISTS slot (slot NUMERIC(20) PRIMARY KEY, parent NUMERIC(20), status VARCHAR(16) NOT NULL, progress SMALLINT NOT NULL);",
        )
    }

    /// The query for the highest slot that is stored.
    pub fn highest_slot_query() -> (r: String)
        ensures
            r@ == highest_slot_query_text(),
    {
        String::from_str("SELECT COALESCE(MAX(slot), 0)::BIGINT FROM slot")
    }

    /// The upsert for one status change.
    pub fn update(slot: u64, parent: Option<u64>, status: SlotStatus) -> (r: String)
        ensures
            r@ == slot_statement(slot, parent, status),
    {
        let slot_text = decimal(slot);
        let parent_value = match parent {
            Some(p) => decimal(p),
            None => String::from_str("NULL"),
        };
        let progress = decimal(status.progress());
        let mut q = String::from_str(
            "INSERT INTO slot AS s (slot, parent, status, progress) VALUES (",
        );
        q.append(slot_text.as_str());
        q.append(", ");
        q.append(parent_value.as_str());
        q.append(", '");
        q.append(status.as_str());
        q.append("', ");
        q.append(progress.as_str());
        q.append(
            ") ON CONFLICT (slot) DO UPDATE SET parent=COALESCE(excluded.parent, s.parent), status=excluded.status, progress=excluded.progress WHERE s.progress <= excluded.progress;",
        );
        q
    }

    /// Whether a stored status gives way to an incoming one: the guard that
    /// the upsert carries.
    pub fn gives_way(stored: SlotStatus, incoming: SlotStatus) -> (r: bool)
        ensures
            r == (stored.rank() <= incoming.rank()),
            r == (stored_status_after(Some(stored), incoming) == incoming),
    {
        stored.progress() <= incoming.progress()
    }
}

/// A stored status never regresses: whatever is applied, and in whatever
/// order, the row's status is at least as late as before and at least as
/// late as what was applied.
pub proof fn lemma_status_never_regresses(stored: Option<SlotStatus>, incoming: SlotStatus)
    ensures
        stored_status_after(stored, incoming).rank() >= incoming.rank(),
        stored matches Some(s) ==> stored_status_after(stored, incoming).rank() >= s.rank(),
{
}

/// Applying a later status and then an earlier one leaves the later one
/// stored.
pub proof fn lemma_status_out_of_order(
    stored: Option<SlotStatus>,
    later: SlotStatus,
    earlier: SlotStatus,
)
    requires
        earlier.rank() < later.rank(),
    ensures
        stored_status_after(Some(stored_status_after(stored, later)), earlier)
            == stored_status_after(stored, later),
{
}

/// Applying the same status twice is the same as applying it once.
pub proof fn lemma_status_idempotent(stored: Option<SlotStatus>, incoming: SlotStatus)
    ensures
        stored_status_after(Some(stored_status_after(stored, incoming)), incoming)
            == stored_status_after(stored, incoming),
{
}

} // verus!
