//! The persisted event record and the account addresses it refers to.

use vstd::prelude::*;

verus! {

/// The fixed ticket cap that every freshly initialized event receives.
pub const DEFAULT_MAX_TICKETS: u64 = 100;

/// A 32-byte account address on the host ledger.
///
/// The instructions only copy and compare addresses, so the record holds
/// them as plain bytes; deriving and validating them is the runtime's job.
#[derive(Clone, Copy, Debug, PartialEq, Eq, Hash)]
pub struct Pubkey {
    pub bytes: [u8; 32],
}

/// The event account: one record per event, created once and mutated only
/// by minting tickets.
///
/// Its invariant, [`EventCollection::well_formed`], is that the counter
/// never passes the cap.
#[derive(Clone, Debug, PartialEq, Eq)]
pub struct EventCollection {
    pub authority: Pubkey,
    pub collection_mint: Pubkey,
    pub name: String,
    pub symbol: String,
    pub uri: String,
    pub tickets_minted: u64,
    pub max_tickets: u64,
}

impl EventCollection {
    /// Account size budget: discriminator, two addresses, the three
    /// string fields, and the two counters.
    pub const SPACE: usize = 8 + 32 + 32 + 64 + 16 + 128 + 8 + 8;

    /// The record's invariant: no more tickets minted than the cap allows.
    pub open spec fn well_formed(self) -> bool {
        self.tickets_minted <= self.max_tickets
    }

    /// The event has no tickets left.
    pub open spec fn sold_out(self) -> bool {
        self.tickets_minted >= self.max_tickets
    }

    /// Whether every ticket has been minted.
    pub fn is_sold_out(&self) -> (r: bool)
        ensures
            r == self.sold_out(),
    {
        self.tickets_minted >= self.max_tickets
    }
}

} // verus!
