//! On-chain ticketing for a single event, backed by an NFT collection mint.
//!
//! The library holds the verified core of the program: the persisted
//! [`EventCollection`](state::EventCollection) record, the instruction that
//! creates it, and the instruction that mints numbered tickets against it up
//! to a fixed cap. The surrounding runtime (account validation, address
//! derivation, the cross-program token mint) stays outside; the instructions
//! here work on plain account values and hand back the token action to
//! perform.

pub mod instructions;
pub mod state;

pub use instructions::initialize_event_collection;
pub use instructions::mint_ticket;
pub use instructions::EventTicketError;
pub use instructions::InitializeEventCollection;
pub use instructions::MintTicket;
pub use instructions::MintToAction;
pub use state::EventCollection;
pub use state::Pubkey;
