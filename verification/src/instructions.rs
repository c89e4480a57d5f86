//! The two instructions: create an event collection, mint a ticket.

use vstd::prelude::*;

use crate::state::EventCollection;
use crate::state::Pubkey;
use crate::state::DEFAULT_MAX_TICKETS;

verus! {

/// The one error the program raises of its own: every ticket is minted.
#[derive(Clone, Copy, Debug, PartialEq, Eq)]
pub enum EventTicketError {
    SoldOut,
}

/// The accounts that initializing an event reads: the signing authority,
/// the freshly created collection mint, and the authority's associated
/// token account for that mint.
#[derive(Clone, Copy, Debug, PartialEq, Eq)]
pub struct InitializeEventCollection {
    pub authority: Pubkey,
    pub collection_mint: Pubkey,
    pub collection_token_account: Pubkey,
}

/// The accounts that minting a ticket touches: the event record and the
/// signing authority.
#[derive(Clone, Debug, PartialEq, Eq)]
pub struct MintTicket {
    pub event: EventCollection,
    pub authority: Pubkey,
}

/// A token mint the runtime still has to perform: mint `amount` tokens of
/// `mint` to the token account `to`, signed by the event account.
#[derive(Clone, Copy, Debug, PartialEq, Eq)]
pub struct MintToAction {
    pub mint: Pubkey,
    pub to: Pubkey,
    pub amount: u64,
}

/// The record a fresh event starts from: the given accounts and metadata,
/// no tickets minted, and the default cap.
pub open spec fn initialized_event(
    ctx: InitializeEventCollection,
    name: String,
    symbol: String,
    uri: String,
) -> EventCollection {
    EventCollection {
        authority: ctx.authority,
        collection_mint: ctx.collection_mint,
        name: name,
        symbol: symbol,
        uri: uri,
        tickets_minted: 0,
        max_tickets: DEFAULT_MAX_TICKETS,
    }
}

/// What a mint call leaves in the event record: the counter one higher
/// while tickets remain, the record untouched once the event is sold out.
pub open spec fn mint_step(e: EventCollection) -> EventCollection {
    if e.tickets_minted < e.max_tickets {
        EventCollection { tickets_minted: (e.tickets_minted + 1) as u64, ..e }
    } else {
        e
    }
}

/// What a mint call returns: success while tickets remain, the sold-out
/// error once the cap is reached.
pub open spec fn mint_result(e: EventCollection) -> Result<(), EventTicketError> {
    if e.tickets_minted < e.max_tickets {
        Ok(())
    } else {
        Err(EventTicketError::SoldOut)
    }
}

/// Creates the event record and names the collection token to mint.
///
/// Returns the record to persist in the event account, together with the
/// token action the runtime performs next: minting exactly one collection
/// token to the authority's associated token account, with the event
/// account as mint authority.
pub fn initialize_event_collection(
    ctx: &InitializeEventCollection,
    name: String,
    symbol: String,
    uri: String,
) -> (r: (EventCollection, MintToAction))
    ensures
        r.0 == initialized_event(*ctx, name, symbol, uri),
        r.0.tickets_minted == 0,
        r.0.max_tickets == DEFAULT_MAX_TICKETS,
        r.0.well_formed(),
        !r.0.sold_out(),
        r.1 == (MintToAction { mint: ctx.collection_mint, to: ctx.collection_token_account, amount: 1 }),
{
    let event = EventCollection {
        authority: ctx.authority,
        collection_mint: ctx.collection_mint,
        name: name,
        symbol: symbol,
        uri: uri,
        tickets_minted: 0,
        max_tickets: DEFAULT_MAX_TICKETS,
    };
    let action = MintToAction {
        mint: ctx.collection_mint,
        to: ctx.collection_token_account,
        amount: 1,
    };
    (event, action)
}

/// The record after `n` mint calls in a row, whatever each returned.
pub open spec fn mint_steps(e: EventCollection, n: nat) -> EventCollection
    decreases n,
{
    if n == 0 {
        e
    } else {
        mint_step(mint_steps(e, (n - 1) as nat))
    }
}

/// A freshly initialized record has no tickets minted, carries the default
/// cap, satisfies the invariant, and is not sold out.
pub proof fn lemma_initialized_event_fresh(
    ctx: InitializeEventCollection,
    name: String,
    symbol: String,
    uri: String,
)
    ensures
        initialized_event(ctx, name, symbol, uri).tickets_minted == 0,
        initialized_event(ctx, name, symbol, uri).max_tickets == DEFAULT_MAX_TICKETS,
        initialized_event(ctx, name, symbol, uri).well_formed(),
        !initialized_event(ctx, name, symbol, uri).sold_out(),
{
}

/// While tickets remain, a mint succeeds and raises the counter by exactly
/// one, touching nothing else in the record.
pub proof fn lemma_mint_succeeds_below_cap(e: EventCollection)
    requires
        e.tickets_minted < e.max_tickets,
    ensures
        mint_result(e) is Ok,
        mint_step(e).tickets_minted == e.tickets_minted + 1,
        mint_step(e) == (EventCollection { tickets_minted: mint_step(e).tickets_minted, ..e }),
        mint_step(e).well_formed(),
{
}

/// The mint call that would pass the cap fails with the sold-out error and
/// leaves the record exactly as it was.
pub proof fn lemma_mint_rejected_at_cap(e: EventCollection)
    requires
        e.tickets_minted >= e.max_tickets,
    ensures
        mint_result(e) == Err::<(), EventTicketError>(EventTicketError::SoldOut),
        mint_step(e) == e,
{
}

/// Minting never breaks the invariant: a well-formed record stays well
/// formed, so the counter never passes the cap.
pub proof fn lemma_mint_preserves_well_formed(e: EventCollection)
    requires
        e.well_formed(),
    ensures
        mint_step(e).well_formed(),
{
}

/// A fresh event sells exactly its cap: each of the first `max_tickets`
/// mint calls raises the counter by one, and from then on every further
/// call is refused and the counter stays at the cap.
pub proof fn lemma_fresh_event_sells_exactly_the_cap(e: EventCollection, n: nat)
    requires
        e.tickets_minted == 0,
    ensures
        mint_steps(e, n).max_tickets == e.max_tickets,
        n <= e.max_tickets ==> mint_steps(e, n).tickets_minted == n,
        n < e.max_tickets ==> mint_result(mint_steps(e, n)) is Ok,
        n >= e.max_tickets ==> mint_steps(e, n).tickets_minted == e.max_tickets
            && mint_result(mint_steps(e, n)) == Err::<(), EventTicketError>(EventTicketError::SoldOut),
    decreases n,
{
    if n > 0 {
        lemma_fresh_event_sells_exactly_the_cap(e, (n - 1) as nat);
    }
}

/// Mints one ticket against the event, refusing once the event is sold out.
///
/// While `tickets_minted < max_tickets` the call succeeds and the counter
/// rises by exactly one; otherwise it fails with the sold-out error and
/// leaves the record unchanged. The ticket number is the caller's label for
/// the ticket; the record does not store it.
pub fn mint_ticket(ctx: &mut MintTicket, ticket_number: u64) -> (r: Result<(), EventTicketError>)
    ensures
        final(ctx).event == mint_step(old(ctx).event),
        r == mint_result(old(ctx).event),
        final(ctx).authority == old(ctx).authority,
        r is Ok <==> old(ctx).event.tickets_minted < old(ctx).event.max_tickets,
        r is Ok ==> final(ctx).event.tickets_minted == old(ctx).event.tickets_minted + 1,
        r is Err ==> final(ctx).event == old(ctx).event,
{
    if ctx.event.tickets_minted < ctx.event.max_tickets {
        ctx.event.tickets_minted = ctx.event.tickets_minted + 1;
        Ok(())
    } else {
        Err(EventTicketError::SoldOut)
    }
}

} // verus!
