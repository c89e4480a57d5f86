use event_tickets::initialize_event_collection;
use event_tickets::mint_ticket;
use event_tickets::EventCollection;
use event_tickets::EventTicketError;
use event_tickets::InitializeEventCollection;
use event_tickets::MintTicket;
use event_tickets::Pubkey;

fn key(b: u8) -> Pubkey {
    Pubkey { bytes: [b; 32] }
}

fn init_accounts() -> InitializeEventCollection {
    InitializeEventCollection {
        authority: key(1),
        collection_mint: key(2),
        collection_token_account: key(3),
    }
}

fn fresh_event() -> EventCollection {
    let (event, _action) = initialize_event_collection(
        &init_accounts(),
        String::from("Rust Conf"),
        String::from("RC"),
        String::from("https://example.com/rc.json"),
    );
    event
}

#[test]
fn initialize_sets_counter_and_cap() {
    let event = fresh_event();
    assert_eq!(event.tickets_minted, 0);
    assert_eq!(event.max_tickets, 100);
}

#[test]
fn initialize_copies_accounts_and_metadata() {
    let event = fresh_event();
    assert_eq!(event.authority, key(1));
    assert_eq!(event.collection_mint, key(2));
    assert_eq!(event.name, "Rust Conf");
    assert_eq!(event.symbol, "RC");
    assert_eq!(event.uri, "https://example.com/rc.json");
}

#[test]
fn initialize_mints_one_collection_token() {
    let (_event, action) = initialize_event_collection(
        &init_accounts(),
        String::from("Rust Conf"),
        String::from("RC"),
        String::from("https://example.com/rc.json"),
    );
    assert_eq!(action.mint, key(2));
    assert_eq!(action.to, key(3));
    assert_eq!(action.amount, 1);
}

#[test]
fn mint_below_cap_increments_by_one() {
    let mut ctx = MintTicket { event: fresh_event(), authority: key(1) };
    let before = ctx.event.clone();
    let r = mint_ticket(&mut ctx, 1);
    assert_eq!(r, Ok(()));
    assert_eq!(ctx.event.tickets_minted, before.tickets_minted + 1);
    assert_eq!(ctx.event.authority, before.authority);
    assert_eq!(ctx.event.collection_mint, before.collection_mint);
    assert_eq!(ctx.event.name, before.name);
    assert_eq!(ctx.event.symbol, before.symbol);
    assert_eq!(ctx.event.uri, before.uri);
    assert_eq!(ctx.event.max_tickets, before.max_tickets);
}

#[test]
fn mint_past_cap_fails_sold_out_and_leaves_counter() {
    let mut event = fresh_event();
    event.tickets_minted = 100;
    let mut ctx = MintTicket { event: event.clone(), authority: key(1) };
    let r = mint_ticket(&mut ctx, 101);
    assert_eq!(r, Err(EventTicketError::SoldOut));
    assert_eq!(ctx.event, event);
    assert_eq!(ctx.event.tickets_minted, 100);
}

#[test]
fn mint_until_full_then_fail() {
    let mut ctx = MintTicket { event: fresh_event(), authority: key(1) };
    let mut n: u64 = 0;
    while n < 100 {
        assert_eq!(mint_ticket(&mut ctx, n + 1), Ok(()));
        n = n + 1;
        assert_eq!(ctx.event.tickets_minted, n);
    }
    assert_eq!(mint_ticket(&mut ctx, 101), Err(EventTicketError::SoldOut));
    assert_eq!(ctx.event.tickets_minted, 100);
}

#[test]
fn is_sold_out_tracks_the_counter() {
    let mut event = fresh_event();
    assert!(!event.is_sold_out());
    event.tickets_minted = 99;
    assert!(!event.is_sold_out());
    event.tickets_minted = 100;
    assert!(event.is_sold_out());
}

#[test]
fn space_budget_covers_every_field() {
    assert_eq!(EventCollection::SPACE, 296);
}
