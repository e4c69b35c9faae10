use auction::auction::{
    auction_bid, auction_finalize, auction_init, create_auction, get_auction, on_receiving_cis2,
    split_proceeds, view_auctions, AuctionEvent, AuctionEventData, AuctionState, BidError,
    NewAuctionParameter, Payment, Receiver, Registration, Settlement, State, TokenTransfer,
};
use auction::types::{
    AccountAddress, Address, Amount, ContractAddress, Timestamp, TokenAmountU64, TokenIdU8,
};

const END: u64 = 10_000;

fn account(byte: u8) -> AccountAddress {
    AccountAddress([byte; 32])
}

fn me() -> ContractAddress {
    ContractAddress { index: 7, subindex: 0 }
}

fn tokens() -> ContractAddress {
    ContractAddress { index: 3, subindex: 1 }
}

fn parameter(item: &str, initial_price: u64) -> NewAuctionParameter {
    NewAuctionParameter {
        item: item.to_string(),
        end: Timestamp { millis: END },
        initial_price,
        token_contract: tokens(),
        token_id: TokenIdU8(5),
        token_amount: TokenAmountU64(42),
    }
}

fn ccd(v: u64) -> Amount {
    Amount { micro_ccd: v }
}

fn at(millis: u64) -> Timestamp {
    Timestamp { millis }
}

/// A registry with one auction owned by account 1, commissions to account 9.
fn one_auction(initial_price: u64) -> State {
    let mut state = auction_init(account(9));
    create_auction(&mut state, Address::Account(account(1)), me(), parameter("vase", initial_price))
        .unwrap();
    state
}

#[test]
fn init_is_empty() {
    let state = auction_init(account(9));
    assert!(view_auctions(&state).is_empty());
    assert_eq!(state.commission_recipient(), account(9));
}

#[test]
fn create_records_auction_and_escrow() {
    let mut state = auction_init(account(9));
    let reg = create_auction(&mut state, Address::Account(account(1)), me(), parameter("vase", 100))
        .unwrap();
    assert_eq!(
        reg,
        Registration {
            event: AuctionEvent::Register(AuctionEventData { auction_id: 0 }),
            escrow: TokenTransfer {
                token_contract: tokens(),
                token_id: TokenIdU8(5),
                amount: TokenAmountU64(42),
                from: Address::Account(account(1)),
                to: Receiver::Contract(me()),
            },
        }
    );
    let a = get_auction(&state, 0).unwrap();
    assert_eq!(a.auction_state, AuctionState::NotSoldYet);
    assert_eq!(a.highest_bidder, None);
    assert_eq!(a.highest_bid, ccd(0));
    assert_eq!(a.initial_price, 100);
    assert_eq!(a.item, "vase");
    assert_eq!(a.owner, account(1));
    assert_eq!(a.end, at(END));
    assert_eq!(a.token_amount, TokenAmountU64(42));
}

#[test]
fn create_from_contract_fails() {
    let mut state = auction_init(account(9));
    let r = create_auction(&mut state, Address::Contract(tokens()), me(), parameter("vase", 100));
    assert_eq!(r, Err(BidError::OnlyAccount));
    assert!(view_auctions(&state).is_empty());
}

#[test]
fn ids_are_sequential_and_stable() {
    let mut state = auction_init(account(9));
    for (n, item) in ["a", "b", "c"].iter().enumerate() {
        let reg = create_auction(&mut state, Address::Account(account(1)), me(), parameter(item, 10))
            .unwrap();
        assert_eq!(reg.event, AuctionEvent::Register(AuctionEventData { auction_id: n as u32 }));
    }
    auction_bid(&mut state, Address::Account(account(2)), 1, ccd(50), at(1)).unwrap();
    let all = view_auctions(&state);
    assert_eq!(all.len(), 3);
    assert_eq!(all[0].item, "a");
    assert_eq!(all[1].item, "b");
    assert_eq!(all[2].item, "c");
    assert_eq!(get_auction(&state, 1).unwrap().highest_bid, ccd(50));
    assert_eq!(get_auction(&state, 0).unwrap().highest_bid, ccd(0));
}

#[test]
fn get_unknown_auction_fails() {
    let state = one_auction(100);
    assert_eq!(get_auction(&state, 1), Err(BidError::AuctionNotFound));
    assert_eq!(get_auction(&state, u32::MAX), Err(BidError::AuctionNotFound));
    let empty = auction_init(account(9));
    assert_eq!(get_auction(&empty, 0), Err(BidError::AuctionNotFound));
}

#[test]
fn full_auction_scenario() {
    let mut state = one_auction(100);
    assert_eq!(auction_bid(&mut state, Address::Account(account(2)), 0, ccd(150), at(5)), Ok(None));
    assert_eq!(
        auction_bid(&mut state, Address::Account(account(3)), 0, ccd(120), at(6)),
        Err(BidError::BidBelowCurrentBid)
    );
    assert_eq!(
        auction_bid(&mut state, Address::Account(account(3)), 0, ccd(200), at(7)),
        Ok(Some(Payment { to: account(2), amount: ccd(150) }))
    );
    let a = get_auction(&state, 0).unwrap();
    assert_eq!(a.highest_bid, ccd(200));
    assert_eq!(a.highest_bidder, Some(account(3)));

    let settlement = auction_finalize(&mut state, 0, at(END + 1), me()).unwrap();
    assert_eq!(
        settlement,
        Settlement::Sold {
            token_transfer: TokenTransfer {
                token_contract: tokens(),
                token_id: TokenIdU8(5),
                amount: TokenAmountU64(42),
                from: Address::Contract(me()),
                to: Receiver::Account(account(3)),
            },
            commission: Payment { to: account(9), amount: ccd(20) },
            proceeds: Payment { to: account(1), amount: ccd(180) },
        }
    );
    assert_eq!(get_auction(&state, 0).unwrap().auction_state, AuctionState::Sold(account(3)));
}

#[test]
fn unsold_auction_returns_tokens() {
    let mut state = one_auction(100);
    let before = view_auctions(&state);
    let settlement = auction_finalize(&mut state, 0, at(END + 1), me()).unwrap();
    assert_eq!(
        settlement,
        Settlement::Unsold {
            token_return: TokenTransfer {
                token_contract: tokens(),
                token_id: TokenIdU8(5),
                amount: TokenAmountU64(42),
                from: Address::Contract(me()),
                to: Receiver::Account(account(1)),
            },
        }
    );
    assert_eq!(view_auctions(&state), before);
}

#[test]
fn second_finalize_is_rejected() {
    let mut state = one_auction(100);
    auction_bid(&mut state, Address::Account(account(2)), 0, ccd(150), at(5)).unwrap();
    auction_finalize(&mut state, 0, at(END + 1), me()).unwrap();
    assert_eq!(
        auction_finalize(&mut state, 0, at(END + 2), me()),
        Err(BidError::AuctionAlreadyFinalized)
    );
    assert_eq!(
        auction_bid(&mut state, Address::Account(account(3)), 0, ccd(500), at(5)),
        Err(BidError::AuctionAlreadyFinalized)
    );
}

#[test]
fn owner_cannot_bid() {
    let mut state = one_auction(100);
    assert_eq!(
        auction_bid(&mut state, Address::Account(account(1)), 0, ccd(1_000), at(5)),
        Err(BidError::OnlyNotOwner)
    );
    auction_bid(&mut state, Address::Account(account(2)), 0, ccd(150), at(5)).unwrap();
    assert_eq!(
        auction_bid(&mut state, Address::Account(account(1)), 0, ccd(1_000), at(6)),
        Err(BidError::OnlyNotOwner)
    );
}

#[test]
fn contract_cannot_bid() {
    let mut state = one_auction(100);
    assert_eq!(
        auction_bid(&mut state, Address::Contract(tokens()), 0, ccd(150), at(5)),
        Err(BidError::OnlyAccount)
    );
}

#[test]
fn bid_on_unknown_auction_fails() {
    let mut state = one_auction(100);
    assert_eq!(
        auction_bid(&mut state, Address::Account(account(2)), 1, ccd(150), at(5)),
        Err(BidError::AuctionNotFound)
    );
    assert_eq!(auction_finalize(&mut state, 4, at(END + 1), me()), Err(BidError::AuctionNotFound));
}

#[test]
fn end_time_boundary() {
    let mut state = one_auction(100);
    assert_eq!(
        auction_finalize(&mut state, 0, at(END), me()),
        Err(BidError::AuctionStillActive)
    );
    assert_eq!(auction_bid(&mut state, Address::Account(account(2)), 0, ccd(150), at(END)), Ok(None));
    assert_eq!(
        auction_bid(&mut state, Address::Account(account(3)), 0, ccd(300), at(END + 1)),
        Err(BidError::BidTooLate)
    );
    assert!(auction_finalize(&mut state, 0, at(END + 1), me()).is_ok());
}

#[test]
fn bid_must_exceed_initial_price_and_highest_bid() {
    let mut state = one_auction(100);
    assert_eq!(
        auction_bid(&mut state, Address::Account(account(2)), 0, ccd(100), at(5)),
        Err(BidError::BidBelowCurrentBid)
    );
    assert_eq!(auction_bid(&mut state, Address::Account(account(2)), 0, ccd(101), at(5)), Ok(None));
    assert_eq!(
        auction_bid(&mut state, Address::Account(account(3)), 0, ccd(101), at(6)),
        Err(BidError::BidBelowCurrentBid)
    );
    assert_eq!(get_auction(&state, 0).unwrap().highest_bidder, Some(account(2)));
}

#[test]
fn zero_initial_price_takes_any_positive_bid() {
    let mut state = one_auction(0);
    assert_eq!(
        auction_bid(&mut state, Address::Account(account(2)), 0, ccd(0), at(5)),
        Err(BidError::BidBelowCurrentBid)
    );
    assert_eq!(auction_bid(&mut state, Address::Account(account(2)), 0, ccd(1), at(5)), Ok(None));
}

#[test]
fn rising_bids_refund_each_previous_bidder() {
    let mut state = one_auction(10);
    let mut previous: Option<(AccountAddress, u64)> = None;
    for (n, v) in [11u64, 12, 50, 51, 1_000].iter().enumerate() {
        let bidder = account(2 + n as u8);
        let refund = auction_bid(&mut state, Address::Account(bidder), 0, ccd(*v), at(5)).unwrap();
        assert_eq!(refund, previous.map(|(to, amount)| Payment { to, amount: ccd(amount) }));
        previous = Some((bidder, *v));
    }
}

#[test]
fn commission_is_a_tenth_rounded_down() {
    assert_eq!(split_proceeds(ccd(200)), (ccd(20), ccd(180)));
    assert_eq!(split_proceeds(ccd(199)), (ccd(19), ccd(180)));
    assert_eq!(split_proceeds(ccd(9)), (ccd(0), ccd(9)));
    assert_eq!(split_proceeds(ccd(0)), (ccd(0), ccd(0)));
    let (c, o) = split_proceeds(ccd(u64::MAX));
    assert_eq!(c, ccd(u64::MAX / 10));
    assert_eq!(c.micro_ccd + o.micro_ccd, u64::MAX);
}

#[test]
fn sale_of_odd_amount_pays_exact_total() {
    let mut state = one_auction(100);
    auction_bid(&mut state, Address::Account(account(2)), 0, ccd(1_234_567), at(5)).unwrap();
    match auction_finalize(&mut state, 0, at(END + 1), me()).unwrap() {
        Settlement::Sold { commission, proceeds, .. } => {
            assert_eq!(commission, Payment { to: account(9), amount: ccd(123_456) });
            assert_eq!(proceeds, Payment { to: account(1), amount: ccd(1_111_111) });
        }
        Settlement::Unsold { .. } => panic!("expected a sale"),
    }
}

#[test]
fn failed_operations_leave_registry_unchanged() {
    let mut state = one_auction(100);
    auction_bid(&mut state, Address::Account(account(2)), 0, ccd(150), at(5)).unwrap();
    let before = state.clone();
    let _ = auction_bid(&mut state, Address::Account(account(3)), 0, ccd(120), at(6));
    let _ = auction_bid(&mut state, Address::Account(account(1)), 0, ccd(900), at(6));
    let _ = auction_finalize(&mut state, 0, at(END), me());
    assert_eq!(state, before);
}

#[test]
fn receipt_hook_accepts() {
    assert_eq!(on_receiving_cis2(), Ok(()));
}

#[test]
fn account_comparison() {
    let mut bytes = [4u8; 32];
    assert!(AccountAddress(bytes).same_as(&AccountAddress(bytes)));
    bytes[31] = 5;
    assert!(!AccountAddress([4u8; 32]).same_as(&AccountAddress(bytes)));
}
