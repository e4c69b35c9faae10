//! The auction registry and its lifecycle: creation with token escrow,
//! bidding with refunds of outbid parties, time-gated settlement, queries.

use vstd::prelude::*;
use crate::types::{AccountAddress, Address, Amount, ContractAddress, Timestamp, TokenAmountU64, TokenIdU8};

verus! {

/// Where an auction stands: open, or sold to the given account.
#[derive(Clone, Copy, Debug, PartialEq, Eq)]
pub enum AuctionState {
    NotSoldYet,
    Sold(AccountAddress),
}

/// The id given to a newly registered auction.
#[derive(Clone, Copy, Debug, PartialEq, Eq)]
pub struct AuctionEventData {
    pub auction_id: u32,
}

/// The event logged when an auction is registered.
#[derive(Clone, Copy, Debug, PartialEq, Eq)]
pub enum AuctionEvent {
    Register(AuctionEventData),
}

/// A single auctioned item and the tokens held in escrow for it.
#[derive(Clone, Debug, PartialEq, Eq)]
pub struct Auction {
    pub auction_state: AuctionState,
    pub highest_bidder: Option<AccountAddress>,
    pub initial_price: u64,
    pub highest_bid: Amount,
    pub item: String,
    pub end: Timestamp,
    pub owner: AccountAddress,
    pub token_contract: ContractAddress,
    pub token_id: TokenIdU8,
    pub token_amount: TokenAmountU64,
}

/// The registry: every auction ever created, in creation order, and the
/// account that receives the commission on each sale.
#[derive(Clone, Debug, PartialEq, Eq)]
pub struct State {
    pub auctions: Vec<Auction>,
    pub commission_recipient: AccountAddress,
}

/// What is needed to register a new auction.
#[derive(Clone, Debug, PartialEq, Eq)]
pub struct NewAuctionParameter {
    pub item: String,
    pub end: Timestamp,
    pub initial_price: u64,
    pub token_contract: ContractAddress,
    pub token_id: TokenIdU8,
    pub token_amount: TokenAmountU64,
}

/// Why an operation on the registry was rejected. `ParameterParsingError`
/// and `TransferFailed` come from the host side: an undecodable parameter
/// and a failed transfer.
#[derive(Clone, Copy, Debug, PartialEq, Eq, Structural)]
pub enum BidError {
    OnlyAccount,
    BidBelowCurrentBid,
    BidTooLate,
    AuctionAlreadyFinalized,
    AuctionNotFound,
    ParameterParsingError,
    AuctionStillActive,
    TransferFailed,
    OnlyNotOwner,
}

/// The receiving end of a token transfer: an account, or a contract through
/// its token-receipt hook.
#[derive(Clone, Copy, Debug, PartialEq, Eq)]
pub enum Receiver {
    Account(AccountAddress),
    Contract(ContractAddress),
}

/// A token transfer for the host to carry out on a token contract.
#[derive(Clone, Copy, Debug, PartialEq, Eq)]
pub struct TokenTransfer {
    pub token_contract: ContractAddress,
    pub token_id: TokenIdU8,
    pub amount: TokenAmountU64,
    pub from: Address,
    pub to: Receiver,
}

/// A currency transfer for the host to carry out.
#[derive(Clone, Copy, Debug, PartialEq, Eq)]
pub struct Payment {
    pub to: AccountAddress,
    pub amount: Amount,
}

/// The outcome of creating an auction: the event to log and the transfer
/// that moves the tokens into escrow.
#[derive(Clone, Copy, Debug, PartialEq, Eq)]
pub struct Registration {
    pub event: AuctionEvent,
    pub escrow: TokenTransfer,
}

/// The transfers that settle a finished auction.
#[derive(Clone, Copy, Debug, PartialEq, Eq)]
pub enum Settlement {
    /// Nobody bid: the escrowed tokens go back to the owner.
    Unsold { token_return: TokenTransfer },
    /// The tokens go to the winner; the winning bid is split between the
    /// commission recipient and the owner.
    Sold { token_transfer: TokenTransfer, commission: Payment, proceeds: Payment },
}

impl Auction {
    /// A bid is recorded exactly when a bidder is.
    pub open spec fn wf(&self) -> bool {
        (self.highest_bid.micro_ccd == 0) == (self.highest_bidder is None)
    }

    /// A field-by-field copy.
    pub fn snapshot(&self) -> (r: Auction)
        ensures
            r == *self,
    {
        Auction {
            auction_state: self.auction_state,
            highest_bidder: self.highest_bidder,
            initial_price: self.initial_price,
            highest_bid: self.highest_bid,
            item: self.item.clone(),
            end: self.end,
            owner: self.owner,
            token_contract: self.token_contract,
            token_id: self.token_id,
            token_amount: self.token_amount,
        }
    }
}

impl State {
    pub open spec fn wf(&self) -> bool {
        forall|i: int| 0 <= i < self.auctions@.len() ==> (#[trigger] self.auctions@[i]).wf()
    }

    pub fn commission_recipient(&self) -> (r: AccountAddress)
        ensures
            r == self.commission_recipient,
    {
        self.commission_recipient
    }
}

/// The auction that a registration by `owner` appends.
pub open spec fn new_auction(owner: AccountAddress, p: NewAuctionParameter) -> Auction {
    Auction {
        auction_state: AuctionState::NotSoldYet,
        highest_bidder: None,
        initial_price: p.initial_price,
        highest_bid: Amount { micro_ccd: 0 },
        item: p.item,
        end: p.end,
        owner,
        token_contract: p.token_contract,
        token_id: p.token_id,
        token_amount: p.token_amount,
    }
}

/// The transfer of the declared tokens from `owner` into the contract's custody.
pub open spec fn escrow_in(
    owner: AccountAddress,
    self_address: ContractAddress,
    p: NewAuctionParameter,
) -> TokenTransfer {
    TokenTransfer {
        token_contract: p.token_contract,
        token_id: p.token_id,
        amount: p.token_amount,
        from: Address::Account(owner),
        to: Receiver::Contract(self_address),
    }
}

/// The transfer of an auction's escrowed tokens out of the contract to `to`.
pub open spec fn escrow_out(a: Auction, self_address: ContractAddress, to: AccountAddress) -> TokenTransfer {
    TokenTransfer {
        token_contract: a.token_contract,
        token_id: a.token_id,
        amount: a.token_amount,
        from: Address::Contract(self_address),
        to: Receiver::Account(to),
    }
}

/// The amount a bid has to exceed: the initial price while nobody has bid,
/// the highest bid after that.
pub open spec fn bid_floor(a: Auction) -> u64 {
    if a.highest_bid.micro_ccd == 0 {
        a.initial_price
    } else {
        a.highest_bid.micro_ccd
    }
}

/// The first check that a bid fails, if any.
pub open spec fn bid_error(
    auctions: Seq<Auction>,
    sender: Address,
    auction_id: u32,
    amount: Amount,
    slot_time: Timestamp,
) -> Option<BidError> {
    if auction_id >= auctions.len() {
        Some(BidError::AuctionNotFound)
    } else {
        let a = auctions[auction_id as int];
        if !(a.auction_state is NotSoldYet) {
            Some(BidError::AuctionAlreadyFinalized)
        } else if slot_time.millis > a.end.millis {
            Some(BidError::BidTooLate)
        } else if sender is Contract {
            Some(BidError::OnlyAccount)
        } else if sender->Account_0 == a.owner {
            Some(BidError::OnlyNotOwner)
        } else if amount.micro_ccd <= bid_floor(a) {
            Some(BidError::BidBelowCurrentBid)
        } else {
            None
        }
    }
}

/// The registry after a bid that passed every check, and the refund owed to
/// the bidder it displaced, if any.
pub open spec fn bid_spec(
    auctions: Seq<Auction>,
    sender: Address,
    auction_id: u32,
    amount: Amount,
    slot_time: Timestamp,
) -> Result<(Seq<Auction>, Option<Payment>), BidError> {
    match bid_error(auctions, sender, auction_id, amount, slot_time) {
        Some(e) => Err(e),
        None => {
            let a = auctions[auction_id as int];
            let placed = Auction {
                highest_bid: amount,
                highest_bidder: Some(sender->Account_0),
                ..a
            };
            let refund = match a.highest_bidder {
                Some(prev) => Some(Payment { to: prev, amount: a.highest_bid }),
                None => None,
            };
            Ok((auctions.update(auction_id as int, placed), refund))
        },
    }
}

/// The commission on a winning bid: a tenth, rounded down.
pub open spec fn commission_spec(v: u64) -> u64 {
    v / 10
}

/// The settlement of a finished auction, with the registry it leaves.
pub open spec fn finalize_spec(
    auctions: Seq<Auction>,
    commission_recipient: AccountAddress,
    auction_id: u32,
    slot_time: Timestamp,
    self_address: ContractAddress,
) -> Result<(Seq<Auction>, Settlement), BidError> {
    if auction_id >= auctions.len() {
        Err(BidError::AuctionNotFound)
    } else {
        let a = auctions[auction_id as int];
        if !(a.auction_state is NotSoldYet) {
            Err(BidError::AuctionAlreadyFinalized)
        } else if slot_time.millis <= a.end.millis {
            Err(BidError::AuctionStillActive)
        } else {
            match a.highest_bidder {
                Some(winner) => {
                    let v = a.highest_bid.micro_ccd;
                    let sold = Auction { auction_state: AuctionState::Sold(winner), ..a };
                    Ok((
                        auctions.update(auction_id as int, sold),
                        Settlement::Sold {
                            token_transfer: escrow_out(a, self_address, winner),
                            commission: Payment {
                                to: commission_recipient,
                                amount: Amount { micro_ccd: commission_spec(v) },
                            },
                            proceeds: Payment {
                                to: a.owner,
                                amount: Amount { micro_ccd: (v - commission_spec(v)) as u64 },
                            },
                        },
                    ))
                },
                None => Ok(
                    (auctions, Settlement::Unsold { token_return: escrow_out(a, self_address, a.owner) }),
                ),
            }
        }
    }
}

/// Splits a winning bid into the commission and the owner's share.
pub fn split_proceeds(bid: Amount) -> (r: (Amount, Amount))
    ensures
        r.0.micro_ccd == commission_spec(bid.micro_ccd),
        r.1.micro_ccd == bid.micro_ccd - commission_spec(bid.micro_ccd),
        r.0.micro_ccd + r.1.micro_ccd == bid.micro_ccd,
{
    let commission = bid.micro_ccd / 10;
    (Amount::from_micro_ccd(commission), Amount::from_micro_ccd(bid.micro_ccd - commission))
}

/// A registry with no auctions, whose commissions go to `origin`.
pub fn auction_init(origin: AccountAddress) -> (r: State)
    ensures
        r.auctions@.len() == 0,
        r.commission_recipient == origin,
        r.wf(),
{
    State { auctions: Vec::new(), commission_recipient: origin }
}

/// Registers a new auction owned by `sender`, which must be an account.
/// The auction gets the next id; the caller carries out the escrow transfer
/// and logs the event.
pub fn create_auction(
    state: &mut State,
    sender: Address,
    self_address: ContractAddress,
    parameter: NewAuctionParameter,
) -> (r: Result<Registration, BidError>)
    requires
        old(state).auctions@.len() < u32::MAX,
    ensures
        final(state).commission_recipient == old(state).commission_recipient,
        old(state).wf() ==> final(state).wf(),
        match sender {
            Address::Contract(_) => r == Err::<Registration, BidError>(BidError::OnlyAccount)
                && final(state).auctions@ == old(state).auctions@,
            Address::Account(owner) => r == Ok::<Registration, BidError>(
                Registration {
                    event: AuctionEvent::Register(
                        AuctionEventData { auction_id: old(state).auctions@.len() as u32 },
                    ),
                    escrow: escrow_in(owner, self_address, parameter),
                },
            ) && final(state).auctions@ == old(state).auctions@.push(new_auction(owner, parameter)),
        },
{
    let owner = match sender {
        Address::Account(account) => account,
        Address::Contract(_) => return Err(BidError::OnlyAccount),
    };
    let escrow = TokenTransfer {
        token_contract: parameter.token_contract,
        token_id: parameter.token_id,
        amount: parameter.token_amount,
        from: Address::Account(owner),
        to: Receiver::Contract(self_address),
    };
    let auction = Auction {
        auction_state: AuctionState::NotSoldYet,
        highest_bidder: None,
        initial_price: parameter.initial_price,
        highest_bid: Amount::zero(),
        item: parameter.item,
        end: parameter.end,
        owner,
        token_contract: parameter.token_contract,
        token_id: parameter.token_id,
        token_amount: parameter.token_amount,
    };
    let id = state.auctions.len() as u32;
    state.auctions.push(auction);
    Ok(Registration { event: AuctionEvent::Register(AuctionEventData { auction_id: id }), escrow })
}

/// Places a bid of `amount` from `sender` at `slot_time`. On acceptance the
/// bid becomes the highest one and the displaced bidder, if any, is owed a
/// refund of their bid, which the caller pays out.
pub fn auction_bid(
    state: &mut State,
    sender: Address,
    auction_id: u32,
    amount: Amount,
    slot_time: Timestamp,
) -> (r: Result<Option<Payment>, BidError>)
    ensures
        final(state).commission_recipient == old(state).commission_recipient,
        old(state).wf() ==> final(state).wf(),
        match r {
            Ok(refund) => bid_spec(old(state).auctions@, sender, auction_id, amount, slot_time)
                == Ok::<(Seq<Auction>, Option<Payment>), BidError>((final(state).auctions@, refund)),
            Err(e) => bid_spec(old(state).auctions@, sender, auction_id, amount, slot_time)
                == Err::<(Seq<Auction>, Option<Payment>), BidError>(e)
                && final(state).auctions@ == old(state).auctions@,
        },
{
    let ghost before = state.auctions@;
    let idx = auction_id as usize;
    if idx >= state.auctions.len() {
        return Err(BidError::AuctionNotFound);
    }
    let auction = &mut state.auctions[idx];
    if !matches!(auction.auction_state, AuctionState::NotSoldYet) {
        return Err(BidError::AuctionAlreadyFinalized);
    }
    if slot_time.millis > auction.end.millis {
        return Err(BidError::BidTooLate);
    }
    let bidder = match sender {
        Address::Contract(_) => return Err(BidError::OnlyAccount),
        Address::Account(account) => account,
    };
    if auction.owner.same_as(&bidder) {
        return Err(BidError::OnlyNotOwner);
    }
    if auction.highest_bid.micro_ccd == 0 {
        if amount.micro_ccd <= auction.initial_price {
            return Err(BidError::BidBelowCurrentBid);
        }
    } else if amount.micro_ccd <= auction.highest_bid.micro_ccd {
        return Err(BidError::BidBelowCurrentBid);
    }
    let previous_bid = auction.highest_bid;
    let previous_bidder = auction.highest_bidder;
    auction.highest_bid = amount;
    auction.highest_bidder = Some(bidder);
    proof {
        assert(state.auctions@ =~= before.update(idx as int, *auction));
    }
    match previous_bidder {
        Some(prev) => Ok(Some(Payment { to: prev, amount: previous_bid })),
        None => Ok(None),
    }
}

/// Settles an auction whose end has passed. With a winner, the auction is
/// marked sold to them and the settlement hands them the tokens and splits
/// the winning bid; without one, the tokens go back to the owner.
pub fn auction_finalize(
    state: &mut State,
    auction_id: u32,
    slot_time: Timestamp,
    self_address: ContractAddress,
) -> (r: Result<Settlement, BidError>)
    ensures
        final(state).commission_recipient == old(state).commission_recipient,
        old(state).wf() ==> final(state).wf(),
        match r {
            Ok(settlement) => finalize_spec(
                old(state).auctions@,
                old(state).commission_recipient,
                auction_id,
                slot_time,
                self_address,
            ) == Ok::<(Seq<Auction>, Settlement), BidError>((final(state).auctions@, settlement)),
            Err(e) => finalize_spec(
                old(state).auctions@,
                old(state).commission_recipient,
                auction_id,
                slot_time,
                self_address,
            ) == Err::<(Seq<Auction>, Settlement), BidError>(e)
                && final(state).auctions@ == old(state).auctions@,
        },
{
    let commission_recipient = state.commission_recipient;
    let idx = auction_id as usize;
    if idx >= state.auctions.len() {
        return Err(BidError::AuctionNotFound);
    }
    let auction = &state.auctions[idx];
    if !matches!(auction.auction_state, AuctionState::NotSoldYet) {
        return Err(BidError::AuctionAlreadyFinalized);
    }
    if slot_time.millis <= auction.end.millis {
        return Err(BidError::AuctionStillActive);
    }
    match auction.highest_bidder {
        Some(winner) => {
            let (commission, owner_share) = split_proceeds(auction.highest_bid);
            let settlement = Settlement::Sold {
                token_transfer: TokenTransfer {
                    token_contract: auction.token_contract,
                    token_id: auction.token_id,
                    amount: auction.token_amount,
                    from: Address::Contract(self_address),
                    to: Receiver::Account(winner),
                },
                commission: Payment { to: commission_recipient, amount: commission },
                proceeds: Payment { to: auction.owner, amount: owner_share },
            };
            state.auctions[idx].auction_state = AuctionState::Sold(winner);
            Ok(settlement)
        },
        None => {
            let token_return = TokenTransfer {
                token_contract: auction.token_contract,
                token_id: auction.token_id,
                amount: auction.token_amount,
                from: Address::Contract(self_address),
                to: Receiver::Account(auction.owner),
            };
            Ok(Settlement::Unsold { token_return })
        },
    }
}

/// A copy of the auction with the given id.
pub fn get_auction(state: &State, auction_id: u32) -> (r: Result<Auction, BidError>)
    ensures
        auction_id < state.auctions@.len() ==> r == Ok::<Auction, BidError>(
            state.auctions@[auction_id as int],
        ),
        auction_id >= state.auctions@.len() ==> r == Err::<Auction, BidError>(
            BidError::AuctionNotFound,
        ),
{
    let idx = auction_id as usize;
    if idx < state.auctions.len() {
        Ok(state.auctions[idx].snapshot())
    } else {
        Err(BidError::AuctionNotFound)
    }
}

/// A copy of every auction, in id order.
pub fn view_auctions(state: &State) -> (r: Vec<Auction>)
    ensures
        r@ == state.auctions@,
{
    let mut all: Vec<Auction> = Vec::new();
    let mut i: usize = 0;
    while i < state.auctions.len()
        invariant
            i <= state.auctions@.len(),
            all@ == state.auctions@.subrange(0, i as int),
        decreases state.auctions@.len() - i,
    {
        all.push(state.auctions[i].snapshot());
        i = i + 1;
        proof {
            assert(all@ =~= state.auctions@.subrange(0, i as int));
        }
    }
    proof {
        assert(all@ =~= state.auctions@);
    }
    all
}

/// The hook through which token contracts announce a transfer into this
/// contract. Receipts are accepted without reconciling them against the
/// amount an auction declared.
pub fn on_receiving_cis2() -> (r: Result<(), ()>)
    ensures
        r is Ok,
{
    Ok(())
}

} // verus!
