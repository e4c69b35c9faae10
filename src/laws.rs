//! Properties of the auction lifecycle that span several operations or hold
//! of every input, proved over the model that the operations' contracts use.

use vstd::prelude::*;
use crate::types::{AccountAddress, Address, Amount, ContractAddress, Timestamp};
use crate::auction::{
    Auction, BidError, NewAuctionParameter, Payment, Receiver, Settlement, bid_floor, bid_spec,
    escrow_out, finalize_spec, new_auction,
};

verus! {

/// Two bids accepted one after the other on the same auction strictly
/// increase, and the second one refunds the first bidder their whole bid.
pub proof fn lemma_bids_strictly_increase(
    auctions: Seq<Auction>,
    auction_id: u32,
    first_bidder: Address,
    first_amount: Amount,
    first_time: Timestamp,
    second_bidder: Address,
    second_amount: Amount,
    second_time: Timestamp,
)
    requires
        bid_spec(auctions, first_bidder, auction_id, first_amount, first_time) is Ok,
        bid_spec(
            bid_spec(auctions, first_bidder, auction_id, first_amount, first_time)->Ok_0.0,
            second_bidder,
            auction_id,
            second_amount,
            second_time,
        ) is Ok,
    ensures
        second_amount.micro_ccd > first_amount.micro_ccd,
        first_bidder is Account,
        bid_spec(
            bid_spec(auctions, first_bidder, auction_id, first_amount, first_time)->Ok_0.0,
            second_bidder,
            auction_id,
            second_amount,
            second_time,
        )->Ok_0.1 == Some(Payment { to: first_bidder->Account_0, amount: first_amount }),
{
    let after = bid_spec(auctions, first_bidder, auction_id, first_amount, first_time)->Ok_0.0;
    assert(after[auction_id as int].highest_bid == first_amount);
    assert(first_amount.micro_ccd > bid_floor(auctions[auction_id as int]));
}

/// A bid from an auction's owner is never accepted; once the auction exists,
/// is open and its end has not passed, it fails with `OnlyNotOwner`.
pub proof fn lemma_owner_cannot_bid(
    auctions: Seq<Auction>,
    auction_id: u32,
    amount: Amount,
    slot_time: Timestamp,
)
    requires
        auction_id < auctions.len(),
    ensures
        !(bid_spec(
            auctions,
            Address::Account(auctions[auction_id as int].owner),
            auction_id,
            amount,
            slot_time,
        ) is Ok),
        auctions[auction_id as int].auction_state is NotSoldYet && slot_time.millis
            <= auctions[auction_id as int].end.millis ==> bid_spec(
            auctions,
            Address::Account(auctions[auction_id as int].owner),
            auction_id,
            amount,
            slot_time,
        ) == Err::<(Seq<Auction>, Option<Payment>), BidError>(BidError::OnlyNotOwner),
{
}

/// Bids are taken up to and including the end time and settlement only
/// after it: on an open auction a bid after the end fails with `BidTooLate`,
/// a settlement at or before the end fails with `AuctionStillActive`, and a
/// bid at exactly the end that passes the other checks is accepted.
pub proof fn lemma_deadline(
    auctions: Seq<Auction>,
    commission_recipient: AccountAddress,
    auction_id: u32,
    sender: Address,
    amount: Amount,
    slot_time: Timestamp,
    self_address: ContractAddress,
)
    requires
        auction_id < auctions.len(),
        auctions[auction_id as int].auction_state is NotSoldYet,
    ensures
        slot_time.millis > auctions[auction_id as int].end.millis ==> bid_spec(
            auctions,
            sender,
            auction_id,
            amount,
            slot_time,
        ) == Err::<(Seq<Auction>, Option<Payment>), BidError>(BidError::BidTooLate),
        slot_time.millis <= auctions[auction_id as int].end.millis ==> finalize_spec(
            auctions,
            commission_recipient,
            auction_id,
            slot_time,
            self_address,
        ) == Err::<(Seq<Auction>, Settlement), BidError>(BidError::AuctionStillActive),
        slot_time.millis == auctions[auction_id as int].end.millis && sender is Account
            && sender->Account_0 != auctions[auction_id as int].owner && amount.micro_ccd
            > bid_floor(auctions[auction_id as int]) ==> bid_spec(
            auctions,
            sender,
            auction_id,
            amount,
            slot_time,
        ) is Ok,
{
}

/// Settling an auction that nobody bid on hands the whole escrowed token
/// amount back to its owner, pays out no currency and leaves the registry
/// as it was.
pub proof fn lemma_unsold_returns_escrow(
    auctions: Seq<Auction>,
    commission_recipient: AccountAddress,
    auction_id: u32,
    slot_time: Timestamp,
    self_address: ContractAddress,
)
    requires
        auction_id < auctions.len(),
        auctions[auction_id as int].highest_bidder is None,
        finalize_spec(auctions, commission_recipient, auction_id, slot_time, self_address) is Ok,
    ensures
        ({
            let a = auctions[auction_id as int];
            finalize_spec(auctions, commission_recipient, auction_id, slot_time, self_address)
                == Ok::<(Seq<Auction>, Settlement), BidError>(
                (auctions, Settlement::Unsold { token_return: escrow_out(a, self_address, a.owner) }),
            )
        }),
        ({
            let t = escrow_out(auctions[auction_id as int], self_address, auctions[auction_id as int].owner);
            t.to == Receiver::Account(auctions[auction_id as int].owner)
                && t.amount == auctions[auction_id as int].token_amount
        }),
{
}

/// Settling an auction won with a bid of `v` pays `v / 10` to the
/// commission recipient and the rest to the owner, the two adding up to `v`
/// exactly, and hands the escrowed tokens to the winner.
pub proof fn lemma_sale_splits_bid(
    auctions: Seq<Auction>,
    commission_recipient: AccountAddress,
    auction_id: u32,
    slot_time: Timestamp,
    self_address: ContractAddress,
)
    requires
        auction_id < auctions.len(),
        auctions[auction_id as int].highest_bidder is Some,
        finalize_spec(auctions, commission_recipient, auction_id, slot_time, self_address) is Ok,
    ensures
        ({
            let a = auctions[auction_id as int];
            let v = a.highest_bid.micro_ccd;
            let winner = a.highest_bidder->Some_0;
            match finalize_spec(auctions, commission_recipient, auction_id, slot_time, self_address)->Ok_0.1 {
                Settlement::Sold { token_transfer, commission, proceeds } => {
                    &&& commission.to == commission_recipient
                    &&& commission.amount.micro_ccd == v / 10
                    &&& proceeds.to == a.owner
                    &&& proceeds.amount.micro_ccd == v - v / 10
                    &&& commission.amount.micro_ccd + proceeds.amount.micro_ccd == v
                    &&& token_transfer == escrow_out(a, self_address, winner)
                },
                Settlement::Unsold { .. } => false,
            }
        }),
{
}

/// Once an auction has been sold, settling it again fails with
/// `AuctionAlreadyFinalized`, whenever it is tried.
pub proof fn lemma_sold_once(
    auctions: Seq<Auction>,
    commission_recipient: AccountAddress,
    auction_id: u32,
    slot_time: Timestamp,
    later: Timestamp,
    self_address: ContractAddress,
)
    requires
        auction_id < auctions.len(),
        auctions[auction_id as int].highest_bidder is Some,
        finalize_spec(auctions, commission_recipient, auction_id, slot_time, self_address) is Ok,
    ensures
        finalize_spec(
            finalize_spec(auctions, commission_recipient, auction_id, slot_time, self_address)->Ok_0.0,
            commission_recipient,
            auction_id,
            later,
            self_address,
        ) == Err::<(Seq<Auction>, Settlement), BidError>(BidError::AuctionAlreadyFinalized),
{
}

/// Auction ids are positions that stay put: registering appends at the next
/// free position and leaves every earlier auction where it was, bids and
/// settlements change no auction's position, and an id past the end names
/// no auction.
pub proof fn lemma_ids_stable(
    auctions: Seq<Auction>,
    owner: AccountAddress,
    parameter: NewAuctionParameter,
    sender: Address,
    auction_id: u32,
    amount: Amount,
    slot_time: Timestamp,
    commission_recipient: AccountAddress,
    self_address: ContractAddress,
)
    ensures
        auctions.push(new_auction(owner, parameter)).len() == auctions.len() + 1,
        auctions.push(new_auction(owner, parameter))[auctions.len() as int] == new_auction(
            owner,
            parameter,
        ),
        forall|i: int|
            0 <= i < auctions.len() ==> #[trigger] auctions.push(new_auction(owner, parameter))[i]
                == auctions[i],
        bid_spec(auctions, sender, auction_id, amount, slot_time) is Ok ==> ({
            let after = bid_spec(auctions, sender, auction_id, amount, slot_time)->Ok_0.0;
            &&& after.len() == auctions.len()
            &&& forall|i: int| 0 <= i < auctions.len() && i != auction_id ==> #[trigger] after[i] == auctions[i]
        }),
        finalize_spec(auctions, commission_recipient, auction_id, slot_time, self_address) is Ok ==> ({
            let after = finalize_spec(auctions, commission_recipient, auction_id, slot_time, self_address)->Ok_0.0;
            &&& after.len() == auctions.len()
            &&& forall|i: int| 0 <= i < auctions.len() && i != auction_id ==> #[trigger] after[i] == auctions[i]
        }),
        auction_id >= auctions.len() ==> bid_spec(auctions, sender, auction_id, amount, slot_time)
            == Err::<(Seq<Auction>, Option<Payment>), BidError>(BidError::AuctionNotFound),
        auction_id >= auctions.len() ==> finalize_spec(
            auctions,
            commission_recipient,
            auction_id,
            slot_time,
            self_address,
        ) == Err::<(Seq<Auction>, Settlement), BidError>(BidError::AuctionNotFound),
{
}

/// The terms an auction was created with: everything but its state and its
/// leading bid.
pub open spec fn same_terms(a: Auction, b: Auction) -> bool {
    &&& a.initial_price == b.initial_price
    &&& a.item == b.item
    &&& a.end == b.end
    &&& a.owner == b.owner
    &&& a.token_contract == b.token_contract
    &&& a.token_id == b.token_id
    &&& a.token_amount == b.token_amount
}

/// Bids and settlements leave the terms of every auction, its escrow fields
/// included, as they were at creation.
pub proof fn lemma_terms_fixed(
    auctions: Seq<Auction>,
    sender: Address,
    auction_id: u32,
    amount: Amount,
    slot_time: Timestamp,
    commission_recipient: AccountAddress,
    self_address: ContractAddress,
)
    ensures
        bid_spec(auctions, sender, auction_id, amount, slot_time) is Ok ==> forall|i: int|
            0 <= i < auctions.len() ==> same_terms(
                #[trigger] bid_spec(auctions, sender, auction_id, amount, slot_time)->Ok_0.0[i],
                auctions[i],
            ),
        finalize_spec(auctions, commission_recipient, auction_id, slot_time, self_address) is Ok
            ==> forall|i: int|
            0 <= i < auctions.len() ==> same_terms(
                #[trigger] finalize_spec(
                    auctions,
                    commission_recipient,
                    auction_id,
                    slot_time,
                    self_address,
                )->Ok_0.0[i],
                auctions[i],
            ),
{
}

} // verus!
