//! What holds of the marketplace as a whole: laws about several chains and
//! several steps of the sagas, proved from the model of the single step.

use crate::codec::{contains_text, spec_amount_from_bytes, spec_receipt};
use crate::contract::{
    calls_for_compensation, hop_result, report, send, spec_buy_token, spec_execute_message, spec_execute_operation,
    spec_next_token_id, spec_result_carrier, MessageHostView, OperationHostView,
};
use crate::error::{lemma_success_is_unmarked, spec_failure_mark, spec_success_text, Error};
use crate::message::{
    ActualMessageView, M4View, MessageContext, MessageView, OperationContext, OperationView,
    OutgoingMessageView, M4,
};
use crate::state::AqueductView;
use crate::types::{Amount, ChainId, TokenId, TokenView};
use vstd::bytes::{lemma_auto_spec_u128_to_from_le_bytes, spec_u128_to_le_bytes};
use vstd::prelude::*;

verus! {

/// The ledgers of all chains. A chain that is not in the map has the empty
/// ledger.
pub struct World {
    pub chains: Map<ChainId, AqueductView>,
}

/// The messages' contexts, one for each hop of a run.
pub type Contexts = spec_fn(nat) -> MessageContext;

impl World {
    /// The ledger of `chain`.
    pub open spec fn ledger(self, chain: ChainId) -> AqueductView {
        if self.chains.contains_key(chain) {
            self.chains[chain]
        } else {
            AqueductView::empty()
        }
    }

    /// The world in which `chain` has the ledger `state`.
    pub open spec fn put(self, chain: ChainId, state: AqueductView) -> World {
        World { chains: self.chains.insert(chain, state) }
    }

    /// Whether `chain` holds `token`.
    pub open spec fn owns(self, chain: ChainId, token: TokenId) -> bool {
        self.ledger(chain).owned_tokens.contains_key(token)
    }

    /// Whether no chain but `chain` holds `token`.
    pub open spec fn only_owner(self, chain: ChainId, token: TokenId) -> bool {
        forall|other: ChainId| #[trigger] self.owns(other, token) ==> other == chain
    }

    /// Whether at most one chain holds `token`.
    pub open spec fn at_most_one_owner(self, token: TokenId) -> bool {
        forall|a: ChainId, b: ChainId|
            #[trigger] self.owns(a, token) && #[trigger] self.owns(b, token) ==> a == b
    }

    /// The chain that the token's minting chain records as its holder.
    pub open spec fn owner_of_record(self, token: TokenId) -> Result<ChainId, Error> {
        self.ledger(token.minted_chain).get_owner(token)
    }

    /// The world after the chain that `out` is addressed to has executed it.
    pub open spec fn deliver(
        self,
        out: OutgoingMessageView,
        context: MessageContext,
        clock: u64,
    ) -> (World, Option<OutgoingMessageView>) {
        let step = spec_execute_message(
            self.ledger(out.destination),
            context,
            out.message,
            MessageHostView { chain_id: out.destination, system_time: clock, feed: Seq::empty() },
        );
        (self.put(out.destination, step.state), step.sent)
    }

    /// The world after up to `hops` deliveries in a row, each of the message
    /// that the one before sent, and the message that is then under way.
    pub open spec fn relay(
        self,
        pending: Option<OutgoingMessageView>,
        contexts: Contexts,
        clock: u64,
        done: nat,
        hops: nat,
    ) -> (World, Option<OutgoingMessageView>)
        decreases hops,
    {
        if hops == 0 {
            (self, pending)
        } else {
            match pending {
                None => (self, None),
                Some(out) => {
                    let next = self.deliver(out, contexts(done), clock);
                    next.0.relay(next.1, contexts, clock, done + 1, (hops - 1) as nat)
                },
            }
        }
    }
}

/// A debit goes through exactly where the balance covers the amount, and
/// then takes exactly the amount; so no balance ever falls below zero.
pub proof fn law_debit_never_overdraws(state: AqueductView, amount: Amount)
    ensures
        state.debit(amount) is Ok <==> amount.0 <= state.balance.0,
        state.debit(amount) matches Ok(after) ==> after.balance.0 == state.balance.0 - amount.0,
        state.credit(amount).balance.0 >= state.balance.0,
{
}

/// One delivery of a run.
pub proof fn lemma_relay_hop(
    world: World,
    out: OutgoingMessageView,
    contexts: Contexts,
    clock: u64,
    done: nat,
    hops: nat,
)
    requires
        hops > 0,
    ensures
        world.relay(Some(out), contexts, clock, done, hops) == world.deliver(
            out,
            contexts(done),
            clock,
        ).0.relay(
            world.deliver(out, contexts(done), clock).1,
            contexts,
            clock,
            done + 1,
            (hops - 1) as nat,
        ),
{
}

/// The message that an executed operation leaves under way.
pub open spec fn pending(outcome: Result<Option<OutgoingMessageView>, Error>) -> Option<
    OutgoingMessageView,
> {
    match outcome {
        Ok(sent) => sent,
        Err(e) => None,
    }
}

/// The context of the transfer that a purchase begins.
pub open spec fn purchase_transfer(
    buyer: ChainId,
    seller: ChainId,
    token_id: TokenId,
    price: Amount,
    context: MessageContext,
) -> M4View {
    M4::spec_of_message(
        seller,
        ActualMessageView::SafeTransferFrom {
            from: seller,
            to: buyer,
            token_id,
            data: spec_u128_to_le_bytes(price.0),
        },
        context,
    )
}

/// The ledger of `chain` after the first `stage` hops of a purchase that
/// goes through: the buyer pays at the third hop, the seller is paid at the
/// fourth, the token and its listing leave the seller at the seventh, the
/// token reaches the buyer at the eighth, and the minting chain records the
/// buyer at the ninth.
pub open spec fn ledger_in_purchase(
    world: World,
    buyer: ChainId,
    seller: ChainId,
    token_id: TokenId,
    price: Amount,
    chain: ChainId,
    stage: nat,
) -> AqueductView {
    let before = world.ledger(chain);
    AqueductView {
        nfts: before.nfts,
        number_minted: before.number_minted,
        balance: if chain == buyer && stage >= 3 {
            Amount((before.balance.0 - price.0) as u128)
        } else if chain == seller && stage >= 4 {
            before.balance.spec_saturating_add(price)
        } else {
            before.balance
        },
        owned_tokens: if chain == seller && stage >= 7 {
            before.owned_tokens.remove(token_id)
        } else if chain == buyer && stage >= 8 {
            before.owned_tokens.insert(token_id, world.ledger(seller).owned_tokens[token_id])
        } else {
            before.owned_tokens
        },
        listings: if chain == seller && stage >= 7 {
            before.listings.remove(token_id)
        } else {
            before.listings
        },
        current_owner_minted: if chain == token_id.minted_chain && stage >= 9 {
            before.current_owner_minted.insert(token_id, buyer)
        } else {
            before.current_owner_minted
        },
    }
}

/// Whether every chain's ledger in `now` is what `stage` hops of the
/// purchase make of its ledger in `world`.
pub open spec fn purchase_at_stage(
    now: World,
    world: World,
    buyer: ChainId,
    seller: ChainId,
    token_id: TokenId,
    price: Amount,
    stage: nat,
) -> bool {
    forall|chain: ChainId| #[trigger]
        now.ledger(chain) == ledger_in_purchase(world, buyer, seller, token_id, price, chain, stage)
}

/// What a purchase needs to go through: buyer and seller differ, the minting
/// chain records the seller as the holder, the seller holds the token, alone,
/// and lists it at the price, and the buyer's balance covers the price.
pub open spec fn purchase_ready(
    world: World,
    buyer: ChainId,
    seller: ChainId,
    token_id: TokenId,
    price: Amount,
) -> bool {
    &&& buyer != seller
    &&& world.owner_of_record(token_id) == Ok::<ChainId, Error>(seller)
    &&& world.ledger(seller).get_price(token_id) == Ok::<Amount, Error>(price)
    &&& world.owns(seller, token_id)
    &&& world.only_owner(seller, token_id)
    &&& price.0 <= world.ledger(buyer).balance.0
}

/// A purchase that goes through. Where the seller holds the token and lists
/// it at a price that the buyer's balance covers, the purchase saga ends
/// after eleven hops with nothing under way; the buyer has paid exactly the
/// price and the seller has received it; the token, with its metadata, has
/// moved from the seller to the buyer, who is then its only holder and its
/// owner of record; the seller's listing is gone; and the receipt computed
/// again on the buyer's chain equals the one acknowledged, so that the
/// transfer reports success.
pub proof fn law_purchase_round_trip(
    world: World,
    buyer: ChainId,
    seller: ChainId,
    token_id: TokenId,
    price: Amount,
    context: OperationContext,
    host: OperationHostView,
    contexts: Contexts,
    clock: u64,
)
    requires
        purchase_ready(world, buyer, seller, token_id, price),
        host.chain_id == buyer,
    ensures
        ({
            let begun = spec_execute_operation(
                world.ledger(buyer),
                context,
                OperationView::Buy { token_id },
                host,
            );
            let reported = world.relay(pending(begun.outcome), contexts, clock, 0, 10);
            let end = world.relay(pending(begun.outcome), contexts, clock, 0, 11);
            &&& begun.state == world.ledger(buyer)
            &&& begun.outcome is Ok
            &&& reported.1 == report(
                purchase_transfer(buyer, seller, token_id, price, contexts(4)),
                buyer,
                spec_success_text(),
            )
            &&& end.1 is None
            &&& purchase_at_stage(end.0, world, buyer, seller, token_id, price, 11)
            &&& end.0.ledger(buyer).balance.0 == world.ledger(buyer).balance.0 - price.0
            &&& end.0.ledger(seller).balance == world.ledger(seller).balance.spec_saturating_add(
                price,
            )
            &&& end.0.owns(buyer, token_id)
            &&& end.0.only_owner(buyer, token_id)
            &&& end.0.ledger(buyer).owned_tokens[token_id] == world.ledger(
                seller,
            ).owned_tokens[token_id]
            &&& end.0.owner_of_record(token_id) == Ok::<ChainId, Error>(buyer)
            &&& !end.0.ledger(seller).listings.contains_key(token_id)
        }),
{
    lemma_auto_spec_u128_to_from_le_bytes();
    lemma_success_is_unmarked();
    let minted = token_id.minted_chain;
    let operation = OperationView::Buy { token_id };
    let m4 = M4::spec_of_operation(buyer, operation, context);
    let data = spec_u128_to_le_bytes(price.0);
    let m4t = purchase_transfer(buyer, seller, token_id, price, contexts(4));
    let token = TokenView { id: token_id, metadata: world.ledger(seller).owned_tokens[token_id] };
    assert(spec_buy_token(m4) == Ok::<TokenId, Error>(token_id));

    let out0 = OutgoingMessageView { destination: minted, message: MessageView::Buy_GetOwner { m4 } };
    let s1 = world.deliver(out0, contexts(0), clock);
    let out1 = OutgoingMessageView {
        destination: seller,
        message: MessageView::Buy_GetPrice { m4, cur_owner: seller },
    };
    assert(s1.1 == Some(out1));
    assert(purchase_at_stage(s1.0, world, buyer, seller, token_id, price, 1));

    let s2 = s1.0.deliver(out1, contexts(1), clock);
    let out2 = OutgoingMessageView {
        destination: buyer,
        message: MessageView::Buy_BackToPay { m4, cur_owner: seller, price },
    };
    assert(s1.0.ledger(seller) == ledger_in_purchase(world, buyer, seller, token_id, price, seller, 1));
    assert(s2.1 == Some(out2));
    assert(purchase_at_stage(s2.0, world, buyer, seller, token_id, price, 2));

    let s3 = s2.0.deliver(out2, contexts(2), clock);
    let out3 = OutgoingMessageView {
        destination: seller,
        message: MessageView::Buy_ReceivePayment { m4, cur_owner: seller, price },
    };
    assert(s2.0.ledger(buyer) == ledger_in_purchase(world, buyer, seller, token_id, price, buyer, 2));
    assert(s3.1 == Some(out3));
    assert(purchase_at_stage(s3.0, world, buyer, seller, token_id, price, 3));

    let s4 = s3.0.deliver(out3, contexts(3), clock);
    let out4 = OutgoingMessageView {
        destination: seller,
        message: MessageView::SafeTransferFrom { from: seller, to: buyer, token_id, data },
    };
    assert(s3.0.ledger(seller) == ledger_in_purchase(world, buyer, seller, token_id, price, seller, 3));
    assert(s4.1 == Some(out4));
    assert(purchase_at_stage(s4.0, world, buyer, seller, token_id, price, 4));

    let s5 = s4.0.deliver(out4, contexts(4), clock);
    let out5 = OutgoingMessageView {
        destination: seller,
        message: MessageView::SafeTransferFrom_CheckOwn { m4: m4t, sender: seller },
    };
    assert(s4.0.ledger(seller) == ledger_in_purchase(world, buyer, seller, token_id, price, seller, 4));
    assert(s5.1 == Some(out5));
    assert(purchase_at_stage(s5.0, world, buyer, seller, token_id, price, 5));

    let s6 = s5.0.deliver(out5, contexts(5), clock);
    let out6 = OutgoingMessageView {
        destination: seller,
        message: MessageView::SafeTransferFrom_TransferFrom { m4: m4t, sender: seller, own: true },
    };
    assert(s5.0.ledger(seller) == ledger_in_purchase(world, buyer, seller, token_id, price, seller, 5));
    assert(s6.1 == Some(out6));
    assert(purchase_at_stage(s6.0, world, buyer, seller, token_id, price, 6));

    let s7 = s6.0.deliver(out6, contexts(6), clock);
    let out7 = OutgoingMessageView {
        destination: buyer,
        message: MessageView::SafeTransferFrom_TransferTo {
            m4: m4t,
            sender: seller,
            own: true,
            token,
        },
    };
    assert(s6.0.ledger(seller) == ledger_in_purchase(world, buyer, seller, token_id, price, seller, 6));
    assert(s7.1 == Some(out7));
    assert(purchase_at_stage(s7.0, world, buyer, seller, token_id, price, 7));

    let s8 = s7.0.deliver(out7, contexts(7), clock);
    let out8 = OutgoingMessageView {
        destination: minted,
        message: MessageView::SafeTransferFrom_UpdateMintedChain {
            m4: m4t,
            sender: seller,
            own: true,
            token,
        },
    };
    assert(s7.0.ledger(buyer) == ledger_in_purchase(world, buyer, seller, token_id, price, buyer, 7));
    assert(s8.1 == Some(out8));
    assert(purchase_at_stage(s8.0, world, buyer, seller, token_id, price, 8));

    let s9 = s8.0.deliver(out8, contexts(8), clock);
    let out9 = OutgoingMessageView {
        destination: buyer,
        message: MessageView::SafeTransferFrom_OnERC721Received {
            m4: m4t,
            sender: seller,
            own: true,
            token,
        },
    };
    assert(s8.0.ledger(minted) == ledger_in_purchase(world, buyer, seller, token_id, price, minted, 8));
    assert(s9.1 == Some(out9));
    assert(purchase_at_stage(s9.0, world, buyer, seller, token_id, price, 9));

    let s10 = s9.0.deliver(out9, contexts(9), clock);
    let out10 = OutgoingMessageView {
        destination: seller,
        message: MessageView::Result { m4: m4t, origin: buyer, result: spec_success_text() },
    };
    assert(data.len() == 16);
    assert(spec_receipt(seller, buyer, token_id, data) is Some);
    assert(s9.0.ledger(buyer) == ledger_in_purchase(world, buyer, seller, token_id, price, buyer, 9));
    assert(s10.1 == Some(out10));
    assert(purchase_at_stage(s10.0, world, buyer, seller, token_id, price, 10));

    let s11 = s10.0.deliver(out10, contexts(10), clock);
    assert(s10.0.ledger(seller) == ledger_in_purchase(world, buyer, seller, token_id, price, seller, 10));
    assert(s11.1 is None);
    assert(purchase_at_stage(s11.0, world, buyer, seller, token_id, price, 11));

    lemma_relay_hop(world, out0, contexts, clock, 0, 11);
    lemma_relay_hop(s1.0, out1, contexts, clock, 1, 10);
    lemma_relay_hop(s2.0, out2, contexts, clock, 2, 9);
    lemma_relay_hop(s3.0, out3, contexts, clock, 3, 8);
    lemma_relay_hop(s4.0, out4, contexts, clock, 4, 7);
    lemma_relay_hop(s5.0, out5, contexts, clock, 5, 6);
    lemma_relay_hop(s6.0, out6, contexts, clock, 6, 5);
    lemma_relay_hop(s7.0, out7, contexts, clock, 7, 4);
    lemma_relay_hop(s8.0, out8, contexts, clock, 8, 3);
    lemma_relay_hop(s9.0, out9, contexts, clock, 9, 2);
    lemma_relay_hop(s10.0, out10, contexts, clock, 10, 1);
    assert(world.relay(Some(out0), contexts, clock, 0, 11) == s11);

    lemma_relay_hop(world, out0, contexts, clock, 0, 10);
    lemma_relay_hop(s1.0, out1, contexts, clock, 1, 9);
    lemma_relay_hop(s2.0, out2, contexts, clock, 2, 8);
    lemma_relay_hop(s3.0, out3, contexts, clock, 3, 7);
    lemma_relay_hop(s4.0, out4, contexts, clock, 4, 6);
    lemma_relay_hop(s5.0, out5, contexts, clock, 5, 5);
    lemma_relay_hop(s6.0, out6, contexts, clock, 6, 4);
    lemma_relay_hop(s7.0, out7, contexts, clock, 7, 3);
    lemma_relay_hop(s8.0, out8, contexts, clock, 8, 2);
    lemma_relay_hop(s9.0, out9, contexts, clock, 9, 1);
    assert(world.relay(Some(out0), contexts, clock, 0, 10) == s10);

    let end = s11.0;
    assert(end.ledger(buyer) == ledger_in_purchase(world, buyer, seller, token_id, price, buyer, 11));
    assert(end.ledger(seller) == ledger_in_purchase(world, buyer, seller, token_id, price, seller, 11));
    assert(end.ledger(minted) == ledger_in_purchase(world, buyer, seller, token_id, price, minted, 11));
    assert forall|other: ChainId| #[trigger] end.owns(other, token_id) implies other == buyer by {
        assert(end.ledger(other) == ledger_in_purchase(
            world,
            buyer,
            seller,
            token_id,
            price,
            other,
            11,
        ));
        if other != buyer && other != seller {
            assert(world.owns(other, token_id));
        }
    }
}

/// A purchase whose transfer fails is compensated. Take a purchase whose
/// payment has gone through: the buyer has paid the price and the seller has
/// received it in full. When the transfer then reports a failure to the
/// seller's chain, whatever else has happened on the two chains but to their
/// balances, the compensation saga ends after four hops with nothing under
/// way, and buyer and seller have the balances they had before the purchase.
pub proof fn law_failed_transfer_is_compensated(
    before: World,
    world: World,
    buyer: ChainId,
    seller: ChainId,
    token_id: TokenId,
    price: Amount,
    m4: M4View,
    origin: ChainId,
    failure: Seq<char>,
    transfer_context: MessageContext,
    contexts: Contexts,
    later: Contexts,
    clock: u64,
)
    requires
        buyer != seller,
        spec_buy_token(m4) == Ok::<TokenId, Error>(token_id),
        m4.original_chain == buyer,
        price.0 <= before.ledger(buyer).balance.0,
        before.ledger(seller).balance.0 + price.0 <= u128::MAX,
        contains_text(failure, spec_failure_mark()),
        ({
            let paid = before.relay(
                send(buyer, MessageView::Buy_BackToPay { m4, cur_owner: seller, price }),
                contexts,
                clock,
                0,
                2,
            ).0;
            &&& world.ledger(buyer).balance == paid.ledger(buyer).balance
            &&& world.ledger(seller).balance == paid.ledger(seller).balance
        }),
    ensures
        ({
            let paid = before.relay(
                send(buyer, MessageView::Buy_BackToPay { m4, cur_owner: seller, price }),
                contexts,
                clock,
                0,
                2,
            );
            let carrier = purchase_transfer(buyer, seller, token_id, price, transfer_context);
            let end = world.relay(
                send(seller, MessageView::Result { m4: carrier, origin, result: failure }),
                later,
                clock,
                0,
                4,
            );
            &&& paid.1 == send(
                seller,
                MessageView::SafeTransferFrom {
                    from: seller,
                    to: buyer,
                    token_id,
                    data: spec_u128_to_le_bytes(price.0),
                },
            )
            &&& paid.0.ledger(buyer).balance.0 == before.ledger(buyer).balance.0 - price.0
            &&& paid.0.ledger(seller).balance.0 == before.ledger(seller).balance.0 + price.0
            &&& end.1 is None
            &&& end.0.ledger(buyer).balance == before.ledger(buyer).balance
            &&& end.0.ledger(seller).balance == before.ledger(seller).balance
        }),
{
    lemma_auto_spec_u128_to_from_le_bytes();
    lemma_success_is_unmarked();
    let data = spec_u128_to_le_bytes(price.0);
    let q0 = OutgoingMessageView {
        destination: buyer,
        message: MessageView::Buy_BackToPay { m4, cur_owner: seller, price },
    };
    let t1 = before.deliver(q0, contexts(0), clock);
    let q1 = OutgoingMessageView {
        destination: seller,
        message: MessageView::Buy_ReceivePayment { m4, cur_owner: seller, price },
    };
    assert(t1.1 == Some(q1));
    let t2 = t1.0.deliver(q1, contexts(1), clock);
    lemma_relay_hop(before, q0, contexts, clock, 0, 2);
    lemma_relay_hop(t1.0, q1, contexts, clock, 1, 1);
    assert(before.relay(Some(q0), contexts, clock, 0, 2) == t2);
    assert(t2.0.ledger(buyer).balance.0 == before.ledger(buyer).balance.0 - price.0);
    assert(t2.0.ledger(seller).balance.0 == before.ledger(seller).balance.0 + price.0);

    let carrier = purchase_transfer(buyer, seller, token_id, price, transfer_context);
    let fresh = M4::spec_of_message(
        seller,
        ActualMessageView::Result { origin, result: failure },
        later(0),
    );
    let out0 = OutgoingMessageView {
        destination: seller,
        message: MessageView::Result { m4: carrier, origin, result: failure },
    };
    let s1 = world.deliver(out0, later(0), clock);
    let out1 = OutgoingMessageView {
        destination: seller,
        message: MessageView::Result_BackToPay { m4: fresh, from: seller, to: buyer, price },
    };
    assert(spec_amount_from_bytes(data) == Some(price.0));
    assert(s1.1 == Some(out1));
    let s2 = s1.0.deliver(out1, later(1), clock);
    let out2 = OutgoingMessageView {
        destination: buyer,
        message: MessageView::Result_ReceivePayment { m4: fresh, from: seller, to: buyer, price },
    };
    assert(s1.0.ledger(seller).balance == world.ledger(seller).balance);
    assert(s2.1 == Some(out2));
    let s3 = s2.0.deliver(out2, later(2), clock);
    let out3 = OutgoingMessageView {
        destination: seller,
        message: MessageView::Result { m4: fresh, origin: buyer, result: spec_success_text() },
    };
    assert(s2.0.ledger(buyer).balance == world.ledger(buyer).balance);
    assert(s3.1 == Some(out3));
    let s4 = s3.0.deliver(out3, later(3), clock);
    assert(s4.1 is None);
    lemma_relay_hop(world, out0, later, clock, 0, 4);
    lemma_relay_hop(s1.0, out1, later, clock, 1, 3);
    lemma_relay_hop(s2.0, out2, later, clock, 2, 2);
    lemma_relay_hop(s3.0, out3, later, clock, 3, 1);
    assert(world.relay(Some(out0), later, clock, 0, 4) == s4);
}

/// The ledger of `chain` after the first `stage` hops of a transfer of a
/// token that the giving chain holds: the token and its listing leave the
/// giving chain at the third hop, the token reaches the receiving chain at
/// the fourth, and the minting chain records the receiving chain at the
/// fifth.
pub open spec fn ledger_in_transfer(
    world: World,
    from: ChainId,
    to: ChainId,
    token_id: TokenId,
    chain: ChainId,
    stage: nat,
) -> AqueductView {
    let before = world.ledger(chain);
    let left = if chain == from && stage >= 3 {
        before.owned_tokens.remove(token_id)
    } else {
        before.owned_tokens
    };
    AqueductView {
        nfts: before.nfts,
        number_minted: before.number_minted,
        balance: before.balance,
        owned_tokens: if chain == to && stage >= 4 {
            left.insert(token_id, world.ledger(from).owned_tokens[token_id])
        } else {
            left
        },
        listings: if chain == from && stage >= 3 {
            before.listings.remove(token_id)
        } else {
            before.listings
        },
        current_owner_minted: if chain == token_id.minted_chain && stage >= 5 {
            before.current_owner_minted.insert(token_id, to)
        } else {
            before.current_owner_minted
        },
    }
}

/// Whether every chain's ledger in `now` is what `stage` hops of the
/// transfer make of its ledger in `world`.
pub open spec fn transfer_at_stage(
    now: World,
    world: World,
    from: ChainId,
    to: ChainId,
    token_id: TokenId,
    stage: nat,
) -> bool {
    forall|chain: ChainId| #[trigger]
        now.ledger(chain) == ledger_in_transfer(world, from, to, token_id, chain, stage)
}

/// A transfer keeps a token with one holder. Where one chain alone holds a
/// token and is asked to transfer it, then after each of the transfer's six
/// hops at most one chain holds the token; and after the sixth the receiving
/// chain holds it, alone, with the metadata it had, and is its owner of
/// record.
pub proof fn law_transfer_keeps_one_owner(
    world: World,
    from: ChainId,
    to: ChainId,
    token_id: TokenId,
    data: Seq<u8>,
    contexts: Contexts,
    clock: u64,
    hops: nat,
)
    requires
        world.owns(from, token_id),
        world.only_owner(from, token_id),
        hops <= 6,
    ensures
        ({
            let begin = send(from, MessageView::SafeTransferFrom { from, to, token_id, data });
            let stage = world.relay(begin, contexts, clock, 0, hops).0;
            let end = world.relay(begin, contexts, clock, 0, 6).0;
            &&& transfer_at_stage(stage, world, from, to, token_id, hops)
            &&& stage.at_most_one_owner(token_id)
            &&& end.owns(to, token_id)
            &&& end.only_owner(to, token_id)
            &&& end.ledger(to).owned_tokens[token_id] == world.ledger(from).owned_tokens[token_id]
            &&& end.owner_of_record(token_id) == Ok::<ChainId, Error>(to)
        }),
{
    let minted = token_id.minted_chain;
    let m4 = M4::spec_of_message(
        from,
        ActualMessageView::SafeTransferFrom { from, to, token_id, data },
        contexts(0),
    );
    let token = TokenView { id: token_id, metadata: world.ledger(from).owned_tokens[token_id] };
    let out0 = OutgoingMessageView {
        destination: from,
        message: MessageView::SafeTransferFrom { from, to, token_id, data },
    };
    let s1 = world.deliver(out0, contexts(0), clock);
    let out1 = OutgoingMessageView {
        destination: from,
        message: MessageView::SafeTransferFrom_CheckOwn { m4, sender: from },
    };
    assert(s1.1 == Some(out1));
    assert(transfer_at_stage(s1.0, world, from, to, token_id, 1));

    let s2 = s1.0.deliver(out1, contexts(1), clock);
    let out2 = OutgoingMessageView {
        destination: from,
        message: MessageView::SafeTransferFrom_TransferFrom { m4, sender: from, own: true },
    };
    assert(s1.0.ledger(from) == ledger_in_transfer(world, from, to, token_id, from, 1));
    assert(s2.1 == Some(out2));
    assert(transfer_at_stage(s2.0, world, from, to, token_id, 2));

    let s3 = s2.0.deliver(out2, contexts(2), clock);
    let out3 = OutgoingMessageView {
        destination: to,
        message: MessageView::SafeTransferFrom_TransferTo { m4, sender: from, own: true, token },
    };
    assert(s2.0.ledger(from) == ledger_in_transfer(world, from, to, token_id, from, 2));
    assert(s3.1 == Some(out3));
    assert(transfer_at_stage(s3.0, world, from, to, token_id, 3));

    let s4 = s3.0.deliver(out3, contexts(3), clock);
    let out4 = OutgoingMessageView {
        destination: minted,
        message: MessageView::SafeTransferFrom_UpdateMintedChain {
            m4,
            sender: from,
            own: true,
            token,
        },
    };
    assert(s3.0.ledger(to) == ledger_in_transfer(world, from, to, token_id, to, 3));
    assert(s4.1 == Some(out4));
    assert(transfer_at_stage(s4.0, world, from, to, token_id, 4));

    let s5 = s4.0.deliver(out4, contexts(4), clock);
    let out5 = OutgoingMessageView {
        destination: to,
        message: MessageView::SafeTransferFrom_OnERC721Received {
            m4,
            sender: from,
            own: true,
            token,
        },
    };
    assert(s4.0.ledger(minted) == ledger_in_transfer(world, from, to, token_id, minted, 4));
    assert(s5.1 == Some(out5));
    assert(transfer_at_stage(s5.0, world, from, to, token_id, 5));

    let s6 = s5.0.deliver(out5, contexts(5), clock);
    assert(s5.0.ledger(to) == ledger_in_transfer(world, from, to, token_id, to, 5));
    assert(transfer_at_stage(s6.0, world, from, to, token_id, 6));

    lemma_relay_hop(world, out0, contexts, clock, 0, 6);
    lemma_relay_hop(s1.0, out1, contexts, clock, 1, 5);
    lemma_relay_hop(s2.0, out2, contexts, clock, 2, 4);
    lemma_relay_hop(s3.0, out3, contexts, clock, 3, 3);
    lemma_relay_hop(s4.0, out4, contexts, clock, 4, 2);
    lemma_relay_hop(s5.0, out5, contexts, clock, 5, 1);
    assert(world.relay(Some(out0), contexts, clock, 0, 6) == s6);
    if hops >= 1 {
        lemma_relay_hop(world, out0, contexts, clock, 0, hops);
    }
    if hops >= 2 {
        lemma_relay_hop(s1.0, out1, contexts, clock, 1, (hops - 1) as nat);
    }
    if hops >= 3 {
        lemma_relay_hop(s2.0, out2, contexts, clock, 2, (hops - 2) as nat);
    }
    if hops >= 4 {
        lemma_relay_hop(s3.0, out3, contexts, clock, 3, (hops - 3) as nat);
    }
    if hops >= 5 {
        lemma_relay_hop(s4.0, out4, contexts, clock, 4, (hops - 4) as nat);
    }
    let stage = world.relay(Some(out0), contexts, clock, 0, hops).0;
    assert(stage == if hops == 0 {
        world
    } else if hops == 1 {
        s1.0
    } else if hops == 2 {
        s2.0
    } else if hops == 3 {
        s3.0
    } else if hops == 4 {
        s4.0
    } else if hops == 5 {
        s5.0
    } else {
        s6.0
    });
    assert(transfer_at_stage(world, world, from, to, token_id, 0));
    assert(transfer_at_stage(stage, world, from, to, token_id, hops));
    assert forall|a: ChainId, b: ChainId| #[trigger]
        stage.owns(a, token_id) && #[trigger] stage.owns(b, token_id) implies a == b by {
        assert(stage.ledger(a) == ledger_in_transfer(world, from, to, token_id, a, hops));
        assert(stage.ledger(b) == ledger_in_transfer(world, from, to, token_id, b, hops));
        if a != from && a != to {
            assert(world.owns(a, token_id));
        }
        if b != from && b != to {
            assert(world.owns(b, token_id));
        }
        if a != to && a == from && hops < 3 {
            assert(world.owns(a, token_id));
        }
        if hops < 4 {
            if stage.owns(a, token_id) {
                assert(world.owns(a, token_id));
            }
            if stage.owns(b, token_id) {
                assert(world.owns(b, token_id));
            }
        }
    }
    let end = s6.0;
    assert(end.ledger(to) == ledger_in_transfer(world, from, to, token_id, to, 6));
    assert(end.ledger(minted) == ledger_in_transfer(world, from, to, token_id, minted, 6));
    assert forall|other: ChainId| #[trigger] end.owns(other, token_id) implies other == to by {
        assert(end.ledger(other) == ledger_in_transfer(world, from, to, token_id, other, 6));
        if other != to && other != from {
            assert(world.owns(other, token_id));
        }
    }
}

/// Tokens reach a chain in two ways only. An operation other than a mint, and
/// a message other than the arrival of a transferred token, adds nothing to
/// the tokens that a chain holds; a mint adds the chain's next token and no
/// other; an arrival adds the token that arrives and no other.
pub proof fn law_tokens_arrive_by_mint_or_transfer(
    state: AqueductView,
    operation_context: OperationContext,
    operation: OperationView,
    operation_host: OperationHostView,
    message_context: MessageContext,
    message: MessageView,
    message_host: MessageHostView,
    token_id: TokenId,
)
    requires
        !state.owned_tokens.contains_key(token_id),
    ensures
        spec_execute_operation(
            state,
            operation_context,
            operation,
            operation_host,
        ).state.owned_tokens.contains_key(token_id) ==> operation is Mint && token_id
            == spec_next_token_id(state, operation_host.chain_id),
        spec_execute_message(
            state,
            message_context,
            message,
            message_host,
        ).state.owned_tokens.contains_key(token_id) ==> (message matches MessageView::SafeTransferFrom_TransferTo {
            token,
            ..
        } && token_id == token.id),
{
}

/// The context that a message carries, where it carries one.
pub open spec fn carried(message: MessageView) -> Option<M4View> {
    match message {
        MessageView::Default => None,
        MessageView::SafeTransferFrom { .. } => None,
        MessageView::Result { m4, .. } => Some(m4),
        MessageView::Buy_GetOwner { m4 } => Some(m4),
        MessageView::Buy_GetPrice { m4, .. } => Some(m4),
        MessageView::Buy_BackToPay { m4, .. } => Some(m4),
        MessageView::Buy_ReceivePayment { m4, .. } => Some(m4),
        MessageView::Buy_ReceiveRollbackPayment { m4, .. } => Some(m4),
        MessageView::Receive_Company { m4, .. } => Some(m4),
        MessageView::SafeTransferFrom_CheckOwn { m4, .. } => Some(m4),
        MessageView::SafeTransferFrom_TransferFrom { m4, .. } => Some(m4),
        MessageView::SafeTransferFrom_TransferTo { m4, .. } => Some(m4),
        MessageView::SafeTransferFrom_UpdateMintedChain { m4, .. } => Some(m4),
        MessageView::SafeTransferFrom_OnERC721Received { m4, .. } => Some(m4),
        MessageView::Result_BackToPay { m4, .. } => Some(m4),
        MessageView::Result_ReceivePayment { m4, .. } => Some(m4),
    }
}

/// Whether a context names exactly one request as the one that began the
/// saga: an operation or a message.
pub open spec fn names_one_request(m4: M4View) -> bool {
    (m4.original_operation is Some) != (m4.original_message is Some)
}

/// A saga's context travels unchanged. A hop within a saga sends exactly one
/// message. That message carries the context that came in; where it is a
/// report, it goes to the chain on which the saga began. The one hop that
/// sends a message without the context is the payment to the seller, which
/// begins the transfer.
pub proof fn law_context_travels_unchanged(
    state: AqueductView,
    context: MessageContext,
    message: MessageView,
    host: MessageHostView,
)
    requires
        carried(message) is Some,
        !(message is Result),
    ensures
        ({
            let step = spec_execute_message(state, context, message, host);
            let m4 = carried(message)->0;
            &&& step.sent is Some
            &&& match carried(step.sent->0.message) {
                Some(next) => next == m4,
                None => message is Buy_ReceivePayment && step.sent->0.message is SafeTransferFrom,
            }
            &&& step.sent->0.message is Result ==> step.sent->0.destination == m4.original_chain
        }),
{
}

/// A saga's context is made where the saga begins, on the chain that begins
/// it, and names exactly one request. A `Buy` or a `Receive` that sends a
/// message, the first hop of a transfer, and a report that calls for
/// compensation each send a message with such a context.
pub proof fn law_context_is_made_at_the_first_hop(
    state: AqueductView,
    operation_context: OperationContext,
    operation: OperationView,
    operation_host: OperationHostView,
    message_context: MessageContext,
    message: MessageView,
    message_host: MessageHostView,
)
    ensures
        ({
            let begun = spec_execute_operation(state, operation_context, operation, operation_host);
            begun.outcome matches Ok(Some(out)) ==> (carried(out.message) matches Some(m4)
                && names_one_request(m4) && m4.original_chain == operation_host.chain_id
                && m4.original_operation == Some(operation) && m4.original_ope_context == Some(
                operation_context,
            ))
        }),
        ({
            let step = spec_execute_message(state, message_context, message, message_host);
            (message is SafeTransferFrom || message is Result) ==> (step.sent matches Some(out)
                ==> (carried(out.message) matches Some(m4) && names_one_request(m4)
                && m4.original_chain == message_host.chain_id && m4.original_msg_context == Some(
                message_context,
            )))
        }),
{
}

/// How many hops a message can still set off, at most.
pub open spec fn rank(message: MessageView) -> nat {
    match message {
        MessageView::Default => 0,
        MessageView::Result { m4, .. } => if m4.original_message matches Some(
            ActualMessageView::SafeTransferFrom { .. },
        ) {
            4
        } else {
            0
        },
        MessageView::Result_ReceivePayment { m4, .. } => if spec_result_carrier(m4) is Ok {
            2
        } else {
            5
        },
        MessageView::Result_BackToPay { m4, .. } => if spec_result_carrier(m4) is Ok {
            3
        } else {
            5
        },
        MessageView::Receive_Company { .. } => 5,
        MessageView::SafeTransferFrom_OnERC721Received { .. } => 5,
        MessageView::SafeTransferFrom_UpdateMintedChain { .. } => 6,
        MessageView::SafeTransferFrom_TransferTo { .. } => 7,
        MessageView::SafeTransferFrom_TransferFrom { .. } => 8,
        MessageView::SafeTransferFrom_CheckOwn { .. } => 9,
        MessageView::SafeTransferFrom { .. } => 10,
        MessageView::Buy_ReceiveRollbackPayment { .. } => 11,
        MessageView::Buy_ReceivePayment { .. } => 12,
        MessageView::Buy_BackToPay { .. } => 13,
        MessageView::Buy_GetPrice { .. } => 14,
        MessageView::Buy_GetOwner { .. } => 15,
    }
}

/// Every hop brings a saga nearer its end: the message that a step sends has
/// a lower rank than the message that the step executed.
pub proof fn law_every_hop_lowers_the_rank(
    state: AqueductView,
    context: MessageContext,
    message: MessageView,
    host: MessageHostView,
)
    ensures
        spec_execute_message(state, context, message, host).sent matches Some(out) ==> rank(
            out.message,
        ) < rank(message),
{
}

/// Every saga ends. Whatever the ledgers hold and whatever message is under
/// way, after one delivery more than the message's rank nothing is under way
/// any more; so no saga takes more than sixteen deliveries.
pub proof fn law_every_saga_ends(
    world: World,
    out: OutgoingMessageView,
    contexts: Contexts,
    clock: u64,
    done: nat,
    hops: nat,
)
    requires
        rank(out.message) < hops,
    ensures
        world.relay(Some(out), contexts, clock, done, hops).1 is None,
        rank(out.message) <= 15,
    decreases hops,
{
    {
        let next = world.deliver(out, contexts(done), clock);
        law_every_hop_lowers_the_rank(
            world.ledger(out.destination),
            contexts(done),
            out.message,
            MessageHostView { chain_id: out.destination, system_time: clock, feed: Seq::empty() },
        );
        lemma_relay_hop(world, out, contexts, clock, done, hops);
        match next.1 {
            Some(onward) => {
                law_every_saga_ends(next.0, onward, contexts, clock, done + 1, (hops - 1) as nat);
            },
            None => {
                assert(next.0.relay(None, contexts, clock, done + 1, (hops - 1) as nat).1 is None);
            },
        }
    }
}

/// A chain mints its tokens in order. A mint gives the new token the chain's
/// count of mints as its index and raises the count by one, so that no two
/// mints of one chain give the same identity; and no other step changes the
/// count.
pub proof fn law_mints_count_upwards(
    state: AqueductView,
    operation_context: OperationContext,
    operation: OperationView,
    operation_host: OperationHostView,
    message_context: MessageContext,
    message: MessageView,
    message_host: MessageHostView,
)
    requires
        state.number_minted < u64::MAX,
    ensures
        ({
            let after = spec_execute_operation(
                state,
                operation_context,
                operation,
                operation_host,
            ).state;
            let chain = operation_host.chain_id;
            if operation is Mint {
                &&& after.number_minted == state.number_minted + 1
                &&& after.owned_tokens.contains_key(spec_next_token_id(state, chain))
                &&& after.get_owner(spec_next_token_id(state, chain)) == Ok::<ChainId, Error>(
                    chain,
                )
                &&& spec_next_token_id(after, chain) != spec_next_token_id(state, chain)
                &&& spec_next_token_id(after, chain).index > spec_next_token_id(state, chain).index
            } else {
                after.number_minted == state.number_minted
            }
        }),
        spec_execute_message(state, message_context, message, message_host).state.number_minted
            == state.number_minted,
{
}

/// A step sends at most one message, and a hop of a saga exactly one. The
/// operations that change the ledger at once send nothing; a `Buy` sends the
/// saga's first message; every message but `Default` and a report sets off a
/// step that sends one message onward.
pub proof fn law_every_hop_sends_one_message(
    state: AqueductView,
    operation_context: OperationContext,
    operation: OperationView,
    operation_host: OperationHostView,
    message_context: MessageContext,
    message: MessageView,
    message_host: MessageHostView,
)
    ensures
        ({
            let begun = spec_execute_operation(state, operation_context, operation, operation_host);
            &&& (operation is Mint || operation is Burn || operation is List || operation is Cancel
                || operation is Income) ==> begun.outcome == Ok::<
                Option<OutgoingMessageView>,
                Error,
            >(None)
            &&& operation is Buy ==> pending(begun.outcome) is Some
            &&& operation is Receive ==> (pending(begun.outcome) is Some || begun.outcome
                == Err::<Option<OutgoingMessageView>, Error>(
                Error::ThisChainDoesNotOwnThisTokenError,
            ))
            &&& begun.outcome is Err ==> begun.state == state
        }),
        ({
            let step = spec_execute_message(state, message_context, message, message_host);
            &&& message is Default ==> step.sent is None && step.state == state
            &&& !(message is Default) && !(message is Result) ==> step.sent is Some
        }),
{
}

/// Every failure of a transfer calls for compensation, and success does not.
/// Whatever failure a hop of a transfer reports, the chain that receives the
/// report begins the compensation: it sends a message, which takes the price
/// back where the transfer's payload holds one. A report of success sends
/// nothing.
pub proof fn law_every_failure_of_a_transfer_is_compensated(
    state: AqueductView,
    chain: ChainId,
    context: MessageContext,
    m4: M4View,
    origin: ChainId,
    error: Error,
)
    requires
        m4.original_message matches Some(ActualMessageView::SafeTransferFrom { .. }),
    ensures
        calls_for_compensation(m4, error.spec_text()),
        !calls_for_compensation(m4, spec_success_text()),
        hop_result(state, chain, context, m4, origin, error.spec_text()).sent is Some,
        hop_result(state, chain, context, m4, origin, spec_success_text()).sent is None,
        m4.original_message matches Some(ActualMessageView::SafeTransferFrom { from, to, data, .. })
            ==> (spec_amount_from_bytes(data) matches Some(attos) ==> hop_result(
            state,
            chain,
            context,
            m4,
            origin,
            error.spec_text(),
        ).sent == send(
            from,
            MessageView::Result_BackToPay {
                m4: M4::spec_of_message(
                    chain,
                    ActualMessageView::Result { origin, result: error.spec_text() },
                    context,
                ),
                from,
                to,
                price: Amount(attos),
            },
        )),
{
    error.lemma_text_is_marked();
    lemma_success_is_unmarked();
}

} // verus!
