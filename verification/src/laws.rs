//! What holds of the paywall whatever the requests: laws over the state
//! machine of the record store, each proved.

use vstd::prelude::*;
use crate::address::article_seeds;
use crate::address::derived;
use crate::errors::InstructionError;
use crate::errors::PaywallError;
use crate::instructions::create_article::listing_refusal;
use crate::instructions::purchase::lemma_fee_shares_fit;
use crate::instructions::purchase::Purchase;
use crate::instructions::purchase::PurchaseKeys;
use crate::instructions::purchase::Settlement;
use crate::instructions::purchase::Transfer;
use crate::model::lemma_run_keeps_valid;
use crate::model::lookup;
use crate::model::Instruction;
use crate::model::State;
use crate::pubkey::Pubkey;
use crate::state::Article;

verus! {

/// A listing is accepted exactly where its terms are within bounds and its
/// address is selected and free, and an accepted listing reads back from its
/// address with the terms given, the signer as creator, and no sale.
pub proof fn lemma_created_article_reads_back(
    state: State,
    creator: Pubkey,
    article_seq: u64,
    uri_encrypted: String,
    pay_mint: Pubkey,
    price: u64,
    royalty_bps: u16,
    transferable: bool,
)
    ensures
        ({
            &&& listing_refusal(uri_encrypted@, price, royalty_bps) is None
            &&& derived(article_seeds(creator, article_seq), state.program_id) matches Some(
                (key, _),
            )
            &&& !state.articles.contains_key(key)
        }) <==> state.create_article(
            creator,
            article_seq,
            uri_encrypted,
            pay_mint,
            price,
            royalty_bps,
            transferable,
        ) is Ok,
        state.create_article(
            creator,
            article_seq,
            uri_encrypted,
            pay_mint,
            price,
            royalty_bps,
            transferable,
        ) matches Ok((after, event)) ==> lookup(after.articles, event.article) == Some(
            Article {
                creator,
                uri_encrypted,
                pay_mint,
                price,
                royalty_bps,
                transferable,
                sales: 0,
            },
        ),
{
}

/// The creator of a listed article may set any price above zero, and the
/// article then has that price and is otherwise unchanged; anyone else is
/// refused as unauthorized, whatever the price.
pub proof fn lemma_only_creator_sets_price(
    state: State,
    signer: Pubkey,
    article: Pubkey,
    price: u64,
)
    requires
        state.articles.contains_key(article),
    ensures
        signer == state.articles[article].creator && price > 0 ==> (state.set_article_price(
            signer,
            article,
            price,
        ) matches Ok((after, _)) && lookup(after.articles, article) == Some(
            Article { price, ..state.articles[article] },
        )),
        signer != state.articles[article].creator ==> state.set_article_price(
            signer,
            article,
            price,
        ) == Err::<(State, crate::instructions::set_article_price::ArticleUpdated), InstructionError>(
            InstructionError::Paywall(PaywallError::Unauthorized),
        ),
{
}

/// The amount that a transfer moves, or zero where none is made.
pub open spec fn amount_moved(transfer: Option<Transfer>) -> int {
    match transfer {
        Some(transfer) => transfer.amount as int,
        None => 0,
    }
}

/// Under a fee schedule within bounds the price is split without loss: no
/// share is negative, the three shares add up to the price, and the
/// transfers and the announcement of the purchase carry exactly these
/// shares.
pub proof fn lemma_split_is_exact(accounts: Purchase, referrer: Option<Pubkey>)
    requires
        accounts.fee_config.valid(),
    ensures
        0 <= accounts.protocol_fee(),
        0 <= accounts.referrer_fee(referrer),
        0 <= accounts.creator_amount(referrer),
        accounts.creator_amount(referrer) + accounts.protocol_fee() + accounts.referrer_fee(
            referrer,
        ) == accounts.article.price,
        ({
            let settlement = accounts.settlement(referrer);
            &&& settlement.purchased.creator_amount == accounts.creator_amount(referrer)
            &&& settlement.purchased.protocol_fee == accounts.protocol_fee()
            &&& settlement.purchased.referrer_fee == accounts.referrer_fee(referrer)
            &&& settlement.purchased.creator_amount + settlement.purchased.protocol_fee
                + settlement.purchased.referrer_fee == settlement.purchased.paid_amount
            &&& settlement.to_creator.amount + amount_moved(settlement.to_treasury) + amount_moved(
                settlement.to_referrer,
            ) == accounts.article.price
        }),
{
    lemma_fee_shares_fit(
        accounts.article.price,
        accounts.fee_config.protocol_fee_bps,
        accounts.fee_config.referrer_fee_bps,
    );
}

/// Where a buyer holds a receipt for an article, a purchase of that article
/// by that buyer is refused as already made, whatever else it names.
pub proof fn lemma_receipt_refuses_purchase(
    state: State,
    keys: PurchaseKeys,
    referrer: Option<Pubkey>,
    now: i64,
)
    requires
        state.valid(),
        state.receipts.contains_key((keys.article, keys.buyer)),
    ensures
        state.purchase(keys, referrer, now) == Err::<(State, Settlement), InstructionError>(
            InstructionError::Paywall(PaywallError::AlreadyPurchased),
        ),
{
}

/// No instruction removes an article. Its creator, locator, currency,
/// royalty and transferability never change. Its price changes only by a
/// change of price that its creator signs, and its sales counter only by a
/// purchase of it, which raises the counter by one.
pub proof fn lemma_step_keeps_articles(state: State, instruction: Instruction, key: Pubkey)
    requires
        state.articles.contains_key(key),
    ensures
        ({
            let before = state.articles[key];
            let after = state.step(instruction).articles;
            &&& after.contains_key(key)
            &&& after[key].creator == before.creator
            &&& after[key].uri_encrypted == before.uri_encrypted
            &&& after[key].pay_mint == before.pay_mint
            &&& after[key].royalty_bps == before.royalty_bps
            &&& after[key].transferable == before.transferable
            &&& after[key].price != before.price ==> (instruction matches Instruction::SetArticlePrice {
                creator,
                article,
                price,
            } && creator == before.creator && article == key && price == after[key].price)
            &&& after[key].sales != before.sales ==> (instruction matches Instruction::Purchase {
                keys,
                ..
            } && keys.article == key && after[key].sales == before.sales + 1)
        }),
{
}

/// The fee schedule changes only by a write that the administrator signs,
/// and the administrator and the program never change.
pub proof fn lemma_step_keeps_fee_schedule(state: State, instruction: Instruction)
    ensures
        state.step(instruction).admin == state.admin,
        state.step(instruction).program_id == state.program_id,
        state.step(instruction).fee_config != state.fee_config ==> (
        instruction matches Instruction::SetFeeConfig {
            admin,
            protocol_fee_bps,
            referrer_fee_bps,
            treasury,
        } && admin == state.admin && state.step(instruction).fee_config == Some(
            crate::state::FeeConfig { protocol_fee_bps, referrer_fee_bps, treasury },
        )),
{
}

/// No instruction removes a receipt or changes one.
pub proof fn lemma_step_keeps_receipts(
    state: State,
    instruction: Instruction,
    article: Pubkey,
    buyer: Pubkey,
)
    requires
        state.receipts.contains_key((article, buyer)),
    ensures
        lookup(state.step(instruction).receipts, (article, buyer)) == Some(
            state.receipts[(article, buyer)],
        ),
{
}

/// No sequence of instructions removes a receipt or changes one.
pub proof fn lemma_run_keeps_receipts(
    state: State,
    instructions: Seq<Instruction>,
    article: Pubkey,
    buyer: Pubkey,
)
    requires
        state.receipts.contains_key((article, buyer)),
    ensures
        lookup(state.run(instructions).receipts, (article, buyer)) == Some(
            state.receipts[(article, buyer)],
        ),
    decreases instructions.len(),
{
    if instructions.len() > 0 {
        lemma_run_keeps_receipts(state, instructions.drop_last(), article, buyer);
        lemma_step_keeps_receipts(
            state.run(instructions.drop_last()),
            instructions.last(),
            article,
            buyer,
        );
    }
}

/// After an accepted purchase, every later purchase of the same article by
/// the same buyer is refused as already made: at once, and after any
/// sequence of other instructions.
pub proof fn lemma_second_purchase_is_refused(
    state: State,
    first: PurchaseKeys,
    first_referrer: Option<Pubkey>,
    first_now: i64,
    between: Seq<Instruction>,
    second: PurchaseKeys,
    second_referrer: Option<Pubkey>,
    second_now: i64,
)
    requires
        state.valid(),
        state.purchase(first, first_referrer, first_now) is Ok,
        second.article == first.article,
        second.buyer == first.buyer,
    ensures
        state.purchase(first, first_referrer, first_now) matches Ok((after, _)) && after.run(
            between,
        ).purchase(second, second_referrer, second_now) == Err::<
            (State, Settlement),
            InstructionError,
        >(InstructionError::Paywall(PaywallError::AlreadyPurchased)),
{
    let after = state.purchase(first, first_referrer, first_now)->Ok_0.0;
    crate::model::lemma_purchase_keeps_valid(state, first, first_referrer, first_now);
    lemma_run_keeps_valid(after, between);
    lemma_run_keeps_receipts(after, between, first.article, first.buyer);
    lemma_receipt_refuses_purchase(after.run(between), second, second_referrer, second_now);
}

/// A purchase by one buyer does not touch the purchase of the same article
/// by another: where the sales counter has room for both, the second buyer
/// is accepted after the first exactly where the second would have been
/// accepted before, refused for the same reason otherwise, and asked for the
/// same transfers, credential and announcement.
pub proof fn lemma_other_buyers_are_unaffected(
    state: State,
    first: PurchaseKeys,
    first_referrer: Option<Pubkey>,
    first_now: i64,
    second: PurchaseKeys,
    second_referrer: Option<Pubkey>,
    second_now: i64,
)
    requires
        state.purchase(first, first_referrer, first_now) is Ok,
        second.article == first.article,
        second.buyer != first.buyer,
        state.articles[first.article].sales + 1 < u64::MAX,
    ensures
        ({
            let after = state.purchase(first, first_referrer, first_now)->Ok_0.0;
            let before_first = state.purchase(second, second_referrer, second_now);
            let after_first = after.purchase(second, second_referrer, second_now);
            match before_first {
                Ok((_, settlement)) => after_first matches Ok((_, same)) && same == settlement,
                Err(error) => after_first == Err::<(State, Settlement), InstructionError>(error),
            }
        }),
{
}

/// In a valid record store every article has been sold exactly as often as
/// there are buyers with a receipt for it.
pub proof fn lemma_sales_count_receipts(state: State, article: Pubkey)
    requires
        state.valid(),
        state.articles.contains_key(article),
    ensures
        state.buyers_of(article).finite(),
        state.articles[article].sales == state.buyers_of(article).len(),
{
}

/// The record store after a sequence of purchases, where each in turn is
/// accepted.
pub open spec fn all_purchased(
    state: State,
    orders: Seq<(PurchaseKeys, Option<Pubkey>, i64)>,
) -> Option<State>
    decreases orders.len(),
{
    if orders.len() == 0 {
        Some(state)
    } else {
        match all_purchased(state, orders.drop_last()) {
            Some(before) => match before.purchase(orders.last().0, orders.last().1, orders.last().2) {
                Ok((after, _)) => Some(after),
                Err(_) => None,
            },
            None => None,
        }
    }
}

/// Accepted purchases of one article raise its sales counter by exactly
/// their number, so that an article listed and then bought by `n` buyers
/// has been sold `n` times; and the buyers are then all different.
pub proof fn lemma_sales_after_purchases(
    state: State,
    article: Pubkey,
    orders: Seq<(PurchaseKeys, Option<Pubkey>, i64)>,
)
    requires
        state.articles.contains_key(article),
        forall|i: int| 0 <= i < orders.len() ==> (#[trigger] orders[i]).0.article == article,
        all_purchased(state, orders) is Some,
    ensures
        all_purchased(state, orders) matches Some(after) && after.articles.contains_key(article)
            && after.articles[article].sales == state.articles[article].sales + orders.len(),
        forall|i: int, j: int|
            0 <= i < j < orders.len() ==> (#[trigger] orders[i]).0.buyer != (
            #[trigger] orders[j]).0.buyer,
        forall|i: int|
            0 <= i < orders.len() ==> (all_purchased(state, orders)->Some_0).receipts.contains_key(
                (article, (#[trigger] orders[i]).0.buyer),
            ),
    decreases orders.len(),
{
    if orders.len() > 0 {
        let front = orders.drop_last();
        assert forall|i: int| 0 <= i < front.len() implies (#[trigger] front[i]).0.article
            == article by {
            assert(front[i] == orders[i]);
        }
        lemma_sales_after_purchases(state, article, front);
        let before = all_purchased(state, front)->Some_0;
        let after = all_purchased(state, orders)->Some_0;
        assert forall|i: int, j: int| 0 <= i < j < orders.len() implies (#[trigger] orders[i]).0.buyer
            != (#[trigger] orders[j]).0.buyer by {
            assert(front[i] == orders[i]);
            if j < front.len() {
                assert(front[j] == orders[j]);
            } else {
                assert(before.receipts.contains_key((article, front[i].0.buyer)));
            }
        }
        assert forall|i: int| 0 <= i < orders.len() implies after.receipts.contains_key(
            (article, (#[trigger] orders[i]).0.buyer),
        ) by {
            if i < front.len() {
                assert(front[i] == orders[i]);
            }
        }
    }
}

/// A purchase of an article whose sales counter is at its maximum is
/// refused as an overflow, and the counter keeps its value.
pub proof fn lemma_full_counter_refuses_purchase(
    state: State,
    keys: PurchaseKeys,
    referrer: Option<Pubkey>,
    now: i64,
)
    requires
        state.articles.contains_key(keys.article),
        state.fee_config is Some,
        !state.receipts.contains_key((keys.article, keys.buyer)),
        keys.payment_mint == state.articles[keys.article].pay_mint,
        state.articles[keys.article].sales == u64::MAX,
    ensures
        state.purchase(keys, referrer, now) == Err::<(State, Settlement), InstructionError>(
            InstructionError::Paywall(PaywallError::Overflow),
        ),
        state.step(Instruction::Purchase { keys, referrer, now }) == state,
{
}

} // verus!
