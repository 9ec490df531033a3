//! A paywall for articles: listings, a fee schedule, and purchases that
//! split the price, record a receipt and grant an access credential.
//!
//! The crate has three layers. [`instructions`] holds the four instructions,
//! each deciding on the records and accounts it is handed. The functions of
//! this module run them against a [`RecordStore`], which keeps the records
//! and looks them up. [`model`] says what the record store holds and what
//! each instruction does to it, and [`laws`] proves what follows.
//!
//! Currency is not moved here and no token is minted: a purchase returns the
//! transfers to make and the credential to mint, for the caller to carry out.

use vstd::prelude::*;

pub mod address;
pub mod constants;
pub mod errors;
pub mod instructions;
pub mod laws;
pub mod model;
pub mod pubkey;
pub mod state;
pub mod store;
mod table;

pub use errors::InstructionError;
pub use errors::PaywallError;
pub use pubkey::Pubkey;
pub use store::RecordStore;

use address::article_address;
use instructions::create_article::ArticleCreated;
use instructions::create_article::CreateArticle;
use instructions::purchase::Purchase;
use instructions::purchase::PurchaseKeys;
use instructions::purchase::Settlement;
use instructions::set_article_price::ArticleUpdated;
use instructions::set_article_price::SetArticlePrice;
use instructions::set_fee_config::FeeUpdated;
use instructions::set_fee_config::SetFeeConfig;
use model::lemma_create_article_keeps_valid;
use model::lemma_purchase_keeps_valid;
use model::lemma_set_article_price_keeps_valid;
use model::lemma_set_fee_config_keeps_valid;
use state::Article;
use state::FeeConfig;

verus! {

/// Lists an article of `creator` under the sequence number `article_seq`.
///
/// The article is created at the address that the creator and the sequence
/// number select under the program of the record store, as
/// [`create_article_at`] creates it. A refused listing leaves the record
/// store as it was.
pub fn create_article(
    store: &mut RecordStore,
    creator: Pubkey,
    article_seq: u64,
    uri_encrypted: String,
    pay_mint: Pubkey,
    price: u64,
    royalty_bps: u16,
    transferable: bool,
) -> (result: Result<ArticleCreated, InstructionError>)
    ensures
        final(store)@.valid(),
        match old(store)@.create_article(
            creator,
            article_seq,
            uri_encrypted,
            pay_mint,
            price,
            royalty_bps,
            transferable,
        ) {
            Ok((after, event)) => result == Ok::<ArticleCreated, InstructionError>(event)
                && final(store)@ == after,
            Err(error) => result == Err::<ArticleCreated, InstructionError>(error) && final(store)@
                == old(store)@,
        },
{
    let program_id = store.program_id();
    match article_address(&creator, article_seq, &program_id) {
        Some((key, _)) => create_article_at(
            store,
            key,
            creator,
            article_seq,
            uri_encrypted,
            pay_mint,
            price,
            royalty_bps,
            transferable,
        ),
        None => Err(InstructionError::NoAddress),
    }
}

/// Lists an article of `creator` at the address `key`.
///
/// Nothing may live at the address yet. The terms are then checked, and the
/// article is created with the terms given, `creator` as its creator, and no
/// sale. A refused listing leaves the record store as it was.
pub fn create_article_at(
    store: &mut RecordStore,
    key: Pubkey,
    creator: Pubkey,
    article_seq: u64,
    uri_encrypted: String,
    pay_mint: Pubkey,
    price: u64,
    royalty_bps: u16,
    transferable: bool,
) -> (result: Result<ArticleCreated, InstructionError>)
    ensures
        final(store)@.valid(),
        match old(store)@.create_article_at(
            key,
            creator,
            uri_encrypted,
            pay_mint,
            price,
            royalty_bps,
            transferable,
        ) {
            Ok((after, event)) => result == Ok::<ArticleCreated, InstructionError>(event)
                && final(store)@ == after,
            Err(error) => result == Err::<ArticleCreated, InstructionError>(error) && final(store)@
                == old(store)@,
        },
{
    if store.article(&key).is_some() {
        return Err(InstructionError::AddressInUse);
    }
    let ghost terms = uri_encrypted;
    let mut ctx = CreateArticle { creator, article_key: key, article: Article::default() };
    match instructions::create_article::handler(
        &mut ctx,
        article_seq,
        uri_encrypted,
        pay_mint,
        price,
        royalty_bps,
        transferable,
    ) {
        Err(error) => Err(InstructionError::Paywall(error)),
        Ok(event) => {
            proof {
                lemma_create_article_keeps_valid(
                    store@,
                    key,
                    creator,
                    terms,
                    pay_mint,
                    price,
                    royalty_bps,
                    transferable,
                );
            }
            store.create_article_record(key, ctx.article);
            Ok(event)
        },
    }
}

/// Buys access to an article for `keys.buyer`.
///
/// The article must be listed and the fee schedule written. The purchase is
/// then settled on the records found: refused where the buyer already holds
/// a receipt for the article, pays in another currency, or the sales
/// counter is at its maximum; otherwise the receipt is filed, the sale is
/// counted, and what is to be transferred, minted and announced is returned.
/// A refused purchase leaves the record store as it was.
pub fn purchase(store: &mut RecordStore, keys: PurchaseKeys, referrer: Option<Pubkey>, now: i64) -> (result:
    Result<Settlement, InstructionError>)
    ensures
        final(store)@.valid(),
        match old(store)@.purchase(keys, referrer, now) {
            Ok((after, settlement)) => result == Ok::<Settlement, InstructionError>(settlement)
                && final(store)@ == after,
            Err(error) => result == Err::<Settlement, InstructionError>(error) && final(store)@
                == old(store)@,
        },
{
    let article = match store.article(&keys.article) {
        Some(article) => article.duplicate(),
        None => {
            return Err(InstructionError::Paywall(PaywallError::ArticleNotFound));
        },
    };
    let fee_config = match store.fee_config() {
        Some(fee_config) => fee_config,
        None => {
            return Err(InstructionError::FeeConfigMissing);
        },
    };
    let mut ctx = Purchase {
        buyer: keys.buyer,
        article_key: keys.article,
        article,
        receipt: store.receipt(&keys.article, &keys.buyer),
        fee_config,
        payment_mint: keys.payment_mint,
        buyer_token_account: keys.buyer_token_account,
        creator_token_account: keys.creator_token_account,
        treasury_token_account: keys.treasury_token_account,
        referrer_token_account: keys.referrer_token_account,
    };
    match instructions::purchase::handler(&mut ctx, referrer, now) {
        Err(error) => Err(InstructionError::Paywall(error)),
        Ok(settlement) => {
            proof {
                lemma_purchase_keeps_valid(store@, keys, referrer, now);
            }
            store.write_purchase(&keys.article, ctx.article, ctx.receipt.unwrap());
            Ok(settlement)
        },
    }
}

/// Sets a new price on the article at `article`, in the name of `creator`.
///
/// The article must be listed, `creator` must be its creator, and the price
/// must be above zero. A refused change leaves the record store as it was.
pub fn set_article_price(store: &mut RecordStore, creator: Pubkey, article: Pubkey, price: u64) -> (result:
    Result<ArticleUpdated, InstructionError>)
    ensures
        final(store)@.valid(),
        match old(store)@.set_article_price(creator, article, price) {
            Ok((after, event)) => result == Ok::<ArticleUpdated, InstructionError>(event) && final(store)@ == after,
            Err(error) => result == Err::<ArticleUpdated, InstructionError>(error) && final(store)@
                == old(store)@,
        },
{
    let listed = match store.article(&article) {
        Some(listed) => listed.duplicate(),
        None => {
            return Err(InstructionError::Paywall(PaywallError::ArticleNotFound));
        },
    };
    let mut ctx = SetArticlePrice { creator, article_key: article, article: listed };
    match instructions::set_article_price::handler(&mut ctx, price) {
        Err(error) => Err(InstructionError::Paywall(error)),
        Ok(event) => {
            proof {
                lemma_set_article_price_keeps_valid(store@, creator, article, price);
            }
            store.write_article(&article, ctx.article);
            Ok(event)
        },
    }
}

/// Writes the fee schedule, in the name of `admin`.
///
/// `admin` must be the administrator of the record store, and the two
/// shares together must not exceed one hundred percent. The schedule is
/// created where none was written, and replaced where one was. A refused
/// write leaves the record store as it was.
pub fn set_fee_config(
    store: &mut RecordStore,
    admin: Pubkey,
    protocol_fee_bps: u16,
    referrer_fee_bps: u16,
    treasury: Pubkey,
) -> (result: Result<FeeUpdated, InstructionError>)
    ensures
        final(store)@.valid(),
        match old(store)@.set_fee_config(admin, protocol_fee_bps, referrer_fee_bps, treasury) {
            Ok((after, event)) => result == Ok::<FeeUpdated, InstructionError>(event) && final(store)@ == after,
            Err(error) => result == Err::<FeeUpdated, InstructionError>(error) && final(store)@
                == old(store)@,
        },
{
    if !(admin == store.admin()) {
        return Err(InstructionError::AdminMismatch);
    }
    let fee_config = match store.fee_config() {
        Some(fee_config) => fee_config,
        None => FeeConfig {
            protocol_fee_bps: 0,
            referrer_fee_bps: 0,
            treasury: Pubkey::default(),
        },
    };
    let mut ctx = SetFeeConfig { admin, fee_config };
    match instructions::set_fee_config::handler(
        &mut ctx,
        protocol_fee_bps,
        referrer_fee_bps,
        treasury,
    ) {
        Err(error) => Err(InstructionError::Paywall(error)),
        Ok(event) => {
            proof {
                lemma_set_fee_config_keeps_valid(
                    store@,
                    admin,
                    protocol_fee_bps,
                    referrer_fee_bps,
                    treasury,
                );
            }
            store.write_fee_config(ctx.fee_config);
            Ok(event)
        },
    }
}

} // verus!
