//! The paywall as a state machine: what the record store holds, and what
//! each instruction does to it.

use vstd::prelude::*;
use crate::address::article_seeds;
use crate::address::derived;
use crate::constants::MAX_BASIS_POINTS;
use crate::errors::InstructionError;
use crate::errors::PaywallError;
use crate::instructions::create_article::listing_refusal;
use crate::instructions::create_article::ArticleCreated;
use crate::instructions::purchase::Purchase;
use crate::instructions::purchase::PurchaseKeys;
use crate::instructions::purchase::Settlement;
use crate::instructions::set_article_price::ArticleUpdated;
use crate::instructions::set_article_price::SetArticlePrice;
use crate::instructions::set_fee_config::FeeUpdated;
use crate::pubkey::Pubkey;
use crate::state::Article;
use crate::state::FeeConfig;
use crate::state::Receipt;

verus! {

/// Everything the record store holds.
#[verifier::ext_equal]
pub struct State {
    /// The program under which addresses are selected.
    pub program_id: Pubkey,
    /// The only identity that may write the fee schedule.
    pub admin: Pubkey,
    /// The fee schedule, once it has been written.
    pub fee_config: Option<FeeConfig>,
    /// The articles, by address.
    pub articles: Map<Pubkey, Article>,
    /// The receipts, by article and buyer.
    pub receipts: Map<(Pubkey, Pubkey), Receipt>,
}

/// What a map holds under a key, if anything.
pub open spec fn lookup<K, V>(records: Map<K, V>, key: K) -> Option<V> {
    if records.contains_key(key) {
        Some(records[key])
    } else {
        None
    }
}

impl State {
    /// The record store before any instruction.
    pub open spec fn init(program_id: Pubkey, admin: Pubkey) -> State {
        State {
            program_id,
            admin,
            fee_config: None,
            articles: Map::empty(),
            receipts: Map::empty(),
        }
    }

    /// The buyers that hold a receipt for an article.
    pub open spec fn buyers_of(self, article: Pubkey) -> Set<Pubkey> {
        Set::new(|buyer: Pubkey| self.receipts.contains_key((article, buyer)))
    }

    /// What holds of the record store after any sequence of instructions:
    /// the fee schedule and every article are within bounds, every receipt
    /// names the article and the buyer it is filed under, that article is
    /// listed and a fee schedule is written, and every article has been sold
    /// exactly as often as there are receipts for it.
    pub open spec fn valid(self) -> bool {
        &&& self.fee_config matches Some(fee_config) ==> fee_config.valid()
        &&& forall|article: Pubkey, buyer: Pubkey| #[trigger]
            self.receipts.contains_key((article, buyer)) ==> self.fee_config is Some
        &&& forall|key: Pubkey| #[trigger]
            self.articles.contains_key(key) ==> self.articles[key].valid()
        &&& forall|article: Pubkey, buyer: Pubkey| #[trigger]
            self.receipts.contains_key((article, buyer)) ==> {
                &&& self.articles.contains_key(article)
                &&& self.receipts[(article, buyer)].article == article
                &&& self.receipts[(article, buyer)].buyer == buyer
            }
        &&& forall|key: Pubkey| #[trigger]
            self.articles.contains_key(key) ==> {
                &&& self.buyers_of(key).finite()
                &&& self.buyers_of(key).len() == self.articles[key].sales
            }
    }

    /// Listing an article at a given address: nothing may live there yet;
    /// then the terms are checked.
    pub open spec fn create_article_at(
        self,
        key: Pubkey,
        creator: Pubkey,
        uri_encrypted: String,
        pay_mint: Pubkey,
        price: u64,
        royalty_bps: u16,
        transferable: bool,
    ) -> Result<(State, ArticleCreated), InstructionError> {
        if self.articles.contains_key(key) {
            Err(InstructionError::AddressInUse)
        } else {
            match listing_refusal(uri_encrypted@, price, royalty_bps) {
                Some(error) => Err(InstructionError::Paywall(error)),
                None => Ok(
                    (
                        State {
                            articles: self.articles.insert(
                                key,
                                Article {
                                    creator,
                                    uri_encrypted,
                                    pay_mint,
                                    price,
                                    royalty_bps,
                                    transferable,
                                    sales: 0,
                                },
                            ),
                            ..self
                        },
                        ArticleCreated {
                            article: key,
                            creator,
                            pay_mint,
                            price,
                            royalty_bps,
                            transferable,
                        },
                    ),
                ),
            }
        }
    }

    /// Listing an article: it is created at the address that the creator
    /// and the sequence number select under the program.
    pub open spec fn create_article(
        self,
        creator: Pubkey,
        article_seq: u64,
        uri_encrypted: String,
        pay_mint: Pubkey,
        price: u64,
        royalty_bps: u16,
        transferable: bool,
    ) -> Result<(State, ArticleCreated), InstructionError> {
        match derived(article_seeds(creator, article_seq), self.program_id) {
            None => Err(InstructionError::NoAddress),
            Some((key, _)) => self.create_article_at(
                key,
                creator,
                uri_encrypted,
                pay_mint,
                price,
                royalty_bps,
                transferable,
            ),
        }
    }

    /// Changing a price: the article must be listed; then the signer and the
    /// price are checked.
    pub open spec fn set_article_price(self, creator: Pubkey, article: Pubkey, price: u64) -> Result<
        (State, ArticleUpdated),
        InstructionError,
    > {
        if !self.articles.contains_key(article) {
            Err(InstructionError::Paywall(PaywallError::ArticleNotFound))
        } else {
            let accounts = SetArticlePrice {
                creator,
                article_key: article,
                article: self.articles[article],
            };
            match accounts.refusal(price) {
                Some(error) => Err(InstructionError::Paywall(error)),
                None => Ok(
                    (
                        State {
                            articles: self.articles.insert(article, accounts.repriced(price).article),
                            ..self
                        },
                        ArticleUpdated { article, price },
                    ),
                ),
            }
        }
    }

    /// Writing the fee schedule: the signer must be the administrator; then
    /// the shares are checked.
    pub open spec fn set_fee_config(
        self,
        admin: Pubkey,
        protocol_fee_bps: u16,
        referrer_fee_bps: u16,
        treasury: Pubkey,
    ) -> Result<(State, FeeUpdated), InstructionError> {
        if admin != self.admin {
            Err(InstructionError::AdminMismatch)
        } else if protocol_fee_bps + referrer_fee_bps > MAX_BASIS_POINTS {
            Err(InstructionError::Paywall(PaywallError::FeesTooHigh))
        } else {
            Ok(
                (
                    State {
                        fee_config: Some(
                            FeeConfig { protocol_fee_bps, referrer_fee_bps, treasury },
                        ),
                        ..self
                    },
                    FeeUpdated { protocol_fee_bps, referrer_fee_bps, treasury },
                ),
            )
        }
    }

    /// The records and accounts that a purchase touches, as the record store
    /// holds them.
    pub open spec fn purchase_accounts(self, keys: PurchaseKeys) -> Purchase {
        keys.resolved(
            self.articles[keys.article],
            lookup(self.receipts, (keys.article, keys.buyer)),
            self.fee_config->Some_0,
        )
    }

    /// A purchase: the article must be listed and the fee schedule written;
    /// then the purchase is settled on the records found.
    pub open spec fn purchase(self, keys: PurchaseKeys, referrer: Option<Pubkey>, now: i64) -> Result<
        (State, Settlement),
        InstructionError,
    > {
        if !self.articles.contains_key(keys.article) {
            Err(InstructionError::Paywall(PaywallError::ArticleNotFound))
        } else if self.fee_config is None {
            Err(InstructionError::FeeConfigMissing)
        } else {
            let accounts = self.purchase_accounts(keys);
            match accounts.refusal() {
                Some(error) => Err(InstructionError::Paywall(error)),
                None => Ok(
                    (
                        State {
                            articles: self.articles.insert(
                                keys.article,
                                accounts.settled(now).article,
                            ),
                            receipts: self.receipts.insert(
                                (keys.article, keys.buyer),
                                accounts.receipt_written(now),
                            ),
                            ..self
                        },
                        accounts.settlement(referrer),
                    ),
                ),
            }
        }
    }
}

/// One request to the record store.
pub enum Instruction {
    CreateArticle {
        creator: Pubkey,
        article_seq: u64,
        uri_encrypted: String,
        pay_mint: Pubkey,
        price: u64,
        royalty_bps: u16,
        transferable: bool,
    },
    Purchase { keys: PurchaseKeys, referrer: Option<Pubkey>, now: i64 },
    SetArticlePrice { creator: Pubkey, article: Pubkey, price: u64 },
    SetFeeConfig { admin: Pubkey, protocol_fee_bps: u16, referrer_fee_bps: u16, treasury: Pubkey },
}

impl State {
    /// The record store after one instruction: changed as the instruction
    /// says where it is accepted, unchanged where it is refused.
    pub open spec fn step(self, instruction: Instruction) -> State {
        match instruction {
            Instruction::CreateArticle {
                creator,
                article_seq,
                uri_encrypted,
                pay_mint,
                price,
                royalty_bps,
                transferable,
            } => match self.create_article(
                creator,
                article_seq,
                uri_encrypted,
                pay_mint,
                price,
                royalty_bps,
                transferable,
            ) {
                Ok((after, _)) => after,
                Err(_) => self,
            },
            Instruction::Purchase { keys, referrer, now } => match self.purchase(
                keys,
                referrer,
                now,
            ) {
                Ok((after, _)) => after,
                Err(_) => self,
            },
            Instruction::SetArticlePrice { creator, article, price } => match self.set_article_price(
                creator,
                article,
                price,
            ) {
                Ok((after, _)) => after,
                Err(_) => self,
            },
            Instruction::SetFeeConfig {
                admin,
                protocol_fee_bps,
                referrer_fee_bps,
                treasury,
            } => match self.set_fee_config(admin, protocol_fee_bps, referrer_fee_bps, treasury) {
                Ok((after, _)) => after,
                Err(_) => self,
            },
        }
    }

    /// The record store after a sequence of instructions, one after another.
    pub open spec fn run(self, instructions: Seq<Instruction>) -> State
        decreases instructions.len(),
    {
        if instructions.len() == 0 {
            self
        } else {
            self.run(instructions.drop_last()).step(instructions.last())
        }
    }
}

/// The record store is valid before any instruction.
pub proof fn lemma_init_is_valid(program_id: Pubkey, admin: Pubkey)
    ensures
        State::init(program_id, admin).valid(),
{
}

/// Listing an article keeps the record store valid, at whatever address.
pub proof fn lemma_create_article_keeps_valid(
    state: State,
    key: Pubkey,
    creator: Pubkey,
    uri_encrypted: String,
    pay_mint: Pubkey,
    price: u64,
    royalty_bps: u16,
    transferable: bool,
)
    requires
        state.valid(),
    ensures
        state.create_article_at(
            key,
            creator,
            uri_encrypted,
            pay_mint,
            price,
            royalty_bps,
            transferable,
        ) matches Ok((after, _)) ==> after.valid(),
{
    let outcome = state.create_article_at(
        key,
        creator,
        uri_encrypted,
        pay_mint,
        price,
        royalty_bps,
        transferable,
    );
    if let Ok((after, _)) = outcome {
        assert(after.buyers_of(key) =~= Set::<Pubkey>::empty());
        assert forall|other: Pubkey| #[trigger] after.articles.contains_key(other) implies {
            &&& after.buyers_of(other).finite()
            &&& after.buyers_of(other).len() == after.articles[other].sales
        } by {
            if other != key {
                assert(state.articles.contains_key(other));
                assert(after.buyers_of(other) =~= state.buyers_of(other));
            }
        }
    }
}

/// Changing a price keeps the record store valid.
pub proof fn lemma_set_article_price_keeps_valid(
    state: State,
    creator: Pubkey,
    article: Pubkey,
    price: u64,
)
    requires
        state.valid(),
    ensures
        state.set_article_price(creator, article, price) matches Ok((after, _)) ==> after.valid(),
{
    if let Ok((after, _)) = state.set_article_price(creator, article, price) {
        assert forall|other: Pubkey| #[trigger] after.articles.contains_key(other) implies {
            &&& after.articles[other].valid()
            &&& after.buyers_of(other).finite()
            &&& after.buyers_of(other).len() == after.articles[other].sales
        } by {
            assert(state.articles.contains_key(other));
            assert(after.buyers_of(other) =~= state.buyers_of(other));
        }
    }
}

/// Writing the fee schedule keeps the record store valid.
pub proof fn lemma_set_fee_config_keeps_valid(
    state: State,
    admin: Pubkey,
    protocol_fee_bps: u16,
    referrer_fee_bps: u16,
    treasury: Pubkey,
)
    requires
        state.valid(),
    ensures
        state.set_fee_config(admin, protocol_fee_bps, referrer_fee_bps, treasury) matches Ok(
            (after, _),
        ) ==> after.valid(),
{
    if let Ok((after, _)) = state.set_fee_config(
        admin,
        protocol_fee_bps,
        referrer_fee_bps,
        treasury,
    ) {
        assert forall|other: Pubkey| #[trigger] after.articles.contains_key(other) implies {
            &&& after.buyers_of(other).finite()
            &&& after.buyers_of(other).len() == after.articles[other].sales
        } by {
            assert(after.buyers_of(other) =~= state.buyers_of(other));
        }
    }
}

/// A purchase keeps the record store valid.
pub proof fn lemma_purchase_keeps_valid(
    state: State,
    keys: PurchaseKeys,
    referrer: Option<Pubkey>,
    now: i64,
)
    requires
        state.valid(),
    ensures
        state.purchase(keys, referrer, now) matches Ok((after, _)) ==> after.valid(),
{
    if let Ok((after, _)) = state.purchase(keys, referrer, now) {
        let article = keys.article;
        assert(state.articles.contains_key(article));
        assert(after.buyers_of(article) =~= state.buyers_of(article).insert(keys.buyer));
        assert(!state.buyers_of(article).contains(keys.buyer));
        assert forall|other: Pubkey| #[trigger] after.articles.contains_key(other) implies {
            &&& after.articles[other].valid()
            &&& after.buyers_of(other).finite()
            &&& after.buyers_of(other).len() == after.articles[other].sales
        } by {
            assert(state.articles.contains_key(other));
            if other != article {
                assert(after.buyers_of(other) =~= state.buyers_of(other));
            }
        }
    }
}

/// One instruction, accepted or refused, keeps the record store valid.
pub proof fn lemma_step_keeps_valid(state: State, instruction: Instruction)
    requires
        state.valid(),
    ensures
        state.step(instruction).valid(),
{
    match instruction {
        Instruction::CreateArticle {
            creator,
            article_seq,
            uri_encrypted,
            pay_mint,
            price,
            royalty_bps,
            transferable,
        } => {
            if let Some((key, _)) = derived(article_seeds(creator, article_seq), state.program_id) {
                lemma_create_article_keeps_valid(
                    state,
                    key,
                    creator,
                    uri_encrypted,
                    pay_mint,
                    price,
                    royalty_bps,
                    transferable,
                );
            }
        },
        Instruction::Purchase { keys, referrer, now } => {
            lemma_purchase_keeps_valid(state, keys, referrer, now);
        },
        Instruction::SetArticlePrice { creator, article, price } => {
            lemma_set_article_price_keeps_valid(state, creator, article, price);
        },
        Instruction::SetFeeConfig { admin, protocol_fee_bps, referrer_fee_bps, treasury } => {
            lemma_set_fee_config_keeps_valid(
                state,
                admin,
                protocol_fee_bps,
                referrer_fee_bps,
                treasury,
            );
        },
    }
}

/// Any sequence of instructions keeps the record store valid.
pub proof fn lemma_run_keeps_valid(state: State, instructions: Seq<Instruction>)
    requires
        state.valid(),
    ensures
        state.run(instructions).valid(),
    decreases instructions.len(),
{
    if instructions.len() > 0 {
        lemma_run_keeps_valid(state, instructions.drop_last());
        lemma_step_keeps_valid(state.run(instructions.drop_last()), instructions.last());
    }
}

} // verus!
