//! The record store: articles by address, receipts by article and buyer,
//! and the one fee schedule.

use vstd::prelude::*;
use crate::model::lemma_init_is_valid;
use crate::model::lookup;
use crate::model::State;
use crate::pubkey::Pubkey;
use crate::state::Article;
use crate::state::FeeConfig;
use crate::state::Receipt;
use crate::table::distinct_keys;
use crate::table::lemma_records_at;
use crate::table::lemma_records_keys;
use crate::table::lemma_records_push;
use crate::table::lemma_records_update;
use crate::table::records;
use crate::table::Slot;

verus! {

/// Keeps every record of the paywall. Records are created and changed by
/// the instructions alone, and never deleted, so that the records are at
/// all times in a state that the instructions lead to: `self@.valid()`.
pub struct RecordStore {
    program_id: Pubkey,
    admin: Pubkey,
    fee_config: Option<FeeConfig>,
    articles: Vec<Slot<Pubkey, Article>>,
    receipts: Vec<Slot<(Pubkey, Pubkey), Receipt>>,
}

impl View for RecordStore {
    type V = State;

    closed spec fn view(&self) -> State {
        State {
            program_id: self.program_id,
            admin: self.admin,
            fee_config: self.fee_config,
            articles: records(self.articles@),
            receipts: records(self.receipts@),
        }
    }
}

/// The slot that holds an article's address, if one does.
fn article_slot(slots: &Vec<Slot<Pubkey, Article>>, key: &Pubkey) -> (found: Option<usize>)
    ensures
        match found {
            Some(i) => i < slots.len() && slots[i as int].key == *key,
            None => forall|i: int| 0 <= i < slots.len() ==> slots[i].key != *key,
        },
{
    let mut i: usize = 0;
    while i < slots.len()
        invariant
            i <= slots.len(),
            forall|j: int| 0 <= j < i ==> slots[j].key != *key,
        decreases slots.len() - i,
    {
        if slots[i].key == *key {
            return Some(i);
        }
        i += 1;
    }
    None
}

/// The slot that holds the receipt of a buyer for an article, if one does.
fn receipt_slot(slots: &Vec<Slot<(Pubkey, Pubkey), Receipt>>, article: &Pubkey, buyer: &Pubkey) -> (found:
    Option<usize>)
    ensures
        match found {
            Some(i) => i < slots.len() && slots[i as int].key == (*article, *buyer),
            None => forall|i: int| 0 <= i < slots.len() ==> slots[i].key != (*article, *buyer),
        },
{
    let mut i: usize = 0;
    while i < slots.len()
        invariant
            i <= slots.len(),
            forall|j: int| 0 <= j < i ==> slots[j].key != (*article, *buyer),
        decreases slots.len() - i,
    {
        if slots[i].key.0 == *article && slots[i].key.1 == *buyer {
            return Some(i);
        }
        i += 1;
    }
    None
}

impl RecordStore {
    /// No address holds two articles, no buyer two receipts for one article,
    /// and the records are in a state that instructions alone lead to.
    #[verifier::type_invariant]
    closed spec fn well_formed(&self) -> bool {
        &&& distinct_keys(self.articles@)
        &&& distinct_keys(self.receipts@)
        &&& self@.valid()
    }

    /// An empty record store for a program, with the identity that may write
    /// its fee schedule.
    pub fn new(program_id: Pubkey, admin: Pubkey) -> (store: RecordStore)
        ensures
            store@ == State::init(program_id, admin),
    {
        proof {
            lemma_init_is_valid(program_id, admin);
            assert(records(Seq::<Slot<Pubkey, Article>>::empty()) =~= Map::empty());
            assert(records(Seq::<Slot<(Pubkey, Pubkey), Receipt>>::empty()) =~= Map::empty());
        }
        RecordStore {
            program_id,
            admin,
            fee_config: None,
            articles: Vec::new(),
            receipts: Vec::new(),
        }
    }

    /// The program under which addresses are selected.
    pub fn program_id(&self) -> (program_id: Pubkey)
        ensures
            program_id == self@.program_id,
            self@.valid(),
    {
        proof {
            use_type_invariant(self);
        }
        self.program_id
    }

    /// The identity that may write the fee schedule.
    pub fn admin(&self) -> (admin: Pubkey)
        ensures
            admin == self@.admin,
            self@.valid(),
    {
        proof {
            use_type_invariant(self);
        }
        self.admin
    }

    /// The fee schedule, once it has been written.
    pub fn fee_config(&self) -> (fee_config: Option<FeeConfig>)
        ensures
            fee_config == self@.fee_config,
            self@.valid(),
    {
        proof {
            use_type_invariant(self);
        }
        self.fee_config
    }

    /// The article at an address, if one is listed there.
    pub fn article(&self, key: &Pubkey) -> (found: Option<&Article>)
        ensures
            match found {
                Some(article) => lookup(self@.articles, *key) == Some(*article),
                None => lookup(self@.articles, *key) is None,
            },
            self@.valid(),
    {
        proof {
            use_type_invariant(self);
            lemma_records_keys(self.articles@, *key);
        }
        match article_slot(&self.articles, key) {
            Some(i) => {
                proof {
                    lemma_records_at(self.articles@, i as int);
                }
                Some(&self.articles[i].value)
            },
            None => None,
        }
    }

    /// The receipt of a buyer for an article, if the buyer bought it.
    pub fn receipt(&self, article: &Pubkey, buyer: &Pubkey) -> (found: Option<Receipt>)
        ensures
            found == lookup(self@.receipts, (*article, *buyer)),
            self@.valid(),
    {
        proof {
            use_type_invariant(self);
            lemma_records_keys(self.receipts@, (*article, *buyer));
        }
        match receipt_slot(&self.receipts, article, buyer) {
            Some(i) => {
                proof {
                    lemma_records_at(self.receipts@, i as int);
                }
                Some(self.receipts[i].value)
            },
            None => None,
        }
    }

    /// Takes every record out of the store, which is left empty.
    fn take(&mut self) -> (taken: RecordStore)
        ensures
            taken == *old(self),
    {
        let mut taken = RecordStore::new(self.program_id, self.admin);
        std::mem::swap(self, &mut taken);
        taken
    }

    /// Creates an article at an address where none lives.
    pub(crate) fn create_article_record(&mut self, key: Pubkey, article: Article)
        requires
            !old(self)@.articles.contains_key(key),
            (State { articles: old(self)@.articles.insert(key, article), ..old(self)@ }).valid(),
        ensures
            final(self)@ == (State {
                articles: old(self)@.articles.insert(key, article),
                ..old(self)@
            }),
    {
        let taken = self.take();
        proof {
            use_type_invariant(&taken);
        }
        let RecordStore { program_id, admin, fee_config, mut articles, receipts } = taken;
        proof {
            lemma_records_push(articles@, Slot { key, value: article });
        }
        articles.push(Slot { key, value: article });
        *self = RecordStore { program_id, admin, fee_config, articles, receipts };
    }

    /// Replaces the article at an address where one lives.
    pub(crate) fn write_article(&mut self, key: &Pubkey, article: Article)
        requires
            old(self)@.articles.contains_key(*key),
            (State { articles: old(self)@.articles.insert(*key, article), ..old(self)@ }).valid(),
        ensures
            final(self)@ == (State {
                articles: old(self)@.articles.insert(*key, article),
                ..old(self)@
            }),
    {
        let taken = self.take();
        proof {
            use_type_invariant(&taken);
        }
        let RecordStore { program_id, admin, fee_config, mut articles, receipts } = taken;
        proof {
            lemma_records_keys(articles@, *key);
        }
        match article_slot(&articles, key) {
            Some(i) => {
                proof {
                    lemma_records_update(articles@, i as int, Slot { key: *key, value: article });
                }
                articles.set(i, Slot { key: *key, value: article });
            },
            None => {},
        }
        *self = RecordStore { program_id, admin, fee_config, articles, receipts };
    }

    /// Settles a purchase: replaces the article bought and files the
    /// receipt, at once.
    pub(crate) fn write_purchase(&mut self, key: &Pubkey, article: Article, receipt: Receipt)
        requires
            old(self)@.articles.contains_key(*key),
            !old(self)@.receipts.contains_key((receipt.article, receipt.buyer)),
            (State {
                articles: old(self)@.articles.insert(*key, article),
                receipts: old(self)@.receipts.insert((receipt.article, receipt.buyer), receipt),
                ..old(self)@
            }).valid(),
        ensures
            final(self)@ == (State {
                articles: old(self)@.articles.insert(*key, article),
                receipts: old(self)@.receipts.insert((receipt.article, receipt.buyer), receipt),
                ..old(self)@
            }),
    {
        let taken = self.take();
        proof {
            use_type_invariant(&taken);
        }
        let RecordStore { program_id, admin, fee_config, mut articles, mut receipts } = taken;
        proof {
            lemma_records_keys(articles@, *key);
            lemma_records_push(
                receipts@,
                Slot { key: (receipt.article, receipt.buyer), value: receipt },
            );
        }
        match article_slot(&articles, key) {
            Some(i) => {
                proof {
                    lemma_records_update(articles@, i as int, Slot { key: *key, value: article });
                }
                articles.set(i, Slot { key: *key, value: article });
            },
            None => {},
        }
        receipts.push(Slot { key: (receipt.article, receipt.buyer), value: receipt });
        *self = RecordStore { program_id, admin, fee_config, articles, receipts };
    }

    /// Writes the fee schedule, whether or not one was written before.
    pub(crate) fn write_fee_config(&mut self, fee_config: FeeConfig)
        requires
            (State { fee_config: Some(fee_config), ..old(self)@ }).valid(),
        ensures
            final(self)@ == (State { fee_config: Some(fee_config), ..old(self)@ }),
    {
        let taken = self.take();
        proof {
            use_type_invariant(&taken);
        }
        let RecordStore { program_id, admin, fee_config: _, articles, receipts } = taken;
        *self = RecordStore { program_id, admin, fee_config: Some(fee_config), articles, receipts };
    }
}

} // verus!
