//! The records that the paywall keeps.

use vstd::prelude::*;
use crate::constants::MAX_BASIS_POINTS;
use crate::constants::MAX_URI_LENGTH;
use crate::pubkey::Pubkey;

verus! {

/// A listing: content for sale, its terms, and how often it was sold.
#[derive(Clone, Debug, PartialEq, Eq)]
pub struct Article {
    pub creator: Pubkey,
    pub uri_encrypted: String,
    pub pay_mint: Pubkey,
    pub price: u64,
    pub royalty_bps: u16,
    pub transferable: bool,
    pub sales: u64,
}

/// Proof of one purchase: who bought which article, for how much, and when.
#[derive(Clone, Copy, Debug, PartialEq, Eq)]
pub struct Receipt {
    pub article: Pubkey,
    pub buyer: Pubkey,
    pub paid_amount: u64,
    pub purchased_at: i64,
}

/// The fee schedule: the protocol's and the referrer's share of every price,
/// and the treasury that collects the protocol's share.
#[derive(Clone, Copy, Debug, PartialEq, Eq)]
pub struct FeeConfig {
    pub protocol_fee_bps: u16,
    pub referrer_fee_bps: u16,
    pub treasury: Pubkey,
}

/// The length of a content locator: the number of bytes of its UTF-8
/// encoding, as `str::len` reports it.
pub open spec fn uri_length(uri: Seq<char>) -> usize {
    vstd::utf8::encode_utf8(uri).len() as usize
}

impl Default for Article {
    /// A blank record: no creator, no locator, no price, no sale.
    fn default() -> (article: Article)
        ensures
            article.creator == Pubkey::zeroed(),
            article.uri_encrypted@ == Seq::<char>::empty(),
            article.pay_mint == Pubkey::zeroed(),
            article.price == 0,
            article.royalty_bps == 0,
            !article.transferable,
            article.sales == 0,
    {
        Article {
            creator: Pubkey::default(),
            uri_encrypted: String::new(),
            pay_mint: Pubkey::default(),
            price: 0,
            royalty_bps: 0,
            transferable: false,
            sales: 0,
        }
    }
}

impl Article {
    /// A copy of the listing.
    pub fn duplicate(&self) -> (copy: Article)
        ensures
            copy == *self,
    {
        Article {
            creator: self.creator,
            uri_encrypted: self.uri_encrypted.clone(),
            pay_mint: self.pay_mint,
            price: self.price,
            royalty_bps: self.royalty_bps,
            transferable: self.transferable,
            sales: self.sales,
        }
    }

    /// The terms of a listing are within bounds: a locator of at most
    /// `MAX_URI_LENGTH` bytes, a royalty of at most one hundred percent, and
    /// a price above zero.
    pub open spec fn valid(self) -> bool {
        &&& uri_length(self.uri_encrypted@) <= MAX_URI_LENGTH
        &&& self.royalty_bps <= MAX_BASIS_POINTS
        &&& self.price > 0
    }
}

impl FeeConfig {
    /// The two shares together take at most the whole price.
    pub open spec fn valid(self) -> bool {
        self.protocol_fee_bps + self.referrer_fee_bps <= MAX_BASIS_POINTS
    }

    /// Whether the two shares together take at most the whole price.
    pub fn is_valid(&self) -> (ok: bool)
        ensures
            ok == self.valid(),
    {
        fees_within_bounds(self.protocol_fee_bps, self.referrer_fee_bps)
    }
}

/// Whether a protocol share and a referrer share together take at most the
/// whole price.
pub fn fees_within_bounds(protocol_fee_bps: u16, referrer_fee_bps: u16) -> (ok: bool)
    ensures
        ok == (protocol_fee_bps + referrer_fee_bps <= MAX_BASIS_POINTS),
{
    let total: u32 = protocol_fee_bps as u32 + referrer_fee_bps as u32;
    total <= MAX_BASIS_POINTS as u32
}

} // verus!
