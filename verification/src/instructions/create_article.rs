//! Listing an article for sale.

use vstd::prelude::*;
use crate::constants::MAX_BASIS_POINTS;
use crate::constants::MAX_URI_LENGTH;
use crate::errors::PaywallError;
use crate::pubkey::Pubkey;
use crate::state::uri_length;
use crate::state::Article;

verus! {

/// The signer and the record that listing an article touches.
#[derive(Clone, Debug, PartialEq, Eq)]
pub struct CreateArticle {
    /// Who lists the article, and signs for it.
    pub creator: Pubkey,
    /// Where the article is created: the address that the creator and the
    /// sequence number select.
    pub article_key: Pubkey,
    /// The record at that address, blank until the listing is accepted.
    pub article: Article,
}

/// Announces a new listing.
#[derive(Clone, Copy, Debug, PartialEq, Eq)]
pub struct ArticleCreated {
    pub article: Pubkey,
    pub creator: Pubkey,
    pub pay_mint: Pubkey,
    pub price: u64,
    pub royalty_bps: u16,
    pub transferable: bool,
}

/// Why the terms of a listing are refused, if they are: the locator is too
/// long, the royalty is above one hundred percent, or the price is zero.
pub open spec fn listing_refusal(uri_encrypted: Seq<char>, price: u64, royalty_bps: u16) -> Option<
    PaywallError,
> {
    if uri_length(uri_encrypted) > MAX_URI_LENGTH {
        Some(PaywallError::UriTooLong)
    } else if royalty_bps > MAX_BASIS_POINTS {
        Some(PaywallError::InvalidRoyalty)
    } else if price == 0 {
        Some(PaywallError::InvalidPrice)
    } else {
        None
    }
}

impl CreateArticle {
    /// The records after the listing is accepted: the article holds the
    /// signer as its creator, the given terms, and no sale.
    pub open spec fn listed(
        self,
        uri_encrypted: String,
        pay_mint: Pubkey,
        price: u64,
        royalty_bps: u16,
        transferable: bool,
    ) -> CreateArticle {
        CreateArticle {
            article: Article {
                creator: self.creator,
                uri_encrypted,
                pay_mint,
                price,
                royalty_bps,
                transferable,
                sales: 0,
            },
            ..self
        }
    }
}

/// Lists an article under the signer's name. Refused terms change nothing;
/// accepted terms are written to the record, with the sales counter at zero.
pub fn handler(
    ctx: &mut CreateArticle,
    _article_seq: u64,
    uri_encrypted: String,
    pay_mint: Pubkey,
    price: u64,
    royalty_bps: u16,
    transferable: bool,
) -> (result: Result<ArticleCreated, PaywallError>)
    ensures
        match listing_refusal(uri_encrypted@, price, royalty_bps) {
            Some(error) => result == Err::<ArticleCreated, PaywallError>(error) && *final(ctx)
                == *old(ctx),
            None => result == Ok::<ArticleCreated, PaywallError>(
                ArticleCreated {
                    article: old(ctx).article_key,
                    creator: old(ctx).creator,
                    pay_mint,
                    price,
                    royalty_bps,
                    transferable,
                },
            ) && *final(ctx) == old(ctx).listed(
                uri_encrypted,
                pay_mint,
                price,
                royalty_bps,
                transferable,
            ) && final(ctx).article.valid(),
        },
{
    if uri_encrypted.as_str().len() > MAX_URI_LENGTH {
        return Err(PaywallError::UriTooLong);
    }
    if royalty_bps > MAX_BASIS_POINTS {
        return Err(PaywallError::InvalidRoyalty);
    }
    if price == 0 {
        return Err(PaywallError::InvalidPrice);
    }
    ctx.article.creator = ctx.creator;
    ctx.article.uri_encrypted = uri_encrypted;
    ctx.article.pay_mint = pay_mint;
    ctx.article.price = price;
    ctx.article.royalty_bps = royalty_bps;
    ctx.article.transferable = transferable;
    ctx.article.sales = 0;

    Ok(
        ArticleCreated {
            article: ctx.article_key,
            creator: ctx.article.creator,
            pay_mint,
            price,
            royalty_bps,
            transferable,
        },
    )
}

} // verus!
