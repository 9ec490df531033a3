//! Changing the price of a listed article.

use vstd::prelude::*;
use crate::errors::PaywallError;
use crate::pubkey::Pubkey;
use crate::state::Article;

verus! {

/// The signer and the record that a change of price touches.
#[derive(Clone, Debug, PartialEq, Eq)]
pub struct SetArticlePrice {
    /// Who asks for the change, and signs for it.
    pub creator: Pubkey,
    /// Where the article lives.
    pub article_key: Pubkey,
    /// The article whose price changes.
    pub article: Article,
}

/// Announces a change of price.
#[derive(Clone, Copy, Debug, PartialEq, Eq)]
pub struct ArticleUpdated {
    pub article: Pubkey,
    pub price: u64,
}

impl SetArticlePrice {
    /// Why the change is refused, if it is: the signer is not the article's
    /// creator, or the new price is zero.
    pub open spec fn refusal(self, price: u64) -> Option<PaywallError> {
        if self.creator != self.article.creator {
            Some(PaywallError::Unauthorized)
        } else if price == 0 {
            Some(PaywallError::InvalidPrice)
        } else {
            None
        }
    }

    /// The records after the change: the article has the new price; nothing
    /// else changes.
    pub open spec fn repriced(self, price: u64) -> SetArticlePrice {
        SetArticlePrice { article: Article { price, ..self.article }, ..self }
    }
}

/// Sets a new price on an article. Only the article's creator may do so, and
/// only to a price above zero; a refused change changes nothing.
pub fn handler(ctx: &mut SetArticlePrice, price: u64) -> (result: Result<
    ArticleUpdated,
    PaywallError,
>)
    ensures
        match old(ctx).refusal(price) {
            Some(error) => result == Err::<ArticleUpdated, PaywallError>(error) && *final(ctx)
                == *old(ctx),
            None => result == Ok::<ArticleUpdated, PaywallError>(
                ArticleUpdated { article: old(ctx).article_key, price },
            ) && *final(ctx) == old(ctx).repriced(price),
        },
{
    if !(ctx.creator == ctx.article.creator) {
        return Err(PaywallError::Unauthorized);
    }
    if price == 0 {
        return Err(PaywallError::InvalidPrice);
    }
    ctx.article.price = price;

    Ok(ArticleUpdated { article: ctx.article_key, price })
}

} // verus!
