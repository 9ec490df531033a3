//! Buying access to an article: the price is split among the creator, the
//! treasury and an optional referrer, a receipt is written, the sale is
//! counted, and one access credential is minted to the buyer.

use vstd::prelude::*;
use crate::errors::PaywallError;
use crate::pubkey::Pubkey;
use crate::state::Article;
use crate::state::FeeConfig;
use crate::state::Receipt;

verus! {

/// The records and accounts that one purchase touches.
#[derive(Clone, Debug, PartialEq, Eq)]
pub struct Purchase {
    /// Who buys, and signs for the payment.
    pub buyer: Pubkey,
    /// Where the article lives.
    pub article_key: Pubkey,
    /// The article bought.
    pub article: Article,
    /// What lives at the address that this article and this buyer select:
    /// nothing before the purchase, the receipt after it.
    pub receipt: Option<Receipt>,
    /// The fee schedule in force.
    pub fee_config: FeeConfig,
    /// The currency that the buyer's funding account holds.
    pub payment_mint: Pubkey,
    /// The buyer's funding account.
    pub buyer_token_account: Pubkey,
    /// The creator's funding account.
    pub creator_token_account: Pubkey,
    /// The treasury's funding account.
    pub treasury_token_account: Pubkey,
    /// The referrer's funding account, if one was supplied.
    pub referrer_token_account: Option<Pubkey>,
}

/// The addresses that a purchase names, before the records behind them are
/// looked up.
#[derive(Clone, Copy, Debug, PartialEq, Eq)]
pub struct PurchaseKeys {
    pub buyer: Pubkey,
    pub article: Pubkey,
    pub payment_mint: Pubkey,
    pub buyer_token_account: Pubkey,
    pub creator_token_account: Pubkey,
    pub treasury_token_account: Pubkey,
    pub referrer_token_account: Option<Pubkey>,
}

impl PurchaseKeys {
    /// The records and accounts of the purchase, once the article, the
    /// fee schedule and what lives at the receipt's address are known.
    pub open spec fn resolved(
        self,
        article: Article,
        receipt: Option<Receipt>,
        fee_config: FeeConfig,
    ) -> Purchase {
        Purchase {
            buyer: self.buyer,
            article_key: self.article,
            article,
            receipt,
            fee_config,
            payment_mint: self.payment_mint,
            buyer_token_account: self.buyer_token_account,
            creator_token_account: self.creator_token_account,
            treasury_token_account: self.treasury_token_account,
            referrer_token_account: self.referrer_token_account,
        }
    }
}

/// One movement of currency between two funding accounts.
#[derive(Clone, Copy, Debug, PartialEq, Eq)]
pub struct Transfer {
    pub from: Pubkey,
    pub to: Pubkey,
    pub authority: Pubkey,
    pub amount: u64,
}

/// The authority under which one buyer's credential for one article is
/// minted. It is selected by the article and the buyer alone.
#[derive(Clone, Copy, Debug, PartialEq, Eq)]
pub struct MintAuthority {
    pub article: Pubkey,
    pub buyer: Pubkey,
}

/// The token that proves access to an article.
#[derive(Clone, Copy, Debug, PartialEq, Eq)]
pub struct AccessCredential {
    pub article: Pubkey,
    pub owner: Pubkey,
    pub amount: u64,
    pub mint_authority: MintAuthority,
    /// A blocked credential stays with its first owner for good.
    pub transfer_blocked: bool,
}

/// Announces a purchase, with every amount that was moved.
#[derive(Clone, Copy, Debug, PartialEq, Eq)]
pub struct Purchased {
    pub article: Pubkey,
    pub buyer: Pubkey,
    pub paid_amount: u64,
    pub referrer: Option<Pubkey>,
    pub creator_amount: u64,
    pub protocol_fee: u64,
    pub referrer_fee: u64,
}

/// Announces the credential minted by a purchase.
#[derive(Clone, Copy, Debug, PartialEq, Eq)]
pub struct AccessCredentialMinted {
    pub article: Pubkey,
    pub buyer: Pubkey,
    pub transfer_blocked: bool,
}

/// Everything that a purchase asks of the outside, in this order: the
/// transfer to the creator, to the treasury and to the referrer, the
/// credential to mint, and the events to emit. A fee of zero is not
/// transferred at all.
#[derive(Clone, Copy, Debug, PartialEq, Eq)]
pub struct Settlement {
    pub to_creator: Transfer,
    pub to_treasury: Option<Transfer>,
    pub to_referrer: Option<Transfer>,
    pub credential: AccessCredential,
    pub purchased: Purchased,
    pub credential_minted: AccessCredentialMinted,
}

/// The share of a price that a number of basis points takes, rounded down.
pub open spec fn fee_share(price: u64, bps: u16) -> int {
    (price as int * bps as int) / 10_000
}

/// A share of at most one hundred percent is at most the price.
pub proof fn lemma_fee_share_bounds(price: u64, bps: u16)
    requires
        bps <= 10_000,
    ensures
        0 <= fee_share(price, bps) <= price,
{
    let p = price as int;
    let b = bps as int;
    assert(0 <= p * b <= p * 10_000) by (nonlinear_arith)
        requires
            0 <= p,
            0 <= b <= 10_000,
    ;
    assert((p * 10_000) / 10_000 == p) by (nonlinear_arith);
    assert(0 <= (p * b) / 10_000 <= (p * 10_000) / 10_000) by (nonlinear_arith)
        requires
            0 <= p * b <= p * 10_000,
    ;
}

/// Two shares that together take at most one hundred percent together take at
/// most the price.
pub proof fn lemma_fee_shares_fit(price: u64, first_bps: u16, second_bps: u16)
    requires
        first_bps + second_bps <= 10_000,
    ensures
        0 <= fee_share(price, first_bps),
        0 <= fee_share(price, second_bps),
        fee_share(price, first_bps) + fee_share(price, second_bps) <= price,
{
    let p = price as int;
    let a = p * first_bps as int;
    let b = p * second_bps as int;
    lemma_fee_share_bounds(price, first_bps);
    lemma_fee_share_bounds(price, second_bps);
    assert(a + b == p * (first_bps + second_bps)) by (nonlinear_arith)
        requires
            a == p * first_bps as int,
            b == p * second_bps as int,
    ;
    assert(p * (first_bps + second_bps) <= p * 10_000) by (nonlinear_arith)
        requires
            0 <= p,
            first_bps + second_bps <= 10_000,
    ;
    assert(a / 10_000 + b / 10_000 <= (a + b) / 10_000) by (nonlinear_arith)
        requires
            0 <= a,
            0 <= b,
    ;
    assert((a + b) / 10_000 <= p) by (nonlinear_arith)
        requires
            a + b <= p * 10_000,
    ;
}

/// The share of a price that a number of basis points takes, rounded down.
pub fn share_of(price: u64, bps: u16) -> (share: u64)
    requires
        bps <= 10_000,
    ensures
        share == fee_share(price, bps),
{
    proof {
        lemma_fee_share_bounds(price, bps);
        assert(price as int * bps as int <= u64::MAX as int * 10_000) by (nonlinear_arith)
            requires
                0 <= price <= u64::MAX,
                0 <= bps <= 10_000,
        ;
    }
    let wide: u128 = price as u128 * bps as u128 / 10_000;
    wide as u64
}

impl Purchase {
    /// What the treasury is owed.
    pub open spec fn protocol_fee(self) -> int {
        fee_share(self.article.price, self.fee_config.protocol_fee_bps)
    }

    /// What the referrer is owed: a share of the price where a referrer is
    /// named and a funding account for it was supplied, nothing otherwise.
    pub open spec fn referrer_fee(self, referrer: Option<Pubkey>) -> int {
        if referrer is Some && self.referrer_token_account is Some {
            fee_share(self.article.price, self.fee_config.referrer_fee_bps)
        } else {
            0
        }
    }

    /// What the creator is owed: the price less the two fees.
    pub open spec fn creator_amount(self, referrer: Option<Pubkey>) -> int {
        self.article.price - self.protocol_fee() - self.referrer_fee(referrer)
    }

    /// Why the purchase is refused, if it is: the buyer already holds a
    /// receipt for the article, the buyer pays in another currency than the
    /// article asks for, or the sales counter is at its maximum.
    pub open spec fn refusal(self) -> Option<PaywallError> {
        if self.receipt is Some {
            Some(PaywallError::AlreadyPurchased)
        } else if self.payment_mint != self.article.pay_mint {
            Some(PaywallError::InvalidPaymentMint)
        } else if self.article.sales == u64::MAX {
            Some(PaywallError::Overflow)
        } else {
            None
        }
    }

    /// The receipt that the purchase writes.
    pub open spec fn receipt_written(self, now: i64) -> Receipt {
        Receipt {
            article: self.article_key,
            buyer: self.buyer,
            paid_amount: self.article.price,
            purchased_at: now,
        }
    }

    /// The records after the purchase: the receipt is written and the sale is
    /// counted; nothing else changes.
    pub open spec fn settled(self, now: i64) -> Purchase {
        Purchase {
            article: Article { sales: (self.article.sales + 1) as u64, ..self.article },
            receipt: Some(self.receipt_written(now)),
            ..self
        }
    }

    /// A transfer out of the buyer's funding account, signed by the buyer.
    pub open spec fn payment(self, to: Pubkey, amount: int) -> Transfer {
        Transfer {
            from: self.buyer_token_account,
            to,
            authority: self.buyer,
            amount: amount as u64,
        }
    }

    /// What the purchase asks of the outside.
    pub open spec fn settlement(self, referrer: Option<Pubkey>) -> Settlement {
        Settlement {
            to_creator: self.payment(self.creator_token_account, self.creator_amount(referrer)),
            to_treasury: if self.protocol_fee() > 0 {
                Some(self.payment(self.treasury_token_account, self.protocol_fee()))
            } else {
                None
            },
            to_referrer: if self.referrer_fee(referrer) > 0 {
                Some(
                    self.payment(
                        self.referrer_token_account->Some_0,
                        self.referrer_fee(referrer),
                    ),
                )
            } else {
                None
            },
            credential: AccessCredential {
                article: self.article_key,
                owner: self.buyer,
                amount: 1,
                mint_authority: MintAuthority { article: self.article_key, buyer: self.buyer },
                transfer_blocked: !self.article.transferable,
            },
            purchased: Purchased {
                article: self.article_key,
                buyer: self.buyer,
                paid_amount: self.article.price,
                referrer,
                creator_amount: self.creator_amount(referrer) as u64,
                protocol_fee: self.protocol_fee() as u64,
                referrer_fee: self.referrer_fee(referrer) as u64,
            },
            credential_minted: AccessCredentialMinted {
                article: self.article_key,
                buyer: self.buyer,
                transfer_blocked: !self.article.transferable,
            },
        }
    }
}

/// Settles one purchase. A refused purchase changes nothing; an accepted one
/// writes the receipt, counts the sale, and returns what is to be
/// transferred, minted and announced.
pub fn handler(ctx: &mut Purchase, referrer: Option<Pubkey>, now: i64) -> (result: Result<
    Settlement,
    PaywallError,
>)
    requires
        old(ctx).fee_config.valid(),
    ensures
        match old(ctx).refusal() {
            Some(error) => result == Err::<Settlement, PaywallError>(error) && *final(ctx) == *old(ctx),
            None => result == Ok::<Settlement, PaywallError>(old(ctx).settlement(referrer))
                && *final(ctx) == old(ctx).settled(now),
        },
{
    if ctx.receipt.is_some() {
        return Err(PaywallError::AlreadyPurchased);
    }
    if !(ctx.payment_mint == ctx.article.pay_mint) {
        return Err(PaywallError::InvalidPaymentMint);
    }
    let sales = match ctx.article.sales.checked_add(1) {
        Some(sales) => sales,
        None => {
            return Err(PaywallError::Overflow);
        },
    };

    let price = ctx.article.price;
    proof {
        lemma_fee_shares_fit(
            price,
            ctx.fee_config.protocol_fee_bps,
            ctx.fee_config.referrer_fee_bps,
        );
    }
    let protocol_fee = share_of(price, ctx.fee_config.protocol_fee_bps);
    let referrer_fee = if referrer.is_some() && ctx.referrer_token_account.is_some() {
        share_of(price, ctx.fee_config.referrer_fee_bps)
    } else {
        0
    };
    let creator_amount = price - protocol_fee - referrer_fee;

    let to_creator = Transfer {
        from: ctx.buyer_token_account,
        to: ctx.creator_token_account,
        authority: ctx.buyer,
        amount: creator_amount,
    };
    let to_treasury = if protocol_fee > 0 {
        Some(
            Transfer {
                from: ctx.buyer_token_account,
                to: ctx.treasury_token_account,
                authority: ctx.buyer,
                amount: protocol_fee,
            },
        )
    } else {
        None
    };
    let to_referrer = match ctx.referrer_token_account {
        Some(account) if referrer_fee > 0 => Some(
            Transfer {
                from: ctx.buyer_token_account,
                to: account,
                authority: ctx.buyer,
                amount: referrer_fee,
            },
        ),
        _ => None,
    };

    ctx.receipt = Some(
        Receipt { article: ctx.article_key, buyer: ctx.buyer, paid_amount: price, purchased_at: now },
    );
    ctx.article.sales = sales;

    let transfer_blocked = !ctx.article.transferable;
    Ok(
        Settlement {
            to_creator,
            to_treasury,
            to_referrer,
            credential: AccessCredential {
                article: ctx.article_key,
                owner: ctx.buyer,
                amount: 1,
                mint_authority: MintAuthority { article: ctx.article_key, buyer: ctx.buyer },
                transfer_blocked,
            },
            purchased: Purchased {
                article: ctx.article_key,
                buyer: ctx.buyer,
                paid_amount: price,
                referrer,
                creator_amount,
                protocol_fee,
                referrer_fee,
            },
            credential_minted: AccessCredentialMinted {
                article: ctx.article_key,
                buyer: ctx.buyer,
                transfer_blocked,
            },
        },
    )
}

} // verus!
