//! The four instructions, each on the records and accounts it touches.

pub mod create_article;
pub mod purchase;
pub mod set_article_price;
pub mod set_fee_config;

pub use create_article::ArticleCreated;
pub use create_article::CreateArticle;
pub use purchase::Purchase;
pub use purchase::Purchased;
pub use set_article_price::ArticleUpdated;
pub use set_article_price::SetArticlePrice;
pub use set_fee_config::FeeUpdated;
pub use set_fee_config::SetFeeConfig;
