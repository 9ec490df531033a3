//! Seeds, limits and record sizes shared by every instruction.

use vstd::prelude::*;

verus! {

/// Seed tag of an article's address.
pub const ARTICLE_SEED: [u8; 7] = [97, 114, 116, 105, 99, 108, 101];

/// Seed tag of a receipt's address.
pub const RECEIPT_SEED: [u8; 7] = [114, 101, 99, 101, 105, 112, 116];

/// Seed tag of the fee schedule's address.
pub const FEE_CONFIG_SEED: [u8; 10] = [102, 101, 101, 95, 99, 111, 110, 102, 105, 103];

/// Seed tag of the authority that mints one buyer's access credential.
pub const ACCESS_TOKEN_SEED: [u8; 12] = [97, 99, 99, 101, 115, 115, 95, 116, 111, 107, 101, 110];

/// Longest encrypted content locator, in bytes.
pub const MAX_URI_LENGTH: usize = 200;

/// One hundred percent, in basis points.
pub const MAX_BASIS_POINTS: u16 = 10_000;

/// Bytes that a stored article occupies.
pub const ARTICLE_SIZE: usize = 8 + 32 + 4 + MAX_URI_LENGTH + 32 + 8 + 2 + 1 + 8;

/// Bytes that a stored receipt occupies.
pub const RECEIPT_SIZE: usize = 8 + 32 + 32 + 8 + 8;

/// Bytes that the stored fee schedule occupies.
pub const FEE_CONFIG_SIZE: usize = 8 + 2 + 2 + 32;

} // verus!
