//! Where records live: addresses selected by a seed tag and the identities
//! or numbers that a record belongs to.

use vstd::prelude::*;
use vstd::bytes::spec_u64_to_le_bytes;
use vstd::bytes::u64_to_le_bytes;
use crate::constants::ACCESS_TOKEN_SEED;
use crate::constants::ARTICLE_SEED;
use crate::constants::FEE_CONFIG_SEED;
use crate::constants::RECEIPT_SEED;
use crate::pubkey::lemma_pubkey_is_its_bytes;
use crate::pubkey::Pubkey;

verus! {

/// The address that a list of seeds selects under a program, with the bump
/// seed that completes it, or nothing where the seeds select no address.
pub uninterp spec fn program_address(seeds: Seq<Seq<u8>>, program_id: Seq<u8>) -> Option<
    (Seq<u8>, u8),
>;

/// The bytes of each seed of a list.
pub open spec fn seed_views(seeds: Seq<Vec<u8>>) -> Seq<Seq<u8>> {
    Seq::new(seeds.len(), |i: int| seeds[i]@)
}

/// The seeds are few and short enough to select an address: fewer than
/// sixteen of them, each of at most thirty-two bytes.
pub open spec fn seeds_in_range(seeds: Seq<Seq<u8>>) -> bool {
    &&& seeds.len() < 16
    &&& forall|i: int| 0 <= i < seeds.len() ==> (#[trigger] seeds[i]).len() <= 32
}

/// The identity with the given bytes.
pub open spec fn key_of_bytes(bytes: Seq<u8>) -> Pubkey {
    choose|key: Pubkey| key@ == bytes
}

/// The address that a list of seeds selects under a program, as an identity.
pub open spec fn derived(seeds: Seq<Seq<u8>>, program_id: Pubkey) -> Option<(Pubkey, u8)> {
    match program_address(seeds, program_id@) {
        Some((bytes, bump)) => Some((key_of_bytes(bytes), bump)),
        None => None,
    }
}

/// The seeds of an article's address: the tag, the creator, and the
/// sequence number in little-endian bytes.
pub open spec fn article_seeds(creator: Pubkey, article_seq: u64) -> Seq<Seq<u8>> {
    seq![ARTICLE_SEED@, creator@, spec_u64_to_le_bytes(article_seq)]
}

/// The seeds of a receipt's address: the tag, the article and the buyer.
pub open spec fn receipt_seeds(article: Pubkey, buyer: Pubkey) -> Seq<Seq<u8>> {
    seq![RECEIPT_SEED@, article@, buyer@]
}

/// The seeds of the fee schedule's address: the tag alone.
pub open spec fn fee_config_seeds() -> Seq<Seq<u8>> {
    seq![FEE_CONFIG_SEED@]
}

/// The seeds of the authority that mints a buyer's credential for an
/// article: the tag, the article and the buyer.
pub open spec fn access_token_seeds(article: Pubkey, buyer: Pubkey) -> Seq<Seq<u8>> {
    seq![ACCESS_TOKEN_SEED@, article@, buyer@]
}

/// Calls `Pubkey::try_find_program_address` of `anchor_lang`. The contract
/// claims that the call is a function of its arguments: `Some` with the
/// address and bump seed that `program_address` names for these seeds and
/// this program, `None` where it names nothing; and that it finds nothing
/// for sixteen seeds or more, or for a seed of more than thirty-two bytes.
/// Nothing is claimed of which address is found.
#[verifier::external_body]
fn find_program_address(seeds: &Vec<Vec<u8>>, program_id: &Pubkey) -> (found: Option<(Pubkey, u8)>)
    ensures
        match found {
            Some((key, bump)) => program_address(seed_views(seeds@), program_id@) == Some(
                (key@, bump),
            ),
            None => program_address(seed_views(seeds@), program_id@) is None,
        },
        !seeds_in_range(seed_views(seeds@)) ==> found is None,
{
    let parts: Vec<&[u8]> = seeds.iter().map(|seed| seed.as_slice()).collect();
    let program = anchor_lang::prelude::Pubkey::new_from_array(program_id.0);
    anchor_lang::prelude::Pubkey::try_find_program_address(&parts, &program).map(
        |(key, bump)| (Pubkey(key.to_bytes()), bump),
    )
}

/// The address that a list of seeds selects under a program. Seeds out of
/// range select none.
pub fn derive_address(seeds: &Vec<Vec<u8>>, program_id: &Pubkey) -> (found: Option<(Pubkey, u8)>)
    ensures
        found == derived(seed_views(seeds@), *program_id),
        !seeds_in_range(seed_views(seeds@)) ==> found is None,
{
    let found = find_program_address(seeds, program_id);
    proof {
        if let Some((key, _)) = found {
            lemma_pubkey_is_its_bytes(key, key_of_bytes(key@));
        }
    }
    found
}

/// The bytes of a seed tag, as a vector.
fn tag_bytes<const N: usize>(tag: &[u8; N]) -> (bytes: Vec<u8>)
    ensures
        bytes@ == tag@,
{
    let mut bytes: Vec<u8> = Vec::new();
    let mut i: usize = 0;
    while i < N
        invariant
            i <= N,
            bytes@ == tag@.take(i as int),
        decreases N - i,
    {
        bytes.push(tag[i]);
        i += 1;
    }
    bytes
}

/// The address of the article with the given sequence number of a creator.
pub fn article_address(creator: &Pubkey, article_seq: u64, program_id: &Pubkey) -> (found: Option<
    (Pubkey, u8),
>)
    ensures
        found == derived(article_seeds(*creator, article_seq), *program_id),
{
    let mut seeds: Vec<Vec<u8>> = Vec::new();
    seeds.push(tag_bytes(&ARTICLE_SEED));
    seeds.push(creator.to_vec());
    seeds.push(u64_to_le_bytes(article_seq));
    assert(seed_views(seeds@) =~= article_seeds(*creator, article_seq));
    derive_address(&seeds, program_id)
}

/// The address of the receipt of a buyer for an article.
pub fn receipt_address(article: &Pubkey, buyer: &Pubkey, program_id: &Pubkey) -> (found: Option<
    (Pubkey, u8),
>)
    ensures
        found == derived(receipt_seeds(*article, *buyer), *program_id),
{
    let mut seeds: Vec<Vec<u8>> = Vec::new();
    seeds.push(tag_bytes(&RECEIPT_SEED));
    seeds.push(article.to_vec());
    seeds.push(buyer.to_vec());
    assert(seed_views(seeds@) =~= receipt_seeds(*article, *buyer));
    derive_address(&seeds, program_id)
}

/// The address of the fee schedule.
pub fn fee_config_address(program_id: &Pubkey) -> (found: Option<(Pubkey, u8)>)
    ensures
        found == derived(fee_config_seeds(), *program_id),
{
    let mut seeds: Vec<Vec<u8>> = Vec::new();
    seeds.push(tag_bytes(&FEE_CONFIG_SEED));
    assert(seed_views(seeds@) =~= fee_config_seeds());
    derive_address(&seeds, program_id)
}

/// The address of the authority that mints a buyer's credential for an
/// article.
pub fn access_token_authority(article: &Pubkey, buyer: &Pubkey, program_id: &Pubkey) -> (found:
    Option<(Pubkey, u8)>)
    ensures
        found == derived(access_token_seeds(*article, *buyer), *program_id),
{
    let mut seeds: Vec<Vec<u8>> = Vec::new();
    seeds.push(tag_bytes(&ACCESS_TOKEN_SEED));
    seeds.push(article.to_vec());
    seeds.push(buyer.to_vec());
    assert(seed_views(seeds@) =~= access_token_seeds(*article, *buyer));
    derive_address(&seeds, program_id)
}

} // verus!
