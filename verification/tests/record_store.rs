use paywall::address::access_token_authority;
use paywall::address::article_address;
use paywall::address::derive_address;
use paywall::address::fee_config_address;
use paywall::address::receipt_address;
use paywall::constants::ACCESS_TOKEN_SEED;
use paywall::constants::ARTICLE_SEED;
use paywall::constants::ARTICLE_SIZE;
use paywall::constants::FEE_CONFIG_SEED;
use paywall::constants::FEE_CONFIG_SIZE;
use paywall::constants::MAX_BASIS_POINTS;
use paywall::constants::MAX_URI_LENGTH;
use paywall::constants::RECEIPT_SEED;
use paywall::constants::RECEIPT_SIZE;
use paywall::create_article;
use paywall::create_article_at;
use paywall::instructions::purchase::PurchaseKeys;
use paywall::instructions::ArticleCreated;
use paywall::instructions::ArticleUpdated;
use paywall::instructions::FeeUpdated;
use paywall::purchase;
use paywall::set_article_price;
use paywall::set_fee_config;
use paywall::state::Article;
use paywall::state::FeeConfig;
use paywall::state::Receipt;
use paywall::InstructionError;
use paywall::PaywallError;
use paywall::Pubkey;
use paywall::RecordStore;

fn key(tag: u8) -> Pubkey {
    Pubkey([tag; 32])
}

const PROGRAM: u8 = 200;
const ADMIN: u8 = 201;
const CREATOR: u8 = 1;
const MINT: u8 = 2;
const TREASURY: u8 = 3;

fn store_with_fees() -> RecordStore {
    let mut store = RecordStore::new(key(PROGRAM), key(ADMIN));
    set_fee_config(&mut store, key(ADMIN), 250, 100, key(TREASURY)).unwrap();
    store
}

fn list(store: &mut RecordStore, article_seq: u64, price: u64) -> Pubkey {
    create_article(
        store,
        key(CREATOR),
        article_seq,
        String::from("enc:QmContent"),
        key(MINT),
        price,
        500,
        true,
    )
    .unwrap()
    .article
}

fn order(article: Pubkey, buyer: u8) -> PurchaseKeys {
    PurchaseKeys {
        buyer: key(buyer),
        article,
        payment_mint: key(MINT),
        buyer_token_account: key(buyer.wrapping_add(100)),
        creator_token_account: key(12),
        treasury_token_account: key(13),
        referrer_token_account: Some(key(14)),
    }
}

#[test]
fn new_store_is_empty() {
    let store = RecordStore::new(key(PROGRAM), key(ADMIN));
    assert_eq!(store.program_id(), key(PROGRAM));
    assert_eq!(store.admin(), key(ADMIN));
    assert_eq!(store.fee_config(), None);
    assert_eq!(store.article(&key(20)), None);
    assert_eq!(store.receipt(&key(20), &key(10)), None);
}

#[test]
fn created_article_reads_back() {
    let mut store = RecordStore::new(key(PROGRAM), key(ADMIN));
    let event = create_article(
        &mut store,
        key(CREATOR),
        7,
        String::from("enc:QmContent"),
        key(MINT),
        1000,
        500,
        false,
    )
    .unwrap();
    let (address, _) = article_address(&key(CREATOR), 7, &key(PROGRAM)).unwrap();
    assert_eq!(
        event,
        ArticleCreated {
            article: address,
            creator: key(CREATOR),
            pay_mint: key(MINT),
            price: 1000,
            royalty_bps: 500,
            transferable: false,
        }
    );
    assert_eq!(
        store.article(&address),
        Some(&Article {
            creator: key(CREATOR),
            uri_encrypted: String::from("enc:QmContent"),
            pay_mint: key(MINT),
            price: 1000,
            royalty_bps: 500,
            transferable: false,
            sales: 0,
        })
    );
    assert_eq!(store.article(&key(CREATOR)), None);
}

#[test]
fn article_is_created_at_the_address_given() {
    let mut store = RecordStore::new(key(PROGRAM), key(ADMIN));
    let event = create_article_at(
        &mut store,
        key(20),
        key(CREATOR),
        7,
        String::from("enc:QmContent"),
        key(MINT),
        1000,
        500,
        true,
    )
    .unwrap();
    assert_eq!(event.article, key(20));
    assert_eq!(event.creator, key(CREATOR));
    assert_eq!(store.article(&key(20)).unwrap().price, 1000);
    assert_eq!(store.article(&key(20)).unwrap().sales, 0);
    assert_eq!(
        create_article_at(&mut store, key(20), key(66), 8, String::from("x"), key(MINT), 1, 0, true),
        Err(InstructionError::AddressInUse)
    );
    assert_eq!(store.article(&key(20)).unwrap().creator, key(CREATOR));
    assert_eq!(
        create_article_at(&mut store, key(21), key(66), 8, String::from("x"), key(MINT), 0, 0, true),
        Err(InstructionError::Paywall(PaywallError::InvalidPrice))
    );
    assert_eq!(store.article(&key(21)), None);
    // The article listed through its sequence number lives elsewhere.
    let derived = list(&mut store, 7, 5);
    assert_ne!(derived, key(20));
    assert_eq!(store.article(&key(20)).unwrap().price, 1000);
    assert_eq!(store.article(&derived).unwrap().price, 5);
}

#[test]
fn one_creator_lists_many_articles() {
    let mut store = RecordStore::new(key(PROGRAM), key(ADMIN));
    let first = list(&mut store, 0, 100);
    let second = list(&mut store, 1, 200);
    let third = list(&mut store, u64::MAX, 300);
    assert_ne!(first, second);
    assert_ne!(second, third);
    assert_eq!(store.article(&first).unwrap().price, 100);
    assert_eq!(store.article(&second).unwrap().price, 200);
    assert_eq!(store.article(&third).unwrap().price, 300);
}

#[test]
fn sequence_number_cannot_be_used_twice() {
    let mut store = RecordStore::new(key(PROGRAM), key(ADMIN));
    let address = list(&mut store, 7, 1000);
    let again = create_article(
        &mut store,
        key(CREATOR),
        7,
        String::from("other"),
        key(MINT),
        5,
        0,
        true,
    );
    assert_eq!(again, Err(InstructionError::AddressInUse));
    assert_eq!(store.article(&address).unwrap().price, 1000);
    assert_eq!(store.article(&address).unwrap().uri_encrypted, "enc:QmContent");
    // The address is taken whatever the new terms are.
    let invalid = create_article(&mut store, key(CREATOR), 7, "u".repeat(201), key(MINT), 0, 10_001, true);
    assert_eq!(invalid, Err(InstructionError::AddressInUse));
    // Another creator has the sequence number to itself.
    let other = create_article(&mut store, key(77), 7, String::from("x"), key(MINT), 5, 0, true);
    assert!(other.is_ok());
}

#[test]
fn refused_listing_creates_nothing() {
    let mut store = RecordStore::new(key(PROGRAM), key(ADMIN));
    let (address, _) = article_address(&key(CREATOR), 7, &key(PROGRAM)).unwrap();
    assert_eq!(
        create_article(&mut store, key(CREATOR), 7, "u".repeat(201), key(MINT), 1000, 500, true),
        Err(InstructionError::Paywall(PaywallError::UriTooLong))
    );
    assert_eq!(
        create_article(&mut store, key(CREATOR), 7, String::from("u"), key(MINT), 1000, 10_001, true),
        Err(InstructionError::Paywall(PaywallError::InvalidRoyalty))
    );
    assert_eq!(
        create_article(&mut store, key(CREATOR), 7, String::from("u"), key(MINT), 0, 500, true),
        Err(InstructionError::Paywall(PaywallError::InvalidPrice))
    );
    assert_eq!(store.article(&address), None);
    // The sequence number is still free.
    assert_eq!(list(&mut store, 7, 1000), address);
}

#[test]
fn only_the_creator_sets_the_price() {
    let mut store = RecordStore::new(key(PROGRAM), key(ADMIN));
    let address = list(&mut store, 7, 1000);
    assert_eq!(
        set_article_price(&mut store, key(CREATOR), address, 2500),
        Ok(ArticleUpdated { article: address, price: 2500 })
    );
    assert_eq!(store.article(&address).unwrap().price, 2500);
    assert_eq!(
        set_article_price(&mut store, key(66), address, 1),
        Err(InstructionError::Paywall(PaywallError::Unauthorized))
    );
    assert_eq!(
        set_article_price(&mut store, key(ADMIN), address, 1),
        Err(InstructionError::Paywall(PaywallError::Unauthorized))
    );
    assert_eq!(
        set_article_price(&mut store, key(CREATOR), address, 0),
        Err(InstructionError::Paywall(PaywallError::InvalidPrice))
    );
    assert_eq!(
        set_article_price(&mut store, key(CREATOR), key(99), 5),
        Err(InstructionError::Paywall(PaywallError::ArticleNotFound))
    );
    let article = store.article(&address).unwrap();
    assert_eq!(article.price, 2500);
    assert_eq!(article.creator, key(CREATOR));
    assert_eq!(article.royalty_bps, 500);
    assert_eq!(article.sales, 0);
}

#[test]
fn only_the_admin_writes_the_fee_schedule() {
    let mut store = RecordStore::new(key(PROGRAM), key(ADMIN));
    assert_eq!(
        set_fee_config(&mut store, key(CREATOR), 250, 100, key(TREASURY)),
        Err(InstructionError::AdminMismatch)
    );
    assert_eq!(
        set_fee_config(&mut store, key(CREATOR), 6000, 5000, key(TREASURY)),
        Err(InstructionError::AdminMismatch)
    );
    assert_eq!(store.fee_config(), None);
    assert_eq!(
        set_fee_config(&mut store, key(ADMIN), 6000, 5000, key(TREASURY)),
        Err(InstructionError::Paywall(PaywallError::FeesTooHigh))
    );
    assert_eq!(store.fee_config(), None);
    assert_eq!(
        set_fee_config(&mut store, key(ADMIN), 250, 100, key(TREASURY)),
        Ok(FeeUpdated { protocol_fee_bps: 250, referrer_fee_bps: 100, treasury: key(TREASURY) })
    );
    assert_eq!(
        store.fee_config(),
        Some(FeeConfig { protocol_fee_bps: 250, referrer_fee_bps: 100, treasury: key(TREASURY) })
    );
    // Written again, the schedule is replaced.
    set_fee_config(&mut store, key(ADMIN), 0, 10_000, key(4)).unwrap();
    assert_eq!(
        store.fee_config(),
        Some(FeeConfig { protocol_fee_bps: 0, referrer_fee_bps: 10_000, treasury: key(4) })
    );
    assert_eq!(
        set_fee_config(&mut store, key(ADMIN), 1, 10_000, key(5)),
        Err(InstructionError::Paywall(PaywallError::FeesTooHigh))
    );
    assert_eq!(
        store.fee_config(),
        Some(FeeConfig { protocol_fee_bps: 0, referrer_fee_bps: 10_000, treasury: key(4) })
    );
}

#[test]
fn purchase_settles_on_the_store() {
    let mut store = store_with_fees();
    let address = list(&mut store, 7, 1000);
    let settlement = purchase(&mut store, order(address, 10), Some(key(4)), 1_700_000_000).unwrap();
    assert_eq!(settlement.purchased.paid_amount, 1000);
    assert_eq!(settlement.purchased.protocol_fee, 25);
    assert_eq!(settlement.purchased.referrer_fee, 10);
    assert_eq!(settlement.purchased.creator_amount, 965);
    assert_eq!(settlement.purchased.article, address);
    assert_eq!(settlement.to_creator.from, key(110));
    assert_eq!(settlement.to_creator.to, key(12));
    assert_eq!(settlement.credential.owner, key(10));
    assert!(!settlement.credential.transfer_blocked);
    assert_eq!(
        store.receipt(&address, &key(10)),
        Some(Receipt {
            article: address,
            buyer: key(10),
            paid_amount: 1000,
            purchased_at: 1_700_000_000,
        })
    );
    assert_eq!(store.receipt(&key(10), &address), None);
    assert_eq!(store.article(&address).unwrap().sales, 1);
}

#[test]
fn purchase_pays_the_price_in_force() {
    let mut store = store_with_fees();
    let address = list(&mut store, 7, 1000);
    set_article_price(&mut store, key(CREATOR), address, 4000).unwrap();
    set_fee_config(&mut store, key(ADMIN), 1000, 0, key(TREASURY)).unwrap();
    let settlement = purchase(&mut store, order(address, 10), Some(key(4)), 0).unwrap();
    assert_eq!(settlement.purchased.paid_amount, 4000);
    assert_eq!(settlement.purchased.protocol_fee, 400);
    assert_eq!(settlement.purchased.referrer_fee, 0);
    assert_eq!(settlement.purchased.creator_amount, 3600);
    assert_eq!(store.receipt(&address, &key(10)).unwrap().paid_amount, 4000);
}

#[test]
fn second_purchase_by_the_same_buyer_is_refused() {
    let mut store = store_with_fees();
    let address = list(&mut store, 7, 1000);
    purchase(&mut store, order(address, 10), None, 1).unwrap();
    assert_eq!(
        purchase(&mut store, order(address, 10), None, 2),
        Err(InstructionError::Paywall(PaywallError::AlreadyPurchased))
    );
    // Whatever happens in between, and whatever else the request names.
    set_article_price(&mut store, key(CREATOR), address, 1).unwrap();
    set_fee_config(&mut store, key(ADMIN), 0, 0, key(TREASURY)).unwrap();
    purchase(&mut store, order(address, 11), None, 3).unwrap();
    let mut other_currency = order(address, 10);
    other_currency.payment_mint = key(99);
    other_currency.buyer_token_account = key(98);
    assert_eq!(
        purchase(&mut store, other_currency, Some(key(4)), 4),
        Err(InstructionError::Paywall(PaywallError::AlreadyPurchased))
    );
    assert_eq!(store.article(&address).unwrap().sales, 2);
    assert_eq!(store.receipt(&address, &key(10)).unwrap().purchased_at, 1);
    assert_eq!(store.receipt(&address, &key(10)).unwrap().paid_amount, 1000);
}

#[test]
fn sales_count_the_buyers() {
    let mut store = store_with_fees();
    let address = list(&mut store, 7, 1000);
    let other = list(&mut store, 8, 50);
    for buyer in 10..60u8 {
        let settlement = purchase(&mut store, order(address, buyer), None, buyer as i64).unwrap();
        assert_eq!(settlement.purchased.creator_amount, 975);
        assert_eq!(store.article(&address).unwrap().sales, (buyer - 9) as u64);
    }
    assert_eq!(store.article(&address).unwrap().sales, 50);
    assert_eq!(store.article(&other).unwrap().sales, 0);
    // Refused purchases are not counted.
    for buyer in 10..60u8 {
        assert!(purchase(&mut store, order(address, buyer), None, 0).is_err());
    }
    assert_eq!(store.article(&address).unwrap().sales, 50);
    // The same buyers may buy another article.
    purchase(&mut store, order(other, 10), None, 0).unwrap();
    assert_eq!(store.article(&other).unwrap().sales, 1);
    assert_eq!(store.article(&address).unwrap().sales, 50);
}

#[test]
fn purchase_needs_article_and_fee_schedule() {
    let mut store = RecordStore::new(key(PROGRAM), key(ADMIN));
    assert_eq!(
        purchase(&mut store, order(key(20), 10), None, 0),
        Err(InstructionError::Paywall(PaywallError::ArticleNotFound))
    );
    let address = list(&mut store, 7, 1000);
    assert_eq!(
        purchase(&mut store, order(address, 10), None, 0),
        Err(InstructionError::FeeConfigMissing)
    );
    assert_eq!(store.article(&address).unwrap().sales, 0);
    assert_eq!(store.receipt(&address, &key(10)), None);
    set_fee_config(&mut store, key(ADMIN), 250, 100, key(TREASURY)).unwrap();
    assert!(purchase(&mut store, order(address, 10), None, 0).is_ok());
}

#[test]
fn refused_purchase_changes_nothing() {
    let mut store = store_with_fees();
    let address = list(&mut store, 7, 1000);
    let mut wrong = order(address, 10);
    wrong.payment_mint = key(99);
    assert_eq!(
        purchase(&mut store, wrong, None, 0),
        Err(InstructionError::Paywall(PaywallError::InvalidPaymentMint))
    );
    assert_eq!(store.article(&address).unwrap().sales, 0);
    assert_eq!(store.receipt(&address, &key(10)), None);
    assert!(purchase(&mut store, order(address, 10), None, 0).is_ok());
}

#[test]
fn soulbound_article_blocks_the_credential() {
    let mut store = store_with_fees();
    let event = create_article(
        &mut store,
        key(CREATOR),
        1,
        String::from("enc"),
        key(MINT),
        5,
        0,
        false,
    )
    .unwrap();
    let settlement = purchase(&mut store, order(event.article, 10), None, 0).unwrap();
    assert!(settlement.credential.transfer_blocked);
    assert!(settlement.credential_minted.transfer_blocked);
    assert_eq!(settlement.credential.mint_authority.article, event.article);
    assert_eq!(settlement.credential.mint_authority.buyer, key(10));
    assert_eq!(
        purchase(&mut store, order(event.article, 10), None, 0),
        Err(InstructionError::Paywall(PaywallError::AlreadyPurchased))
    );
}

fn outside(key: &Pubkey) -> anchor_lang::prelude::Pubkey {
    anchor_lang::prelude::Pubkey::new_from_array(key.to_bytes())
}

#[test]
fn addresses_are_program_derived() {
    let program = key(PROGRAM);
    let (address, bump) = article_address(&key(CREATOR), 7, &program).unwrap();
    let (expected, expected_bump) = anchor_lang::prelude::Pubkey::find_program_address(
        &[b"article", &[CREATOR; 32], &7u64.to_le_bytes()],
        &outside(&program),
    );
    assert_eq!(address.to_bytes(), expected.to_bytes());
    assert_eq!(bump, expected_bump);
    assert_ne!(address, program);
    assert_ne!(address, key(CREATOR));

    let (receipt, bump) = receipt_address(&address, &key(10), &program).unwrap();
    let (expected, expected_bump) = anchor_lang::prelude::Pubkey::find_program_address(
        &[b"receipt", &address.to_bytes(), &[10; 32]],
        &outside(&program),
    );
    assert_eq!(receipt.to_bytes(), expected.to_bytes());
    assert_eq!(bump, expected_bump);

    let (fees, bump) = fee_config_address(&program).unwrap();
    let (expected, expected_bump) =
        anchor_lang::prelude::Pubkey::find_program_address(&[b"fee_config"], &outside(&program));
    assert_eq!(fees.to_bytes(), expected.to_bytes());
    assert_eq!(bump, expected_bump);

    let (authority, bump) = access_token_authority(&address, &key(10), &program).unwrap();
    let (expected, expected_bump) = anchor_lang::prelude::Pubkey::find_program_address(
        &[b"access_token", &address.to_bytes(), &[10; 32]],
        &outside(&program),
    );
    assert_eq!(authority.to_bytes(), expected.to_bytes());
    assert_eq!(bump, expected_bump);
    assert_ne!(authority, receipt);
}

#[test]
fn addresses_depend_on_every_seed() {
    let program = key(PROGRAM);
    let base = article_address(&key(CREATOR), 7, &program).unwrap().0;
    assert_eq!(article_address(&key(CREATOR), 7, &program).unwrap().0, base);
    assert_ne!(article_address(&key(CREATOR), 8, &program).unwrap().0, base);
    assert_ne!(article_address(&key(66), 7, &program).unwrap().0, base);
    assert_ne!(article_address(&key(CREATOR), 7, &key(199)).unwrap().0, base);
    assert_ne!(
        receipt_address(&base, &key(10), &program).unwrap().0,
        receipt_address(&key(10), &base, &program).unwrap().0
    );
}

#[test]
fn seeds_out_of_range_select_no_address() {
    let program = key(PROGRAM);
    assert!(derive_address(&vec![], &program).is_some());
    assert!(derive_address(&vec![vec![0; 32]; 15], &program).is_some());
    assert_eq!(derive_address(&vec![vec![1]; 16], &program), None);
    assert_eq!(derive_address(&vec![vec![0; 33]], &program), None);
}

#[test]
fn seed_tags_and_limits() {
    assert_eq!(&ARTICLE_SEED, b"article");
    assert_eq!(&RECEIPT_SEED, b"receipt");
    assert_eq!(&FEE_CONFIG_SEED, b"fee_config");
    assert_eq!(&ACCESS_TOKEN_SEED, b"access_token");
    assert_eq!(MAX_URI_LENGTH, 200);
    assert_eq!(MAX_BASIS_POINTS, 10_000);
    assert_eq!(ARTICLE_SIZE, 295);
    assert_eq!(RECEIPT_SIZE, 88);
    assert_eq!(FEE_CONFIG_SIZE, 44);
}

#[test]
fn identities_compare_by_bytes() {
    let mut bytes = [7u8; 32];
    assert_eq!(Pubkey::new_from_array(bytes), key(7));
    assert_eq!(key(7).to_bytes(), bytes);
    assert_eq!(key(7).to_vec(), vec![7u8; 32]);
    bytes[31] = 8;
    assert_ne!(Pubkey::new_from_array(bytes), key(7));
    bytes[31] = 7;
    bytes[0] = 6;
    assert_ne!(Pubkey::new_from_array(bytes), key(7));
    assert_eq!(Pubkey::default(), key(0));
}
