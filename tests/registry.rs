use fan_engagement::registry::FanEngagementContract;
use fan_engagement::royalty::royalty_amount;
use fan_engagement::types::{Address, ContractError, Event};

fn addr(key: &str) -> Address {
    Address::new(key.to_string())
}

fn initialized(admin: &str) -> FanEngagementContract {
    let mut c = FanEngagementContract::new();
    assert_eq!(c.initialize(addr(admin)), Ok(()));
    c
}

#[test]
fn full_lifecycle_mint_royalty_transfer() {
    let mut c = initialized("adminA");
    let mut events = Vec::new();
    assert_eq!(
        c.mint_nft(true, addr("creatorC"), addr("ownerO"), "ipfs://1".to_string(), &mut events),
        Ok(())
    );
    match &events[0] {
        Event::Mint { owner, creator, id } => {
            assert_eq!(owner.key(), "ownerO");
            assert_eq!(creator.key(), "creatorC");
            assert_eq!(*id, 1);
        }
        _ => panic!("expected a mint event"),
    }
    let nft = c.get_nft(1).unwrap().unwrap();
    assert_eq!(nft.owner.key(), "ownerO");
    assert_eq!(nft.creator.key(), "creatorC");

    assert_eq!(c.set_royalty(true, addr("creatorC"), 1, 10), Ok(()));
    let payment = c
        .pay_royalty(true, addr("buyerB"), 1, 1000, addr("assetX"))
        .unwrap()
        .unwrap();
    assert_eq!(payment.from.key(), "buyerB");
    assert_eq!(payment.to.key(), "creatorC");
    assert_eq!(payment.amount, 100);
    assert_eq!(payment.token.key(), "assetX");

    assert_eq!(c.transfer_nft(true, addr("ownerO"), addr("ownerP"), 1, &mut events), Ok(()));
    match &events[1] {
        Event::Transfer { from, to, id } => {
            assert_eq!(from.key(), "ownerO");
            assert_eq!(to.key(), "ownerP");
            assert_eq!(*id, 1);
        }
        _ => panic!("expected a transfer event"),
    }
    let nft = c.get_nft(1).unwrap().unwrap();
    assert_eq!(nft.owner.key(), "ownerP");
    assert_eq!(nft.creator.key(), "creatorC");
    assert_eq!(nft.uri, "ipfs://1");
}

#[test]
fn transfer_by_stranger_is_not_owner() {
    let mut c = initialized("adminA");
    let mut events = Vec::new();
    c.mint_nft(true, addr("creatorC"), addr("ownerO"), "ipfs://1".to_string(), &mut events)
        .unwrap();
    assert_eq!(
        c.transfer_nft(true, addr("stranger"), addr("ownerQ"), 1, &mut events),
        Err(ContractError::NotOwner)
    );
    assert_eq!(events.len(), 1);
    let nft = c.get_nft(1).unwrap().unwrap();
    assert_eq!(nft.owner.key(), "ownerO");
    assert_eq!(nft.creator.key(), "creatorC");
    assert_eq!(nft.uri, "ipfs://1");
}

#[test]
fn mints_number_assets_from_one() {
    let mut c = initialized("admin");
    let mut events = Vec::new();
    for i in 0..5u64 {
        let uri = format!("ipfs://{}", i);
        c.mint_nft(true, addr("creator"), addr("owner"), uri, &mut events).unwrap();
    }
    for id in 1..=5u64 {
        let nft = c.get_nft(id).unwrap().unwrap();
        assert_eq!(nft.uri, format!("ipfs://{}", id - 1));
    }
    assert!(c.get_nft(0).unwrap().is_none());
    assert!(c.get_nft(6).unwrap().is_none());
    assert_eq!(events.len(), 5);
}

#[test]
fn get_before_initialize_fails() {
    let c = FanEngagementContract::new();
    assert!(matches!(c.get_nft(1), Err(ContractError::UninitializedAccess)));
}

#[test]
fn get_unminted_is_none() {
    let c = initialized("admin");
    assert!(c.get_nft(1).unwrap().is_none());
}

#[test]
fn initialize_twice_fails() {
    let mut c = initialized("admin");
    assert_eq!(c.initialize(addr("other")), Err(ContractError::AlreadyInitialized));
}

#[test]
fn operations_before_initialize_fail() {
    let mut c = FanEngagementContract::new();
    let mut events = Vec::new();
    assert_eq!(
        c.mint_nft(true, addr("c"), addr("o"), "u".to_string(), &mut events),
        Err(ContractError::UninitializedAccess)
    );
    assert_eq!(
        c.transfer_nft(true, addr("o"), addr("p"), 1, &mut events),
        Err(ContractError::UninitializedAccess)
    );
    assert_eq!(c.set_royalty(true, addr("c"), 1, 5), Err(ContractError::UninitializedAccess));
    assert!(matches!(
        c.pay_royalty(true, addr("b"), 1, 100, addr("t")),
        Err(ContractError::UninitializedAccess)
    ));
    assert!(events.is_empty());
}

#[test]
fn unauthorized_calls_fail_and_change_nothing() {
    let mut c = initialized("admin");
    let mut events = Vec::new();
    assert_eq!(
        c.mint_nft(false, addr("c"), addr("o"), "u".to_string(), &mut events),
        Err(ContractError::AuthorizationFailure)
    );
    assert!(c.get_nft(1).unwrap().is_none());
    c.mint_nft(true, addr("c"), addr("o"), "u".to_string(), &mut events).unwrap();
    assert_eq!(
        c.transfer_nft(false, addr("o"), addr("p"), 1, &mut events),
        Err(ContractError::AuthorizationFailure)
    );
    assert_eq!(c.get_nft(1).unwrap().unwrap().owner.key(), "o");
    assert_eq!(c.set_royalty(false, addr("c"), 1, 5), Err(ContractError::AuthorizationFailure));
    assert_eq!(c.get_royalty(1), 0);
    assert!(matches!(
        c.pay_royalty(false, addr("b"), 1, 100, addr("t")),
        Err(ContractError::AuthorizationFailure)
    ));
    assert_eq!(events.len(), 1);
}

#[test]
fn transfer_of_unknown_asset_is_not_found() {
    let mut c = initialized("admin");
    let mut events = Vec::new();
    assert_eq!(
        c.transfer_nft(true, addr("o"), addr("p"), 7, &mut events),
        Err(ContractError::NotFound)
    );
    assert!(matches!(
        c.pay_royalty(true, addr("b"), 7, 100, addr("t")),
        Err(ContractError::NotFound)
    ));
}

#[test]
fn pay_without_royalty_moves_nothing() {
    let mut c = initialized("admin");
    let mut events = Vec::new();
    c.mint_nft(true, addr("c"), addr("o"), "u".to_string(), &mut events).unwrap();
    assert!(c.pay_royalty(true, addr("b"), 1, 1000, addr("t")).unwrap().is_none());
    c.set_royalty(true, addr("c"), 1, 0).unwrap();
    assert!(c.pay_royalty(true, addr("b"), 1, 1000, addr("t")).unwrap().is_none());
}

#[test]
fn royalty_truncates() {
    let mut c = initialized("admin");
    let mut events = Vec::new();
    c.mint_nft(true, addr("c"), addr("o"), "u".to_string(), &mut events).unwrap();
    c.set_royalty(true, addr("c"), 1, 7).unwrap();
    let p = c.pay_royalty(true, addr("b"), 1, 999, addr("t")).unwrap().unwrap();
    assert_eq!(p.amount, 69);
    assert_eq!(p.to.key(), "c");
}

#[test]
fn royalty_overflow_is_rejected() {
    let mut c = initialized("admin");
    let mut events = Vec::new();
    c.mint_nft(true, addr("c"), addr("o"), "u".to_string(), &mut events).unwrap();
    c.set_royalty(true, addr("c"), 1, 50).unwrap();
    assert!(matches!(
        c.pay_royalty(true, addr("b"), 1, i128::MAX, addr("t")),
        Err(ContractError::Overflow)
    ));
}

#[test]
fn set_royalty_twice_equals_once() {
    let mut c = initialized("admin");
    c.set_royalty(true, addr("anyone"), 3, 12).unwrap();
    let once = c.get_royalty(3);
    c.set_royalty(true, addr("anyone"), 3, 12).unwrap();
    assert_eq!(c.get_royalty(3), once);
    assert_eq!(once, 12);
    c.set_royalty(true, addr("anyone"), 3, 4).unwrap();
    assert_eq!(c.get_royalty(3), 4);
}

#[test]
fn royalty_amount_values() {
    assert_eq!(royalty_amount(1000, 10), Some(100));
    assert_eq!(royalty_amount(999, 7), Some(69));
    assert_eq!(royalty_amount(-999, 7), Some(-69));
    assert_eq!(royalty_amount(5, 0), Some(0));
    assert_eq!(royalty_amount(1000, 250), Some(2500));
    assert_eq!(royalty_amount(i128::MAX, 2), None);
}

#[test]
fn address_equality_by_key() {
    assert!(addr("a").same_as(&addr("a")));
    assert!(!addr("a").same_as(&addr("b")));
    assert!(addr("a") == addr("a"));
}

#[test]
fn restore_rebuilds_state() {
    let records = vec![
        fan_engagement::types::NFT { owner: addr("o1"), creator: addr("c1"), uri: "u1".to_string() },
        fan_engagement::types::NFT { owner: addr("o2"), creator: addr("c2"), uri: "u2".to_string() },
    ];
    let c = FanEngagementContract::restore(Some(addr("admin")), records, vec![(2, 5), (9, 1), (2, 8)])
        .unwrap();
    assert_eq!(c.nft_counter(), 2);
    assert_eq!(c.get_nft(1).unwrap().unwrap().owner.key(), "o1");
    assert_eq!(c.get_nft(2).unwrap().unwrap().creator.key(), "c2");
    assert!(c.get_nft(3).unwrap().is_none());
    assert_eq!(c.get_royalty(2), 8);
    assert_eq!(c.get_royalty(9), 1);
    assert_eq!(c.get_royalty(1), 0);
}

#[test]
fn restore_rejects_contents_without_admin() {
    assert!(FanEngagementContract::restore(None, Vec::new(), vec![(1, 5)]).is_none());
    let empty = FanEngagementContract::restore(None, Vec::new(), Vec::new()).unwrap();
    assert!(matches!(empty.get_nft(1), Err(ContractError::UninitializedAccess)));
}

#[test]
fn counter_follows_mints() {
    let mut c = initialized("admin");
    let mut events = Vec::new();
    assert_eq!(c.nft_counter(), 0);
    c.mint_nft(true, addr("c"), addr("o"), "u".to_string(), &mut events).unwrap();
    c.mint_nft(true, addr("c"), addr("o"), "v".to_string(), &mut events).unwrap();
    assert_eq!(c.nft_counter(), 2);
}
