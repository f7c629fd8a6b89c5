use pallets::mint_token::{Event, Pallet};

#[test]
fn unknown_account_holds_zero() {
    let p = Pallet::new();
    assert_eq!(p.get_balance(42), 0);
    assert!(p.events().is_empty());
}

#[test]
fn mint_overwrites_previous_balance() {
    let mut p = Pallet::new();
    p.mint(1, 100);
    assert_eq!(p.get_balance(1), 100);
    p.mint(1, 50);
    assert_eq!(p.get_balance(1), 50);
    assert_eq!(p.events(), &vec![Event::MintedNewSupply(1), Event::MintedNewSupply(1)]);
}

#[test]
fn mint_touches_only_the_caller() {
    let mut p = Pallet::new();
    p.mint(1, 5);
    p.mint(2, 7);
    assert_eq!(p.get_balance(1), 5);
    assert_eq!(p.get_balance(2), 7);
    assert_eq!(p.get_balance(3), 0);
}

#[test]
fn transfer_thirty_of_hundred() {
    let mut p = Pallet::new();
    p.mint(1, 100);
    p.transfer(1, 2, 30);
    assert_eq!(p.get_balance(1), 70);
    assert_eq!(p.get_balance(2), 30);
    assert_eq!(p.events().last(), Some(&Event::Transferred(1, 2, 30)));
    assert_eq!(p.events().len(), 2);
}

#[test]
fn transfer_keeps_the_sum_without_saturation() {
    let mut p = Pallet::new();
    p.mint(1, 500);
    p.mint(2, 250);
    p.transfer(2, 1, 249);
    assert_eq!(p.get_balance(1), 749);
    assert_eq!(p.get_balance(2), 1);
    assert_eq!(p.get_balance(1) + p.get_balance(2), 750);
}

#[test]
fn transfer_floors_sender_at_zero() {
    let mut p = Pallet::new();
    p.mint(1, 10);
    p.transfer(1, 2, 30);
    assert_eq!(p.get_balance(1), 0);
    assert_eq!(p.get_balance(2), 30);
    assert_eq!(p.events().last(), Some(&Event::Transferred(1, 2, 30)));
}

#[test]
fn transfer_caps_recipient_at_max() {
    let mut p = Pallet::new();
    p.mint(1, 100);
    p.mint(2, u128::MAX - 10);
    p.transfer(1, 2, 40);
    assert_eq!(p.get_balance(1), 60);
    assert_eq!(p.get_balance(2), u128::MAX);
}

#[test]
fn transfer_leaves_other_accounts() {
    let mut p = Pallet::new();
    p.mint(1, 100);
    p.mint(3, 9);
    p.transfer(1, 2, 1);
    assert_eq!(p.get_balance(3), 9);
    assert_eq!(p.get_balance(4), 0);
}

#[test]
fn transfer_from_empty_account() {
    let mut p = Pallet::new();
    p.transfer(5, 6, 12);
    assert_eq!(p.get_balance(5), 0);
    assert_eq!(p.get_balance(6), 12);
    assert_eq!(p.events(), &vec![Event::Transferred(5, 6, 12)]);
}

#[test]
fn transfer_to_self_credits_last() {
    let mut p = Pallet::new();
    p.mint(1, 100);
    p.transfer(1, 1, 30);
    assert_eq!(p.get_balance(1), 130);
}
