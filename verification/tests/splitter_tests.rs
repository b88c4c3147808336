use payment_splitter::CrynkPaymentSplitter;
use payment_splitter::Error;
use payment_splitter::PaymentType;
use payment_splitter::Principal;

fn initialized(rate: u32) -> CrynkPaymentSplitter {
    let admin = Principal::new(1);
    CrynkPaymentSplitter::initialize(
        &admin,
        admin,
        Principal::new(2),
        Principal::new(3),
        rate,
    )
    .unwrap()
}

#[test]
fn test_initialize() {
    let admin = Principal::new(1);
    let fee_wallet = Principal::new(2);
    let token_address = Principal::new(3);
    let s = CrynkPaymentSplitter::initialize(&admin, admin, fee_wallet, token_address, 100)
        .unwrap();
    assert_eq!(s.get_fee_wallet(), fee_wallet);
    assert_eq!(s.get_platform_fee_rate(), 100);
    assert_eq!(s.get_token_address(), token_address);
}

#[test]
fn test_get_payment_count() {
    let s = initialized(100);
    assert_eq!(s.get_payment_count(), 0);
}

#[test]
fn test_initialize_rejects_rate_over_bound() {
    let admin = Principal::new(1);
    let r = CrynkPaymentSplitter::initialize(
        &admin,
        admin,
        Principal::new(2),
        Principal::new(3),
        10001,
    );
    assert_eq!(r.unwrap_err(), Error::InvalidFeeRate);
}

#[test]
fn test_initialize_unauthorized() {
    let admin = Principal::new(1);
    let intruder = Principal::new(9);
    let r = CrynkPaymentSplitter::initialize(
        &intruder,
        admin,
        Principal::new(2),
        Principal::new(3),
        100,
    );
    assert_eq!(r.unwrap_err(), Error::Unauthorized);
}

#[test]
fn test_percentage_split_one_percent() {
    let mut s = initialized(100);
    let user = Principal::new(4);
    let merchant = Principal::new(5);
    let id = String::from("pay-1");
    let legs = s
        .split_payment(&user, user, &id, merchant, 1000, 100_000, 7)
        .unwrap();
    assert_eq!(legs.len(), 2);
    assert_eq!(legs[0].from, user);
    assert_eq!(legs[0].to, Principal::new(2));
    assert_eq!(legs[0].amount, 10);
    assert_eq!(legs[1].from, user);
    assert_eq!(legs[1].to, merchant);
    assert_eq!(legs[1].amount, 990);
    let rec = s.get_payment(&id).unwrap();
    assert_eq!(rec.total_amount, 1000);
    assert_eq!(rec.platform_fee, 10);
    assert_eq!(rec.merchant_amount, 990);
    assert_eq!(rec.id, id);
    assert_eq!(rec.user, user);
    assert_eq!(rec.merchant, merchant);
    assert_eq!(rec.timestamp, 7);
    assert!(rec.completed);
    assert_eq!(rec.payment_type, PaymentType::Percentage);
    assert_eq!(s.get_payment_count(), 1);
}

#[test]
fn test_percentage_split_fee_never_rounds_up() {
    let mut s = initialized(100);
    let user = Principal::new(4);
    let merchant = Principal::new(5);
    let id = String::from("tiny");
    let legs = s.split_payment(&user, user, &id, merchant, 1, 10, 7).unwrap();
    // The fee truncates to zero, so only the merchant leg is issued.
    assert_eq!(legs.len(), 1);
    assert_eq!(legs[0].to, merchant);
    assert_eq!(legs[0].amount, 1);
    let rec = s.get_payment(&id).unwrap();
    assert_eq!(rec.platform_fee, 0);
    assert_eq!(rec.merchant_amount, 1);
}

#[test]
fn test_percentage_split_full_rate() {
    let mut s = initialized(10000);
    let user = Principal::new(4);
    let merchant = Principal::new(5);
    let id = String::from("all-fee");
    let legs = s.split_payment(&user, user, &id, merchant, 250, 250, 7).unwrap();
    // The whole total is the fee, so only the fee leg is issued.
    assert_eq!(legs.len(), 1);
    assert_eq!(legs[0].to, Principal::new(2));
    assert_eq!(legs[0].amount, 250);
    let rec = s.get_payment(&id).unwrap();
    assert_eq!(rec.platform_fee, 250);
    assert_eq!(rec.merchant_amount, 0);
}

#[test]
fn test_percentage_split_zero_rate() {
    let mut s = initialized(0);
    let user = Principal::new(4);
    let merchant = Principal::new(5);
    let id = String::from("no-fee");
    let legs = s.split_payment(&user, user, &id, merchant, 777, 777, 7).unwrap();
    assert_eq!(legs.len(), 1);
    assert_eq!(legs[0].to, merchant);
    assert_eq!(legs[0].amount, 777);
}

#[test]
fn test_split_payment_invalid_amount() {
    let mut s = initialized(100);
    let user = Principal::new(4);
    let merchant = Principal::new(5);
    let id = String::from("zero");
    let r = s.split_payment(&user, user, &id, merchant, 0, 1000, 7);
    assert_eq!(r.unwrap_err(), Error::InvalidAmount);
    let r = s.split_payment(&user, user, &id, merchant, -5, 1000, 7);
    assert_eq!(r.unwrap_err(), Error::InvalidAmount);
    assert_eq!(s.get_payment_count(), 0);
    assert!(s.get_payment(&id).is_none());
}

#[test]
fn test_split_payment_insufficient_balance() {
    let mut s = initialized(100);
    let user = Principal::new(4);
    let merchant = Principal::new(5);
    let id = String::from("poor");
    let r = s.split_payment(&user, user, &id, merchant, 600, 500, 7);
    assert_eq!(r.unwrap_err(), Error::InsufficientBalance);
    // No record is created and the counter does not move.
    assert!(s.get_payment(&id).is_none());
    assert_eq!(s.get_payment_count(), 0);
}

#[test]
fn test_split_payment_idempotent() {
    let mut s = initialized(100);
    let user = Principal::new(4);
    let merchant = Principal::new(5);
    let id = String::from("once");
    s.split_payment(&user, user, &id, merchant, 1000, 100_000, 7).unwrap();
    let again = s.split_payment(&user, user, &id, merchant, 2500, 100_000, 8);
    assert_eq!(again.unwrap_err(), Error::PaymentAlreadyCompleted);
    // A fixed split may not reuse the identifier either.
    let fixed = s.split_payment_fixed(&user, user, &id, merchant, 700, 50, 100_000, 9);
    assert_eq!(fixed.unwrap_err(), Error::PaymentAlreadyCompleted);
    assert_eq!(s.get_payment_count(), 1);
    let rec = s.get_payment(&id).unwrap();
    assert_eq!(rec.total_amount, 1000);
    assert_eq!(rec.timestamp, 7);
}

#[test]
fn test_split_payment_unauthorized() {
    let mut s = initialized(100);
    let user = Principal::new(4);
    let intruder = Principal::new(9);
    let merchant = Principal::new(5);
    let id = String::from("sneak");
    let r = s.split_payment(&intruder, user, &id, merchant, 1000, 100_000, 7);
    assert_eq!(r.unwrap_err(), Error::Unauthorized);
    assert!(s.get_payment(&id).is_none());
    assert_eq!(s.get_payment_count(), 0);
}

#[test]
fn test_fixed_split_example() {
    let mut s = initialized(100);
    let user = Principal::new(4);
    let merchant = Principal::new(5);
    let id = String::from("fixed-1");
    let legs = s
        .split_payment_fixed(&user, user, &id, merchant, 700, 50, 100_000, 7)
        .unwrap();
    // Both legs are transferred unconditionally, the fee leg first.
    assert_eq!(legs.len(), 2);
    assert_eq!(legs[0].to, Principal::new(2));
    assert_eq!(legs[0].amount, 50);
    assert_eq!(legs[1].to, merchant);
    assert_eq!(legs[1].amount, 700);
    let rec = s.get_payment(&id).unwrap();
    assert_eq!(rec.total_amount, 750);
    assert_eq!(rec.platform_fee, 50);
    assert_eq!(rec.merchant_amount, 700);
    assert_eq!(rec.payment_type, PaymentType::Fixed);
}

#[test]
fn test_fixed_split_requires_both_legs_positive() {
    let mut s = initialized(100);
    let user = Principal::new(4);
    let merchant = Principal::new(5);
    let id = String::from("half");
    let r = s.split_payment_fixed(&user, user, &id, merchant, 700, 0, 100_000, 7);
    assert_eq!(r.unwrap_err(), Error::InvalidAmount);
    let r = s.split_payment_fixed(&user, user, &id, merchant, 0, 50, 100_000, 7);
    assert_eq!(r.unwrap_err(), Error::InvalidAmount);
    assert_eq!(s.get_payment_count(), 0);
}

#[test]
fn test_fixed_split_insufficient_balance() {
    let mut s = initialized(100);
    let user = Principal::new(4);
    let merchant = Principal::new(5);
    let id = String::from("fixed-poor");
    let r = s.split_payment_fixed(&user, user, &id, merchant, 700, 50, 749, 7);
    assert_eq!(r.unwrap_err(), Error::InsufficientBalance);
}

#[test]
fn test_fixed_split_unauthorized() {
    let mut s = initialized(100);
    let user = Principal::new(4);
    let intruder = Principal::new(9);
    let merchant = Principal::new(5);
    let id = String::from("fixed-sneak");
    let r = s.split_payment_fixed(&intruder, user, &id, merchant, 700, 50, 100_000, 7);
    assert_eq!(r.unwrap_err(), Error::Unauthorized);
}

#[test]
fn test_update_platform_fee_rate_bound() {
    let mut s = initialized(100);
    let admin = Principal::new(1);
    let r = s.update_platform_fee_rate(&admin, 10001);
    assert_eq!(r.unwrap_err(), Error::InvalidFeeRate);
    // The prior rate is unchanged after the rejected update.
    assert_eq!(s.get_platform_fee_rate(), 100);
    s.update_platform_fee_rate(&admin, 10000).unwrap();
    assert_eq!(s.get_platform_fee_rate(), 10000);
}

#[test]
fn test_update_platform_fee_rate_unauthorized() {
    let mut s = initialized(100);
    let intruder = Principal::new(9);
    let r = s.update_platform_fee_rate(&intruder, 50);
    assert_eq!(r.unwrap_err(), Error::Unauthorized);
    assert_eq!(s.get_platform_fee_rate(), 100);
}

#[test]
fn test_update_fee_wallet() {
    let mut s = initialized(100);
    let admin = Principal::new(1);
    let new_wallet = Principal::new(20);
    s.update_fee_wallet(&admin, new_wallet).unwrap();
    assert_eq!(s.get_fee_wallet(), new_wallet);
    // Later percentage splits pay the fee to the new wallet.
    let user = Principal::new(4);
    let id = String::from("after-update");
    let legs = s
        .split_payment(&user, user, &id, Principal::new(5), 1000, 100_000, 7)
        .unwrap();
    assert_eq!(legs[0].to, new_wallet);
}

#[test]
fn test_update_fee_wallet_unauthorized() {
    let mut s = initialized(100);
    let intruder = Principal::new(9);
    let r = s.update_fee_wallet(&intruder, Principal::new(20));
    assert_eq!(r.unwrap_err(), Error::Unauthorized);
    assert_eq!(s.get_fee_wallet(), Principal::new(2));
}

#[test]
fn test_payment_count_counts_only_successes() {
    let mut s = initialized(100);
    let user = Principal::new(4);
    let merchant = Principal::new(5);
    s.split_payment(&user, user, &String::from("a"), merchant, 1000, 100_000, 1)
        .unwrap();
    let _ = s.split_payment(&user, user, &String::from("b"), merchant, 0, 100_000, 2);
    s.split_payment_fixed(&user, user, &String::from("c"), merchant, 700, 50, 100_000, 3)
        .unwrap();
    let _ = s.split_payment(&user, user, &String::from("d"), merchant, 600, 500, 4);
    let _ = s.split_payment(&user, user, &String::from("a"), merchant, 1000, 100_000, 5);
    assert_eq!(s.get_payment_count(), 2);
}

#[test]
fn test_get_payment_missing_id() {
    let s = initialized(100);
    assert!(s.get_payment(&String::from("nowhere")).is_none());
}
