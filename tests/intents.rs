use trading_intents::decimal::MAX_MANTISSA;
use trading_intents::{
    Amount, Decimal, Error, Identifier, OrderType, PositionIntent, TimeInForce, Timestamp,
    TradeIntent, TradeMessage, UpdatePolicy,
};

fn stamp(t: chrono::DateTime<chrono::Utc>) -> Timestamp {
    Timestamp::new(t.timestamp(), t.timestamp_subsec_nanos())
}

fn dollars(n: i64) -> Amount {
    Amount::Dollars(Decimal::new(n, 0))
}

fn shares(n: i64) -> Amount {
    Amount::Shares(Decimal::new(n, 0))
}

#[test]
fn can_construct_position_intent() {
    let builder = PositionIntent::builder("A", Identifier::ticker("AAPL"), Amount::Dollars(Decimal::new(1, 0)));
    let _intent = builder
        .sub_strategy("B")
        .decision_price(Decimal::new(2, 0))
        .limit_price(Decimal::new(3, 0))
        .stop_price(Decimal::new(3, 0))
        .update_policy(UpdatePolicy::Retain)
        .before(stamp(chrono::Utc::now() + chrono::Duration::hours(1)))
        .after(stamp(chrono::Utc::now()))
        .build()
        .unwrap();
}

#[test]
fn merge_adds_dollars_and_shares() {
    assert_eq!(dollars(1).merge(dollars(2)), Ok(dollars(3)));
    assert_eq!(shares(5).merge(shares(-7)), Ok(shares(-2)));
}

#[test]
fn merge_aligns_scales() {
    let r = Amount::Dollars(Decimal::new(15, 1)).merge(dollars(2)).unwrap();
    assert_eq!(r, Amount::Dollars(Decimal::new(35, 1)));
}

#[test]
fn merge_is_commutative_and_associative_on_examples() {
    assert_eq!(dollars(4).merge(dollars(9)), dollars(9).merge(dollars(4)));
    let left = shares(1).merge(shares(2)).unwrap().merge(shares(3)).unwrap();
    let right = shares(1).merge(shares(2).merge(shares(3)).unwrap()).unwrap();
    assert_eq!(left, right);
    assert_eq!(left, shares(6));
}

#[test]
fn zero_is_identity_of_merge() {
    assert_eq!(Amount::Zero.merge(dollars(7)), Ok(dollars(7)));
    assert_eq!(shares(7).merge(Amount::Zero), Ok(shares(7)));
    assert_eq!(Amount::Zero.merge(Amount::Zero), Ok(Amount::Zero));
}

#[test]
fn merge_rejects_dollars_with_shares() {
    assert_eq!(
        dollars(1).merge(shares(2)),
        Err(Error::IncompatibleAmountError(dollars(1), shares(2)))
    );
    assert_eq!(
        shares(2).merge(dollars(1)),
        Err(Error::IncompatibleAmountError(shares(2), dollars(1)))
    );
}

#[test]
fn checked_merge_reports_overflow() {
    let big = Amount::Dollars(Decimal { mantissa: MAX_MANTISSA, scale: 0 });
    assert_eq!(big.checked_merge(dollars(1)), None);
    assert_eq!(dollars(1).checked_merge(dollars(1)), Some(Ok(dollars(2))));
    assert_eq!(
        big.checked_merge(shares(1)),
        Some(Err(Error::IncompatibleAmountError(big, shares(1))))
    );
}

#[test]
fn zero_has_no_sign() {
    assert!(Amount::Zero.is_zero());
    assert!(!Amount::Zero.is_sign_positive());
    assert!(!Amount::Zero.is_sign_negative());
}

#[test]
fn sign_predicates_on_values() {
    assert!(dollars(0).is_zero());
    assert!(dollars(0).is_sign_positive());
    assert!(!shares(3).is_zero());
    assert!(shares(3).is_sign_positive());
    assert!(shares(-3).is_sign_negative());
    assert!(!shares(-3).is_sign_positive());
}

#[test]
fn builder_with_later_before_succeeds() {
    let t = Timestamp::new(1_700_000_000, 0);
    let later = Timestamp::new(1_700_003_600, 0);
    let intent = PositionIntent::builder("A", Identifier::ticker("AAPL"), dollars(100))
        .sub_strategy("B")
        .before(later)
        .after(t)
        .build()
        .unwrap();
    assert_eq!(intent.strategy, "A");
    assert_eq!(intent.sub_strategy, Some("B".to_string()));
    assert_eq!(intent.identifier, Identifier::Ticker("AAPL".to_string()));
    assert_eq!(intent.amount, dollars(100));
    assert_eq!(intent.update_policy, UpdatePolicy::Update);
    assert_eq!(intent.before, Some(later));
    assert_eq!(intent.after, Some(t));
}

#[test]
fn builder_with_earlier_before_fails() {
    let t = Timestamp::new(1_700_000_000, 0);
    let later = Timestamp::new(1_700_003_600, 0);
    let r = PositionIntent::builder("A", Identifier::ticker("AAPL"), dollars(100))
        .sub_strategy("B")
        .before(t)
        .after(later)
        .build();
    assert_eq!(r, Err(Error::InvalidBeforeAfter(t, later)));
}

#[test]
fn builder_with_equal_bounds_succeeds() {
    let t = Timestamp::new(1_700_000_000, 5);
    let r = PositionIntent::builder("A", Identifier::ticker("AAPL"), dollars(1))
        .before(t)
        .after(t)
        .build();
    assert!(r.is_ok());
    let r = PositionIntent::builder("A", Identifier::ticker("AAPL"), dollars(1))
        .before(Timestamp::new(1_700_000_000, 4))
        .after(t)
        .build();
    assert_eq!(r, Err(Error::InvalidBeforeAfter(Timestamp::new(1_700_000_000, 4), t)));
}

#[test]
fn builder_rejects_all_with_nonzero_amount() {
    let r = PositionIntent::builder("A", Identifier::All, dollars(100)).build();
    assert_eq!(r, Err(Error::InvalidCombination));
    let r = PositionIntent::builder("A", Identifier::All, shares(1)).build();
    assert_eq!(r, Err(Error::InvalidCombination));
    let intent = PositionIntent::builder("A", Identifier::All, Amount::Zero).build().unwrap();
    assert_eq!(intent.identifier, Identifier::All);
    assert_eq!(intent.amount, Amount::Zero);
}

#[test]
fn time_window_is_checked_before_combination() {
    let t = Timestamp::new(10, 0);
    let later = Timestamp::new(20, 0);
    let r = PositionIntent::builder("A", Identifier::All, dollars(1)).before(t).after(later).build();
    assert_eq!(r, Err(Error::InvalidBeforeAfter(t, later)));
}

#[test]
fn build_with_uses_given_id_and_time() {
    let id = uuid::Uuid::from_u128(42);
    let t = Timestamp::new(123, 456);
    let intent = PositionIntent::builder("S", Identifier::ticker("MSFT"), shares(3))
        .decision_price(Decimal::new(2, 0))
        .limit_price(Decimal::new(3, 0))
        .stop_price(Decimal::new(4, 0))
        .update_policy(UpdatePolicy::RetainShort)
        .build_with(id, t)
        .unwrap();
    assert_eq!(intent.id, id);
    assert_eq!(intent.timestamp, t);
    assert_eq!(intent.decision_price, Some(Decimal::new(2, 0)));
    assert_eq!(intent.limit_price, Some(Decimal::new(3, 0)));
    assert_eq!(intent.stop_price, Some(Decimal::new(4, 0)));
    assert_eq!(intent.update_policy, UpdatePolicy::RetainShort);
    assert_eq!(intent.sub_strategy, None);
    assert_eq!(intent.before, None);
}

#[test]
fn timestamp_ordering() {
    assert!(Timestamp::new(1, 0).is_before(&Timestamp::new(2, 0)));
    assert!(Timestamp::new(1, 1).is_before(&Timestamp::new(1, 2)));
    assert!(!Timestamp::new(1, 2).is_before(&Timestamp::new(1, 2)));
    assert!(!Timestamp::new(2, 0).is_before(&Timestamp::new(1, 999_999_999)));
}

#[test]
fn trade_intent_defaults_and_overrides() {
    let intent = TradeIntent::new("AAPL", 10);
    assert_eq!(intent.ticker, "AAPL");
    assert_eq!(intent.qty, 10);
    assert_eq!(intent.order_type, OrderType::Market);
    assert_eq!(intent.time_in_force, TimeInForce::Day);
    let id = uuid::Uuid::from_u128(7);
    let intent = intent
        .id(id)
        .order_type(OrderType::StopLimit {
            stop_price: Decimal::new(100, 0),
            limit_price: Decimal::new(101, 0),
        })
        .time_in_force(TimeInForce::ImmediateOrCancel);
    assert_eq!(intent.id, id);
    assert_eq!(intent.ticker, "AAPL");
    assert_eq!(intent.qty, 10);
    assert_eq!(
        intent.order_type,
        OrderType::StopLimit { stop_price: Decimal::new(100, 0), limit_price: Decimal::new(101, 0) }
    );
    assert_eq!(intent.time_in_force, TimeInForce::ImmediateOrCancel);
}

#[test]
fn fresh_trade_intents_get_distinct_ids() {
    assert_ne!(TradeIntent::new("A", 1).id, TradeIntent::new("A", 1).id);
}

#[test]
fn trade_messages_compare_by_content() {
    let intent = TradeIntent::new("AAPL", -5);
    let cancel = TradeMessage::Cancel { id: intent.id };
    assert_eq!(cancel.clone(), TradeMessage::Cancel { id: intent.id });
    let new = TradeMessage::New { intent: intent.clone() };
    assert_eq!(new, TradeMessage::New { intent });
    assert_ne!(new, cancel);
}

#[test]
fn error_messages() {
    assert!(Error::InvalidCombination.message().contains("All"));
    assert!(Error::InvalidBeforeAfter(Timestamp::new(0, 0), Timestamp::new(1, 0)).message().contains("before"));
    assert!(Error::IncompatibleAmountError(dollars(1), shares(1)).message().contains("merged"));
}
