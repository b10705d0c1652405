use vstd::prelude::*;

use crate::decimal::{checked_add, decimal_sum, Decimal};
use crate::time::Timestamp;
use crate::Error;

verus! {

/// How a new position intent reconciles with an open position for the same
/// strategy and identifier.
#[derive(Clone, Copy, Debug, PartialEq, Eq, Structural)]
pub enum UpdatePolicy {
    /// Keep the existing position untouched.
    Retain,
    /// Keep the existing position only if it is long.
    RetainLong,
    /// Keep the existing position only if it is short.
    RetainShort,
    /// Replace the existing position with the new target.
    Update,
}

/// The size of a position target.
#[derive(Clone, Copy, Debug, PartialEq, Eq, Structural)]
pub enum Amount {
    Dollars(Decimal),
    Shares(Decimal),
    Zero,
}

/// Both operands are non-`Zero` and of one unit.
pub open spec fn same_unit(a: Amount, b: Amount) -> bool {
    (a is Dollars && b is Dollars) || (a is Shares && b is Shares)
}

/// The two amounts' decimals, where they are of one unit.
pub open spec fn unit_values(a: Amount, b: Amount) -> (Decimal, Decimal) {
    match (a, b) {
        (Amount::Dollars(x), Amount::Dollars(y)) => (x, y),
        (Amount::Shares(x), Amount::Shares(y)) => (x, y),
        _ => (Decimal { mantissa: 0, scale: 0 }, Decimal { mantissa: 0, scale: 0 }),
    }
}

/// The sum of two amounts of one unit does not overflow.
pub open spec fn sum_fits(a: Amount, b: Amount) -> bool {
    same_unit(a, b) ==> decimal_sum(unit_values(a, b).0, unit_values(a, b).1) is Some
}

/// What merging `a` with `b` gives.
pub open spec fn merged(a: Amount, b: Amount) -> Result<Amount, Error> {
    match (a, b) {
        (Amount::Dollars(x), Amount::Dollars(y)) => Ok(Amount::Dollars(decimal_sum(x, y).unwrap())),
        (Amount::Shares(x), Amount::Shares(y)) => Ok(Amount::Shares(decimal_sum(x, y).unwrap())),
        (Amount::Zero, y) => Ok(y),
        (x, Amount::Zero) => Ok(x),
        (x, y) => Err(Error::IncompatibleAmountError(x, y)),
    }
}

/// `Zero` is a left and a right identity of merging, whatever the other amount.
pub proof fn lemma_merge_zero_identity(a: Amount)
    ensures
        merged(Amount::Zero, a) == Ok::<Amount, Error>(a),
        merged(a, Amount::Zero) == Ok::<Amount, Error>(a),
{
}

/// Dollars never merge with shares, in either order: the error carries both operands.
pub proof fn lemma_merge_rejects_mixed_units(x: Decimal, y: Decimal)
    ensures
        merged(Amount::Dollars(x), Amount::Shares(y))
            == Err::<Amount, Error>(Error::IncompatibleAmountError(Amount::Dollars(x), Amount::Shares(y))),
        merged(Amount::Shares(y), Amount::Dollars(x))
            == Err::<Amount, Error>(Error::IncompatibleAmountError(Amount::Shares(y), Amount::Dollars(x))),
{
}

/// Two amounts of one unit merge, in either order where the sums fit, into that unit,
/// holding the sum of the same two decimals.
pub proof fn lemma_merge_same_unit_either_order(a: Amount, b: Amount)
    requires
        same_unit(a, b),
        sum_fits(a, b),
        sum_fits(b, a),
    ensures
        merged(a, b) matches Ok(m) && (m is Dollars <==> a is Dollars) && (m is Shares <==> a is Shares),
        merged(b, a) matches Ok(m) && (m is Dollars <==> a is Dollars) && (m is Shares <==> a is Shares),
        merged(a, b) == (if a is Dollars {
            Ok::<Amount, Error>(Amount::Dollars(decimal_sum(unit_values(a, b).0, unit_values(a, b).1)->0))
        } else {
            Ok::<Amount, Error>(Amount::Shares(decimal_sum(unit_values(a, b).0, unit_values(a, b).1)->0))
        }),
        merged(b, a) == (if a is Dollars {
            Ok::<Amount, Error>(Amount::Dollars(decimal_sum(unit_values(a, b).1, unit_values(a, b).0)->0))
        } else {
            Ok::<Amount, Error>(Amount::Shares(decimal_sum(unit_values(a, b).1, unit_values(a, b).0)->0))
        }),
{
}

impl Amount {
    /// Every decimal in the amount is well formed.
    pub open spec fn wf(self) -> bool {
        match self {
            Amount::Dollars(x) => x.wf(),
            Amount::Shares(x) => x.wf(),
            Amount::Zero => true,
        }
    }

    /// Combines two amounts: values of one unit are added, `Zero` is the identity,
    /// and dollars never combine with shares.
    pub fn merge(self, other: Self) -> (r: Result<Self, Error>)
        requires
            self.wf(),
            other.wf(),
            sum_fits(self, other),
        ensures
            r == merged(self, other),
            r matches Ok(a) ==> a.wf(),
    {
        match (self, other) {
            (Amount::Dollars(x), Amount::Dollars(y)) => {
                let s = checked_add(x, y);
                Ok(Amount::Dollars(s.unwrap()))
            },
            (Amount::Shares(x), Amount::Shares(y)) => {
                let s = checked_add(x, y);
                Ok(Amount::Shares(s.unwrap()))
            },
            (Amount::Zero, Amount::Zero) => Ok(Amount::Zero),
            (Amount::Zero, y) => Ok(y),
            (x, Amount::Zero) => Ok(x),
            (x, y) => Err(Error::IncompatibleAmountError(x, y)),
        }
    }

    /// Merges two amounts where their sum fits: `None` where two amounts of one unit
    /// overflow, and otherwise what `merge` gives.
    pub fn checked_merge(self, other: Self) -> (r: Option<Result<Self, Error>>)
        requires
            self.wf(),
            other.wf(),
        ensures
            r is None <==> !sum_fits(self, other),
            r matches Some(m) ==> m == merged(self, other),
    {
        let fits = match (self, other) {
            (Amount::Dollars(x), Amount::Dollars(y)) => checked_add(x, y).is_some(),
            (Amount::Shares(x), Amount::Shares(y)) => checked_add(x, y).is_some(),
            _ => true,
        };
        if fits {
            Some(self.merge(other))
        } else {
            None
        }
    }

    /// Whether the amount is zero; `Zero` is.
    pub fn is_zero(&self) -> (r: bool)
        ensures
            r == match *self {
                Amount::Dollars(x) => x.mantissa == 0,
                Amount::Shares(x) => x.mantissa == 0,
                Amount::Zero => true,
            },
    {
        match self {
            Amount::Dollars(x) => x.is_zero(),
            Amount::Shares(x) => x.is_zero(),
            Amount::Zero => true,
        }
    }

    /// Whether the amount's sign is positive; `Zero` has no sign.
    pub fn is_sign_positive(&self) -> (r: bool)
        ensures
            r == match *self {
                Amount::Dollars(x) => x.mantissa >= 0,
                Amount::Shares(x) => x.mantissa >= 0,
                Amount::Zero => false,
            },
    {
        match self {
            Amount::Dollars(x) => x.is_sign_positive(),
            Amount::Shares(x) => x.is_sign_positive(),
            Amount::Zero => false,
        }
    }

    /// Whether the amount's sign is negative; `Zero` has no sign.
    pub fn is_sign_negative(&self) -> (r: bool)
        ensures
            r == match *self {
                Amount::Dollars(x) => x.mantissa < 0,
                Amount::Shares(x) => x.mantissa < 0,
                Amount::Zero => false,
            },
    {
        match self {
            Amount::Dollars(x) => x.is_sign_negative(),
            Amount::Shares(x) => x.is_sign_negative(),
            Amount::Zero => false,
        }
    }
}

/// What an intent applies to.
#[derive(Clone, Debug, PartialEq, Eq)]
pub enum Identifier {
    /// A single symbol.
    Ticker(String),
    /// Every position held by the strategy.
    All,
}

impl Identifier {
    /// The identifier of the single symbol `s`.
    pub fn ticker(s: &str) -> (r: Identifier)
        ensures
            r matches Identifier::Ticker(t) && t@ == s@,
    {
        Identifier::Ticker(s.to_string())
    }
}

/// A validated request to hold a position.
#[derive(Clone, Debug, PartialEq)]
pub struct PositionIntent {
    pub id: uuid::Uuid,
    /// The strategy requesting the position; dollar limits are shared by all
    /// positions of one strategy.
    pub strategy: String,
    /// A leg of the strategy's positions, tracked separately downstream but still
    /// bound by the strategy's dollar limits.
    pub sub_strategy: Option<String>,
    /// When the intent was built.
    pub timestamp: Timestamp,
    pub identifier: Identifier,
    pub amount: Amount,
    pub update_policy: UpdatePolicy,
    /// The price at which the position was decided on, for later execution analysis.
    pub decision_price: Option<Decimal>,
    pub limit_price: Option<Decimal>,
    pub stop_price: Option<Decimal>,
    pub before: Option<Timestamp>,
    pub after: Option<Timestamp>,
}

/// Collects the fields of a `PositionIntent` and validates them in `build`.
#[derive(Clone, Debug)]
pub struct PositionIntentBuilder {
    pub strategy: String,
    pub sub_strategy: Option<String>,
    pub identifier: Identifier,
    pub amount: Amount,
    pub update_policy: UpdatePolicy,
    pub decision_price: Option<Decimal>,
    pub limit_price: Option<Decimal>,
    pub stop_price: Option<Decimal>,
    pub before: Option<Timestamp>,
    pub after: Option<Timestamp>,
}

/// The error, if any, that building from `b` gives.
pub open spec fn build_error(b: PositionIntentBuilder) -> Option<Error> {
    if b.before is Some && b.after is Some && b.before->0.earlier(b.after->0) {
        Some(Error::InvalidBeforeAfter(b.before->0, b.after->0))
    } else if b.identifier is All && !(b.amount is Zero) {
        Some(Error::InvalidCombination)
    } else {
        None
    }
}

/// `p` carries every field of `b`.
pub open spec fn built_from(p: PositionIntent, b: PositionIntentBuilder) -> bool {
    &&& p.strategy@ == b.strategy@
    &&& p.sub_strategy == b.sub_strategy
    &&& p.identifier == b.identifier
    &&& p.amount == b.amount
    &&& p.update_policy == b.update_policy
    &&& p.decision_price == b.decision_price
    &&& p.limit_price == b.limit_price
    &&& p.stop_price == b.stop_price
    &&& p.before == b.before
    &&& p.after == b.after
}

impl PositionIntentBuilder {
    pub fn sub_strategy(self, sub_strategy: &str) -> (r: Self)
        ensures
            r == (PositionIntentBuilder { sub_strategy: r.sub_strategy, ..self }),
            r.sub_strategy matches Some(s) && s@ == sub_strategy@,
    {
        PositionIntentBuilder { sub_strategy: Some(sub_strategy.to_string()), ..self }
    }

    pub fn decision_price(self, decision_price: Decimal) -> (r: Self)
        ensures
            r == (PositionIntentBuilder { decision_price: Some(decision_price), ..self }),
    {
        PositionIntentBuilder { decision_price: Some(decision_price), ..self }
    }

    pub fn limit_price(self, limit_price: Decimal) -> (r: Self)
        ensures
            r == (PositionIntentBuilder { limit_price: Some(limit_price), ..self }),
    {
        PositionIntentBuilder { limit_price: Some(limit_price), ..self }
    }

    pub fn stop_price(self, stop_price: Decimal) -> (r: Self)
        ensures
            r == (PositionIntentBuilder { stop_price: Some(stop_price), ..self }),
    {
        PositionIntentBuilder { stop_price: Some(stop_price), ..self }
    }

    pub fn before(self, before: Timestamp) -> (r: Self)
        ensures
            r == (PositionIntentBuilder { before: Some(before), ..self }),
    {
        PositionIntentBuilder { before: Some(before), ..self }
    }

    pub fn after(self, after: Timestamp) -> (r: Self)
        ensures
            r == (PositionIntentBuilder { after: Some(after), ..self }),
    {
        PositionIntentBuilder { after: Some(after), ..self }
    }

    pub fn update_policy(self, policy: UpdatePolicy) -> (r: Self)
        ensures
            r == (PositionIntentBuilder { update_policy: policy, ..self }),
    {
        PositionIntentBuilder { update_policy: policy, ..self }
    }

    /// Validates the collected fields and makes the intent with the given id and
    /// creation time: `before` earlier than `after` is rejected first, then
    /// `Identifier::All` with a non-`Zero` amount.
    pub fn build_with(self, id: uuid::Uuid, timestamp: Timestamp) -> (r: Result<PositionIntent, Error>)
        ensures
            r is Err <==> build_error(self) is Some,
            r matches Err(e) ==> build_error(self) == Some(e),
            r matches Ok(p) ==> built_from(p, self) && p.id == id && p.timestamp == timestamp,
    {
        match (&self.before, &self.after) {
            (Some(before), Some(after)) => {
                if before.is_before(after) {
                    return Err(Error::InvalidBeforeAfter(*before, *after));
                }
            },
            _ => {},
        }
        match (&self.identifier, &self.amount) {
            (Identifier::All, Amount::Dollars(_)) => return Err(Error::InvalidCombination),
            (Identifier::All, Amount::Shares(_)) => return Err(Error::InvalidCombination),
            _ => {},
        }
        Ok(PositionIntent {
            id,
            strategy: self.strategy,
            sub_strategy: self.sub_strategy,
            timestamp,
            identifier: self.identifier,
            amount: self.amount,
            update_policy: self.update_policy,
            decision_price: self.decision_price,
            limit_price: self.limit_price,
            stop_price: self.stop_price,
            before: self.before,
            after: self.after,
        })
    }

    /// Validates the collected fields and makes the intent with a fresh random id,
    /// stamped with the current time.
    pub fn build(self) -> (r: Result<PositionIntent, Error>)
        ensures
            r is Err <==> build_error(self) is Some,
            r matches Err(e) ==> build_error(self) == Some(e),
            r matches Ok(p) ==> built_from(p, self) && p.timestamp.wf(),
    {
        let id = uuid::Uuid::new_v4();
        let timestamp = Timestamp::now();
        self.build_with(id, timestamp)
    }
}

impl PositionIntent {
    /// Starts an intent for `strategy` to hold `amount` of `identifier`; the update
    /// policy is `Update` and every optional field is absent.
    pub fn builder(strategy: &str, identifier: Identifier, amount: Amount) -> (r: PositionIntentBuilder)
        ensures
            r.strategy@ == strategy@,
            r.identifier == identifier,
            r.amount == amount,
            r.update_policy == UpdatePolicy::Update,
            r.sub_strategy is None,
            r.decision_price is None,
            r.limit_price is None,
            r.stop_price is None,
            r.before is None,
            r.after is None,
    {
        PositionIntentBuilder {
            strategy: strategy.to_string(),
            sub_strategy: None,
            identifier,
            amount,
            update_policy: UpdatePolicy::Update,
            decision_price: None,
            limit_price: None,
            stop_price: None,
            before: None,
            after: None,
        }
    }
}

} // verus!
