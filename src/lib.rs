use vstd::prelude::*;

pub mod decimal;
pub mod ids;
pub mod position_intents;
pub mod time;
pub mod trade_intents;

pub use decimal::Decimal;
pub use position_intents::{Amount, Identifier, PositionIntent, PositionIntentBuilder, UpdatePolicy};
pub use time::Timestamp;
pub use trade_intents::{OrderType, TimeInForce, TradeIntent, TradeMessage};

verus! {

/// The ways in which building or combining intents can fail.
#[derive(Clone, Debug, PartialEq, Eq, Structural)]
pub enum Error {
    /// Two non-`Zero` amounts of different units were merged; both operands are kept.
    IncompatibleAmountError(Amount, Amount),
    /// A position intent had a `before` bound earlier than its `after` bound.
    InvalidBeforeAfter(Timestamp, Timestamp),
    /// `Identifier::All` was paired with a `Dollars` or `Shares` amount.
    InvalidCombination,
}

impl Error {
    /// A human-readable description of the error.
    pub fn message(&self) -> (r: String) {
        match self {
            Error::IncompatibleAmountError(_, _) => {
                "Non-`Zero` amounts of different units cannot be merged".to_string()
            },
            Error::InvalidBeforeAfter(_, _) => {
                "Cannot create a position intent with `before` < `after`".to_string()
            },
            Error::InvalidCombination => {
                "Identifier `All` can only be used with the `Zero` amount".to_string()
            },
        }
    }
}

} // verus!
