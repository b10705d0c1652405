use vstd::prelude::*;

use crate::decimal::Decimal;

verus! {

/// The shape of an order.
#[derive(Clone, Copy, Debug, PartialEq, Eq, Structural)]
pub enum OrderType {
    Market,
    Limit { limit_price: Decimal },
    Stop { stop_price: Decimal },
    StopLimit { stop_price: Decimal, limit_price: Decimal },
}

/// How long an order stays eligible for execution.
#[derive(Clone, Copy, Debug, PartialEq, Eq, Structural)]
pub enum TimeInForce {
    GoodTilCanceled,
    Day,
    ImmediateOrCancel,
    FillOrKill,
    Open,
    Close,
}

/// A concrete order request; the sign of `qty` tells a buy from a sell.
#[derive(Clone, Debug, PartialEq)]
pub struct TradeIntent {
    pub id: uuid::Uuid,
    pub ticker: String,
    pub qty: isize,
    pub order_type: OrderType,
    pub time_in_force: TimeInForce,
}

impl TradeIntent {
    /// A market order good for the day, with a fresh random id.
    pub fn new(ticker: &str, qty: isize) -> (r: Self)
        ensures
            r.ticker@ == ticker@,
            r.qty == qty,
            r.order_type == OrderType::Market,
            r.time_in_force == TimeInForce::Day,
    {
        TradeIntent {
            id: uuid::Uuid::new_v4(),
            ticker: ticker.to_string(),
            qty,
            order_type: OrderType::Market,
            time_in_force: TimeInForce::Day,
        }
    }

    pub fn id(self, id: uuid::Uuid) -> (r: Self)
        ensures
            r == (TradeIntent { id, ..self }),
    {
        TradeIntent { id, ..self }
    }

    pub fn order_type(self, order_type: OrderType) -> (r: Self)
        ensures
            r == (TradeIntent { order_type, ..self }),
    {
        TradeIntent { order_type, ..self }
    }

    pub fn time_in_force(self, time_in_force: TimeInForce) -> (r: Self)
        ensures
            r == (TradeIntent { time_in_force, ..self }),
    {
        TradeIntent { time_in_force, ..self }
    }
}

/// The envelope exchanged between order management and execution.
#[derive(Clone, Debug, PartialEq)]
pub enum TradeMessage {
    /// Submit an intent.
    New { intent: TradeIntent },
    /// Cancel a previously submitted intent by its id.
    Cancel { id: uuid::Uuid },
}

} // verus!
