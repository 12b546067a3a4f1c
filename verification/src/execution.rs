//! Exchange order states.
use vstd::prelude::*;

verus! {

/// Status of an exchange order.
#[derive(Clone, Copy, Debug, PartialEq, Eq, Hash, Structural)]
pub enum OrderStatus {
    Pending,
    Open,
    Filled,
    PartiallyFilled,
    Cancelled,
    Rejected,
}

impl OrderStatus {
    /// The display label of the status.
    pub open spec fn label_chars(self) -> Seq<char> {
        match self {
            OrderStatus::Pending => "PENDING"@,
            OrderStatus::Open => "OPEN"@,
            OrderStatus::Filled => "FILLED"@,
            OrderStatus::PartiallyFilled => "PARTIAL"@,
            OrderStatus::Cancelled => "CANCELLED"@,
            OrderStatus::Rejected => "REJECTED"@,
        }
    }

    /// The display label of the status (`PENDING`, `OPEN`, ...).
    pub fn as_str(&self) -> (s: &'static str)
        ensures
            s@ == self.label_chars(),
    {
        match self {
            OrderStatus::Pending => "PENDING",
            OrderStatus::Open => "OPEN",
            OrderStatus::Filled => "FILLED",
            OrderStatus::PartiallyFilled => "PARTIAL",
            OrderStatus::Cancelled => "CANCELLED",
            OrderStatus::Rejected => "REJECTED",
        }
    }
}

} // verus!
