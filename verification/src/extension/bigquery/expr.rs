//! Expression forms of the BigQuery dialect that are no function calls.

use vstd::prelude::*;
use vstd::string::*;
use crate::expr::{ExprView, SimpleExpr};
use crate::extension::bigquery::DateTimePart;
use crate::text::{signed_decimal, write_signed_decimal};

verus! {

/// The text of an interval of `quantity` units: `INTERVAL 3 DAY`.
pub open spec fn interval_text(quantity: int, unit: DateTimePart) -> Seq<char> {
    "INTERVAL "@ + signed_decimal(quantity) + " "@ + unit.token()
}

/// Expression forms of the BigQuery dialect.
pub trait BqExpr {
    /// An interval of `quantity` units. It is no function call, so it is
    /// built as text of the dialect, which is rendered as it is.
    fn interval(quantity: i64, unit: DateTimePart) -> (expr: SimpleExpr)
        ensures
            expr@ == ExprView::Custom(interval_text(quantity as int, unit)),
    {
        let mut text = String::from_str("INTERVAL ");
        write_signed_decimal(quantity, &mut text);
        text.append(" ");
        text.append(unit.as_str());
        SimpleExpr::Custom(text)
    }
}

impl BqExpr for SimpleExpr {
}

} // verus!
