//! Mapping of a completion percentage onto a ten-step colour scale.
//!
//! The scale is indexed 1 (least complete) to 10 (fully complete) and is
//! interpreted against the `rdylgn10` colour scheme that the assembled
//! document fixes; the two must only ever change together.

use vstd::prelude::*;

use crate::model::{GraphError, Node};

verus! {

/// Colour-scale index of a completion percentage. `100` maps to the fixed
/// top index `10`; a `doneness` in `[0, 99]` maps to `ceil((doneness + 1) / 10)`,
/// which over the integers is `(doneness + 10) / 10`.
pub open spec fn colour_index(doneness: int) -> int
    recommends
        0 <= doneness <= 100,
{
    if doneness == 100 {
        10
    } else {
        (doneness + 10) / 10
    }
}

/// Decimal digits of a colour-scale index in `[1, 10]`.
pub open spec fn colour_chars(index: int) -> Seq<char>
    recommends
        1 <= index <= 10,
{
    if index == 1 {
        "1"@
    } else if index == 2 {
        "2"@
    } else if index == 3 {
        "3"@
    } else if index == 4 {
        "4"@
    } else if index == 5 {
        "5"@
    } else if index == 6 {
        "6"@
    } else if index == 7 {
        "7"@
    } else if index == 8 {
        "8"@
    } else if index == 9 {
        "9"@
    } else {
        "10"@
    }
}

/// Every in-range completion percentage gets an index on the ten-step scale,
/// and below `100` that index is exactly the ceiling of `(doneness + 1) / 10`:
/// the unique `index` with `10 * (index - 1) < doneness + 1 <= 10 * index`.
pub proof fn lemma_colour_index_is_ceiling(doneness: int)
    requires
        0 <= doneness <= 100,
    ensures
        1 <= colour_index(doneness) <= 10,
        doneness < 100 ==> 10 * (colour_index(doneness) - 1) < doneness + 1 <= 10 * colour_index(
            doneness,
        ),
{
}

impl Node {
    /// Colour-scale index for this node's completion percentage, as a decimal
    /// string. A `doneness` outside `[0, 100]` is a defect in the data, not a
    /// recoverable condition: no colour is returned for it, only the error.
    pub fn colour(&self) -> (r: Result<String, GraphError>)
        ensures
            match r {
                Ok(s) => crate::model::doneness_in_range(*self) && s@ == colour_chars(
                    colour_index(self.doneness as int),
                ),
                Err(e) => !crate::model::doneness_in_range(*self)
                    && e == GraphError::DonenessOutOfRange,
            },
    {
        if self.doneness == 100 {
            Ok(String::from_str("10"))
        } else if 0 <= self.doneness && self.doneness <= 99 {
            let index: u32 = (self.doneness as u32 + 10) / 10;
            proof {
                lemma_colour_index_is_ceiling(self.doneness as int);
            }
            let digits: &str = if index == 1 {
                "1"
            } else if index == 2 {
                "2"
            } else if index == 3 {
                "3"
            } else if index == 4 {
                "4"
            } else if index == 5 {
                "5"
            } else if index == 6 {
                "6"
            } else if index == 7 {
                "7"
            } else if index == 8 {
                "8"
            } else if index == 9 {
                "9"
            } else {
                "10"
            };
            Ok(String::from_str(digits))
        } else {
            Err(GraphError::DonenessOutOfRange)
        }
    }
}

} // verus!
