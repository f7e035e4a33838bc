//! Shared value types used across request parameters and response
//! resources.

use vstd::prelude::*;
use vstd::string::*;
use crate::digits::{dec_u64, u64_to_dec};

verus! {

/// A point in time, in whole seconds since the Unix epoch.
pub type Timestamp = i64;

/// A set of free-form key/value annotations attached to a resource.
pub type Metadata = Vec<(String, String)>;

/// One page of a paginated collection, as the remote service returns it.
#[derive(Debug)]
pub struct List<T> {
    pub data: Vec<T>,
    pub has_more: bool,
    pub total_count: Option<u64>,
    pub url: String,
}

/// A non-negative percentage with two decimal places, held as a whole
/// number of hundredths (`290` stands for `2.90`).
#[derive(Clone, Copy, Debug, PartialEq, Eq, Structural)]
pub struct Percent {
    pub hundredths: u64,
}

/// The decimal rendering of a percentage: the whole part, a point, and
/// exactly two fractional digits.
pub open spec fn percent_chars(p: Percent) -> Seq<char> {
    let whole = p.hundredths as nat / 100;
    let frac = p.hundredths as nat % 100;
    if frac < 10 {
        dec_u64(whole) + "."@ + "0"@ + dec_u64(frac)
    } else {
        dec_u64(whole) + "."@ + dec_u64(frac)
    }
}

impl Percent {
    /// Renders the percentage, e.g. `2.90` or `10.00`.
    pub fn render(&self) -> (s: String)
        ensures
            s@ == percent_chars(*self),
    {
        let whole = self.hundredths / 100;
        let frac = self.hundredths % 100;
        let mut s = u64_to_dec(whole);
        s.append(".");
        if frac < 10 {
            s.append("0");
        }
        let f = u64_to_dec(frac);
        s.append(f.as_str());
        proof {
            assert(s@ =~= percent_chars(*self));
        }
        s
    }
}

/// The plan a subscription bills against.
#[derive(Debug)]
pub struct Plan {
    pub id: String,
    pub amount: u64,
    pub currency: String,
    pub interval: String,
    pub name: Option<String>,
}

/// A discount applied to a subscription through a coupon.
#[derive(Debug)]
pub struct Discount {
    pub coupon: String,
    pub start: Timestamp,
    pub end: Option<Timestamp>,
}

} // verus!
