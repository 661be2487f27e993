//! The filter selector's verified part: the locator for each filter value's
//! option in the year control. The values are applied in order, all of them
//! before any row is read.

use crate::text::{decimal_seq, u64_decimal};
use vstd::prelude::*;
use vstd::string::*;

verus! {

/// The XPath locating the option for one filter year in the year control.
pub open spec fn year_option_xpath_seq(year: u64) -> Seq<char> {
    "//select[@class='widget-1']/option[@value='"@ + decimal_seq(year as nat) + "']"@
}

/// Builds the XPath for one filter year's option.
pub fn year_option_xpath(year: u64) -> (r: String)
    ensures
        r@ == year_option_xpath_seq(year),
{
    let mut r = String::from_str("//select[@class='widget-1']/option[@value='");
    let digits = u64_decimal(year);
    r.append(digits.as_str());
    r.append("']");
    proof {
        assert(r@ =~= year_option_xpath_seq(year));
    }
    r
}

} // verus!
