//! The pagination controller's decision: whether the next-page control, read
//! from its class attribute, allows another page.

use crate::text::{seq_contains_seq, str_contains_str};
use vstd::prelude::*;

verus! {

/// The two states of the pagination check; `Exhausted` is terminal.
#[derive(Clone, Copy, Debug, PartialEq, Eq, Structural)]
pub enum PageStep {
    HasNext,
    Exhausted,
}

/// The substring that marks the next-page control as disabled.
pub open spec fn disabled_marker() -> Seq<char> {
    "disabled"@
}

/// The next-page control carries the disabled indicator.
pub open spec fn pagination_exhausted(class_attr: Seq<char>) -> bool {
    seq_contains_seq(class_attr, disabled_marker())
}

/// Decides from the next-page control's class attribute whether another page
/// exists: `Exhausted` exactly when the class carries the disabled indicator.
pub fn check_pagination(class_attr: &str) -> (r: PageStep)
    ensures
        r == (if pagination_exhausted(class_attr@) {
            PageStep::Exhausted
        } else {
            PageStep::HasNext
        }),
{
    if str_contains_str(class_attr, "disabled") {
        PageStep::Exhausted
    } else {
        PageStep::HasNext
    }
}

/// The class locating the next-page control.
pub fn next_control_class() -> (r: &'static str)
    ensures
        r@ == "paginate_button.next"@,
{
    "paginate_button.next"
}

/// The script-level click that advances the table to its next page; the
/// visible control may not be directly actionable.
pub open spec fn advance_script_seq() -> Seq<char> {
    "document.getElementById(\"tablepress-25058_next\").click()"@
}

pub fn advance_script() -> (r: &'static str)
    ensures
        r@ == advance_script_seq(),
{
    "document.getElementById(\"tablepress-25058_next\").click()"
}

/// The fixed settle duration, in seconds, waited after a pagination action so
/// that asynchronously refreshed content can finish loading.
pub fn settle_delay_secs() -> (r: u64)
    ensures
        r == 2,
{
    2
}

} // verus!
