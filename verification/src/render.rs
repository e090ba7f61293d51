//! How a duration is shown: in coarse human units from a minute on, as
//! seconds with a fraction below.

use crate::elapsed::Elapsed;
use vstd::prelude::*;

verus! {

/// The text that `humantime` gives a span of `secs` whole seconds, such as
/// `2h 37m` for 9420.
pub uninterp spec fn coarse_text(secs: u64) -> Seq<char>;

/// Calls `humantime::format_duration` on a span of `secs` whole seconds and
/// takes the text that its result displays as. The text depends on the
/// number of seconds alone; the contract gives it its name and claims no
/// more.
#[verifier::external_body]
fn coarse_units(secs: u64) -> (text: String)
    ensures
        text@ == coarse_text(secs),
{
    humantime::format_duration(std::time::Duration::from_secs(secs)).to_string()
}

/// A duration made ready for display.
#[derive(Clone, Debug, PartialEq, Eq)]
pub enum DurationText {
    /// A minute or more: the whole seconds in coarse human units.
    Units(String),
    /// Less than a minute: to be written as seconds with two decimals.
    Seconds(Elapsed),
}

/// Prepares a duration for display. From sixty seconds on, the fraction of
/// a second is dropped and the whole seconds are spelt out in coarse units;
/// below, the duration is handed on to be written as seconds with decimals.
pub fn format_duration_custom(duration: Elapsed) -> (shown: DurationText)
    ensures
        match shown {
            DurationText::Units(text) => {
                &&& duration@ / 1_000_000_000 >= 60
                &&& text@ == coarse_text((duration@ / 1_000_000_000) as u64)
            },
            DurationText::Seconds(same) => {
                &&& duration@ / 1_000_000_000 < 60
                &&& same == duration
            },
        },
{
    let secs: u64 = duration.as_secs();
    if secs >= 60 {
        DurationText::Units(coarse_units(secs))
    } else {
        DurationText::Seconds(duration)
    }
}

} // verus!
