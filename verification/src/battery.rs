//! Summarizing battery readings: exactly two readings yield a combined
//! segment (the second reading shown first), any other count yields an
//! empty segment.

use vstd::prelude::*;
use vstd::string::StringExecFns;
use crate::text::spec_decimal;
use crate::text::u32_to_string;

verus! {

/// Charge state of one battery device.
#[derive(Clone, Copy, PartialEq, Eq, Debug)]
pub enum BatteryState {
    Charging,
    Discharging,
    Empty,
    Full,
    Unknown,
}

/// One battery reading: charge state and state of charge in tenths of a
/// percent, so that rounding to whole percents stays exact integer
/// arithmetic.
#[derive(Clone, Copy, PartialEq, Eq, Debug)]
pub struct BatteryReading {
    pub state: BatteryState,
    pub percent_tenths: u32,
}

impl BatteryReading {
    /// A charge reading lies within 0% and 100%.
    pub open spec fn wf(self) -> bool {
        self.percent_tenths <= 1000
    }
}

/// The display name of a charge state.
pub open spec fn spec_state_label(st: BatteryState) -> Seq<char> {
    match st {
        BatteryState::Charging => "Charging"@,
        BatteryState::Discharging => "Discharging"@,
        BatteryState::Empty => "Empty"@,
        BatteryState::Full => "Full"@,
        BatteryState::Unknown => "Unknown"@,
    }
}

/// Tenths of a percent rounded to the nearest whole percent, halves
/// rounding up (round half away from zero; readings are non-negative).
pub open spec fn spec_round_percent(tenths: int) -> int {
    (tenths + 5) / 10
}

/// The battery segment: exactly two readings give
/// `"<state of second> <second>% <first>%"`, any other count gives the
/// empty segment.
pub open spec fn spec_summarize(rs: Seq<BatteryReading>) -> Seq<char> {
    if rs.len() == 2 {
        spec_state_label(rs[1].state) + " "@ + spec_decimal(
            spec_round_percent(rs[1].percent_tenths as int),
        ) + "% "@ + spec_decimal(spec_round_percent(rs[0].percent_tenths as int)) + "%"@
    } else {
        Seq::empty()
    }
}

fn state_label(st: &BatteryState) -> (r: &'static str)
    ensures
        r@ == spec_state_label(*st),
{
    match st {
        BatteryState::Charging => "Charging",
        BatteryState::Discharging => "Discharging",
        BatteryState::Empty => "Empty",
        BatteryState::Full => "Full",
        BatteryState::Unknown => "Unknown",
    }
}

/// Rounds tenths of a percent to the nearest whole percent.
pub fn round_percent(tenths: u32) -> (r: u32)
    requires
        tenths <= 1000,
    ensures
        r == spec_round_percent(tenths as int),
        r <= 100,
{
    (tenths + 5) / 10
}

/// The summarizer of the battery segment.
pub struct BatterySummarizer;

impl BatterySummarizer {
    /// Combines exactly two readings into one segment, the second
    /// reading (the host's primary battery) shown first; any other
    /// count yields the empty string.
    pub fn summarize(readings: &Vec<BatteryReading>) -> (r: String)
        requires
            forall|i: int| 0 <= i < readings@.len() ==> readings@[i].wf(),
        ensures
            r@ == spec_summarize(readings@),
    {
        if readings.len() == 2 {
            let first = readings[0];
            let second = readings[1];
            let mut r = String::from_str(state_label(&second.state));
            r.append(" ");
            r.append(u32_to_string(round_percent(second.percent_tenths)).as_str());
            r.append("% ");
            r.append(u32_to_string(round_percent(first.percent_tenths)).as_str());
            r.append("%");
            r
        } else {
            let r = String::new();
            proof {
                assert(r@ =~= spec_summarize(readings@));
            }
            r
        }
    }
}

/// Law: on zero, one, or three or more readings the battery segment is
/// empty.
pub proof fn lemma_summarize_other_counts(rs: Seq<BatteryReading>)
    requires
        rs.len() != 2,
    ensures
        spec_summarize(rs) == Seq::<char>::empty(),
{
    assert(spec_summarize(rs) =~= Seq::<char>::empty());
}

} // verus!
