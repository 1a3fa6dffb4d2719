//! One poll cycle: from the values gathered from the collaborators —
//! player snapshot, raw mixer output, battery readings, wall-clock
//! time — to the composed status line. The cycle is a pure function of
//! its input; the loop driver around it only gathers, calls and prints.

use vstd::prelude::*;
use vstd::string::StringExecFns;
use crate::battery::BatteryReading;
use crate::battery::BatterySummarizer;
use crate::battery::spec_summarize;
use crate::compose::make_status;
use crate::compose::spec_compose;
use crate::player::PlayerSnapshot;
use crate::player::PlayerStatusResolver;
use crate::player::spec_resolve;
use crate::volume::MixerFormat;
use crate::volume::TextTableParser;
use crate::volume::VolumeError;
use crate::volume::spec_extract_volume;

verus! {

/// A year divisible by four is a leap year, except century years not
/// divisible by four hundred.
pub open spec fn spec_is_leap_year(y: int) -> bool {
    (y % 4 == 0 && y % 100 != 0) || y % 400 == 0
}

/// Days in a month of the proleptic Gregorian calendar.
pub open spec fn spec_days_in_month(y: int, m: int) -> int {
    if m == 2 {
        if spec_is_leap_year(y) {
            29
        } else {
            28
        }
    } else if m == 4 || m == 6 || m == 9 || m == 11 {
        30
    } else {
        31
    }
}

/// A local wall-clock moment, as plain calendar fields.
#[derive(Clone, Copy, PartialEq, Eq, Debug)]
pub struct LocalTime {
    pub year: i32,
    pub month: u32,
    pub day: u32,
    pub hour: u32,
    pub minute: u32,
}

impl LocalTime {
    /// A calendar-valid moment within the common era.
    pub open spec fn wf(self) -> bool {
        &&& 1 <= self.year <= 9999
        &&& 1 <= self.month <= 12
        &&& 1 <= self.day <= spec_days_in_month(self.year as int, self.month as int)
        &&& self.hour < 24
        &&& self.minute < 60
    }
}

/// The French-locale rendering of a moment under the fixed pattern
/// `"%a %d %b %H:%M %p"` (abbreviated weekday, day, abbreviated month,
/// 24-hour time, day-half marker): a fixed function of the calendar
/// fields alone.
pub uninterp spec fn fr_clock_label(year: int, month: int, day: int, hour: int, minute: int) -> Seq<
    char,
>;

/// Relies on chrono: `NaiveDate::from_ymd_opt` and
/// `NaiveTime::from_hms_opt` accept every calendar-valid moment, and
/// `DelayedFormat` under `StrftimeItems::new_with_locale` renders it
/// with the French locale's day and month names, a fixed function of
/// the calendar fields alone.
#[verifier::external_body]
fn format_time_fr(t: &LocalTime) -> (r: String)
    requires
        t.wf(),
    ensures
        r@ == fr_clock_label(
            t.year as int,
            t.month as int,
            t.day as int,
            t.hour as int,
            t.minute as int,
        ),
{
    let date = chrono::NaiveDate::from_ymd_opt(t.year, t.month, t.day).unwrap();
    let time = chrono::NaiveTime::from_hms_opt(t.hour, t.minute, 0).unwrap();
    let items = chrono::format::StrftimeItems::new_with_locale(
        "%a %d %b %H:%M %p",
        chrono::Locale::fr_FR,
    );
    chrono::format::DelayedFormat::new_with_locale(
        Some(date),
        Some(time),
        items,
        chrono::Locale::fr_FR,
    ).to_string()
}

/// Everything one poll gathered from the collaborators.
pub struct CycleInput {
    pub player: Option<PlayerSnapshot>,
    pub mixer_output: String,
    pub mixer_format: MixerFormat,
    pub batteries: Vec<BatteryReading>,
    pub time: LocalTime,
}

impl CycleInput {
    /// The readings lie within range and the moment is calendar-valid.
    pub open spec fn wf(self) -> bool {
        &&& self.time.wf()
        &&& forall|i: int| 0 <= i < self.batteries@.len() ==> self.batteries@[i].wf()
    }
}

/// The four segments of the status line, in their fixed order: player,
/// volume (note-prefixed), battery, time.
pub open spec fn spec_segments(i: CycleInput, vol: Seq<char>) -> Seq<Seq<char>> {
    seq![
        spec_resolve(i.player),
        "♪ "@ + vol,
        spec_summarize(i.batteries@),
        fr_clock_label(
            i.time.year as int,
            i.time.month as int,
            i.time.day as int,
            i.time.hour as int,
            i.time.minute as int,
        ),
    ]
}

/// What one poll cycle owes: a composed line exactly when the mixer
/// output parses, the parse error otherwise.
pub open spec fn cycle_post(i: CycleInput, r: Result<String, VolumeError>) -> bool {
    match spec_extract_volume(i.mixer_output@, i.mixer_format) {
        Option::Some(v) => r matches Ok(line) && line@ == spec_compose(spec_segments(i, v)),
        Option::None => r matches Err(e) && e is NoVolumeToken,
    }
}

/// One poll cycle: resolves the player, parses the volume, summarizes
/// the batteries, renders the clock, and composes the line. The only
/// failure is unparseable mixer output; it is propagated, never papered
/// over with a guessed value.
pub fn run_cycle(input: &CycleInput) -> (r: Result<String, VolumeError>)
    requires
        input.wf(),
    ensures
        cycle_post(*input, r),
{
    let resolved = PlayerStatusResolver::resolve(&input.player);
    let vol = match TextTableParser::extract_volume(input.mixer_output.as_str(),
        input.mixer_format) {
        Ok(v) => v,
        Err(e) => {
            return Err(e);
        },
    };
    let mut vol_seg = String::from_str("♪ ");
    vol_seg.append(vol.as_str());
    let bat = BatterySummarizer::summarize(&input.batteries);
    let clock = format_time_fr(&input.time);
    let mut segs: Vec<String> = Vec::new();
    segs.push(resolved);
    segs.push(vol_seg);
    segs.push(bat);
    segs.push(clock);
    proof {
        let v = spec_extract_volume(input.mixer_output@, input.mixer_format)->0;
        assert(segs.deep_view() =~= spec_segments(*input, v));
    }
    Ok(make_status(&segs))
}

/// Law: one poll cycle is a pure function of the gathered collaborator
/// data — two results of the cycle on identical input are identical,
/// success and text alike.
pub proof fn lemma_cycle_idempotent(
    i: CycleInput,
    r1: Result<String, VolumeError>,
    r2: Result<String, VolumeError>,
)
    requires
        cycle_post(i, r1),
        cycle_post(i, r2),
    ensures
        r1 is Ok <==> r2 is Ok,
        r1 matches Ok(a) ==> r2 matches Ok(b) && a@ == b@,
{
}

} // verus!
