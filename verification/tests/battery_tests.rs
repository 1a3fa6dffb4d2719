use statusline::battery::BatteryReading;
use statusline::battery::BatteryState;
use statusline::battery::BatterySummarizer;
use statusline::battery::round_percent;

fn reading(state: BatteryState, percent_tenths: u32) -> BatteryReading {
    BatteryReading { state, percent_tenths }
}

#[test]
fn two_readings_second_shown_first_and_rounded() {
    let readings = vec![
        reading(BatteryState::Discharging, 503),
        reading(BatteryState::Charging, 807),
    ];
    assert_eq!(BatterySummarizer::summarize(&readings), "Charging 81% 50%");
}

#[test]
fn zero_readings_give_empty_segment() {
    let readings: Vec<BatteryReading> = Vec::new();
    assert_eq!(BatterySummarizer::summarize(&readings), "");
}

#[test]
fn one_reading_gives_empty_segment() {
    let readings = vec![reading(BatteryState::Full, 1000)];
    assert_eq!(BatterySummarizer::summarize(&readings), "");
}

#[test]
fn three_readings_give_empty_segment() {
    let readings = vec![
        reading(BatteryState::Full, 1000),
        reading(BatteryState::Charging, 500),
        reading(BatteryState::Discharging, 250),
    ];
    assert_eq!(BatterySummarizer::summarize(&readings), "");
}

#[test]
fn halves_round_away_from_zero() {
    assert_eq!(round_percent(505), 51);
    assert_eq!(round_percent(504), 50);
    assert_eq!(round_percent(995), 100);
    assert_eq!(round_percent(0), 0);
    assert_eq!(round_percent(1000), 100);
}

#[test]
fn full_range_endpoints_format_exactly() {
    let readings = vec![
        reading(BatteryState::Unknown, 0),
        reading(BatteryState::Full, 1000),
    ];
    assert_eq!(BatterySummarizer::summarize(&readings), "Full 100% 0%");
}
