use statusline::battery::BatteryReading;
use statusline::battery::BatteryState;
use statusline::cycle::CycleInput;
use statusline::cycle::LocalTime;
use statusline::cycle::run_cycle;
use statusline::player::PlaybackStatus;
use statusline::player::PlayerSnapshot;
use statusline::volume::MixerFormat;
use statusline::volume::VolumeError;

fn monday_morning() -> LocalTime {
    LocalTime { year: 2024, month: 1, day: 1, hour: 10, minute: 0 }
}

fn sample_input() -> CycleInput {
    CycleInput {
        player: Some(PlayerSnapshot {
            status: PlaybackStatus::Paused,
            artists: Some(vec![String::from("Nina Simone")]),
            title: Some(String::from("Sinnerman")),
        }),
        mixer_output: String::from("Sink #0\n        Volume: 65%\n"),
        mixer_format: MixerFormat::PercentSuffix,
        batteries: vec![
            BatteryReading { state: BatteryState::Discharging, percent_tenths: 503 },
            BatteryReading { state: BatteryState::Charging, percent_tenths: 807 },
        ],
        time: monday_morning(),
    }
}

#[test]
fn full_line_in_fixed_order() {
    let line = run_cycle(&sample_input()).unwrap();
    assert_eq!(
        line,
        "(Paused) Nina Simone — Sinnerman • ♪ 65% • Charging 81% 50% • lun. 01 janv. 10:00 "
    );
}

#[test]
fn two_cycles_on_identical_input_agree() {
    let first = run_cycle(&sample_input());
    let second = run_cycle(&sample_input());
    assert_eq!(first, second);
}

#[test]
fn empty_segments_leave_no_stray_separator() {
    let input = CycleInput {
        player: None,
        mixer_output: String::from("        Volume: 65%\n"),
        mixer_format: MixerFormat::PercentSuffix,
        batteries: Vec::new(),
        time: monday_morning(),
    };
    let line = run_cycle(&input).unwrap();
    assert_eq!(line, "No players found • ♪ 65% • lun. 01 janv. 10:00 ");
}

#[test]
fn unparseable_mixer_output_fails_the_cycle() {
    let input = CycleInput {
        player: None,
        mixer_output: String::from("no such tool\n"),
        mixer_format: MixerFormat::PercentSuffix,
        batteries: Vec::new(),
        time: monday_morning(),
    };
    assert_eq!(run_cycle(&input), Err(VolumeError::NoVolumeToken));
}

#[test]
fn clock_renders_french_names() {
    // 14 July 2023 was a Friday; the French locale abbreviates it
    // "ven." and the month "juil.", with an empty day-half marker.
    let input = CycleInput {
        player: None,
        mixer_output: String::from("Volume: 7%\n"),
        mixer_format: MixerFormat::PercentSuffix,
        batteries: Vec::new(),
        time: LocalTime { year: 2023, month: 7, day: 14, hour: 23, minute: 59 },
    };
    let line = run_cycle(&input).unwrap();
    assert_eq!(line, "No players found • ♪ 7% • ven. 14 juil. 23:59 ");
}
