use statusline::volume::MixerFormat;
use statusline::volume::TextTableParser;
use statusline::volume::VolumeError;

#[test]
fn bracketed_token_on_last_line() {
    let raw = "Simple mixer control 'Master',0\n  Front Left: 50% [42%] [-6.00dB] [on]\n";
    let got = TextTableParser::extract_volume(raw, MixerFormat::Bracketed);
    assert_eq!(got, Ok(String::from("42%")));
}

#[test]
fn bracketed_skips_tokens_without_percent() {
    let raw = "  Mono: Playback 255 [-6.00dB] [on] [100%]";
    let got = TextTableParser::extract_volume(raw, MixerFormat::Bracketed);
    assert_eq!(got, Ok(String::from("100%")));
}

#[test]
fn percent_token_on_volume_line() {
    let raw = "Sink #0\n        Volume: 65%\n        Mute: no\n";
    let got = TextTableParser::extract_volume(raw, MixerFormat::PercentSuffix);
    assert_eq!(got, Ok(String::from("65%")));
}

#[test]
fn percent_token_in_sink_listing() {
    let raw = "Sink #0\n\tState: RUNNING\n\tVolume: front-left: 42412 /  65% / -11.25 dB,   front-right: 42412 /  65% / -11.25 dB\n\tBase Volume: 65536 / 100% / 0.00 dB\n";
    let got = TextTableParser::extract_volume(raw, MixerFormat::PercentSuffix);
    assert_eq!(got, Ok(String::from("65%")));
}

#[test]
fn first_volume_line_wins() {
    let raw = "Volume: 30%\nVolume: 90%\n";
    let got = TextTableParser::extract_volume(raw, MixerFormat::PercentSuffix);
    assert_eq!(got, Ok(String::from("30%")));
}

#[test]
fn empty_output_is_an_error() {
    assert_eq!(
        TextTableParser::extract_volume("", MixerFormat::PercentSuffix),
        Err(VolumeError::NoVolumeToken)
    );
    assert_eq!(
        TextTableParser::extract_volume("", MixerFormat::Bracketed),
        Err(VolumeError::NoVolumeToken)
    );
}

#[test]
fn missing_volume_line_is_an_error() {
    let raw = "Sink #0\n        Mute: no\n        Balance 0.00\n";
    assert_eq!(
        TextTableParser::extract_volume(raw, MixerFormat::PercentSuffix),
        Err(VolumeError::NoVolumeToken)
    );
}

#[test]
fn volume_line_without_percent_token_is_an_error() {
    let raw = "        Volume: muted\n";
    assert_eq!(
        TextTableParser::extract_volume(raw, MixerFormat::PercentSuffix),
        Err(VolumeError::NoVolumeToken)
    );
}

#[test]
fn last_line_without_bracketed_percent_is_an_error() {
    let raw = "  Front Left: Playback 255 [100%] [on]\n  Front Right: muted\n";
    assert_eq!(
        TextTableParser::extract_volume(raw, MixerFormat::Bracketed),
        Err(VolumeError::NoVolumeToken)
    );
}
