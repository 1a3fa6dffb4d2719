use statusline::player::PlaybackStatus;
use statusline::player::PlayerSnapshot;
use statusline::player::PlayerStatusResolver;

fn snapshot(status: PlaybackStatus, artists: Option<Vec<&str>>, title: Option<&str>) -> PlayerSnapshot {
    PlayerSnapshot {
        status,
        artists: artists.map(|a| a.into_iter().map(String::from).collect()),
        title: title.map(String::from),
    }
}

#[test]
fn no_player_gives_fallback() {
    assert_eq!(PlayerStatusResolver::resolve(&None), "No players found");
}

#[test]
fn nothing_known_gives_something_playing() {
    let p = snapshot(PlaybackStatus::Playing, None, None);
    assert_eq!(PlayerStatusResolver::resolve(&Some(p)), "Something is playing...");
}

#[test]
fn empty_fields_give_something_playing() {
    let p = snapshot(PlaybackStatus::Unknown, Some(vec![]), Some(""));
    assert_eq!(PlayerStatusResolver::resolve(&Some(p)), "Something is playing...");
    let q = snapshot(PlaybackStatus::Playing, Some(vec![""]), Some(""));
    assert_eq!(PlayerStatusResolver::resolve(&Some(q)), "Something is playing...");
}

#[test]
fn artist_and_title_around_em_dash() {
    let p = snapshot(PlaybackStatus::Playing, Some(vec!["Nina Simone"]), Some("Sinnerman"));
    assert_eq!(PlayerStatusResolver::resolve(&Some(p)), "Nina Simone — Sinnerman");
}

#[test]
fn first_artist_of_the_list_is_shown() {
    let p = snapshot(PlaybackStatus::Playing, Some(vec!["First", "Second"]), Some("Song"));
    assert_eq!(PlayerStatusResolver::resolve(&Some(p)), "First — Song");
}

#[test]
fn artist_alone_keeps_the_dash() {
    let p = snapshot(PlaybackStatus::Playing, Some(vec!["Solo"]), None);
    assert_eq!(PlayerStatusResolver::resolve(&Some(p)), "Solo — ");
}

#[test]
fn title_alone_keeps_the_dash() {
    let p = snapshot(PlaybackStatus::Playing, None, Some("Untitled"));
    assert_eq!(PlayerStatusResolver::resolve(&Some(p)), " — Untitled");
}

#[test]
fn paused_is_prefixed() {
    let p = snapshot(PlaybackStatus::Paused, Some(vec!["A"]), Some("T"));
    assert_eq!(PlayerStatusResolver::resolve(&Some(p)), "(Paused) A — T");
}

#[test]
fn stopped_is_prefixed() {
    let p = snapshot(PlaybackStatus::Stopped, None, None);
    assert_eq!(PlayerStatusResolver::resolve(&Some(p)), "(Stopped) Something is playing...");
}

#[test]
fn playing_and_unknown_are_unprefixed() {
    let p = snapshot(PlaybackStatus::Playing, Some(vec!["A"]), Some("T"));
    assert_eq!(PlayerStatusResolver::resolve(&Some(p)), "A — T");
    let q = snapshot(PlaybackStatus::Unknown, Some(vec!["A"]), Some("T"));
    assert_eq!(PlayerStatusResolver::resolve(&Some(q)), "A — T");
}
