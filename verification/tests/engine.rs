use tiny_audio_player::audio_player::AudioPlayer;
use tiny_audio_player::sound_data::CurrentSoundData;
use tiny_audio_player::track::TrackInfo;

fn track(name: &str, path: &str) -> TrackInfo {
    TrackInfo { name: name.to_string(), path: path.to_string() }
}

fn names(p: &AudioPlayer) -> Vec<String> {
    p.get_tracklist().iter().map(|t| t.name.clone()).collect()
}

fn three_track_player() -> AudioPlayer {
    let mut p = AudioPlayer::new();
    p.add_track(track("A", "a.mp3"));
    p.add_track(track("B", "b.mp3"));
    p.add_track(track("C", "c.mp3"));
    p
}

#[test]
fn new_engine_defaults() {
    let p = AudioPlayer::new();
    assert_eq!(p.get_playback_rate(), 1000);
    assert_eq!(p.get_volume(), 1000);
    assert_eq!(p.get_current_track_index(), None);
    assert!(p.get_current_sound().is_none());
    assert!(p.get_tracklist().is_empty());
    assert_eq!(p.get_current_sound_duration(), 0);
}

#[test]
fn stop_with_no_session_changes_nothing() {
    let mut p = three_track_player();
    p.set_playback_rate(1200);
    p.set_volume(800);
    assert!(p.play_track(1));
    // no stream was attached yet, so there is no session to tear down
    p.stop();
    p.stop();
    assert_eq!(p.get_current_track_index(), Some(1));
    assert_eq!(p.get_playback_rate(), 1200);
    assert_eq!(p.get_volume(), 800);
    assert_eq!(names(&p), vec!["A", "B", "C"]);
    assert!(p.get_current_sound().is_none());
}

#[test]
fn stop_keeps_current_index() {
    let mut p = three_track_player();
    assert!(p.play_track(2));
    p.play(30_000);
    p.stop();
    assert_eq!(p.get_current_track_index(), Some(2));
    assert!(p.get_current_sound().is_none());
}

#[test]
fn move_track_up_wraps_first_to_last() {
    let mut p = three_track_player();
    p.move_track_up(0);
    assert_eq!(names(&p), vec!["C", "B", "A"]);
}

#[test]
fn move_track_up_swaps_with_upper_neighbour() {
    let mut p = three_track_player();
    p.move_track_up(2);
    assert_eq!(names(&p), vec!["A", "C", "B"]);
}

#[test]
fn move_track_down_wraps_last_to_first() {
    let mut p = three_track_player();
    p.move_track_down(2);
    assert_eq!(names(&p), vec!["C", "B", "A"]);
}

#[test]
fn move_track_down_swaps_with_lower_neighbour() {
    let mut p = three_track_player();
    p.move_track_down(0);
    assert_eq!(names(&p), vec!["B", "A", "C"]);
}

#[test]
fn moved_current_track_keeps_being_current() {
    let mut p = three_track_player();
    assert!(p.play_track(0));
    p.move_track_up(0);
    assert_eq!(p.get_current_track_index(), Some(2));
    p.move_track_down(2);
    assert_eq!(p.get_current_track_index(), Some(0));
}

#[test]
fn current_follows_to_vacated_index_when_displaced() {
    let mut p = three_track_player();
    assert!(p.play_track(2));
    // moving index 0 up swaps entries 0 and 2; the current entry lands at 0
    p.move_track_up(0);
    assert_eq!(p.get_current_track_index(), Some(0));
}

#[test]
fn move_on_single_entry_list_is_a_noop() {
    let mut p = AudioPlayer::new();
    p.add_track(track("A", "a.mp3"));
    p.move_track_up(0);
    p.move_track_down(0);
    assert_eq!(names(&p), vec!["A"]);
}

#[test]
fn move_out_of_range_is_a_noop() {
    let mut p = three_track_player();
    p.move_track_up(3);
    p.move_track_down(7);
    assert_eq!(names(&p), vec!["A", "B", "C"]);
}

#[test]
fn remove_below_current_decrements_index() {
    let mut p = three_track_player();
    assert!(p.play_track(2));
    p.play(30_000);
    p.remove_track(0);
    assert_eq!(p.get_current_track_index(), Some(1));
    assert_eq!(names(&p), vec!["B", "C"]);
    // the session survives: the removed entry was not the playing one
    assert!(p.get_current_sound().is_some());
}

#[test]
fn remove_current_stops_and_clears_index() {
    let mut p = three_track_player();
    assert!(p.play_track(1));
    p.play(30_000);
    p.remove_track(1);
    assert_eq!(p.get_current_track_index(), None);
    assert!(p.get_current_sound().is_none());
    assert_eq!(names(&p), vec!["A", "C"]);
}

#[test]
fn remove_above_current_leaves_index_alone() {
    let mut p = three_track_player();
    assert!(p.play_track(0));
    p.play(30_000);
    p.remove_track(2);
    assert_eq!(p.get_current_track_index(), Some(0));
    assert_eq!(names(&p), vec!["A", "B"]);
    assert!(p.get_current_sound().is_some());
}

#[test]
fn remove_first_when_it_is_current() {
    let mut p = three_track_player();
    assert!(p.play_track(0));
    p.play(30_000);
    p.remove_track(0);
    assert_eq!(p.get_current_track_index(), None);
    assert!(p.get_current_sound().is_none());
    assert_eq!(names(&p), vec!["B", "C"]);
}

#[test]
fn remove_out_of_range_is_a_noop() {
    let mut p = three_track_player();
    p.remove_track(3);
    assert_eq!(names(&p), vec!["A", "B", "C"]);
}

#[test]
fn play_track_out_of_range_is_a_noop() {
    let mut p = three_track_player();
    assert!(!p.play_track(3));
    assert_eq!(p.get_current_track_index(), None);
    let mut empty = AudioPlayer::new();
    assert!(!empty.play_track(0));
    assert_eq!(empty.get_current_track_index(), None);
}

#[test]
fn play_attaches_a_playing_session() {
    let mut p = three_track_player();
    assert!(p.play_track(1));
    let rate = p.play(123_456);
    assert_eq!(rate, 1000);
    assert_eq!(
        p.get_current_sound(),
        Some(CurrentSoundData { duration: 123_456, paused: false, rate: 1000 })
    );
    assert_eq!(p.get_current_sound_duration(), 123_456);
}

#[test]
fn rate_persists_across_track_change() {
    let mut p = three_track_player();
    assert!(p.play_track(0));
    p.play(30_000);
    p.set_playback_rate(1300);
    assert!(p.play_track(1));
    let rate = p.play(40_000);
    // the new session carries the persisted rate without a second set call
    assert_eq!(rate, 1300);
    let session = p.get_current_sound().unwrap();
    assert_eq!(session.rate, 1300);
    assert_eq!(p.get_playback_rate(), 1300);
}

#[test]
fn set_playback_rate_updates_active_session() {
    let mut p = three_track_player();
    assert!(p.play_track(0));
    p.play(30_000);
    p.set_playback_rate(700);
    assert_eq!(p.get_current_sound().unwrap().rate, 700);
    assert_eq!(p.get_playback_rate(), 700);
}

#[test]
fn volume_persists_on_the_engine() {
    let mut p = AudioPlayer::new();
    p.set_volume(250);
    assert_eq!(p.get_volume(), 250);
}

#[test]
fn pause_resume_toggles_and_reports() {
    let mut p = three_track_player();
    assert_eq!(p.pause_resume(), None);
    assert!(p.play_track(0));
    p.play(30_000);
    assert_eq!(p.pause_resume(), Some(true));
    assert!(p.get_current_sound().unwrap().paused);
    assert_eq!(p.pause_resume(), Some(false));
    assert!(!p.get_current_sound().unwrap().paused);
}

#[test]
fn seek_is_only_asked_for_with_a_session() {
    let mut p = three_track_player();
    assert!(!p.set_current_sound_pos(1000));
    assert!(p.play_track(0));
    p.play(30_000);
    assert!(p.set_current_sound_pos(1000));
}

#[test]
fn clear_tracklist_resets_everything_but_the_knobs() {
    let mut p = three_track_player();
    p.set_playback_rate(900);
    p.set_volume(450);
    assert!(p.play_track(1));
    p.play(30_000);
    p.clear_tracklist();
    assert!(p.get_tracklist().is_empty());
    assert_eq!(p.get_current_track_index(), None);
    assert!(p.get_current_sound().is_none());
    assert_eq!(p.get_playback_rate(), 900);
    assert_eq!(p.get_volume(), 450);
}

#[test]
fn advance_moves_to_next_track() {
    let mut p = three_track_player();
    assert!(p.play_track(0));
    p.play(30_000);
    let next = p.advance_if_finished(30_000);
    assert_eq!(next, Some(1));
    assert_eq!(p.get_current_track_index(), Some(1));
    // the old session is torn down; the caller opens the next stream
    assert!(p.get_current_sound().is_none());
}

#[test]
fn advance_wraps_from_last_to_first() {
    let mut p = three_track_player();
    assert!(p.play_track(2));
    p.play(30_000);
    assert_eq!(p.advance_if_finished(30_000), Some(0));
    assert_eq!(p.get_current_track_index(), Some(0));
}

#[test]
fn advance_honours_the_epsilon() {
    let mut p = three_track_player();
    assert!(p.play_track(0));
    p.play(30_000);
    // 10 ms short of the end already counts as finished
    assert_eq!(p.advance_if_finished(29_990), Some(1));
    p.play(30_000);
    // 11 ms short does not
    assert_eq!(p.advance_if_finished(29_989), None);
    assert_eq!(p.get_current_track_index(), Some(1));
    assert!(p.get_current_sound().is_some());
}

#[test]
fn advance_without_session_or_current_does_nothing() {
    let mut p = three_track_player();
    assert_eq!(p.advance_if_finished(0), None);
    assert!(p.play_track(0));
    // torn down, not yet reattached: no session, so no advance
    assert_eq!(p.advance_if_finished(1_000_000), None);
    assert_eq!(p.get_current_track_index(), Some(0));
}

#[test]
fn three_tracks_advance_and_remove_scenario() {
    let mut p = three_track_player();
    assert_eq!(p.get_current_track_index(), None);
    assert!(p.play_track(2));
    assert_eq!(p.get_current_track_index(), Some(2));
    p.play(90_000);
    // the monitor polls right at the end of the stream
    assert_eq!(p.advance_if_finished(90_000), Some(0));
    assert_eq!(p.get_current_track_index(), Some(0));
    p.play(80_000);
    assert!(p.get_current_sound().is_some());
    // removing the entry that is current stops playback and clears the index
    p.remove_track(0);
    assert_eq!(p.get_current_track_index(), None);
    assert!(p.get_current_sound().is_none());
    assert_eq!(names(&p), vec!["B", "C"]);
}
