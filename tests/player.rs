use music_player::{Command, LoadOutcome, Message, MusicPlayer, Status, INITIAL_VOLUME, MAX_VOLUME};

fn loaded_player(path: &str) -> MusicPlayer {
    let mut p = MusicPlayer::new();
    assert_eq!(p.update(Message::FileSelected(path.to_string())), Command::LoadFile(path.to_string()));
    assert_eq!(p.load_finished(LoadOutcome::Loaded), Command::SetSinkVolume(INITIAL_VOLUME));
    p
}

#[test]
fn new_player_starts_empty_at_half_volume() {
    let p = MusicPlayer::new();
    assert!(!p.is_playing());
    assert_eq!(p.current_track(), None);
    assert!(!p.has_sink());
    assert_eq!(p.volume(), 5);
    assert_eq!(p.volume_percent(), 50);
    assert_eq!(p.status(), Status::NoFile);
    let d = MusicPlayer::default();
    assert_eq!(d.volume(), INITIAL_VOLUME);
    assert_eq!(d.current_track(), None);
}

#[test]
fn open_select_play_volume_down_stop_scenario() {
    let mut p = MusicPlayer::new();
    assert_eq!(p.update(Message::OpenFile), Command::PickFile);
    assert_eq!(p.current_track(), None);
    assert_eq!(p.update(Message::FileSelected("song.mp3".to_string())), Command::LoadFile("song.mp3".to_string()));
    assert_eq!(p.load_finished(LoadOutcome::Loaded), Command::SetSinkVolume(5));
    assert_eq!(p.current_track(), Some("song.mp3"));
    assert!(!p.is_playing());
    assert_eq!(p.update(Message::PlayPause), Command::ResumeSink);
    assert!(p.is_playing());
    for _ in 0..6 {
        p.update(Message::VolumeDown);
    }
    assert_eq!(p.volume(), 0);
    assert_eq!(p.volume_percent(), 0);
    assert_eq!(p.update(Message::Stop), Command::StopSink);
    assert!(!p.is_playing());
    assert_eq!(p.status(), Status::Paused);
}

#[test]
fn volume_stays_within_bounds_for_mixed_steps() {
    let mut p = MusicPlayer::new();
    let steps = [
        Message::VolumeUp, Message::VolumeUp, Message::VolumeUp, Message::VolumeUp,
        Message::VolumeUp, Message::VolumeUp, Message::VolumeUp, Message::VolumeDown,
        Message::VolumeDown, Message::VolumeDown, Message::VolumeDown, Message::VolumeDown,
        Message::VolumeDown, Message::VolumeDown, Message::VolumeDown, Message::VolumeDown,
        Message::VolumeDown, Message::VolumeDown, Message::VolumeDown, Message::VolumeUp,
    ];
    for m in steps.iter() {
        p.update(m.clone());
        assert!(p.volume() <= MAX_VOLUME);
    }
    assert_eq!(p.volume(), 1);
    assert_eq!(p.volume_percent(), 10);
}

#[test]
fn volume_up_clamps_at_full_gain() {
    let mut p = MusicPlayer::new();
    for _ in 0..5 {
        assert_eq!(p.update(Message::VolumeUp), Command::Nothing);
    }
    assert_eq!(p.volume(), 10);
    assert_eq!(p.update(Message::VolumeUp), Command::Nothing);
    assert_eq!(p.volume(), MAX_VOLUME);
    assert_eq!(p.volume_percent(), 100);
}

#[test]
fn volume_change_with_sink_is_applied() {
    let mut p = loaded_player("a.wav");
    assert_eq!(p.update(Message::VolumeUp), Command::SetSinkVolume(6));
    assert_eq!(p.update(Message::VolumeDown), Command::SetSinkVolume(5));
    assert_eq!(p.update(Message::VolumeDown), Command::SetSinkVolume(4));
}

#[test]
fn play_pause_without_track_is_a_no_op() {
    let mut p = MusicPlayer::new();
    assert_eq!(p.update(Message::PlayPause), Command::Nothing);
    assert!(!p.is_playing());
    assert_eq!(p.update(Message::PlayPause), Command::Nothing);
    assert!(!p.is_playing());
    assert_eq!(p.status(), Status::NoFile);
}

#[test]
fn stop_without_track_is_a_no_op() {
    let mut p = MusicPlayer::new();
    assert_eq!(p.update(Message::Stop), Command::Nothing);
    assert!(!p.is_playing());
    assert_eq!(p.current_track(), None);
    assert_eq!(p.volume(), 5);
    assert!(!p.has_sink());
}

#[test]
fn loaded_track_is_labelled_by_base_name_and_paused() {
    let mut p = loaded_player("/home/user/music/track01.flac");
    assert_eq!(p.current_track(), Some("track01.flac"));
    assert!(!p.is_playing());
    assert!(p.has_sink());
    assert_eq!(p.status(), Status::Paused);
    assert_eq!(p.update(Message::PlayPause), Command::ResumeSink);
    assert!(p.is_playing());
    assert_eq!(p.status(), Status::Playing);
    assert_eq!(p.update(Message::PlayPause), Command::PauseSink);
    assert!(!p.is_playing());
}

#[test]
fn second_load_discards_first_sink_first() {
    let mut p = loaded_player("first.mp3");
    p.update(Message::PlayPause);
    assert!(p.is_playing());
    assert_eq!(p.update(Message::FileSelected("dir/second.ogg".to_string())), Command::LoadFile("dir/second.ogg".to_string()));
    assert!(!p.has_sink());
    assert!(!p.is_playing());
    assert_eq!(p.load_finished(LoadOutcome::Loaded), Command::SetSinkVolume(5));
    assert!(p.has_sink());
    assert_eq!(p.current_track(), Some("second.ogg"));
}

#[test]
fn failed_decode_keeps_previous_label() {
    let mut p = loaded_player("good.mp3");
    p.update(Message::PlayPause);
    p.update(Message::FileSelected("/no/such/file.mp3".to_string()));
    assert_eq!(p.load_finished(LoadOutcome::DecodeFailed), Command::Nothing);
    assert_eq!(p.current_track(), Some("good.mp3"));
    assert!(!p.is_playing());
    assert!(!p.has_sink());
    assert_eq!(p.update(Message::PlayPause), Command::Nothing);
    assert!(!p.is_playing());
}

#[test]
fn failed_load_without_previous_track_leaves_none() {
    let mut p = MusicPlayer::new();
    p.update(Message::FileSelected("missing.wav".to_string()));
    assert_eq!(p.load_finished(LoadOutcome::OutputUnavailable), Command::Nothing);
    assert_eq!(p.current_track(), None);
    assert!(!p.is_playing());
    assert_eq!(p.status(), Status::NoFile);
}

#[test]
fn load_report_without_pending_load_is_ignored() {
    let mut p = MusicPlayer::new();
    assert_eq!(p.load_finished(LoadOutcome::Loaded), Command::Nothing);
    assert!(!p.has_sink());
    assert_eq!(p.current_track(), None);
}

#[test]
fn stop_does_not_clear_track_or_sink() {
    let mut p = loaded_player("x.aac");
    p.update(Message::PlayPause);
    assert_eq!(p.update(Message::Stop), Command::StopSink);
    assert!(!p.is_playing());
    assert!(p.has_sink());
    assert_eq!(p.current_track(), Some("x.aac"));
    assert_eq!(p.update(Message::PlayPause), Command::ResumeSink);
}

#[test]
fn path_ending_in_parent_gets_empty_label() {
    let p = loaded_player("music/..");
    assert_eq!(p.current_track(), Some(""));
}

