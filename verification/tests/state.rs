//! Tests of the UI state, the value model and the small display helpers.

use oldplay::player::{PlayState, Player};
use oldplay::resampler::ResamplerControl;
use oldplay::rustplay::{error_banner_frames, format_time, next_index, prev_index, should_auto_advance, State};
use oldplay::song::{FileInfo, MetaMap, SongArray, SongCollection};
use oldplay::value::{MusicError, Value};

#[test]
fn state_absorbs_metadata() {
    let mut state = State::new();
    state.update_meta("length", Value::Number(125));
    match state.get_meta("len").as_str() {
        "02:05" => {},
        other => panic!("unexpected len {other}"),
    }
    state.update_meta("song", Value::Number(2));
    assert_eq!(state.song, 2);
    state.update_meta("title", Value::Text("Enigma".to_string()));
    assert_eq!(state.get_meta("title"), "Enigma");
    // Empty text is dropped.
    state.update_meta("title", Value::Text(String::new()));
    assert_eq!(state.get_meta("title"), "Enigma");
    state.update_meta("error", Value::Error(MusicError::new("boom")));
    assert_eq!(state.errors.len(), 1);
    assert_eq!(state.get_meta_or("missing", "fallback"), "fallback");
    state.update_meta("done", Value::Number(0));
    assert!(state.done);
}

#[test]
fn clear_meta_blanks_values() {
    let mut state = State::new();
    state.update_meta("title", Value::Text("Enigma".to_string()));
    state.update_meta("songs", Value::Number(4));
    state.clear_meta();
    assert_eq!(state.get_meta("title"), "");
    match state.meta.get("songs") {
        Some(Value::Number(0)) => {},
        other => panic!("unexpected songs {:?}", other),
    }
}

#[test]
fn banner_duration_shrinks_with_backlog() {
    assert_eq!(error_banner_frames(0), 50);
    assert_eq!(error_banner_frames(1), 50);
    assert_eq!(error_banner_frames(2), 10);
    assert_eq!(error_banner_frames(4), 10);
    assert_eq!(error_banner_frames(5), 1);
    assert_eq!(error_banner_frames(12), 1);
}

#[test]
fn clock_formatting() {
    assert_eq!(format_time(0), "00:00:00");
    assert_eq!(format_time(61230), "01:01:23");
    assert!(should_auto_advance(1000, 1001));
    assert!(!should_auto_advance(0, 50000));
    assert!(!should_auto_advance(1000, 1000));
}

#[test]
fn playlist_stepping() {
    assert_eq!(next_index(0, 3), Some(1));
    assert_eq!(next_index(2, 3), Some(2));
    assert_eq!(next_index(0, 0), None);
    assert_eq!(prev_index(2, 3), Some(1));
    assert_eq!(prev_index(1, 3), Some(1));
    assert_eq!(prev_index(0, 3), Some(0));
}

#[test]
fn file_info_display_names() {
    let mut meta_data = MetaMap::new();
    meta_data.insert("title", Value::Text("Enigma".to_string()));
    meta_data.insert("composer", Value::Text("Musiklinjen".to_string()));
    let song = FileInfo { path: "/mods/enigma.mod".to_string(), meta_data };
    assert_eq!(song.title_and_composer(), "Enigma / Musiklinjen");
    assert_eq!(song.full_song_name(), "Enigma / Musiklinjen [mod]");
    assert_eq!(song.title(), Some("Enigma".to_string()));
    assert_eq!(song.file_stem(), Some("enigma".to_string()));

    let plain = FileInfo { path: "/mods/enigma.mod".to_string(), meta_data: MetaMap::new() };
    assert_eq!(plain.full_song_name(), "enigma.mod");
    assert!(plain.title().is_none());
}

#[test]
fn song_array_finds_by_path() {
    let a = FileInfo { path: "/mods/a.mod".to_string(), meta_data: MetaMap::new() };
    let b = FileInfo { path: "/mods/b.mod".to_string(), meta_data: MetaMap::new() };
    let list = SongArray { songs: vec![a, b] };
    assert_eq!(list.len(), 2);
    assert_eq!(list.get(1).path, "/mods/b.mod");
    let probe = FileInfo { path: "/mods/b.mod".to_string(), meta_data: MetaMap::new() };
    assert_eq!(list.index_of(&probe), Some(1));
    let missing = FileInfo { path: "/mods/zz.mod".to_string(), meta_data: MetaMap::new() };
    assert_eq!(list.index_of(&missing), None);
}

#[test]
fn value_displays() {
    assert_eq!(Value::Text("x".to_string()).display_string(), "x");
    assert_eq!(Value::Number(7).display_string(), "07");
    assert_eq!(Value::Number(125).display_string(), "125");
    assert_eq!(Value::Unknown.display_string(), "???");
    assert_eq!(Value::Data(vec![1, 2]).display_string(), "Data");
    assert_eq!(Value::Error(MusicError::new("bad")).display_string(), "bad");
}

#[test]
fn stored_song_index_keeps_the_range() {
    let mut p = Player::new();
    p.load("music.mod");
    p.load_result("music.mod", Ok(())).unwrap();
    // The codec reports three sub-songs; indices outside them are clipped.
    p.apply_meta("songs", "3").unwrap();
    assert_eq!(p.songs, 3);
    p.apply_meta("song", "7").unwrap();
    assert_eq!(p.song, 2);
    p.apply_meta("song", "-1").unwrap();
    assert_eq!(p.song, 0);
    p.apply_meta("song", "1").unwrap();
    assert_eq!(p.song, 1);
    // Shrinking the count pulls the stored index back in.
    p.apply_meta("songs", "1").unwrap();
    assert_eq!(p.song, 0);
    // A selection past the end seeks as asked but stores a valid index.
    let o = p.set_song(10);
    assert!(matches!(o.action, oldplay::player::CodecAction::Seek(9)));
    assert_eq!(p.song, 0);
    // Unparseable numbers are fatal.
    assert!(p.apply_meta("songs", "plenty").is_err());
}

#[test]
fn player_commands_follow_the_table() {
    let mut p = Player::new();
    let r = p.next_song();
    assert!(r.reply.is_err());
    let o = p.load("music.mod");
    assert!(matches!(o.action, oldplay::player::CodecAction::TryLoad(_)));
    let r = p.load_result("music.mod", Ok(()));
    assert!(r.is_ok());
    assert!(p.loaded);
    assert!(matches!(p.play_state, PlayState::Playing));
    assert_eq!(p.clock_ms, 0);
    p.songs = 3;
    let o = p.next_song();
    assert!(matches!(o.action, oldplay::player::CodecAction::Seek(1)));
    let o = p.play_pause();
    assert!(o.reply.is_ok());
    assert!(matches!(p.play_state, PlayState::Paused));
    p.quit();
    assert!(matches!(p.play_state, PlayState::Quitting));
}

#[test]
fn resampler_passthrough_is_rate_equality() {
    let mut rc = ResamplerControl::new(44100);
    assert!(rc.passthrough());
    rc.set_frequencies(32000, 44100);
    assert!(!rc.passthrough());
    rc.set_frequencies(44100, 44100);
    assert!(rc.passthrough());
}

#[test]
fn media_surface_reports_state() {
    let mut ps = oldplay::media_keys::PlayState::new();
    assert_eq!(ps.playback_status(), "Paused");
    assert!(ps.can_play());
    assert!(!ps.can_pause());
    ps.update(&oldplay::media_keys::MediaKeyInfo::Playing);
    assert_eq!(ps.playback_status(), "Playing");
    assert!(ps.can_pause());
    ps.update(&oldplay::media_keys::MediaKeyInfo::Title("Enigma".to_string()));
    assert_eq!(ps.title, "Enigma");
}
