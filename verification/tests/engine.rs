//! Scenario tests for the engine: start/quit, the error surface, loading and
//! metadata, pausing, and fast-forward, all against the scripted codec.

use oldplay::engine::{Engine, ScriptedCodec};
use oldplay::player::{Command, PlayState};
use oldplay::value::Value;

fn codec(load_ok: bool, reads: Vec<usize>, metas: Vec<(String, String)>) -> ScriptedCodec {
    ScriptedCodec { load_ok, reads, next_read: 0, freq: 44100, metas, metas_pending: false }
}

#[test]
fn engine_start_quit() {
    let mut engine = Engine::new(1024, 44100);
    let mut c = codec(true, vec![], vec![]);
    let batches = vec![vec![Command::Quit]];
    let events = engine_run(&mut engine, &batches, &mut c);
    assert!(events.len() >= 1);
    let last = &events[events.len() - 1];
    assert_eq!(last.0, "quit");
    assert!(matches!(last.1, Value::Number(1)));
    let quits = events.iter().filter(|e| e.0 == "quit").count();
    assert_eq!(quits, 1);
    assert!(matches!(engine.player.play_state, PlayState::Quitting));
}

#[test]
fn engine_no_quit_without_command() {
    let mut engine = Engine::new(1024, 44100);
    let mut c = codec(true, vec![], vec![]);
    let batches = vec![vec![], vec![]];
    let events = engine_run(&mut engine, &batches, &mut c);
    assert!(events.iter().all(|e| e.0 != "quit"));
}

#[test]
fn engine_error_surface() {
    let mut engine = Engine::new(1024, 44100);
    let mut c = codec(true, vec![], vec![]);
    let batches = vec![vec![Command::NextSong], vec![Command::Quit]];
    let events = engine_run(&mut engine, &batches, &mut c);
    assert_eq!(events[0].0, "error");
    assert!(matches!(events[0].1, Value::Error(_)));
    let last = &events[events.len() - 1];
    assert_eq!(last.0, "quit");
    assert!(matches!(last.1, Value::Number(1)));
}

#[test]
fn engine_one_error_event_per_failed_command() {
    let mut engine = Engine::new(1024, 44100);
    // Loads fail, so each of the two loads and the song steps without a
    // loaded song yields exactly one error report; the run itself succeeds.
    let mut c = codec(false, vec![], vec![]);
    let batches = vec![
        vec![Command::NextSong, Command::Load("a.mod".to_string()), Command::PlayPause],
        vec![Command::PrevSong, Command::Load("b.mod".to_string()), Command::Ff(5)],
    ];
    let events = engine_run(&mut engine, &batches, &mut c);
    let errors = events.iter().filter(|e| e.0 == "error").count();
    assert_eq!(errors, 4);
}

#[test]
fn engine_load_and_metadata() {
    let mut engine = Engine::new(1024, 44100);
    let metas = vec![
        ("title".to_string(), "Stardust".to_string()),
        ("songs".to_string(), "3".to_string()),
    ];
    let mut c = codec(true, vec![1024, 1024, 1024], metas);
    let batches = vec![vec![Command::Load("music.mod".to_string())], vec![], vec![]];
    let events = engine_run(&mut engine, &batches, &mut c);
    let new_pos = events.iter().position(|e| e.0 == "new").expect("no new event");
    assert!(matches!(events[new_pos].1, Value::Number(0)));
    let title_pos = events.iter().position(|e| e.0 == "title").expect("no title event");
    assert!(title_pos > new_pos);
    match &events[title_pos].1 {
        Value::Text(t) => assert_eq!(t, "Stardust"),
        other => panic!("unexpected title value {:?}", other),
    }
    let songs_events: Vec<_> = events.iter().filter(|e| e.0 == "songs").collect();
    assert!(songs_events.len() >= 2);
    assert_eq!(engine.player.songs, 3);
    // One full decoder buffer was delivered, so the clock moved.
    assert!(engine.player.clock_ms > 0);
}

#[test]
fn engine_clock_zero_after_load_before_buffer() {
    let mut engine = Engine::new(1024, 44100);
    let mut c = codec(true, vec![1024], vec![]);
    // An empty ring report keeps the engine from producing.
    let batches = vec![vec![Command::Load("music.mod".to_string())]];
    let events = oldplay::engine::run_engine(&mut engine, &batches, &mut c, 0)
        .expect("engine failed");
    assert!(events.iter().any(|e| e.0 == "new"));
    assert_eq!(engine.player.clock_ms, 0);
}

#[test]
fn engine_pause_stops_clock() {
    let mut engine = Engine::new(1024, 44100);
    let mut c = codec(true, vec![1024; 16], vec![]);
    let batches = vec![vec![Command::Load("music.mod".to_string())], vec![]];
    engine_run(&mut engine, &batches, &mut c);
    let after_play = engine.player.clock_ms;
    assert!(after_play > 0);
    let batches = vec![vec![Command::PlayPause], vec![], vec![]];
    engine_run(&mut engine, &batches, &mut c);
    assert_eq!(engine.player.clock_ms, after_play);
    assert!(matches!(engine.player.play_state, PlayState::Paused));
    let batches = vec![vec![Command::PlayPause], vec![]];
    engine_run(&mut engine, &batches, &mut c);
    assert!(engine.player.clock_ms > after_play);
    assert!(matches!(engine.player.play_state, PlayState::Playing));
}

#[test]
fn engine_fast_forward_skips_without_producing() {
    let mut engine = Engine::new(1024, 44100);
    let mut c = codec(true, vec![1024; 8], vec![]);
    let batches = vec![vec![Command::Load("music.mod".to_string())]];
    engine_run(&mut engine, &batches, &mut c);
    let before = engine.player.clock_ms;
    let batches = vec![vec![Command::Ff(30)], vec![], vec![]];
    let events = engine_run(&mut engine, &batches, &mut c);
    // The skipped buffers advance the clock but never reach the analyzer.
    assert!(events.iter().all(|e| e.0 != "fft"));
    assert!(engine.player.clock_ms > before);
    assert!(matches!(engine.player.play_state, PlayState::Playing));
    assert_eq!(engine.player.ff_msec, 30usize.saturating_sub(
        (engine.player.clock_ms - before) as usize,
    ));
}

#[test]
fn engine_done_once_per_track_end() {
    let mut engine = Engine::new(1024, 44100);
    // The codec runs dry immediately: every read returns zero.
    let mut c = codec(true, vec![], vec![]);
    let batches = vec![vec![Command::Load("silence.mod".to_string())], vec![], vec![], vec![]];
    let events = engine_run(&mut engine, &batches, &mut c);
    let dones = events.iter().filter(|e| e.0 == "done").count();
    assert_eq!(dones, 1);
}

#[test]
fn engine_fft_once_per_full_buffer() {
    let mut engine = Engine::new(1024, 44100);
    // Two full buffers, then a partial one.
    let mut c = codec(true, vec![1024, 1024, 100], vec![]);
    let batches = vec![vec![Command::Load("music.mod".to_string())], vec![], vec![], vec![]];
    let events = engine_run(&mut engine, &batches, &mut c);
    let ffts = events.iter().filter(|e| e.0 == "fft").count();
    assert_eq!(ffts, 2);
}

#[test]
fn engine_failed_load_reports_error() {
    let mut engine = Engine::new(1024, 44100);
    let mut c = codec(false, vec![], vec![]);
    let batches = vec![vec![Command::Load("missing.mod".to_string())]];
    let events = engine_run(&mut engine, &batches, &mut c);
    assert!(events.iter().any(|e| e.0 == "error"));
    assert!(!engine.player.loaded);
}

#[test]
fn engine_bad_song_count_is_fatal() {
    let mut engine = Engine::new(1024, 44100);
    let metas = vec![("songs".to_string(), "plenty".to_string())];
    let mut c = codec(true, vec![1024], metas);
    let batches = vec![vec![Command::Load("music.mod".to_string())]];
    let r = oldplay::engine::run_engine(&mut engine, &batches, &mut c, 1 << 16);
    assert!(r.is_err());
}

fn engine_run(
    engine: &mut Engine,
    batches: &Vec<Vec<Command>>,
    c: &mut ScriptedCodec,
) -> Vec<(String, Value)> {
    oldplay::engine::run_engine(engine, batches, c, 1 << 16).expect("engine failed")
}
