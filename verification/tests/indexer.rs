//! Tests of the song index: the Modland path heuristic, the SID header
//! parse, the extension blacklist, and search round trips.

use oldplay::indexer::{non_song_extension, parse_sid_header, slice_to_string, Indexer};
use oldplay::value::Value;

#[test]
fn modland_path_names_composer() {
    let ix = Indexer::new().unwrap();
    let info = ix
        .parse_modland_info("/home/sasq/Music/MODLAND/Fasttracker 2/Purple Motion/sil forever.xm")
        .expect("not recognised");
    assert_eq!(info.title, "sil forever");
    assert_eq!(info.composer, "Purple Motion");
    assert_eq!(info.game, "");
}

#[test]
fn modland_path_with_game() {
    let ix = Indexer::new().unwrap();
    let info = ix
        .parse_modland_info("/mods/Nintendo SPC/Some Composer/Great Game/level1.spc")
        .expect("not recognised");
    assert_eq!(info.title, "level1");
    assert_eq!(info.composer, "Some Composer");
    assert_eq!(info.game, "Great Game");
}

#[test]
fn modland_coop_composer() {
    let ix = Indexer::new().unwrap();
    let info = ix
        .parse_modland_info("/mods/Protracker/Tip/coop-Firefox/coop song.mod")
        .expect("not recognised");
    assert_eq!(info.composer, "Tip + Firefox");
    assert_eq!(info.title, "coop song");
}

#[test]
fn modland_rejects_unknown_format() {
    let ix = Indexer::new().unwrap();
    assert!(ix.parse_modland_info("/home/user/downloads/whatever/song.mod").is_none());
}

#[test]
fn search_finds_modland_composer() {
    let mut ix = Indexer::new().unwrap();
    ix.add_path("/home/sasq/Music/MODLAND/Fasttracker 2/Purple Motion/sil forever.xm").unwrap();
    ix.commit().unwrap();
    ix.search("purple motion").unwrap();
    assert_eq!(ix.result_len(), 1);
    let song = ix.get_song(0).unwrap();
    match song.get("composer") {
        Value::Text(c) => assert_eq!(c, "Purple Motion"),
        other => panic!("composer missing: {:?}", other),
    }
}

#[test]
fn search_round_trip_by_stem() {
    let mut ix = Indexer::new().unwrap();
    let path = "/music/collection/Stardust_Memories.xm";
    ix.add_path(path).unwrap();
    ix.commit().unwrap();
    ix.search("stardust memories").unwrap();
    assert_eq!(ix.result_len(), 1);
    let song = ix.get_song(0).unwrap();
    assert_eq!(song.path, path);
}

#[test]
fn search_without_match_is_empty() {
    let mut ix = Indexer::new().unwrap();
    ix.add_path("/music/one/two.mod").unwrap();
    ix.commit().unwrap();
    ix.search("xywizoqp").unwrap();
    assert_eq!(ix.result_len(), 0);
}

#[test]
fn search_result_is_bounded() {
    let mut ix = Indexer::new().unwrap();
    for i in 0..50 {
        ix.add_path(&format!("/music/batch/common_word_{i}.mod")).unwrap();
    }
    ix.commit().unwrap();
    ix.search("common").unwrap();
    assert!(ix.result_len() <= 10000);
    assert_eq!(ix.result_len(), 50);
}

#[test]
fn warm_list_hands_out_first_songs() {
    let mut ix = Indexer::new().unwrap();
    ix.add_path("/music/a/first.mod").unwrap();
    ix.add_path("/music/a/second.mod").unwrap();
    let first = ix.next().unwrap();
    assert_eq!(first.path, "/music/a/first.mod");
    let second = ix.next().unwrap();
    assert_eq!(second.path, "/music/a/second.mod");
    assert!(ix.next().is_none());
}

#[test]
fn get_songs_clamps_to_result() {
    let mut ix = Indexer::new().unwrap();
    for i in 0..5 {
        ix.add_path(&format!("/music/window/tune_{i}.mod")).unwrap();
    }
    ix.commit().unwrap();
    ix.search("tune").unwrap();
    assert_eq!(ix.result_len(), 5);
    let page = ix.get_songs(2, 10);
    assert_eq!(page.len(), 3);
    // Both bounds clamp to the result's length.
    assert_eq!(ix.get_songs(9, 12).len(), 0);
    assert_eq!(ix.get_songs(4, 2).len(), 0);
    let empty = Indexer::new().unwrap().get_songs(0, 10);
    assert_eq!(empty.len(), 0);
}

#[test]
fn failed_search_keeps_previous_result() {
    let mut ix = Indexer::new().unwrap();
    ix.add_path("/music/keep/held.mod").unwrap();
    ix.commit().unwrap();
    ix.search("held").unwrap();
    assert_eq!(ix.result_len(), 1);
    // An unparseable query fails and leaves the shown result alone.
    assert!(ix.search("\"").is_err());
    assert_eq!(ix.result_len(), 1);
}

#[test]
fn known_format_names_are_held() {
    let ix = Indexer::new().unwrap();
    assert!(ix.parse_modland_info("/m/Protracker/Someone/tune.mod").is_some());
    assert!(ix.parse_modland_info("/m/Screamtracker 3/Someone/tune.s3m").is_some());
}

#[test]
fn identify_works() {
    // A SID header carries the title at 0x16 and the composer at 0x36,
    // NUL-padded 8-bit text.
    let mut buf = vec![0u8; 0x60];
    for (i, b) in b"Ark Pandora".iter().enumerate() {
        buf[0x16 + i] = *b;
    }
    for (i, b) in b"Zardax".iter().enumerate() {
        buf[0x36 + i] = *b;
    }
    let info = parse_sid_header(&buf).expect("header too short");
    assert_eq!(info.title, "Ark Pandora");
    assert_eq!(info.composer, "Zardax");
    assert!(parse_sid_header(&buf[..0x40]).is_none());
}

#[test]
fn latin1_text_stops_at_nul() {
    let bytes = [0x48u8, 0x69, 0x21, 0, 0x7a];
    assert_eq!(slice_to_string(&bytes), "Hi!");
    assert_eq!(slice_to_string(&[]), "");
}

#[test]
fn blacklist_skips_non_song_extensions() {
    assert!(non_song_extension("/mods/c64/disk.d64"));
    assert!(non_song_extension("/mods/c64/README.TXT"));
    assert!(non_song_extension("notes.md5"));
    assert!(!non_song_extension("/mods/c64/tune.sid"));
    assert!(!non_song_extension("plain_file"));
}
