use mpax::music::{Music, MusicState};
use mpax::playlist::{base_name_of, is_audio_file, PathInfo, Playlist};

fn sample_playlist() -> Playlist {
    let mut pl = Playlist::new(String::from("sample"));
    let entries = vec![
        String::from("/music/a.mp3"),
        String::from("/music/b.mp3"),
        String::from("/music/c.mp3"),
    ];
    let added = pl.add_music_by_path(&String::from("/music"), &PathInfo::Directory(entries));
    assert_eq!(added, 3);
    pl
}

#[test]
fn new_playlist_is_empty() {
    let pl = Playlist::new(String::from("default"));
    assert_eq!(pl.name(), "default");
    assert!(!pl.contains(&String::from("/music/a.mp3")));
    assert!(pl.music_at(0).is_none());
    assert!(pl.next_of_path(&String::from("/music/a.mp3")).is_none());
    assert!(pl.previous_of_path(&String::from("/music/a.mp3")).is_none());
}

#[test]
fn set_name_keeps_tracks() {
    let mut pl = sample_playlist();
    pl.set_name(String::from("renamed"));
    assert_eq!(pl.name(), "renamed");
    assert!(pl.contains(&String::from("/music/b.mp3")));
}

#[test]
fn next_and_previous_wrap_at_boundaries() {
    let pl = sample_playlist();
    // next of the last track wraps to index 0
    assert_eq!(pl.next_of_path(&String::from("/music/c.mp3")), Some(0));
    // previous of the first track wraps to the last index
    assert_eq!(pl.previous_of_path(&String::from("/music/a.mp3")), Some(2));
}

#[test]
fn next_and_previous_inner_tracks() {
    let pl = sample_playlist();
    assert_eq!(pl.next_of_path(&String::from("/music/a.mp3")), Some(1));
    assert_eq!(pl.next_of_path(&String::from("/music/b.mp3")), Some(2));
    assert_eq!(pl.previous_of_path(&String::from("/music/b.mp3")), Some(0));
    assert_eq!(pl.previous_of_path(&String::from("/music/c.mp3")), Some(1));
}

#[test]
fn next_then_previous_returns_to_start() {
    let pl = sample_playlist();
    for i in 0..3usize {
        let path = pl.music_at(i).unwrap().file_path;
        let j = pl.next_of_path(&path).unwrap();
        let back_path = pl.music_at(j).unwrap().file_path;
        assert_eq!(pl.previous_of_path(&back_path), Some(i));
    }
}

#[test]
fn previous_then_next_returns_to_start() {
    let pl = sample_playlist();
    for i in 0..3usize {
        let path = pl.music_at(i).unwrap().file_path;
        let j = pl.previous_of_path(&path).unwrap();
        let fwd_path = pl.music_at(j).unwrap().file_path;
        assert_eq!(pl.next_of_path(&fwd_path), Some(i));
    }
}

#[test]
fn absent_path_navigates_nowhere() {
    let pl = sample_playlist();
    assert_eq!(pl.next_of_path(&String::from("/music/zz.mp3")), None);
    assert_eq!(pl.previous_of_path(&String::from("/music/zz.mp3")), None);
}

#[test]
fn add_by_missing_path_adds_nothing() {
    let mut pl = sample_playlist();
    let added = pl.add_music_by_path(&String::from("/gone/x.mp3"), &PathInfo::Missing);
    assert_eq!(added, 0);
    assert!(pl.music_at(3).is_none());
}

#[test]
fn add_by_directory_keeps_enumeration_order_and_base_names() {
    let mut pl = Playlist::new(String::from("default"));
    let entries = vec![String::from("/music/a.mp3"), String::from("/music/b.mp3")];
    let added = pl.add_music_by_path(&String::from("/music"), &PathInfo::Directory(entries));
    assert_eq!(added, 2);
    let first = pl.music_at(0).unwrap();
    let second = pl.music_at(1).unwrap();
    assert_eq!(first.file_path, "/music/a.mp3");
    assert_eq!(first.file_name, "a.mp3");
    assert_eq!(second.file_path, "/music/b.mp3");
    assert_eq!(second.file_name, "b.mp3");
    assert!(matches!(first.state, MusicState::Exists));
    assert!(first.metadata.is_none());
}

#[test]
fn add_by_directory_skips_unqualified_entries() {
    let mut pl = Playlist::new(String::from("default"));
    let entries = vec![
        String::from("/music/cover.jpg"),
        String::from("/music/a.mp3"),
        String::from("/music/notes.txt"),
    ];
    let added = pl.add_music_by_path(&String::from("/music"), &PathInfo::Directory(entries));
    assert_eq!(added, 1);
    assert_eq!(pl.music_at(0).unwrap().file_path, "/music/a.mp3");
    assert!(pl.music_at(1).is_none());
}

#[test]
fn add_by_single_file_and_duplicate_is_skipped() {
    let mut pl = Playlist::new(String::from("default"));
    let path = String::from("/music/a.mp3");
    assert_eq!(pl.add_music_by_path(&path, &PathInfo::SingleFile), 1);
    assert!(pl.contains(&path));
    // the same path again is already present and is not duplicated
    assert_eq!(pl.add_music_by_path(&path, &PathInfo::SingleFile), 0);
    assert!(pl.music_at(1).is_none());
}

#[test]
fn add_by_single_file_requires_qualifying_extension() {
    let mut pl = Playlist::new(String::from("default"));
    assert_eq!(
        pl.add_music_by_path(&String::from("/music/a.flac"), &PathInfo::SingleFile),
        0
    );
    assert!(!pl.contains(&String::from("/music/a.flac")));
}

#[test]
fn add_music_skips_paths_already_present() {
    let mut pl = sample_playlist();
    let tracks = vec![
        Music {
            file_path: String::from("/music/a.mp3"),
            file_name: String::from("a.mp3"),
            state: MusicState::Exists,
            metadata: None,
        },
        Music {
            file_path: String::from("/music/d.mp3"),
            file_name: String::from("d.mp3"),
            state: MusicState::Unknown,
            metadata: None,
        },
    ];
    pl.add_music(tracks);
    assert_eq!(pl.music_at(3).unwrap().file_path, "/music/d.mp3");
    assert!(pl.music_at(4).is_none());
}

#[test]
fn music_at_out_of_range_is_none() {
    let pl = sample_playlist();
    assert!(pl.music_at(3).is_none());
    assert_eq!(pl.music_at(1).unwrap().file_path, "/music/b.mp3");
}

#[test]
fn remove_by_exact_path() {
    let mut pl = sample_playlist();
    let removed = pl.remove_music_by_path(&String::from("/music/b.mp3"));
    assert_eq!(removed, 1);
    assert!(!pl.contains(&String::from("/music/b.mp3")));
    assert_eq!(pl.music_at(0).unwrap().file_path, "/music/a.mp3");
    assert_eq!(pl.music_at(1).unwrap().file_path, "/music/c.mp3");
}

#[test]
fn remove_by_directory_removes_descendants() {
    let mut pl = sample_playlist();
    assert_eq!(
        pl.add_music_by_path(&String::from("/other/x.mp3"), &PathInfo::SingleFile),
        1
    );
    let removed = pl.remove_music_by_path(&String::from("/music"));
    assert_eq!(removed, 3);
    assert!(!pl.contains(&String::from("/music/a.mp3")));
    assert!(pl.contains(&String::from("/other/x.mp3")));
}

#[test]
fn remove_nonexistent_removes_nothing() {
    let mut pl = sample_playlist();
    assert_eq!(pl.remove_music_by_path(&String::from("/gone")), 0);
    assert_eq!(pl.remove_music_by_path(&String::from("/music/zz.mp3")), 0);
    assert!(pl.contains(&String::from("/music/a.mp3")));
}

#[test]
fn remove_does_not_match_sibling_prefixes() {
    let mut pl = Playlist::new(String::from("default"));
    assert_eq!(
        pl.add_music_by_path(&String::from("/music2/a.mp3"), &PathInfo::SingleFile),
        1
    );
    // "/music" is a string prefix of "/music2" but not its parent directory
    assert_eq!(pl.remove_music_by_path(&String::from("/music")), 0);
    assert!(pl.contains(&String::from("/music2/a.mp3")));
}

#[test]
fn base_names() {
    assert_eq!(base_name_of(&String::from("/music/a.mp3")), "a.mp3");
    assert_eq!(base_name_of(&String::from("a.mp3")), "a.mp3");
    assert_eq!(base_name_of(&String::from("/music/")), "");
    assert_eq!(base_name_of(&String::from("")), "");
    assert_eq!(base_name_of(&String::from("/a/b/c/deep.mp3")), "deep.mp3");
}

#[test]
fn qualification_policy_is_the_mp3_extension() {
    assert!(is_audio_file(&String::from("/m/a.mp3")));
    assert!(is_audio_file(&String::from("a.mp3")));
    assert!(!is_audio_file(&String::from(".mp3x")));
    assert!(!is_audio_file(&String::from("mp3")));
    assert!(!is_audio_file(&String::from("/m/a.flac")));
    assert!(!is_audio_file(&String::from("")));
}

#[test]
fn add_file_to_list_builds_a_fresh_track() {
    let pl = Playlist::new(String::from("default"));
    let m = pl.add_file_to_list(&String::from("/music/a.mp3"));
    assert_eq!(m.file_path, "/music/a.mp3");
    assert_eq!(m.file_name, "a.mp3");
    assert!(matches!(m.state, MusicState::Exists));
    assert!(m.metadata.is_none());
}
