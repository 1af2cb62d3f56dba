use mcosu_importer::download::{choose_file_name, choose_file_name_at, DownloadProvider};
use mcosu_importer::importer::{build_folder_name, safe_entry_components, validate_entry_names};
use mcosu_importer::model::{AppConfig, BeatmapMetadata, StabilityConfig};
use mcosu_importer::errors::ImportError;
use mcosu_importer::paths::{
    can_delete_source, downloads_songs_conflict, is_within_dir, join_path, validate_songs_choice,
};
use mcosu_importer::pipeline::enforce_path_safety;
use mcosu_importer::text::sanitize_path_component;

fn meta(title: &str, artist: &str, creator: &str, set_id: Option<i32>) -> BeatmapMetadata {
    BeatmapMetadata {
        title: title.into(),
        artist: artist.into(),
        creator: creator.into(),
        difficulties: vec![],
        beatmap_set_id: set_id,
        beatmap_ids: vec![],
        background_file: None,
        audio_file: None,
    }
}

#[test]
fn sanitize_path_component_replaces_illegal_chars() {
    let name = sanitize_path_component("Artist:Title?*<>|/\\");
    assert!(name.contains('_'));
    assert!(!name.contains(':'));
    assert!(!name.contains('?'));
}

#[test]
fn sanitize_removes_every_illegal_char_and_bounds_length() {
    let long = format!("{}:{}", "a".repeat(150), "\"<>|*?/\\");
    let name = sanitize_path_component(&long);
    for c in [':', '*', '?', '"', '<', '>', '|', '\\', '/'] {
        assert!(!name.contains(c));
    }
    assert!(name.chars().count() <= 100);
    assert_eq!(name, "a".repeat(100));
}

#[test]
fn sanitize_trims_whitespace_and_dots() {
    assert_eq!(sanitize_path_component("  ..name.. "), "name");
    assert_eq!(sanitize_path_component(". . ."), "");
    assert_eq!(sanitize_path_component("a. ."), "a");
    assert_eq!(sanitize_path_component(" .a b. "), "a b");
    assert_eq!(sanitize_path_component("..."), "");
    assert_eq!(sanitize_path_component("a:b"), "a_b");
}

#[test]
fn build_folder_name_handles_invalid() {
    let m = meta("A*B", "Art?", "Mapper", Some(1));
    let name = build_folder_name(&m, "file.osz");
    assert!(!name.contains('*'));
    assert!(name.contains("Art"));
}

#[test]
fn folder_name_scenario_with_set_id() {
    let m = meta("Foo", "Bar", "Baz", Some(42));
    assert_eq!(build_folder_name(&m, "map.osz"), "Bar - Foo (Baz) [42]");
    let n = meta("Foo", "Bar", "Baz", None);
    assert_eq!(build_folder_name(&n, "map.osz"), "Bar - Foo (Baz)");
    let neg = meta("T", "A", "C", Some(-7));
    assert_eq!(build_folder_name(&neg, "x.osz"), "A - T (C) [-7]");
}

#[test]
fn folder_name_is_trimmed_after_sanitising() {
    let m = meta("", "", "", None);
    assert_eq!(build_folder_name(&m, "dir/pack.osz"), "-  ()");
    let dots = meta(".", ".", ".", None);
    assert_eq!(build_folder_name(&dots, "x.osz"), "- . (.)");
}

#[test]
fn entry_with_parent_component_is_rejected() {
    assert_eq!(
        safe_entry_components("../../evil.osu"),
        Err(ImportError::PathTraversal)
    );
    assert_eq!(safe_entry_components("a/../b"), Err(ImportError::PathTraversal));
    assert_eq!(safe_entry_components("/etc/passwd"), Err(ImportError::PathTraversal));
    assert_eq!(safe_entry_components(". .. ./x").unwrap(), vec!["x".to_string()]);
    assert_eq!(safe_entry_components("./"), Err(ImportError::EmptyEntryName));
    assert_eq!(
        safe_entry_components("dir/./song?.osu").unwrap(),
        vec!["dir".to_string(), "song_.osu".to_string()]
    );
}

#[test]
fn one_bad_entry_rejects_the_archive() {
    let names = vec!["song.osu".to_string(), "../bad.txt".to_string()];
    assert_eq!(validate_entry_names(&names), Err(ImportError::PathTraversal));
    let good = vec!["song.osu".to_string(), "sb/bg.jpg".to_string()];
    let all = validate_entry_names(&good).unwrap();
    assert_eq!(all.len(), 2);
    assert_eq!(all[1], vec!["sb".to_string(), "bg.jpg".to_string()]);
}

#[test]
fn delete_allowed_only_within_downloads() {
    let downloads = "/home/user/Downloads";
    let songs = "/home/user/McOsu/Songs";
    let inside = "/home/user/Downloads/map.osz";
    let outside = "/home/user/Desktop/map.osz";
    assert!(can_delete_source(downloads, songs, inside));
    assert!(!can_delete_source(downloads, songs, outside));
    let songs_inside = "/home/user/Downloads/Songs";
    assert!(!can_delete_source(downloads, songs_inside, inside));
}

#[test]
fn conflict_detects_equal_and_nested() {
    let downloads = "/tmp/dl";
    let same = "/tmp/dl";
    let nested = "/tmp/dl/Songs";
    let separate = "/games/McOsu/Songs";
    let equal = downloads_songs_conflict(downloads, same).unwrap();
    assert!(equal.contains("Downloads e Songs"));
    let nested_msg = downloads_songs_conflict(downloads, nested).unwrap();
    assert!(nested_msg.contains("Songs esta dentro"));
    assert!(downloads_songs_conflict(downloads, separate).is_none());
}

#[test]
fn conflict_detects_downloads_inside_songs() {
    let msg = downloads_songs_conflict("/games/Songs/dl", "/games/Songs").unwrap();
    assert!(msg.contains("Downloads esta dentro da pasta Songs"));
    assert!(downloads_songs_conflict("/tmp/dl/../x", "/tmp/x/").is_some());
}

#[test]
fn validate_songs_choice_blocks_overlap() {
    let downloads = "/tmp/dl";
    let nested = "/tmp/dl/Songs";
    let separate = "/games/McOsu/Songs";
    assert!(validate_songs_choice(downloads, nested).is_err());
    assert!(validate_songs_choice(downloads, downloads).is_err());
    assert!(validate_songs_choice(downloads, separate).is_ok());
}

#[test]
fn within_dir_is_lexical() {
    assert!(is_within_dir("/a/b", "/a/b/c/../d"));
    assert!(!is_within_dir("/a/b", "/a/b/../c"));
    assert!(is_within_dir("/a/b/", "/a/b"));
    assert!(!is_within_dir("/a/bc", "/a/b"));
    assert_eq!(join_path("/a", "b"), "/a/b");
    assert_eq!(join_path("/a/", "b"), "/a/b");
    assert_eq!(join_path("/a", "/b"), "/b");
}

#[test]
fn enforce_safety_disables_flags_when_conflict() {
    let mut cfg = AppConfig {
        downloads_dir: "C:/dl".into(),
        songs_dir: "C:/dl/Songs".into(),
        auto_import: true,
        auto_delete_source: true,
        suppress_delete_prompt: false,
        stability: StabilityConfig::default(),
        last_link: None,
    };
    let warning = enforce_path_safety(&mut cfg);
    assert!(warning.is_some());
    assert!(!cfg.auto_import);
    assert!(!cfg.auto_delete_source);
}

#[test]
fn enforce_safety_keeps_flags_when_apart() {
    let mut cfg = AppConfig::with_downloads("/home/u/Downloads".into());
    cfg.songs_dir = "/games/Songs".into();
    cfg.auto_import = true;
    assert!(enforce_path_safety(&mut cfg).is_none());
    assert!(cfg.auto_import);
    let d = AppConfig::with_downloads("/home/u/Downloads".into());
    assert_eq!(d.songs_dir, "/home/u/Downloads/McOsuSongs");
}

#[test]
fn content_disposition_filename_sanitized() {
    let name = choose_file_name(
        DownloadProvider::Gatari,
        Some("1"),
        Some("attachment; filename=\"A*B?.osz\""),
    );
    assert!(name.ends_with(".osz"));
    assert!(!name.contains('*'));
    assert!(!name.contains('?'));
}

#[test]
fn file_name_falls_back_to_provider_and_id() {
    assert_eq!(
        choose_file_name_at(DownloadProvider::BeatConnect, Some("77"), None, 5),
        "beatconnect_77.osz"
    );
    assert_eq!(
        choose_file_name_at(DownloadProvider::Gatari, None, Some("inline"), 1234),
        "gatari_1234.osz"
    );
    assert_eq!(
        choose_file_name_at(DownloadProvider::Gatari, None, Some("x; filename*=UTF-8''Song.OSZ"), 0),
        "Song.OSZ"
    );
    assert_eq!(
        choose_file_name_at(DownloadProvider::Gatari, None, Some("filename=map"), 0),
        "map.osz"
    );
}

#[test]
fn reject_zip_slip_paths() {
    let names = vec!["../bad.txt".to_string()];
    let res = validate_entry_names(&names);
    assert!(res.is_err());
}
