use mcosu_importer::archive::{aggregate_metadata, extract_metadata_from_archive, read_osz_metadata};
use mcosu_importer::cache::{CacheData, CacheStore};
use mcosu_importer::errors::ImportError;
use mcosu_importer::osu::{parse_i32_chars, parse_osu};
use std::io::Write;

#[test]
fn parse_metadata_and_events() {
    let text = r#"
        [Metadata]
        Title:Test Song
        Artist:Tester
        Creator:Mapper
        Version:Hard
        BeatmapSetID:123
        BeatmapID:456

        [Events]
        0,0,"bg.jpg",0,0
        "#;
    let parsed = parse_osu(text).unwrap();
    assert_eq!(parsed.title, "Test Song");
    assert_eq!(parsed.artist, "Tester");
    assert_eq!(parsed.creator, "Mapper");
    assert_eq!(parsed.version, "Hard");
    assert_eq!(parsed.beatmap_set_id, Some(123));
    assert_eq!(parsed.background_file.as_deref(), Some("bg.jpg"));
}

#[test]
fn parser_keeps_first_title_and_last_creator() {
    let text = "[General]\r\nAudioFilename: song.mp3\r\n[Metadata]\r\nTitleUnicode:First\r\nTitle:Second\r\nCreator:A\r\nCreator : B\r\nBeatmapID:x\r\n// Artist:Hidden\r\n";
    let p = parse_osu(text).unwrap();
    assert_eq!(p.title, "First");
    assert_eq!(p.artist, "");
    assert_eq!(p.creator, "B");
    assert_eq!(p.beatmap_id, None);
    assert_eq!(p.audio_file.as_deref(), Some("song.mp3"));
}

#[test]
fn parser_rejects_descriptor_without_title_or_artist() {
    assert_eq!(parse_osu("[Metadata]\nCreator:X\n").unwrap_err(), ImportError::MetadataParse);
    assert_eq!(parse_osu("Title:Outside any section").unwrap_err(), ImportError::MetadataParse);
}

#[test]
fn integer_parsing_matches_std() {
    for s in ["0", "-12", "+7", "2147483647", "-2147483648", "2147483648", "", "-", "1a", " 1"] {
        let v: Vec<char> = s.chars().collect();
        assert_eq!(parse_i32_chars(&v), s.parse::<i32>().ok(), "{s}");
    }
}

fn zip_of(files: &[(&str, &str)]) -> Vec<u8> {
    let mut w = zip::ZipWriter::new(std::io::Cursor::new(Vec::new()));
    for (name, body) in files {
        w.start_file(*name, zip::write::SimpleFileOptions::default()).unwrap();
        w.write_all(body.as_bytes()).unwrap();
    }
    w.finish().unwrap().into_inner()
}

#[test]
fn archive_metadata_scenario() {
    let bytes = zip_of(&[
        ("song.osu", "[Metadata]\nTitle:Foo\nArtist:Bar\nCreator:Baz\nVersion:Easy\nBeatmapSetID:42\nBeatmapID:1\n"),
        ("notes.txt", "[Metadata]\nTitle:Ignored\n"),
        ("hard.osu", "[Metadata]\nTitle:Other\nArtist:Else\nVersion:Hard\n"),
    ]);
    let m = extract_metadata_from_archive(bytes).unwrap();
    assert_eq!(m.title, "Foo");
    assert_eq!(m.artist, "Bar");
    assert_eq!(m.creator, "Baz");
    assert_eq!(m.beatmap_set_id, Some(42));
    assert_eq!(m.difficulties, vec!["Easy".to_string(), "Hard".to_string()]);
    assert_eq!(m.beatmap_ids, vec![1]);
}

#[test]
fn archive_without_descriptor_fails_with_metadata_error() {
    let bytes = zip_of(&[("readme.txt", "hello")]);
    assert_eq!(extract_metadata_from_archive(bytes).unwrap_err(), ImportError::MetadataParse);
    let bad = zip_of(&[("a.osu", "[Metadata]\nCreator:Only\n")]);
    assert_eq!(extract_metadata_from_archive(bad).unwrap_err(), ImportError::MetadataParse);
    assert_eq!(
        extract_metadata_from_archive(b"not a zip".to_vec()).unwrap_err(),
        ImportError::ArchiveRead
    );
    assert_eq!(aggregate_metadata(&vec![]).unwrap_err(), ImportError::MetadataParse);
}

#[test]
fn metadata_read_hashes_and_reuses_cached_thumbnail() {
    let bytes = zip_of(&[("s.osu", "[Metadata]\nTitle:T\nArtist:A\n[Events]\n0,0,\"bg.png\",0,0\n")]);
    let hash = blake3::hash(&bytes).to_hex().to_string();
    let mut cache = CacheStore::new(CacheData::default());
    let (m, w) = read_osz_metadata(bytes.clone(), cache.get_thumbnail(&hash), "/thumbs").unwrap();
    assert_eq!(m.hash, hash);
    assert_eq!(m.hash.len(), 64);
    assert!(w.is_none());
    assert!(m.thumbnail_path.is_none());
    cache.insert_thumbnail(hash.clone(), "/thumbs/x.png".into());
    let (m2, w2) = read_osz_metadata(bytes, cache.get_thumbnail(&hash), "/thumbs").unwrap();
    assert_eq!(m2.thumbnail_path.as_deref(), Some("/thumbs/x.png"));
    assert!(w2.is_none());
}

#[test]
fn metadata_read_makes_thumbnail_of_background() {
    let img = image::DynamicImage::ImageRgb8(image::RgbImage::new(400, 200));
    let mut png = std::io::Cursor::new(Vec::new());
    img.write_to(&mut png, image::ImageFormat::Png).unwrap();
    let mut w = zip::ZipWriter::new(std::io::Cursor::new(Vec::new()));
    let opts = zip::write::SimpleFileOptions::default();
    w.start_file("s.osu", opts).unwrap();
    w.write_all(b"[Metadata]\nTitle:T\nArtist:A\n[Events]\n0,0,\"bg.png\",0,0\n").unwrap();
    w.start_file("bg.png", opts).unwrap();
    w.write_all(png.get_ref()).unwrap();
    let bytes = w.finish().unwrap().into_inner();
    let hash = blake3::hash(&bytes).to_hex().to_string();
    let cache = CacheStore::new(CacheData::default());
    let (m, write) = read_osz_metadata(bytes, cache.get_thumbnail(&hash), "/thumbs").unwrap();
    let write = write.unwrap();
    assert_eq!(write.path, format!("/thumbs/{hash}.png"));
    assert_eq!(m.thumbnail_path.as_deref(), Some(write.path.as_str()));
    let thumb = image::load_from_memory(&write.png).unwrap();
    assert!(thumb.width() <= 256 && thumb.height() <= 256);
}

#[test]
fn unreadable_background_leaves_no_thumbnail() {
    let bytes = zip_of(&[
        ("s.osu", "[Metadata]\nTitle:T\nArtist:A\n[Events]\n0,0,\"bg.jpg\",0,0\n"),
        ("bg.jpg", "not an image"),
    ]);
    let (m, w) = read_osz_metadata(bytes, None, "/thumbs").unwrap();
    assert!(w.is_none());
    assert!(m.thumbnail_path.is_none());
    assert_eq!(m.metadata.title, "T");
}
