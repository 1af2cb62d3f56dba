use mcosu_importer::download::{http_failure, search_candidate, DownloadJob, DownloadProvider, DownloadStatus, ResolvedDownload};
use mcosu_importer::model::{AppConfig, AudioPreviewStatus, BeatmapEntry, BeatmapMetadata, ImportStatus};
use mcosu_importer::playback::{
    audio_status_ui, begin_audio_preview, on_audio_missing, on_audio_played, update_audio_state,
};
use mcosu_importer::preview::{
    audio_entry_matches, choose_preview_source, preview_url, route, PreviewSource, Route,
};
use mcosu_importer::search::{
    beatmap_source_label, build_osz_name, found_from_records, search_url, ApiBeatmap,
    BeatmapSearchResult, BeatmapSource,
};
use mcosu_importer::view::{entry_view, join_with, status_badge_color};

fn cfg() -> AppConfig {
    let mut c = AppConfig::with_downloads("/home/u/Downloads".into());
    c.songs_dir = "/games/Songs".into();
    c
}

fn completed_entry() -> BeatmapEntry {
    let mut e = BeatmapEntry::new(11, "/home/u/Downloads/map.osz".into(), 0);
    e.metadata = Some(BeatmapMetadata {
        title: "Foo".into(),
        artist: "Bar".into(),
        creator: "Baz".into(),
        difficulties: vec!["Easy".into(), "Hard".into()],
        beatmap_set_id: Some(42),
        beatmap_ids: vec![],
        background_file: None,
        audio_file: Some("a.mp3".into()),
    });
    e.destination = Some("/games/Songs/Bar - Foo (Baz) [42]".into());
    e.status = ImportStatus::Completed;
    e
}

#[test]
fn view_of_completed_entry() {
    let e = completed_entry();
    let v = entry_view(&e, &cfg(), None, true, true);
    assert_eq!(v.title, "Bar - Foo");
    assert_eq!(v.difficulties, "Easy, Hard");
    assert_eq!(v.status, "Concluido");
    assert_eq!(v.badge, (92, 193, 146));
    assert!(v.show_delete && v.can_delete_source);
    assert_eq!(v.delete_hint, "");
    assert!(!v.can_import && v.can_reimport && v.can_ignore);
    assert!(v.preview_enabled);
    let gone = entry_view(&e, &cfg(), None, false, true);
    assert!(!gone.can_delete_source);
    assert_eq!(gone.delete_hint, "Fonte nao encontrada");
    let warned = entry_view(&e, &cfg(), Some("cuidado"), true, true);
    assert_eq!(warned.delete_hint, "cuidado");
}

#[test]
fn view_of_failed_entry_fills_annotations() {
    let mut e = BeatmapEntry::new(12, "/x/y.osz".into(), 0);
    e.status = ImportStatus::Failed;
    e.message = Some("boom".into());
    let v = entry_view(&e, &cfg(), None, true, false);
    assert_eq!(v.message, "");
    assert_eq!(v.error_short, "boom");
    assert_eq!(v.error_detail, "boom");
    assert_eq!(v.title, "Desconhecido");
    assert_eq!(v.destination, "-");
    assert!(!v.preview_enabled);
    assert_eq!(status_badge_color(&ImportStatus::Detected), (110, 120, 140));
    assert_eq!(join_with(&vec![], ", "), "");
}

#[test]
fn audio_labels() {
    let mut e = completed_entry();
    let (label, available, playing, enabled) = audio_status_ui(&e);
    assert_eq!(label, "Aguardando metadados");
    assert!(available && !playing && enabled);
    update_audio_state(&mut e, AudioPreviewStatus::Playing, Some("/c/a.mp3".into()), None);
    assert_eq!(audio_status_ui(&e).0, "Tocando");
    update_audio_state(&mut e, AudioPreviewStatus::Unavailable, None, Some("sem".into()));
    assert_eq!(e.audio.cached_path.as_deref(), Some("/c/a.mp3"));
    assert_eq!(audio_status_ui(&e), ("sem".to_string(), false, false, false));
}

#[test]
fn server_routes() {
    assert_eq!(route("/"), Route::Index);
    assert_eq!(route("/?x=1"), Route::Index);
    assert_eq!(route("/viewer/app.js"), Route::Viewer("app.js".into()));
    assert_eq!(route("/beatmaps/a/b.osu?t=2"), Route::Beatmaps("a/b.osu".into()));
    assert_eq!(route("/beatmaps/../secret"), Route::Forbidden);
    assert_eq!(route("/other"), Route::NotFound);
}

#[test]
fn preview_source_and_audio_matching() {
    assert_eq!(choose_preview_source(true, true, true), PreviewSource::Cached);
    assert_eq!(choose_preview_source(false, false, true), PreviewSource::ZipDestination);
    assert_eq!(choose_preview_source(false, false, false), PreviewSource::Unavailable);
    assert!(audio_entry_matches("Sub/Audio.MP3", "audio.mp3"));
    assert!(!audio_entry_matches("other.mp3", "audio.mp3"));
}

#[test]
fn download_job_steps() {
    let mut job = DownloadJob::new(2, DownloadProvider::BeatConnect, "9".into());
    job.start_resolving();
    assert_eq!(job.status, DownloadStatus::Resolving);
    job.on_resolved(&ResolvedDownload { url: "https://beatconnect.io/b/9".into(), set_id: Some("9".into()) });
    assert_eq!(job.title(), "BeatConnect https://beatconnect.io/b/9");
    job.on_response(Some(10), "/dl/x.osz".into());
    job.on_chunk(4);
    job.on_chunk(6);
    assert_eq!(job.progress_bytes, 10);
    job.on_completed(10, "/dl/x.osz".into());
    assert_eq!(job.status, DownloadStatus::Completed);
    job.on_failed("e".into());
    assert_eq!(job.error_opt.as_deref(), Some("e"));
    job.on_cancelled();
    assert_eq!(job.error_opt, None);
    assert_eq!(http_failure(404, "u").as_deref(), Some("HTTP 404 ao baixar u"));
    assert_eq!(http_failure(204, "u"), None);
}

#[test]
fn search_names() {
    assert_eq!(search_candidate("/dl", "a.osz", 0), "/dl/a.osz");
    assert_eq!(search_candidate("/dl", "a.osz", 3), "/dl/a (3).osz");
    assert_eq!(search_candidate("/dl", "a", 1), "/dl/a (1)");
    let r = BeatmapSearchResult {
        id: 1,
        title: "T?".into(),
        artist: "A".into(),
        creator: "C".into(),
        source: BeatmapSource::Nerinyan,
        download_url: "u".into(),
    };
    assert_eq!(build_osz_name(&r), "A - T_ (C).osz");
    assert_eq!(beatmap_source_label(&BeatmapSource::Catboy), "Catboy.best");
}

#[test]
fn search_records_become_results() {
    let rec = |id: u64| ApiBeatmap { set_id: id, title: "T".into(), artist: "A".into(), creator: "C".into() };
    let records = vec![rec(0), rec(15)];
    let n = found_from_records(BeatmapSource::Nerinyan, &records);
    assert_eq!(n.len(), 1);
    assert_eq!(n[0].download_url, "https://api.nerinyan.moe/d/15");
    let c = found_from_records(BeatmapSource::Catboy, &records);
    assert_eq!(c.len(), 2);
    assert_eq!(c[0].download_url, "https://catboy.best/d/0");
    assert_eq!(search_url(BeatmapSource::Catboy, "a%20b"), "https://catboy.best/api/v2/search?q=a%20b");
}

#[test]
fn audio_preview_steps() {
    let mut bare = BeatmapEntry::new(20, "/dl/z.osz".into(), 0);
    assert!(!begin_audio_preview(&mut bare));
    assert_eq!(bare.audio.last_error.as_deref(), Some("Metadados pendentes"));
    let mut e = completed_entry();
    assert!(begin_audio_preview(&mut e));
    assert_eq!(e.audio.status, AudioPreviewStatus::Loading);
    assert!(on_audio_played(&mut e, "/c/a.mp3".into(), Ok(AudioPreviewStatus::Playing)).is_none());
    assert_eq!(e.audio.status, AudioPreviewStatus::Playing);
    let line = on_audio_played(&mut e, "/c/a.mp3".into(), Err("sem saida".into())).unwrap();
    assert_eq!(line.text, "map.osz: falha ao tocar preview (sem saida)");
    assert_eq!(e.audio.status, AudioPreviewStatus::Unavailable);
    let line = on_audio_missing(&mut e, "Sem audio no beatmap");
    assert_eq!(line.text, "map.osz: Sem audio no beatmap");
    assert_eq!(
        preview_url(8080, "abc", "T%20x"),
        "http://127.0.0.1:8080/viewer/index.html?map=/beatmaps/abc/beatmap.osz&title=T%20x"
    );
}
