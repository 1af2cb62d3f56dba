use mcosu_importer::cache::{CacheData, CacheStore};
use mcosu_importer::download::{
    beatconnect_html_error, extract_filename, looks_like_html, parse_beatconnect_input,
    parse_gatari_input, prepend_scheme_if_missing, resolve_download, sanitize_osz_name,
    shorten_middle, unique_candidate, DownloadJob, DownloadProvider, DownloadStatus,
};
use mcosu_importer::model::ImportStatus;
use mcosu_importer::preview::{build_preview_launches, build_preview_launches_with_app_mode, format_preview_origin, safe_preview_path, PreviewOrigin};

#[test]
fn parse_gatari_variants() {
    let direct = parse_gatari_input("12345").unwrap();
    assert!(direct.url.contains("/d/12345"));
    let url = parse_gatari_input("https://osu.gatari.pw/s/987").unwrap();
    assert!(url.url.contains("/d/987"));
    let dlink = parse_gatari_input("https://osu.gatari.pw/d/555").unwrap();
    assert!(dlink.url.contains("/d/555"));
}

#[test]
fn gatari_falls_back_to_digit_runs() {
    let r = parse_gatari_input("osu.ppy.sh/beatmapsets/4242#osu/1").unwrap();
    assert_eq!(r.url, "https://osu.gatari.pw/d/4242");
    let r = parse_gatari_input("map 7 id 88").unwrap();
    assert_eq!(r.set_id.as_deref(), Some("88"));
    assert!(parse_gatari_input("no id here 5").is_err());
}

#[test]
fn parse_beatconnect_variants() {
    let num = parse_beatconnect_input("54321").unwrap();
    assert!(num.url.contains("/b/54321"));
    let full = parse_beatconnect_input("https://beatconnect.io/b/777/token/").unwrap();
    assert!(full.url.contains("/b/777/"));
    assert_eq!(full.set_id.unwrap(), "777");
}

#[test]
fn beatconnect_rejects_other_links() {
    assert!(parse_beatconnect_input("https://example.com/b/1").is_err());
    let r = resolve_download(DownloadProvider::BeatConnect, " beatconnect.io/b/12 ").unwrap();
    assert_eq!(r.url, "https://beatconnect.io/b/12");
    assert_eq!(prepend_scheme_if_missing("://://x"), "https://x");
    assert_eq!(prepend_scheme_if_missing("http://x"), "http://x");
}

#[test]
fn provider_and_status_labels() {
    assert_eq!(DownloadProvider::from_index(1), DownloadProvider::BeatConnect);
    assert_eq!(DownloadProvider::from_index(5), DownloadProvider::Gatari);
    assert_eq!(DownloadProvider::BeatConnect.to_index(), 1);
    assert_eq!(DownloadProvider::Gatari.as_str(), "Gatari");
    assert_eq!(DownloadStatus::Cancelled.as_display(), "Cancelado");
    assert_eq!(ImportStatus::DuplicateSkipped.as_display(), "Duplicado");
    let job = DownloadJob::new(1, DownloadProvider::Gatari, "123".into());
    assert_eq!(job.status, DownloadStatus::Pending);
    assert_eq!(job.title(), "Gatari 123");
}

#[test]
fn shorten_middle_keeps_both_ends() {
    assert_eq!(shorten_middle("abcdefghij", 7), "ab...ij");
    assert_eq!(shorten_middle("abc", 7), "abc");
    assert_eq!(shorten_middle("abcdef", 2), "...");
}

#[test]
fn file_names_and_candidates() {
    assert_eq!(sanitize_osz_name("Map*"), "Map_.osz");
    assert_eq!(sanitize_osz_name("x.OSZ"), "x.OSZ");
    assert_eq!(extract_filename("attachment; filename=\"a.osz\"").as_deref(), Some("a.osz"));
    assert_eq!(extract_filename("attachment"), None);
    assert_eq!(unique_candidate("/dl", "file.osz", 0), "/dl/file.osz");
    assert_eq!(unique_candidate("/dl", "file.osz", 1), "/dl/file (1).osz");
    assert_eq!(unique_candidate("/dl", "file", 2), "/dl/file (2).osz");
}

#[test]
fn html_detection() {
    assert!(looks_like_html(&b"PK\x03\x04".to_vec(), "Text/HTML; charset=utf-8"));
    assert!(looks_like_html(&b"<!DOCTYPE html><p>".to_vec(), "application/octet-stream"));
    assert!(!looks_like_html(&b"PK\x03\x04".to_vec(), "application/zip"));
    assert!(beatconnect_html_error(DownloadProvider::BeatConnect).contains("BeatConnect"));
    assert_eq!(beatconnect_html_error(DownloadProvider::Gatari), "Resposta nao parece um .osz.");
}

#[test]
fn build_preview_launches_orders_app_mode_first() {
    let url = "http://localhost:1234/test";
    let plans = build_preview_launches_with_app_mode(url);
    assert!(plans.len() >= 3);
    assert_eq!(plans[0].program.as_deref(), Some("msedge"));
    assert_eq!(plans[0].args, vec![format!("--app={url}")]);
    assert_eq!(plans[1].program.as_deref(), Some("chrome"));
    assert_eq!(plans.last().unwrap().program, None);
    let plans = build_preview_launches(url);
    assert_eq!(plans.len(), 1);
    assert_eq!(plans[0].program, None);
    assert_eq!(plans[0].args, vec![url.to_string()]);
}

#[test]
fn preview_paths_and_origins() {
    assert_eq!(safe_preview_path("/p", "a/b.osu").unwrap(), "/p/a/b.osu");
    assert!(safe_preview_path("/p", "../b.osu").is_err());
    assert_eq!(format_preview_origin(&PreviewOrigin::Cached("/c".into())), "cache (/c)");
}

#[test]
fn cache_tables_keep_the_latest_path() {
    let mut c = CacheStore::new(CacheData::default());
    assert_eq!(c.find_set(1), None);
    c.register_beatmap_set(1, "/a".into());
    c.register_beatmap_set(1, "/b".into());
    c.register_audio("h".into(), "/au".into());
    assert_eq!(c.find_set(1).as_deref(), Some("/b"));
    assert_eq!(c.find_audio("h").as_deref(), Some("/au"));
    assert_eq!(c.find_hash("h"), None);
    assert_eq!(c.get_thumbnail("h"), None);
    assert_eq!(c.data.beatmap_sets.as_map().len(), 1);
}
