use mcosu_importer::archive::OszMetadata;
use mcosu_importer::cache::{CacheData, CacheStore};
use mcosu_importer::errors::ImportError;
use mcosu_importer::guards::ImportGuards;
use mcosu_importer::importer::{duplicate_result, plan_import, prepare_import, ImportPlan, ImportResult};
use mcosu_importer::model::{AppConfig, BeatmapEntry, BeatmapMetadata, ImportStatus};
use mcosu_importer::pipeline::{
    begin_import, classify_import_error, classify_lowered, finish_import, is_ready_for_import,
    on_metadata, on_pickup, on_stability, update_entry, BeginImport, LogLevel, MetadataOutcome,
};

fn meta(set_id: Option<i32>) -> BeatmapMetadata {
    BeatmapMetadata {
        title: "Foo".into(),
        artist: "Bar".into(),
        creator: "Baz".into(),
        difficulties: vec![],
        beatmap_set_id: set_id,
        beatmap_ids: vec![],
        background_file: None,
        audio_file: None,
    }
}

fn settled(id: u64, path: &str) -> BeatmapEntry {
    let mut e = BeatmapEntry::new(id, path.into(), 0);
    on_pickup(&mut e);
    on_stability(&mut e, true);
    e
}

fn cfg() -> AppConfig {
    let mut c = AppConfig::with_downloads("/home/u/Downloads".into());
    c.songs_dir = "/games/Songs".into();
    c
}

#[test]
fn update_entry_sets_short_error_only_on_failure_or_detail() {
    let mut e = BeatmapEntry::new(1, "/dl/map.osz".into(), 0);
    let line = update_entry(&mut e, ImportStatus::Failed, Some("bad".into()), None).unwrap();
    assert_eq!(e.error_short.as_deref(), Some("bad"));
    assert_eq!(line.level, LogLevel::Error);
    assert_eq!(line.text, "map.osz: bad");
    let line = update_entry(&mut e, ImportStatus::ReadingMetadata, Some("ok".into()), Some("why".into())).unwrap();
    assert_eq!(e.error_short.as_deref(), Some("ok"));
    assert_eq!(line.level, LogLevel::Warn);
    assert_eq!(line.text, "map.osz: ok (why)");
    assert!(update_entry(&mut e, ImportStatus::ReadingMetadata, None, None).is_none());
    assert_eq!(e.error_short, None);
}

#[test]
fn classification_by_substring() {
    assert_eq!(classify_lowered("invalid zip archive"), "Falha ao extrair o .osz");
    assert_eq!(classify_lowered("permission denied"), "Falha ao criar/gravar na pasta destino");
    assert_eq!(classify_lowered("no metadata"), "Falha ao ler metadados");
    assert_eq!(classify_lowered("boom"), "Erro ao importar .osz");
    let (short, detail) = classify_import_error("Access DENIED by OS");
    assert_eq!(short, "Falha ao criar/gravar na pasta destino");
    assert_eq!(detail, "Access DENIED by OS");
}

#[test]
fn import_scenario_registers_set_and_then_skips_duplicate() {
    let mut cache = CacheStore::new(CacheData::default());
    let mut guards = ImportGuards::new();
    let config = cfg();
    let mut e = BeatmapEntry::new(3, "/home/u/Downloads/map.osz".into(), 0);
    on_pickup(&mut e);
    assert_eq!(e.status, ImportStatus::WaitingStable);
    let (go, _) = on_stability(&mut e, true);
    assert!(go);
    let read = OszMetadata { metadata: meta(Some(42)), thumbnail_path: None, hash: "h1".into() };
    let (outcome, _) = on_metadata(&mut e, Ok(read), &cache);
    assert_eq!(outcome, MetadataOutcome::Ready);
    assert!(is_ready_for_import(&e));
    let (start, _) = begin_import(&mut e, &mut guards, false);
    assert!(matches!(start, BeginImport::Started));
    assert_eq!(e.status, ImportStatus::Importing);
    let (busy, line) = begin_import(&mut e, &mut guards, false);
    assert!(matches!(busy, BeginImport::Busy));
    assert!(line.unwrap().text.contains("Importacao em andamento"));
    let dest = "/games/Songs/Bar - Foo (Baz) [42]".to_string();
    let (delete, _) = finish_import(
        &mut e,
        Ok(ImportResult { destination: dest.clone(), duplicated: false }),
        &mut cache,
        &config,
        &mut guards,
    );
    assert!(!delete);
    assert_eq!(e.status, ImportStatus::Completed);
    assert_eq!(cache.find_set(42).as_deref(), Some(dest.as_str()));
    assert_eq!(cache.find_hash("h1").as_deref(), Some(dest.as_str()));
    assert_eq!(plan_import(true, false), ImportPlan::ReportDuplicate);
    assert_eq!(plan_import(true, true), ImportPlan::ReplaceThenExtract);
    assert_eq!(plan_import(false, false), ImportPlan::Extract);

    let mut again = settled(4, "/home/u/Downloads/map.osz");
    let read = OszMetadata { metadata: meta(Some(42)), thumbnail_path: None, hash: "h2".into() };
    let (outcome, _) = on_metadata(&mut again, Ok(read), &cache);
    assert_eq!(outcome, MetadataOutcome::Duplicate);
    assert_eq!(again.status, ImportStatus::DuplicateSkipped);
    assert_eq!(again.destination.as_deref(), Some(dest.as_str()));
    let (nf, _) = begin_import(&mut again, &mut guards, false);
    assert!(matches!(nf, BeginImport::NotForced));
}

#[test]
fn duplicate_by_hash_and_failures() {
    let mut cache = CacheStore::new(CacheData::default());
    cache.register_hash("abc".into(), "/songs/x".into());
    let mut e = settled(5, "/dl/a.osz");
    let read = OszMetadata { metadata: meta(None), thumbnail_path: None, hash: "abc".into() };
    let (o, line) = on_metadata(&mut e, Ok(read), &cache);
    assert_eq!(o, MetadataOutcome::Duplicate);
    assert_eq!(line.unwrap().text, "a.osz: Duplicado (hash)");
    let mut f = settled(6, "/dl/b.osz");
    let (o, _) = on_metadata(&mut f, Err(ImportError::MetadataParse), &cache);
    assert_eq!(o, MetadataOutcome::Failed);
    assert_eq!(f.status, ImportStatus::Failed);
    let mut g = BeatmapEntry::new(7, "/dl/c.osz".into(), 0);
    on_pickup(&mut g);
    let (go, _) = on_stability(&mut g, false);
    assert!(!go);
    assert_eq!(g.status, ImportStatus::Failed);
    assert_eq!(g.message.as_deref(), Some("Arquivo nao estabilizou"));
}

#[test]
fn import_without_metadata_fails_and_releases_lock() {
    let mut guards = ImportGuards::new();
    let mut e = BeatmapEntry::new(8, "/dl/d.osz".into(), 0);
    let (r, _) = begin_import(&mut e, &mut guards, false);
    assert!(matches!(r, BeginImport::NoMetadata));
    assert_eq!(e.status, ImportStatus::Failed);
    assert!(guards.try_lock_entry(8));
}

#[test]
fn failed_extraction_is_classified_and_completed_import_may_delete() {
    let mut cache = CacheStore::new(CacheData::default());
    let mut guards = ImportGuards::new();
    let mut config = cfg();
    let mut e = BeatmapEntry::new(9, "/home/u/Downloads/e.osz".into(), 0);
    e.metadata = Some(meta(None));
    begin_import(&mut e, &mut guards, false);
    let (del, _) = finish_import(&mut e, Err("Zip file corrupt".into()), &mut cache, &config, &mut guards);
    assert!(!del);
    assert_eq!(e.status, ImportStatus::Failed);
    assert_eq!(e.message.as_deref(), Some("Falha ao extrair o .osz"));
    assert_eq!(e.error_detail.as_deref(), Some("Zip file corrupt"));
    config.auto_delete_source = true;
    begin_import(&mut e, &mut guards, false);
    let (del, _) = finish_import(
        &mut e,
        Ok(ImportResult { destination: "/games/Songs/x".into(), duplicated: false }),
        &mut cache,
        &config,
        &mut guards,
    );
    assert!(del);
    assert!(guards.try_lock_entry(9));
}

#[test]
fn second_import_without_force_is_a_duplicate() {
    let m = meta(Some(42));
    let (dest, plan) = prepare_import(&m, "/dl/map.osz", "/songs", false, false);
    assert_eq!(dest, "/songs/Bar - Foo (Baz) [42]");
    assert_eq!(plan, ImportPlan::Extract);
    assert!(duplicate_result(dest.clone(), plan).is_none());
    let (again, plan) = prepare_import(&m, "/dl/map.osz", "/songs", true, false);
    assert_eq!(again, dest);
    let r = duplicate_result(again, plan).unwrap();
    assert!(r.duplicated);
    assert_eq!(r.destination, dest);
    let (_, forced) = prepare_import(&m, "/dl/map.osz", "/songs", true, true);
    assert_eq!(forced, ImportPlan::ReplaceThenExtract);
}
