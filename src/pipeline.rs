//! The import orchestrator: every change to an entry goes through
//! `update_entry`, and each step of the pipeline is a function from the
//! entry and what the outside work returned to the next entry and the lines
//! to log. The caller performs the file-system work between steps.

use vstd::prelude::*;
use vstd::string::*;
use crate::archive::OszMetadata;
use crate::cache::CacheStore;
use crate::errors::ImportError;
use crate::guards::ImportGuards;
use crate::importer::ImportResult;
use crate::model::{AppConfig, BeatmapEntry, ImportStatus};
use crate::osu::opt_view;
use crate::paths::{can_delete_source, downloads_songs_conflict, file_name_of, overlap, within_dir};
use crate::text::{chars_of, contains_exec, contains_seq, lower_of, lowercase};

verus! {

#[derive(Clone, Copy, Debug, PartialEq, Eq, Structural)]
pub enum LogLevel {
    Info,
    Warn,
    Error,
}

/// A line for the log shown to the operator.
#[derive(Clone, Debug)]
pub struct LogLine {
    pub level: LogLevel,
    pub text: String,
}

pub open spec fn short_for(
    status: ImportStatus,
    message: Option<String>,
    detail: Option<String>,
) -> Option<String> {
    if status == ImportStatus::Failed || detail is Some {
        message
    } else {
        None
    }
}

pub open spec fn level_for(status: ImportStatus, has_detail: bool) -> LogLevel {
    if status == ImportStatus::Failed {
        LogLevel::Error
    } else if status == ImportStatus::DuplicateSkipped || has_detail {
        LogLevel::Warn
    } else {
        LogLevel::Info
    }
}

pub open spec fn name_of(e: BeatmapEntry) -> Seq<char> {
    match file_name_of(e.osz_path@) {
        Some(n) => n,
        None => Seq::empty(),
    }
}

/// `"<file name>: <message>"`, then `" (<detail>)"` when there is a detail.
pub open spec fn log_text(name: Seq<char>, msg: Seq<char>, detail: Option<Seq<char>>) -> Seq<char> {
    name + ": "@ + msg + match detail {
        Some(d) => " ("@ + d + ")"@,
        None => Seq::empty(),
    }
}

/// The entry after `update_entry`.
pub open spec fn updated(
    e: BeatmapEntry,
    status: ImportStatus,
    message: Option<String>,
    detail: Option<String>,
) -> BeatmapEntry {
    BeatmapEntry {
        status,
        message,
        error_detail: detail,
        error_short: short_for(status, message, detail),
        ..e
    }
}

/// The moves of the entry state machine: an annotation that keeps the
/// status; Detected to WaitingStable; WaitingStable to Failed or
/// ReadingMetadata; ReadingMetadata to Failed or DuplicateSkipped; an import
/// trigger from Detected, WaitingStable, ReadingMetadata or Failed, or from
/// any finished state when forced, to Importing, or to Failed when there is
/// no metadata; Importing to Completed, DuplicateSkipped or Failed.
pub open spec fn transition_ok(from: ImportStatus, to: ImportStatus, forced: bool) -> bool {
    ||| from == to
    ||| from == ImportStatus::Detected && to == ImportStatus::WaitingStable
    ||| from == ImportStatus::WaitingStable && (to == ImportStatus::Failed || to
        == ImportStatus::ReadingMetadata)
    ||| from == ImportStatus::ReadingMetadata && (to == ImportStatus::Failed || to
        == ImportStatus::DuplicateSkipped)
    ||| (to == ImportStatus::Importing || to == ImportStatus::Failed) && (from
        == ImportStatus::Detected || from == ImportStatus::WaitingStable || from
        == ImportStatus::ReadingMetadata || from == ImportStatus::Failed || (forced
        && from.is_terminal()))
    ||| from == ImportStatus::Importing && (to == ImportStatus::Completed || to
        == ImportStatus::DuplicateSkipped || to == ImportStatus::Failed)
}

/// The status may be entered from an entry in this state.
pub open spec fn can_enter(e: BeatmapEntry, status: ImportStatus) -> bool {
    &&& status == ImportStatus::Importing ==> e.metadata is Some
    &&& (status == ImportStatus::Completed || status == ImportStatus::DuplicateSkipped)
        ==> e.destination is Some
}

fn clone_opt(o: &Option<String>) -> (r: Option<String>)
    ensures
        r == *o,
{
    match o {
        Some(s) => Some(s.clone()),
        None => None,
    }
}

/// The one path by which an entry changes status and annotations: the
/// short error is the message when the entry failed or carries a detail.
/// Returns the log line for the change, when there is a message.
pub fn update_entry(
    entry: &mut BeatmapEntry,
    status: ImportStatus,
    message: Option<String>,
    error_detail: Option<String>,
) -> (r: Option<LogLine>)
    requires
        old(entry).wf(),
        can_enter(*old(entry), status),
    ensures
        *final(entry) == updated(*old(entry), status, message, error_detail),
        final(entry).wf(),
        r is Some <==> message is Some,
        r is Some ==> r->0.level == level_for(status, error_detail is Some) && r->0.text@
            == log_text(name_of(*old(entry)), message->0@, opt_view(error_detail)),
{
    let short = if status == ImportStatus::Failed || error_detail.is_some() {
        clone_opt(&message)
    } else {
        None
    };
    let line = match &message {
        Some(msg) => {
            let level = if status == ImportStatus::Failed {
                LogLevel::Error
            } else if status == ImportStatus::DuplicateSkipped || error_detail.is_some() {
                LogLevel::Warn
            } else {
                LogLevel::Info
            };
            let mut text = entry.source_file_name();
            text.append(": ");
            text.append(msg.as_str());
            match &error_detail {
                Some(d) => {
                    text.append(" (");
                    text.append(d.as_str());
                    text.append(")");
                },
                None => {},
            }
            Some(LogLine { level, text })
        },
        None => None,
    };
    entry.status = status;
    entry.message = message;
    entry.error_detail = error_detail;
    entry.error_short = short;
    line
}

pub open spec fn classify_spec(lowered: Seq<char>) -> Seq<char> {
    if contains_seq(lowered, "zip"@) || contains_seq(lowered, "archive"@) || contains_seq(
        lowered,
        "unzip"@,
    ) {
        "Falha ao extrair o .osz"@
    } else if contains_seq(lowered, "create"@) || contains_seq(lowered, "permiss"@)
        || contains_seq(lowered, "acesso"@) || contains_seq(lowered, "denied"@) {
        "Falha ao criar/gravar na pasta destino"@
    } else if contains_seq(lowered, "metadata"@) || contains_seq(lowered, "metadado"@) {
        "Falha ao ler metadados"@
    } else {
        "Erro ao importar .osz"@
    }
}

fn has(s: &Vec<char>, t: &str) -> (r: bool)
    ensures
        r == contains_seq(s@, t@),
{
    contains_exec(s, &chars_of(t))
}

/// The short category of an error text that is already lower-cased.
pub fn classify_lowered(lowered: &str) -> (r: String)
    ensures
        r@ == classify_spec(lowered@),
{
    let s = chars_of(lowered);
    if has(&s, "zip") || has(&s, "archive") || has(&s, "unzip") {
        String::from_str("Falha ao extrair o .osz")
    } else if has(&s, "create") || has(&s, "permiss") || has(&s, "acesso") || has(&s, "denied") {
        String::from_str("Falha ao criar/gravar na pasta destino")
    } else if has(&s, "metadata") || has(&s, "metadado") {
        String::from_str("Falha ao ler metadados")
    } else {
        String::from_str("Erro ao importar .osz")
    }
}

/// Splits an import error into a short category, found in the lower-cased
/// text, and the full text as detail.
pub fn classify_import_error(err: &str) -> (r: (String, String))
    ensures
        r.0@ == classify_spec(lower_of(err@)),
        r.1@ == err@,
{
    let lowered = lowercase(err);
    (classify_lowered(lowered.as_str()), String::from_str(err))
}

/// Has metadata and is neither in flight nor finished.
pub open spec fn ready_spec(e: BeatmapEntry) -> bool {
    e.metadata is Some && !(e.status == ImportStatus::Completed || e.status
        == ImportStatus::Importing || e.status == ImportStatus::DuplicateSkipped || e.status
        == ImportStatus::Failed)
}

pub fn is_ready_for_import(entry: &BeatmapEntry) -> (r: bool)
    ensures
        r == ready_spec(*entry),
{
    if entry.metadata.is_none() {
        return false;
    }
    !(entry.status == ImportStatus::Completed || entry.status == ImportStatus::Importing
        || entry.status == ImportStatus::DuplicateSkipped || entry.status == ImportStatus::Failed)
}

/// Turns auto-import and auto-delete off when the folders overlap, and
/// returns the warning.
pub fn enforce_path_safety(cfg: &mut AppConfig) -> (r: Option<String>)
    ensures
        r is None <==> overlap(old(cfg).downloads_dir@, old(cfg).songs_dir@) is None,
        final(cfg).auto_import == (old(cfg).auto_import && r is None),
        final(cfg).auto_delete_source == (old(cfg).auto_delete_source && r is None),
        final(cfg).downloads_dir == old(cfg).downloads_dir,
        final(cfg).songs_dir == old(cfg).songs_dir,
        final(cfg).stability == old(cfg).stability,
        final(cfg).suppress_delete_prompt == old(cfg).suppress_delete_prompt,
        final(cfg).last_link == old(cfg).last_link,
{
    let warning = downloads_songs_conflict(cfg.downloads_dir.as_str(), cfg.songs_dir.as_str());
    if warning.is_some() {
        cfg.auto_import = false;
        cfg.auto_delete_source = false;
    }
    warning
}

/// The configuration to start with: auto-import never survives a restart,
/// and overlapping folders disable the automatic actions. Returns whether
/// the stored configuration must be saved again.
pub fn load_startup_config(cfg: &mut AppConfig) -> (r: bool)
    ensures
        r == old(cfg).auto_import,
        !final(cfg).auto_import,
        final(cfg).auto_delete_source == (old(cfg).auto_delete_source && overlap(
            old(cfg).downloads_dir@,
            old(cfg).songs_dir@,
        ) is None),
        final(cfg).downloads_dir == old(cfg).downloads_dir,
        final(cfg).songs_dir == old(cfg).songs_dir,
{
    let must_save = cfg.auto_import;
    cfg.auto_import = false;
    enforce_path_safety(cfg);
    must_save
}

/// First step of a detected entry: it waits for its file to settle.
pub fn on_pickup(entry: &mut BeatmapEntry) -> (r: Option<LogLine>)
    requires
        old(entry).wf(),
        old(entry).status == ImportStatus::Detected,
    ensures
        transition_ok(old(entry).status, final(entry).status, false),
        *final(entry) == updated(*old(entry), ImportStatus::WaitingStable, None, None),
        final(entry).wf(),
        r is None,
{
    update_entry(entry, ImportStatus::WaitingStable, None, None)
}

/// After the stability check: a file that never settled fails; otherwise
/// its metadata is read next. Returns whether the pipeline goes on.
pub fn on_stability(entry: &mut BeatmapEntry, stable: bool) -> (r: (bool, Option<LogLine>))
    requires
        old(entry).wf(),
        old(entry).status == ImportStatus::WaitingStable,
    ensures
        transition_ok(old(entry).status, final(entry).status, false),
        r.0 == stable,
        final(entry).wf(),
        stable ==> *final(entry) == updated(*old(entry), ImportStatus::ReadingMetadata, None, None),
        !stable ==> *final(entry) == updated(
            *old(entry),
            ImportStatus::Failed,
            final(entry).message,
            final(entry).error_detail,
        ) && final(entry).message is Some && final(entry).message->0@ == "Arquivo nao estabilizou"@
            && final(entry).error_detail is Some && final(entry).error_detail->0@
            == ImportError::StabilityTimeout.message_spec() && r.1 is Some && r.1->0.level
            == LogLevel::Error,
{
    if stable {
        let l = update_entry(entry, ImportStatus::ReadingMetadata, None, None);
        (true, l)
    } else {
        let l = update_entry(
            entry,
            ImportStatus::Failed,
            Some(String::from_str("Arquivo nao estabilizou")),
            Some(ImportError::StabilityTimeout.message()),
        );
        (false, l)
    }
}

/// Where an entry stands after its metadata was read.
#[derive(Clone, Copy, Debug, PartialEq, Eq, Structural)]
pub enum MetadataOutcome {
    /// The set id or the content hash is already in the cache.
    Duplicate,
    /// Ready to import.
    Ready,
    /// The metadata could not be read.
    Failed,
}

fn first_chars(s: &String, n: usize) -> (r: String)
    ensures
        r@ == if s@.len() <= n {
            s@
        } else {
            s@.subrange(0, n as int)
        },
{
    let v = chars_of(s.as_str());
    let k = if v.len() <= n {
        v.len()
    } else {
        n
    };
    let w = crate::text::sub_chars(&v, 0, k);
    crate::text::string_of(&w)
}

/// Records what reading the metadata gave. A set id or a content hash that
/// the cache knows makes the entry a duplicate of the folder it names,
/// the set id first; otherwise the entry waits for an import.
pub fn on_metadata(
    entry: &mut BeatmapEntry,
    read: Result<OszMetadata, ImportError>,
    cache: &CacheStore,
) -> (r: (MetadataOutcome, Option<LogLine>))
    requires
        old(entry).wf(),
        old(entry).status == ImportStatus::ReadingMetadata,
    ensures
        transition_ok(old(entry).status, final(entry).status, false),
        final(entry).wf(),
        final(entry).id == old(entry).id,
        final(entry).osz_path == old(entry).osz_path,
        read is Err <==> r.0 == MetadataOutcome::Failed,
        read is Err ==> *final(entry) == updated(
            *old(entry),
            ImportStatus::Failed,
            final(entry).message,
            final(entry).error_detail,
        ) && final(entry).message is Some && final(entry).message->0@ == "Erro ao ler metadados"@
            && final(entry).error_detail is Some && final(entry).error_detail->0@
            == read->Err_0.message_spec(),
        read is Ok ==> ({
            let m = read->Ok_0;
            let by_set = m.metadata.beatmap_set_id is Some && cache.data.beatmap_sets@.contains_key(
                m.metadata.beatmap_set_id->0,
            );
            let by_hash = cache.data.osz_hashes@.contains_key(m.hash@);
            &&& final(entry).metadata == Some(m.metadata)
            &&& final(entry).osz_hash == Some(m.hash)
            &&& final(entry).thumbnail_path == m.thumbnail_path
            &&& by_set ==> r.0 == MetadataOutcome::Duplicate && final(entry).status
                == ImportStatus::DuplicateSkipped && final(entry).destination->0@
                == cache.data.beatmap_sets@[m.metadata.beatmap_set_id->0]
            &&& !by_set && by_hash ==> r.0 == MetadataOutcome::Duplicate && final(entry).status
                == ImportStatus::DuplicateSkipped && final(entry).destination->0@
                == cache.data.osz_hashes@[m.hash@]
            &&& !by_set && !by_hash ==> r.0 == MetadataOutcome::Ready && final(entry).status
                == ImportStatus::ReadingMetadata && final(entry).destination
                == old(entry).destination
        }),
{
    match read {
        Err(e) => {
            let l = update_entry(
                entry,
                ImportStatus::Failed,
                Some(String::from_str("Erro ao ler metadados")),
                Some(e.message()),
            );
            (MetadataOutcome::Failed, l)
        },
        Ok(m) => {
            let set_id = m.metadata.beatmap_set_id;
            let hash = m.hash;
            entry.metadata = Some(m.metadata);
            entry.thumbnail_path = m.thumbnail_path;
            entry.osz_hash = Some(hash.clone());
            match set_id {
                Some(id) => match cache.find_set(id) {
                    Some(dest) => {
                        entry.destination = Some(dest);
                        let l = update_entry(
                            entry,
                            ImportStatus::DuplicateSkipped,
                            Some(String::from_str("Duplicado (BeatmapSetID)")),
                            None,
                        );
                        return (MetadataOutcome::Duplicate, l);
                    },
                    None => {},
                },
                None => {},
            }
            match cache.find_hash(hash.as_str()) {
                Some(dest) => {
                    entry.destination = Some(dest);
                    let l = update_entry(
                        entry,
                        ImportStatus::DuplicateSkipped,
                        Some(String::from_str("Duplicado (hash)")),
                        None,
                    );
                    (MetadataOutcome::Duplicate, l)
                },
                None => {
                    let mut msg = String::from_str("Metadados lidos (");
                    let short = first_chars(&hash, 8);
                    msg.append(short.as_str());
                    msg.append(")");
                    let l = update_entry(entry, ImportStatus::ReadingMetadata, Some(msg), None);
                    (MetadataOutcome::Ready, l)
                },
            }
        },
    }
}

/// Whether an entry whose metadata was read is imported right away.
#[derive(Clone, Copy, Debug, PartialEq, Eq, Structural)]
pub enum AutoImport {
    Run,
    /// Asked for, but the folders overlap.
    Blocked,
    Off,
}

/// Whether to import right after reading the metadata: only an entry that
/// is ready, with auto-import on and the folders apart.
pub fn auto_import_decision(cfg: &AppConfig, outcome: MetadataOutcome) -> (r: AutoImport)
    ensures
        r == if !cfg.auto_import || outcome != MetadataOutcome::Ready {
            AutoImport::Off
        } else if overlap(cfg.downloads_dir@, cfg.songs_dir@) is None {
            AutoImport::Run
        } else {
            AutoImport::Blocked
        },
{
    if !cfg.auto_import || outcome != MetadataOutcome::Ready {
        AutoImport::Off
    } else if downloads_songs_conflict(cfg.downloads_dir.as_str(), cfg.songs_dir.as_str()).is_none() {
        AutoImport::Run
    } else {
        AutoImport::Blocked
    }
}

/// How an import trigger was taken.
#[derive(Debug)]
pub enum BeginImport {
    /// The entry is locked and in Importing; import with its metadata,
    /// then call `finish_import`.
    Started,
    /// Another import of the entry holds its lock: nothing changed.
    Busy,
    /// A finished entry is only imported again when forced: nothing changed.
    NotForced,
    /// The entry has no metadata: it failed, and its lock is released.
    NoMetadata,
}

/// Takes an import trigger for `entry`: the per-entry lock guards it, and a
/// Completed or skipped entry re-enters only when `force` is set.
pub fn begin_import(entry: &mut BeatmapEntry, guards: &mut ImportGuards, force: bool) -> (r: (
    BeginImport,
    Option<LogLine>,
))
    requires
        old(entry).wf(),
    ensures
        transition_ok(old(entry).status, final(entry).status, force),
        final(entry).wf(),
        final(guards).bulk() == old(guards).bulk(),
        r.0 is NotForced <==> !force && (old(entry).status == ImportStatus::Completed || old(
            entry,
        ).status == ImportStatus::DuplicateSkipped),
        r.0 is NotForced ==> *final(entry) == *old(entry) && final(guards).running() == old(
            guards,
        ).running() && r.1 is Some && r.1->0.level == LogLevel::Warn && r.1->0.text@ == name_of(
            *old(entry),
        ) + ": Item ja finalizado; use a reimportacao forcada"@,
        r.0 is Busy <==> !(!force && (old(entry).status == ImportStatus::Completed
            || old(entry).status == ImportStatus::DuplicateSkipped)) && old(
            guards,
        ).running().contains(old(entry).id),
        r.0 is Busy ==> *final(entry) == *old(entry) && final(guards).running() == old(
            guards,
        ).running() && r.1 is Some && r.1->0.level == LogLevel::Warn && r.1->0.text@ == name_of(
            *old(entry),
        ) + ": Importacao em andamento; clique repetido ignorado"@,
        r.0 is Started ==> *final(entry) == updated(*old(entry), ImportStatus::Importing, None, None)
            && final(entry).metadata is Some && final(guards).running() == old(
            guards,
        ).running().insert(old(entry).id),
        r.0 is NoMetadata <==> (!(!force && (old(entry).status == ImportStatus::Completed
            || old(entry).status == ImportStatus::DuplicateSkipped)) && !old(
            guards,
        ).running().contains(old(entry).id) && old(entry).metadata is None),
        r.0 is NoMetadata ==> *final(entry) == updated(
            *old(entry),
            ImportStatus::Failed,
            final(entry).message,
            final(entry).error_detail,
        ) && final(entry).message is Some && final(entry).message->0@ == "Sem metadados"@
            && final(entry).error_detail is Some && final(entry).error_detail->0@
            == ImportError::MissingMetadata.message_spec() && final(guards).running() == old(
            guards,
        ).running() && r.1 is Some,
        final(entry).id == old(entry).id,
        final(entry).osz_path == old(entry).osz_path,
        final(entry).osz_hash == old(entry).osz_hash,
{
    if !force && (entry.status == ImportStatus::Completed || entry.status
        == ImportStatus::DuplicateSkipped) {
        let mut text = entry.source_file_name();
        text.append(": Item ja finalizado; use a reimportacao forcada");
        return (BeginImport::NotForced, Some(LogLine { level: LogLevel::Warn, text }));
    }
    if !guards.try_lock_entry(entry.id) {
        let mut text = entry.source_file_name();
        text.append(": Importacao em andamento; clique repetido ignorado");
        return (BeginImport::Busy, Some(LogLine { level: LogLevel::Warn, text }));
    }
    if entry.metadata.is_some() {
        let l = update_entry(entry, ImportStatus::Importing, None, None);
        (BeginImport::Started, l)
    } else {
        {
            let l = update_entry(
                entry,
                ImportStatus::Failed,
                Some(String::from_str("Sem metadados")),
                Some(ImportError::MissingMetadata.message()),
            );
            guards.release_entry(entry.id);
            proof {
                assert(old(guards).running().insert(old(entry).id).remove(old(entry).id)
                    =~= old(guards).running());
            }
            (BeginImport::NoMetadata, l)
        }
    }
}


/// Ends an import started by `begin_import`, with what the extraction
/// returned (its error as text). A success, duplicate or not, records the
/// destination under the set id and the content hash; a failure is
/// classified. The entry's lock is released. Returns whether the source
/// file should now be deleted: a completed import with auto-delete on and
/// the folders apart.
pub fn finish_import(
    entry: &mut BeatmapEntry,
    outcome: Result<ImportResult, String>,
    cache: &mut CacheStore,
    cfg: &AppConfig,
    guards: &mut ImportGuards,
) -> (r: (bool, Option<LogLine>))
    requires
        old(entry).wf(),
        old(entry).status == ImportStatus::Importing,
    ensures
        transition_ok(old(entry).status, final(entry).status, false),
        final(entry).wf(),
        final(entry).id == old(entry).id,
        final(entry).metadata == old(entry).metadata,
        final(guards).running() == old(guards).running().remove(old(entry).id),
        final(guards).bulk() == old(guards).bulk(),
        final(cache).data.thumbnails@ == old(cache).data.thumbnails@,
        final(cache).data.audio_files@ == old(cache).data.audio_files@,
        match outcome {
            Ok(res) => {
                let set_id = old(entry).metadata->0.beatmap_set_id;
                &&& final(entry).destination == Some(res.destination)
                &&& final(entry).status == if res.duplicated {
                    ImportStatus::DuplicateSkipped
                } else {
                    ImportStatus::Completed
                }
                &&& final(cache).data.beatmap_sets@ == match set_id {
                    Some(id) => old(cache).data.beatmap_sets@.insert(id, res.destination@),
                    None => old(cache).data.beatmap_sets@,
                }
                &&& final(cache).data.osz_hashes@ == match old(entry).osz_hash {
                    Some(h) => old(cache).data.osz_hashes@.insert(h@, res.destination@),
                    None => old(cache).data.osz_hashes@,
                }
                &&& r.0 == (!res.duplicated && cfg.auto_delete_source && overlap(
                    cfg.downloads_dir@,
                    cfg.songs_dir@,
                ) is None)
            },
            Err(t) => {
                &&& final(entry).status == ImportStatus::Failed
                &&& final(entry).message is Some
                &&& final(entry).message->0@ == classify_spec(lower_of(t@))
                &&& final(entry).error_detail is Some
                &&& final(entry).error_detail->0@ == t@
                &&& final(cache).data.beatmap_sets@ == old(cache).data.beatmap_sets@
                &&& final(cache).data.osz_hashes@ == old(cache).data.osz_hashes@
                &&& !r.0
            },
        },
{
    let id = entry.id;
    let result = match outcome {
        Ok(res) => {
            entry.destination = Some(res.destination.clone());
            let status = if res.duplicated {
                ImportStatus::DuplicateSkipped
            } else {
                ImportStatus::Completed
            };
            let msg = if res.duplicated {
                String::from_str("Duplicado - pasta ja existia")
            } else {
                String::from_str("Importado")
            };
            match &entry.metadata {
                Some(meta) => match meta.beatmap_set_id {
                    Some(set_id) => cache.register_beatmap_set(set_id, res.destination.clone()),
                    None => {},
                },
                None => {},
            }
            match &entry.osz_hash {
                Some(h) => cache.register_hash(h.clone(), res.destination.clone()),
                None => {},
            }
            let l = update_entry(entry, status, Some(msg), None);
            let delete = status == ImportStatus::Completed && cfg.auto_delete_source
                && downloads_songs_conflict(cfg.downloads_dir.as_str(), cfg.songs_dir.as_str()).is_none();
            (delete, l)
        },
        Err(t) => {
            let (short, detail) = classify_import_error(t.as_str());
            let l = update_entry(entry, ImportStatus::Failed, Some(short), Some(detail));
            (false, l)
        },
    };
    guards.release_entry(id);
    result
}

/// Whether the source file of an entry may be deleted.
#[derive(Debug)]
pub enum DeleteGate {
    /// The folders overlap: deleting is disabled.
    Protected,
    /// The source lies outside the downloads folder.
    OutsideDownloads,
    /// Deleting is allowed.
    Allowed,
}

/// The safety checks before a source file is deleted, with the warning to
/// log when one fails.
pub fn delete_source_gate(entry: &BeatmapEntry, cfg: &AppConfig) -> (r: (DeleteGate, Option<LogLine>))
    ensures
        r.0 is Protected <==> overlap(cfg.downloads_dir@, cfg.songs_dir@) is Some,
        r.0 is Allowed <==> can_delete_spec(cfg, entry),
        !(r.0 is Allowed) ==> r.1 is Some && r.1->0.level == LogLevel::Warn,
        r.0 is Allowed ==> r.1 is None,
{
    match downloads_songs_conflict(cfg.downloads_dir.as_str(), cfg.songs_dir.as_str()) {
        Some(warn) => {
            let mut text = String::from_str("Protecao ativa: ");
            text.append(warn.as_str());
            return (DeleteGate::Protected, Some(LogLine { level: LogLevel::Warn, text }));
        },
        None => {},
    }
    if !can_delete_source(
        cfg.downloads_dir.as_str(),
        cfg.songs_dir.as_str(),
        entry.osz_path.as_str(),
    ) {
        let mut text = entry.source_file_name();
        text.append(": Fonte fora da pasta de Downloads configurada; nada apagado");
        return (DeleteGate::OutsideDownloads, Some(LogLine { level: LogLevel::Warn, text }));
    }
    (DeleteGate::Allowed, None)
}

pub open spec fn can_delete_spec(cfg: &AppConfig, entry: &BeatmapEntry) -> bool {
    overlap(cfg.downloads_dir@, cfg.songs_dir@) is None && within_dir(
        cfg.downloads_dir@,
        entry.osz_path@,
    )
}

/// A manual delete is only for completed entries.
pub fn manual_delete_allowed(entry: &BeatmapEntry) -> (r: (bool, Option<LogLine>))
    ensures
        r.0 == (entry.status == ImportStatus::Completed),
        r.0 <==> r.1 is None,
{
    if entry.status != ImportStatus::Completed {
        let mut text = entry.source_file_name();
        text.append(": Apenas itens concluidos podem apagar a fonte");
        return (false, Some(LogLine { level: LogLevel::Warn, text }));
    }
    (true, None)
}

/// Records that the source file was already gone.
pub fn on_source_missing(entry: &mut BeatmapEntry) -> (r: Option<LogLine>)
    requires
        old(entry).wf(),
    ensures
        transition_ok(old(entry).status, final(entry).status, false),
        final(entry).wf(),
        final(entry).status == old(entry).status,
        final(entry).message is Some,
        final(entry).message->0@ == "Fonte nao encontrada em Downloads"@,
        final(entry).error_detail is None,
        r is Some,
{
    let st = entry.status;
    update_entry(entry, st, Some(String::from_str("Fonte nao encontrada em Downloads")), None)
}

/// Records how deleting the source file went: `success_msg` on success,
/// `"<context>: fonte nao removida"` with the error as detail otherwise.
pub fn on_delete_result(
    entry: &mut BeatmapEntry,
    result: Result<(), String>,
    success_msg: &str,
    failure_context: &str,
) -> (r: Option<LogLine>)
    requires
        old(entry).wf(),
    ensures
        final(entry).wf(),
        final(entry).status == old(entry).status,
        final(entry).message is Some,
        result is Ok ==> final(entry).message->0@ == success_msg@ && final(entry).error_detail
            is None,
        result is Err ==> final(entry).message->0@ == failure_context@ + ": fonte nao removida"@
            && final(entry).error_detail is Some && final(entry).error_detail->0@ == result->Err_0@,
        r is Some,
{
    let st = entry.status;
    match result {
        Ok(()) => update_entry(entry, st, Some(String::from_str(success_msg)), None),
        Err(e) => {
            let mut msg = String::from_str(failure_context);
            msg.append(": fonte nao removida");
            update_entry(entry, st, Some(msg), Some(e))
        },
    }
}

/// How a request to import every ready entry was taken.
#[derive(Clone, Copy, Debug, PartialEq, Eq, Structural)]
pub enum BulkStart {
    /// The folders overlap.
    Blocked,
    /// A bulk pass is already running: the request is dropped.
    AlreadyRunning,
    /// The pass may run; `ImportGuards::finish_bulk` ends it.
    Started,
}

pub fn start_bulk(cfg: &AppConfig, guards: &mut ImportGuards) -> (r: (BulkStart, Option<LogLine>))
    ensures
        overlap(cfg.downloads_dir@, cfg.songs_dir@) is Some ==> r.0 == BulkStart::Blocked
            && final(guards).bulk() == old(guards).bulk(),
        overlap(cfg.downloads_dir@, cfg.songs_dir@) is None ==> r.0 == if old(guards).bulk() {
            BulkStart::AlreadyRunning
        } else {
            BulkStart::Started
        },
        overlap(cfg.downloads_dir@, cfg.songs_dir@) is None ==> final(guards).bulk(),
        final(guards).running() == old(guards).running(),
        r.0 == BulkStart::Started <==> r.1 is None,
        r.1 is Some ==> r.1->0.level == LogLevel::Warn,
{
    if downloads_songs_conflict(cfg.downloads_dir.as_str(), cfg.songs_dir.as_str()).is_some() {
        let text = String::from_str("Importar ja bloqueado por configuracao insegura de caminhos.");
        return (BulkStart::Blocked, Some(LogLine { level: LogLevel::Warn, text }));
    }
    if !guards.try_start_bulk() {
        let text = String::from_str("Importar ja ja esta em andamento; clique ignorado.");
        return (BulkStart::AlreadyRunning, Some(LogLine { level: LogLevel::Warn, text }));
    }
    (BulkStart::Started, None)
}

/// The ids of the entries ready for import, in order.
pub fn ready_entries(entries: &Vec<BeatmapEntry>) -> (r: Vec<u64>)
    ensures
        r@ == ready_ids(entries@),
{
    let mut r: Vec<u64> = Vec::new();
    let mut i: usize = 0;
    assert(entries@.subrange(0, 0) =~= Seq::<BeatmapEntry>::empty());
    while i < entries.len()
        invariant
            i <= entries@.len(),
            r@ == ready_ids(entries@.subrange(0, i as int)),
        decreases entries@.len() - i,
    {
        assert(entries@.subrange(0, i as int + 1).drop_last() =~= entries@.subrange(0, i as int));
        if is_ready_for_import(&entries[i]) {
            r.push(entries[i].id);
        }
        i = i + 1;
    }
    assert(entries@.subrange(0, entries@.len() as int) =~= entries@);
    r
}

pub open spec fn ready_ids(es: Seq<BeatmapEntry>) -> Seq<u64>
    decreases es.len(),
{
    if es.len() == 0 {
        Seq::empty()
    } else if ready_spec(es.last()) {
        ready_ids(es.drop_last()).push(es.last().id)
    } else {
        ready_ids(es.drop_last())
    }
}

} // verus!
