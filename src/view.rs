//! What the operator sees of an entry: labels, annotations and which
//! actions are offered. The caller says whether the source archive and the
//! destination folder exist on disk.

use vstd::prelude::*;
use vstd::string::*;
use crate::download::{shorten_middle, shortened};
use crate::model::{AppConfig, BeatmapEntry, ImportStatus};
use crate::paths::{can_delete_source, is_within_dir, overlap, within_dir};
use crate::pipeline::name_of;
use crate::playback::audio_status_ui;

verus! {

/// The colour of the status badge, as red, green and blue.
pub open spec fn badge_spec(s: ImportStatus) -> (u8, u8, u8) {
    match s {
        ImportStatus::Importing => (93, 139, 255),
        ImportStatus::Completed => (92, 193, 146),
        ImportStatus::DuplicateSkipped => (245, 192, 107),
        ImportStatus::Failed => (228, 123, 123),
        ImportStatus::ReadingMetadata => (126, 138, 168),
        ImportStatus::WaitingStable => (126, 138, 168),
        ImportStatus::Detected => (110, 120, 140),
    }
}

pub fn status_badge_color(status: &ImportStatus) -> (r: (u8, u8, u8))
    ensures
        r == badge_spec(*status),
{
    match status {
        ImportStatus::Importing => (93, 139, 255),
        ImportStatus::Completed => (92, 193, 146),
        ImportStatus::DuplicateSkipped => (245, 192, 107),
        ImportStatus::Failed => (228, 123, 123),
        ImportStatus::ReadingMetadata | ImportStatus::WaitingStable => (126, 138, 168),
        ImportStatus::Detected => (110, 120, 140),
    }
}

/// The pieces separated by `sep`.
pub open spec fn joined(parts: Seq<Seq<char>>, sep: Seq<char>) -> Seq<char>
    decreases parts.len(),
{
    if parts.len() == 0 {
        Seq::empty()
    } else if parts.len() == 1 {
        parts[0]
    } else {
        joined(parts.drop_last(), sep) + sep + parts.last()
    }
}

pub fn join_with(parts: &Vec<String>, sep: &str) -> (r: String)
    ensures
        r@ == joined(parts@.map_values(|p: String| p@), sep@),
{
    let ghost ps = parts@.map_values(|p: String| p@);
    let mut r = String::new();
    let mut i: usize = 0;
    assert(ps.subrange(0, 0) =~= Seq::<Seq<char>>::empty());
    while i < parts.len()
        invariant
            i <= parts@.len(),
            ps == parts@.map_values(|p: String| p@),
            r@ == joined(ps.subrange(0, i as int), sep@),
        decreases parts@.len() - i,
    {
        let ghost next = ps.subrange(0, i as int + 1);
        assert(next.drop_last() =~= ps.subrange(0, i as int));
        assert(next.last() == parts@[i as int]@);
        if i > 0 {
            r.append(sep);
        } else {
            assert(next.len() == 1);
        }
        r.append(parts[i].as_str());
        i = i + 1;
    }
    assert(ps.subrange(0, parts@.len() as int) =~= ps);
    r
}

pub open spec fn or_empty(o: Option<String>) -> Seq<char> {
    match o {
        Some(s) => s@,
        None => Seq::empty(),
    }
}

/// The message, short error and detail shown for an entry: a failure
/// always shows a short error and a detail and no message; a detail
/// without a short error promotes the message.
pub open spec fn annotations(e: BeatmapEntry) -> (Seq<char>, Seq<char>, Seq<char>) {
    let msg = or_empty(e.message);
    let short = or_empty(e.error_short);
    let detail = or_empty(e.error_detail);
    if e.status == ImportStatus::Failed {
        let s = if short.len() > 0 {
            short
        } else if msg.len() > 0 {
            msg
        } else {
            "Falha ao importar"@
        };
        (Seq::empty(), s, if detail.len() > 0 {
            detail
        } else {
            s
        })
    } else if detail.len() > 0 && short.len() == 0 {
        (Seq::empty(), if msg.len() > 0 {
            msg
        } else {
            "Aviso ao remover fonte"@
        }, detail)
    } else {
        (msg, short, detail)
    }
}

/// Why deleting the source is not offered, for a completed entry.
pub open spec fn delete_hint_spec(
    e: BeatmapEntry,
    cfg: AppConfig,
    warning: Option<Seq<char>>,
    source_exists: bool,
) -> Seq<char> {
    if e.status != ImportStatus::Completed {
        Seq::empty()
    } else if !source_exists {
        "Fonte nao encontrada"@
    } else if warning is Some {
        warning->0
    } else if !within_dir(cfg.downloads_dir@, e.osz_path@) {
        "Fonte fora de Downloads"@
    } else {
        Seq::empty()
    }
}

/// The view of one entry.
#[derive(Debug)]
pub struct EntryView {
    pub id: u64,
    pub title: String,
    pub artist: String,
    pub creator: String,
    pub source: String,
    pub source_short: String,
    pub destination: String,
    pub destination_short: String,
    pub difficulties: String,
    pub status: String,
    pub badge: (u8, u8, u8),
    pub message: String,
    pub error_short: String,
    pub error_detail: String,
    pub show_delete: bool,
    pub can_delete_source: bool,
    pub delete_hint: String,
    pub can_import: bool,
    pub can_reimport: bool,
    pub can_ignore: bool,
    pub audio_available: bool,
    pub audio_playing: bool,
    pub audio_status: String,
    pub audio_enabled: bool,
    pub preview_enabled: bool,
}

fn text_or(o: &Option<String>, fallback: &str) -> (r: String)
    ensures
        r@ == match o {
            Some(s) => s@,
            None => fallback@,
        },
{
    match o {
        Some(s) => s.clone(),
        None => String::from_str(fallback),
    }
}

/// The view of `entry`; `warning` is the folder-overlap warning, if any.
pub fn entry_view(
    entry: &BeatmapEntry,
    cfg: &AppConfig,
    warning: Option<&str>,
    source_exists: bool,
    destination_exists: bool,
) -> (r: EntryView)
    ensures
        r.id == entry.id,
        r.title@ == match entry.metadata {
            Some(m) => m.artist@ + " - "@ + m.title@,
            None => "Desconhecido"@,
        },
        r.artist@ == match entry.metadata {
            Some(m) => m.artist@,
            None => Seq::empty(),
        },
        r.creator@ == match entry.metadata {
            Some(m) => m.creator@,
            None => Seq::empty(),
        },
        r.source@ == name_of(*entry),
        r.source_short@ == shortened(name_of(*entry), 32),
        r.destination@ == match entry.destination {
            Some(d) => d@,
            None => "-"@,
        },
        r.destination_short@ == shortened(r.destination@, 42),
        r.difficulties@ == match entry.metadata {
            Some(m) => joined(m.difficulties@.map_values(|p: String| p@), ", "@),
            None => Seq::empty(),
        },
        r.status@ == entry.status.display_spec(),
        r.badge == badge_spec(entry.status),
        (r.message@, r.error_short@, r.error_detail@) == annotations(*entry),
        r.show_delete == (entry.status == ImportStatus::Completed),
        r.can_delete_source == (entry.status == ImportStatus::Completed && overlap(
            cfg.downloads_dir@,
            cfg.songs_dir@,
        ) is None && within_dir(cfg.downloads_dir@, entry.osz_path@) && source_exists),
        r.delete_hint@ == delete_hint_spec(
            *entry,
            *cfg,
            match warning {
                Some(w) => Some(w@),
                None => None,
            },
            source_exists,
        ),
        r.can_import == (entry.status == ImportStatus::Detected || entry.status
            == ImportStatus::WaitingStable || entry.status == ImportStatus::ReadingMetadata
            || entry.status == ImportStatus::Failed),
        r.can_reimport == (entry.status == ImportStatus::DuplicateSkipped || entry.status
            == ImportStatus::Completed || entry.status == ImportStatus::Failed),
        r.can_ignore == (entry.status != ImportStatus::Importing),
        r.preview_enabled == (entry.metadata is Some && (source_exists || (entry.destination is Some
            && destination_exists))),
{
    let show_delete = entry.status == ImportStatus::Completed;
    let in_downloads = is_within_dir(cfg.downloads_dir.as_str(), entry.osz_path.as_str());
    let can_delete = show_delete && can_delete_source(
        cfg.downloads_dir.as_str(),
        cfg.songs_dir.as_str(),
        entry.osz_path.as_str(),
    ) && source_exists;
    let can_import = entry.status == ImportStatus::Detected || entry.status
        == ImportStatus::WaitingStable || entry.status == ImportStatus::ReadingMetadata
        || entry.status == ImportStatus::Failed;
    let can_reimport = entry.status == ImportStatus::DuplicateSkipped || entry.status
        == ImportStatus::Completed || entry.status == ImportStatus::Failed;
    let can_ignore = entry.status != ImportStatus::Importing;
    let msg = text_or(&entry.message, "");
    let short = text_or(&entry.error_short, "");
    let detail = text_or(&entry.error_detail, "");
    proof {
        reveal_strlit("");
    }
    let (info, s, d) = if entry.status == ImportStatus::Failed {
        let s = if !short.as_str().is_empty() {
            short
        } else if !msg.as_str().is_empty() {
            msg
        } else {
            String::from_str("Falha ao importar")
        };
        let d = if !detail.as_str().is_empty() {
            detail
        } else {
            s.clone()
        };
        (String::new(), s, d)
    } else if !detail.as_str().is_empty() && short.as_str().is_empty() {
        let s = if !msg.as_str().is_empty() {
            msg
        } else {
            String::from_str("Aviso ao remover fonte")
        };
        (String::new(), s, detail)
    } else {
        (msg, short, detail)
    };
    let hint = if !show_delete {
        String::new()
    } else if !source_exists {
        String::from_str("Fonte nao encontrada")
    } else {
        match warning {
            Some(w) => String::from_str(w),
            None => if !in_downloads {
                String::from_str("Fonte fora de Downloads")
            } else {
                String::new()
            },
        }
    };
    let (title, artist, creator, difficulties) = match &entry.metadata {
        Some(m) => (
            m.display_title(),
            m.artist.clone(),
            m.creator.clone(),
            join_with(&m.difficulties, ", "),
        ),
        None => (String::from_str("Desconhecido"), String::new(), String::new(), String::new()),
    };
    let source = entry.source_file_name();
    let source_short = shorten_middle(source.as_str(), 32);
    let destination = text_or(&entry.destination, "-");
    let destination_short = shorten_middle(destination.as_str(), 42);
    let (audio_status, audio_available, audio_playing, audio_enabled) = audio_status_ui(entry);
    let preview_enabled = entry.metadata.is_some() && (source_exists || (entry.destination.is_some()
        && destination_exists));
    EntryView {
        id: entry.id,
        title,
        artist,
        creator,
        source,
        source_short,
        destination,
        destination_short,
        difficulties,
        status: String::from_str(entry.status.as_display()),
        badge: status_badge_color(&entry.status),
        message: info,
        error_short: s,
        error_detail: d,
        show_delete,
        can_delete_source: can_delete,
        delete_hint: hint,
        can_import,
        can_reimport,
        can_ignore,
        audio_available,
        audio_playing,
        audio_status,
        audio_enabled,
        preview_enabled,
    }
}

} // verus!
