//! The audio preview toggle: what a request to preview an entry does to the
//! one sound that may be playing.

use vstd::prelude::*;
use vstd::string::*;
use crate::model::{AudioPreviewStatus, BeatmapEntry};
use crate::pipeline::{name_of, LogLevel, LogLine};

verus! {

#[derive(Clone, Copy, Debug, PartialEq, Eq, Structural)]
pub enum PlaybackAction {
    StartFresh,
    StopThenStart,
    PauseCurrent,
    ResumeCurrent,
}

pub open spec fn playback_spec(current: Option<(u64, bool)>, request_id: u64) -> PlaybackAction {
    match current {
        Some((id, paused)) => if id == request_id {
            if paused {
                PlaybackAction::ResumeCurrent
            } else {
                PlaybackAction::PauseCurrent
            }
        } else {
            PlaybackAction::StopThenStart
        },
        None => PlaybackAction::StartFresh,
    }
}

/// `current` is the entry playing now and whether it is paused. The same
/// entry toggles between pause and play; another entry replaces it.
pub fn decide_playback_action(current: Option<(u64, bool)>, request_id: u64) -> (r: PlaybackAction)
    ensures
        r == playback_spec(current, request_id),
{
    match current {
        Some((id, paused)) => {
            if id == request_id {
                if paused {
                    PlaybackAction::ResumeCurrent
                } else {
                    PlaybackAction::PauseCurrent
                }
            } else {
                PlaybackAction::StopThenStart
            }
        },
        None => PlaybackAction::StartFresh,
    }
}

/// The audio-preview status of an entry as shown: its label, whether audio
/// is available, whether it is playing, and whether the control is enabled.
pub fn audio_status_ui(entry: &BeatmapEntry) -> (r: (String, bool, bool, bool))
    ensures
        ({
            let has_audio = entry.metadata is Some && entry.metadata->0.audio_file is Some;
            let unavailable = entry.audio.status == AudioPreviewStatus::Unavailable;
            &&& r.1 == (has_audio && !unavailable)
            &&& r.2 == (entry.audio.status == AudioPreviewStatus::Playing)
            &&& r.3 == (entry.metadata is Some && !unavailable)
            &&& r.0@ == match entry.audio.status {
                AudioPreviewStatus::Playing => "Tocando"@,
                AudioPreviewStatus::Paused => "Pausado"@,
                AudioPreviewStatus::Ready => "Pronto para tocar"@,
                AudioPreviewStatus::Loading => "Carregando preview..."@,
                AudioPreviewStatus::Unavailable => match entry.audio.last_error {
                    Some(e) => e@,
                    None => "Sem audio"@,
                },
                AudioPreviewStatus::Unknown => if has_audio {
                    "Aguardando metadados"@
                } else {
                    "Sem audio"@
                },
            }
        }),
{
    let has_audio = match &entry.metadata {
        Some(m) => m.audio_file.is_some(),
        None => false,
    };
    let playing = entry.audio.status == AudioPreviewStatus::Playing;
    let unavailable = entry.audio.status == AudioPreviewStatus::Unavailable;
    let enabled = entry.metadata.is_some() && !unavailable;
    let available = has_audio && !unavailable;
    let status = match entry.audio.status {
        AudioPreviewStatus::Playing => String::from_str("Tocando"),
        AudioPreviewStatus::Paused => String::from_str("Pausado"),
        AudioPreviewStatus::Ready => String::from_str("Pronto para tocar"),
        AudioPreviewStatus::Loading => String::from_str("Carregando preview..."),
        AudioPreviewStatus::Unavailable => match &entry.audio.last_error {
            Some(e) => e.clone(),
            None => String::from_str("Sem audio"),
        },
        AudioPreviewStatus::Unknown => if has_audio {
            String::from_str("Aguardando metadados")
        } else {
            String::from_str("Sem audio")
        },
    };
    (status, available, playing, enabled)
}

/// Records a new audio-preview state; a cached path, when given, replaces
/// the old one.
pub fn update_audio_state(
    entry: &mut BeatmapEntry,
    status: AudioPreviewStatus,
    cached_path: Option<String>,
    last_error: Option<String>,
)
    ensures
        final(entry).audio.status == status,
        final(entry).audio.last_error == last_error,
        final(entry).audio.cached_path == match cached_path {
            Some(p) => Some(p),
            None => old(entry).audio.cached_path,
        },
        final(entry).status == old(entry).status,
        final(entry).metadata == old(entry).metadata,
        final(entry).destination == old(entry).destination,
        final(entry).id == old(entry).id,
{
    match cached_path {
        Some(p) => {
            entry.audio.cached_path = Some(p);
        },
        None => {},
    }
    entry.audio.status = status;
    entry.audio.last_error = last_error;
}


/// First step of an audio preview: without metadata the audio is
/// unavailable; otherwise it is loading. Returns whether to go on.
pub fn begin_audio_preview(entry: &mut BeatmapEntry) -> (r: bool)
    ensures
        r == old(entry).metadata is Some,
        r ==> final(entry).audio.status == AudioPreviewStatus::Loading && final(entry).audio.last_error is None,
        !r ==> final(entry).audio.status == AudioPreviewStatus::Unavailable && final(entry).audio.last_error is Some && final(entry).audio.last_error->0@ == "Metadados pendentes"@,
        final(entry).audio.cached_path == old(entry).audio.cached_path,
        final(entry).status == old(entry).status,
{
    if entry.metadata.is_none() {
        update_audio_state(
            entry,
            AudioPreviewStatus::Unavailable,
            None,
            Some(String::from_str("Metadados pendentes")),
        );
        return false;
    }
    update_audio_state(entry, AudioPreviewStatus::Loading, None, None);
    true
}

/// The audio file could not be found or extracted: the preview is
/// unavailable, and the reason is logged.
pub fn on_audio_missing(entry: &mut BeatmapEntry, reason: &str) -> (r: LogLine)
    ensures
        final(entry).audio.status == AudioPreviewStatus::Unavailable,
        final(entry).audio.last_error is Some,
        final(entry).audio.last_error->0@ == "Sem audio"@,
        r.level == LogLevel::Warn,
        r.text@ == name_of(*old(entry)) + ": "@ + reason@,
{
    let mut text = entry.source_file_name();
    text.append(": ");
    text.append(reason);
    update_audio_state(entry, AudioPreviewStatus::Unavailable, None, Some(String::from_str("Sem audio")));
    LogLine { level: LogLevel::Warn, text }
}

/// What the player did with the audio at `path`: its new status, or a
/// failure that makes the preview unavailable and is logged.
pub fn on_audio_played(
    entry: &mut BeatmapEntry,
    path: String,
    played: Result<AudioPreviewStatus, String>,
) -> (r: Option<LogLine>)
    ensures
        played is Ok ==> final(entry).audio.status == played->Ok_0 && final(entry).audio.cached_path
            == Some(path) && final(entry).audio.last_error is None && r is None,
        played is Err ==> final(entry).audio.status == AudioPreviewStatus::Unavailable && final(entry).audio.last_error is Some && final(entry).audio.last_error->0@ == "Falha ao tocar audio"@
            && r is Some && r->0.level == LogLevel::Error && r->0.text@ == name_of(*old(entry))
            + ": falha ao tocar preview ("@ + played->Err_0@ + ")"@,
{
    if entry.audio.cached_path.is_none() {
        entry.audio.cached_path = Some(path.clone());
    }
    match played {
        Ok(status) => {
            update_audio_state(entry, status, Some(path), None);
            None
        },
        Err(e) => {
            let mut text = entry.source_file_name();
            text.append(": falha ao tocar preview (");
            text.append(e.as_str());
            text.append(")");
            update_audio_state(
                entry,
                AudioPreviewStatus::Unavailable,
                None,
                Some(String::from_str("Falha ao tocar audio")),
            );
            Some(LogLine { level: LogLevel::Error, text })
        },
    }
}

} // verus!
